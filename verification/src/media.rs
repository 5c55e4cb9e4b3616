//! What the decoding of a media payload can end in besides a tag.

use vstd::prelude::*;

verus! {

/// Why a payload gave no tag.
#[derive(Clone, Debug, PartialEq, Eq)]
pub enum DecodeError {
    /// The payload was not handed to the decoder.
    Refused,
    /// The decoder rejected the payload, for the reason given.
    Rejected { reason: String },
}

/// The mathematical value of a [`DecodeError`].
pub enum DecodeErrorModel {
    Refused,
    Rejected { reason: Seq<char> },
}

impl View for DecodeError {
    type V = DecodeErrorModel;

    open spec fn view(&self) -> DecodeErrorModel {
        match self {
            DecodeError::Refused => DecodeErrorModel::Refused,
            DecodeError::Rejected { reason } => DecodeErrorModel::Rejected { reason: reason@ },
        }
    }
}

} // verus!

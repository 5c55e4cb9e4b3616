//! Audio tags: the decoded form of an audio payload.
//!
//! The FLV demuxer of `scuffle_flv` does the decoding; this module turns what
//! comes back into an [`AudioTag`] or a [`DecodeError`].

use crate::media::{DecodeError, DecodeErrorModel};
use bytes::Bytes;
use scuffle_flv::audio::header::enhanced::ExAudioTagHeaderContent::{
    ManyTracks, ManyTracksManyCodecs, NoMultiTrack, OneTrack, Unknown,
};
use scuffle_flv::audio::header::AudioTagHeader::{Enhanced, Legacy};
use scuffle_flv::audio::AudioData;
use vstd::prelude::*;

verus! {

/// The header fields of a decoded audio tag.
#[derive(Clone, Copy, Debug, PartialEq, Eq)]
pub enum AudioHeader {
    /// A header of the classic format: codec, sampling rate, sample size and
    /// channel layout, each as the number that the payload carries.
    Legacy { sound_format: u8, sound_rate: u8, sound_size: u8, sound_type: u8 },
    /// A header of the enhanced format: its packet type, and the
    /// four-character code of its codec, unless each track names its own.
    Enhanced { packet_type: u8, four_cc: Option<[u8; 4]> },
}

/// A decoded audio payload.
#[derive(Clone, Debug, PartialEq, Eq)]
pub struct AudioTag {
    /// The header fields, the codec among them.
    pub header: AudioHeader,
    /// The whole tag, header and body, as text.
    pub description: String,
}

/// The mathematical value of an [`AudioTag`].
pub struct AudioTagModel {
    pub header: AudioHeader,
    pub description: Seq<char>,
}

impl View for AudioTag {
    type V = AudioTagModel;

    open spec fn view(&self) -> AudioTagModel {
        AudioTagModel { header: self.header, description: self.description@ }
    }
}

/// What the FLV demuxer makes of an audio payload: the tag, or the text of its
/// error.
pub uninterp spec fn audio_demux_outcome(payload: Seq<u8>) -> Result<AudioTagModel, Seq<char>>;

/// The codec number of a classic audio payload: the high four bits of its
/// first byte.
pub open spec fn sound_format_of(first: u8) -> u8 {
    first >> 4
}

/// A payload whose first byte announces a classic audio header, and which is
/// long enough for the decoder to read that header and what the body needs:
/// one more byte where the codec is AAC.
pub open spec fn is_legacy_audio(payload: Seq<u8>) -> bool {
    &&& payload.len() >= 1
    &&& sound_format_of(payload[0]) != 9
    &&& (sound_format_of(payload[0]) == 10 ==> payload.len() >= 2)
}

/// The header that a classic audio payload with this first byte decodes to.
pub open spec fn legacy_audio_header(first: u8) -> AudioHeader {
    AudioHeader::Legacy {
        sound_format: first >> 4,
        sound_rate: (first & 0x0c) >> 2,
        sound_size: (first & 0x02) >> 1,
        sound_type: first & 0x01,
    }
}

/// An audio payload that ends before the decoder has read what it needs:
/// one with no byte at all, or one of the AAC codec with nothing after the
/// header.
pub open spec fn is_truncated_audio(payload: Seq<u8>) -> bool {
    ||| payload.len() == 0
    ||| payload.len() == 1 && sound_format_of(payload[0]) == 10
}

/// An audio payload is malformed where the decoder makes no tag of it.
pub open spec fn is_malformed_audio(payload: Seq<u8>) -> bool {
    audio_demux_outcome(payload) is Err
}

/// What decoding an audio payload gives.
pub open spec fn audio_outcome(payload: Seq<u8>) -> Result<AudioTagModel, DecodeErrorModel> {
    match audio_demux_outcome(payload) {
        Ok(tag) => Ok(tag),
        Err(reason) => Err(DecodeErrorModel::Rejected { reason }),
    }
}

/// The mathematical value of the result of decoding an audio payload.
pub open spec fn audio_result_view(r: Result<AudioTag, DecodeError>) -> Result<
    AudioTagModel,
    DecodeErrorModel,
> {
    match r {
        Ok(tag) => Ok(tag@),
        Err(e) => Err(e@),
    }
}

/// Decoding audio is deterministic: two payloads that are the same byte for
/// byte decode to the same tag, with the same fields, or fail alike.
pub proof fn same_audio_bytes_decode_alike(first: Seq<u8>, second: Seq<u8>)
    requires
        first.len() == second.len(),
        forall|i: int| 0 <= i < first.len() ==> first[i] == second[i],
    ensures
        audio_outcome(first) == audio_outcome(second),
{
    assert(first =~= second);
}

/// A malformed audio payload decodes to a failure that says why, never to a
/// tag, and any other payload to a tag.
pub proof fn malformed_audio_fails(payload: Seq<u8>)
    ensures
        is_malformed_audio(payload) <==> audio_outcome(payload) is Err,
        audio_outcome(payload) is Err ==> audio_outcome(payload)->Err_0 is Rejected,
{
}

/// Runs `scuffle_flv::audio::AudioData::demux` on a copy of `payload`.
///
/// Trusted, not proved: the outcome depends on the bytes of the payload alone;
/// a truncated payload is an error, since the demuxer reads one byte for the
/// header and, for AAC, one more for the body; and a payload with a classic
/// header decodes otherwise, its four header fields being the bit fields of
/// the first byte. A tag comes back with its header fields and its `Debug`
/// text, an error as its `Display` text.
#[verifier::external_body]
fn demux_audio(payload: &[u8]) -> (r: Result<AudioTag, String>)
    ensures
        match r {
            Ok(tag) => audio_demux_outcome(payload@) == Ok::<AudioTagModel, Seq<char>>(tag@),
            Err(reason) => audio_demux_outcome(payload@) == Err::<AudioTagModel, Seq<char>>(
                reason@,
            ),
        },
        is_truncated_audio(payload@) ==> r is Err,
        is_legacy_audio(payload@) ==> r is Ok && r->Ok_0.header == legacy_audio_header(
            payload@[0],
        ),
{
    match AudioData::demux(&mut std::io::Cursor::new(Bytes::copy_from_slice(payload))) {
        Err(err) => Err(err.to_string()),
        Ok(tag) => Ok(AudioTag {
            description: format!("{:?}", tag),
            header: match tag.header {
                Legacy(h) => AudioHeader::Legacy { sound_format: h.sound_format.0, sound_rate: h.sound_rate.0, sound_size: h.sound_size.0, sound_type: h.sound_type.0 },
                Enhanced(h) => AudioHeader::Enhanced { packet_type: h.audio_packet_type.0, four_cc: match h.content {
                    NoMultiTrack(cc) | OneTrack(cc) | ManyTracks(cc) => Some(cc.0),
                    Unknown { audio_four_cc, .. } => Some(audio_four_cc.0),
                    ManyTracksManyCodecs => None,
                } },
            },
        }),
    }
}

/// Turns what the audio decoder returned into the result of decoding.
pub fn audio_decoded(outcome: Result<AudioTag, String>) -> (r: Result<AudioTag, DecodeError>)
    ensures
        audio_result_view(r) == match outcome {
            Ok(tag) => Ok::<AudioTagModel, DecodeErrorModel>(tag@),
            Err(reason) => Err(DecodeErrorModel::Rejected { reason: reason@ }),
        },
{
    match outcome {
        Ok(tag) => Ok(tag),
        Err(reason) => Err(DecodeError::Rejected { reason }),
    }
}

/// Decodes an audio payload.
///
/// The result is a tag exactly where the decoder accepts the payload, and its
/// error otherwise. A truncated payload is rejected. Any other payload with a
/// classic header gives a tag, whose header fields are the bit fields of the
/// first byte.
pub fn decode_audio(payload: &[u8]) -> (r: Result<AudioTag, DecodeError>)
    ensures
        audio_result_view(r) == audio_outcome(payload@),
        r is Err <==> is_malformed_audio(payload@),
        r is Err ==> r->Err_0 is Rejected,
        is_truncated_audio(payload@) ==> r is Err,
        is_legacy_audio(payload@) ==> r is Ok && r->Ok_0.header == legacy_audio_header(
            payload@[0],
        ),
{
    audio_decoded(demux_audio(payload))
}

} // verus!

//! The session handler: what a session does with each event that its engine
//! delivers.
//!
//! A handler only observes. Each callback returns the record of what it saw,
//! for the caller to log, or the error that ends the session.

use crate::audio::{
    audio_outcome, audio_result_view, decode_audio, is_legacy_audio, is_malformed_audio,
    is_truncated_audio, legacy_audio_header, AudioTag, AudioTagModel,
};
use crate::media::{DecodeError, DecodeErrorModel};
use crate::video::{
    decode_video, frame_type_of, is_enhanced_video, is_legacy_video_data, is_malformed_video,
    is_refused_video, is_truncated_video, legacy_video_codec, video_decoding_allows,
    video_result_view, VideoTag, VideoTagModel,
};
use vstd::prelude::*;

verus! {

/// Data received from a session.
#[derive(Clone, Debug, PartialEq, Eq)]
pub enum SessionData {
    /// Video data.
    Video { timestamp: u32, data: Vec<u8> },
    /// Audio data.
    Audio { timestamp: u32, data: Vec<u8> },
    /// Metadata, passed through as it came.
    Amf0 { timestamp: u32, data: Vec<u8> },
}

/// What a callback observed.
#[derive(Clone, Debug, PartialEq, Eq)]
pub enum Record {
    /// An audio payload, decoded.
    Audio { tag: AudioTag },
    /// A video payload, decoded.
    Video { tag: VideoTag },
    /// Metadata, with its timestamp and its bytes as they came.
    Amf0 { timestamp: u32, data: Vec<u8> },
    /// A stream was published under a stream identifier.
    Publish { stream_id: u32, app_name: String, stream_name: String },
    /// The stream under a stream identifier was unpublished.
    Unpublish { stream_id: u32 },
}

/// An error that ends the session.
#[derive(Clone, Debug, PartialEq, Eq)]
pub enum SessionError {
    /// An audio payload gave no tag.
    AudioDecode { cause: DecodeError },
    /// A video payload gave no tag.
    VideoDecode { cause: DecodeError },
}

/// The mathematical value of a [`SessionData`].
pub enum SessionDataModel {
    Video { timestamp: u32, data: Seq<u8> },
    Audio { timestamp: u32, data: Seq<u8> },
    Amf0 { timestamp: u32, data: Seq<u8> },
}

/// The mathematical value of a [`Record`].
pub enum RecordModel {
    Audio { tag: AudioTagModel },
    Video { tag: VideoTagModel },
    Amf0 { timestamp: u32, data: Seq<u8> },
    Publish { stream_id: u32, app_name: Seq<char>, stream_name: Seq<char> },
    Unpublish { stream_id: u32 },
}

/// The mathematical value of a [`SessionError`].
pub enum SessionErrorModel {
    AudioDecode { cause: DecodeErrorModel },
    VideoDecode { cause: DecodeErrorModel },
}

/// The mathematical value of what a callback returns.
pub type OutcomeModel = Result<RecordModel, SessionErrorModel>;

impl View for SessionData {
    type V = SessionDataModel;

    open spec fn view(&self) -> SessionDataModel {
        match self {
            SessionData::Video { timestamp, data } => SessionDataModel::Video {
                timestamp: *timestamp,
                data: data@,
            },
            SessionData::Audio { timestamp, data } => SessionDataModel::Audio {
                timestamp: *timestamp,
                data: data@,
            },
            SessionData::Amf0 { timestamp, data } => SessionDataModel::Amf0 {
                timestamp: *timestamp,
                data: data@,
            },
        }
    }
}

impl View for Record {
    type V = RecordModel;

    open spec fn view(&self) -> RecordModel {
        match self {
            Record::Audio { tag } => RecordModel::Audio { tag: tag@ },
            Record::Video { tag } => RecordModel::Video { tag: tag@ },
            Record::Amf0 { timestamp, data } => RecordModel::Amf0 {
                timestamp: *timestamp,
                data: data@,
            },
            Record::Publish { stream_id, app_name, stream_name } => RecordModel::Publish {
                stream_id: *stream_id,
                app_name: app_name@,
                stream_name: stream_name@,
            },
            Record::Unpublish { stream_id } => RecordModel::Unpublish { stream_id: *stream_id },
        }
    }
}

impl View for SessionError {
    type V = SessionErrorModel;

    open spec fn view(&self) -> SessionErrorModel {
        match self {
            SessionError::AudioDecode { cause } => SessionErrorModel::AudioDecode { cause: cause@ },
            SessionError::VideoDecode { cause } => SessionErrorModel::VideoDecode { cause: cause@ },
        }
    }
}

/// The mathematical value of what a callback returned.
pub open spec fn outcome_view(r: Result<Record, SessionError>) -> OutcomeModel {
    match r {
        Ok(record) => Ok(record@),
        Err(error) => Err(error@),
    }
}

/// The record of a decoded audio payload, or the error that its failure is.
pub open spec fn audio_record_of(decoded: Result<AudioTagModel, DecodeErrorModel>) -> OutcomeModel {
    match decoded {
        Ok(tag) => Ok(RecordModel::Audio { tag }),
        Err(cause) => Err(SessionErrorModel::AudioDecode { cause }),
    }
}

/// The record of a decoded video payload, or the error that its failure is.
pub open spec fn video_record_of(decoded: Result<VideoTagModel, DecodeErrorModel>) -> OutcomeModel {
    match decoded {
        Ok(tag) => Ok(RecordModel::Video { tag }),
        Err(cause) => Err(SessionErrorModel::VideoDecode { cause }),
    }
}

/// Whether the default handler may return `outcome` for a data event. Media
/// payloads are decoded: the outcome is the record of the tag, or the error
/// that ends the session where the payload gave none. Metadata is recorded as
/// it came.
pub open spec fn observed_data(data: SessionDataModel, outcome: OutcomeModel) -> bool {
    match data {
        SessionDataModel::Audio { data, .. } => outcome == audio_record_of(audio_outcome(data)),
        SessionDataModel::Video { data, .. } => match outcome {
            Ok(RecordModel::Video { tag }) => video_decoding_allows(data, Ok(tag)),
            Err(SessionErrorModel::VideoDecode { cause }) => video_decoding_allows(
                data,
                Err(cause),
            ),
            _ => false,
        },
        SessionDataModel::Amf0 { timestamp, data } => outcome == Ok::<
            RecordModel,
            SessionErrorModel,
        >(RecordModel::Amf0 { timestamp, data }),
    }
}

/// A malformed media payload never passes in silence. Of the default
/// handler: an audio payload is recorded exactly where it is not malformed;
/// a video payload that is not refused is recorded exactly where it is not
/// malformed; a refused video payload ends the session; and metadata events
/// are always recorded.
pub proof fn malformed_payload_ends_session(
    timestamp: u32,
    payload: Seq<u8>,
    outcome: OutcomeModel,
)
    ensures
        observed_data(SessionDataModel::Audio { timestamp, data: payload }, outcome) ==> (
        outcome is Err <==> is_malformed_audio(payload)),
        observed_data(SessionDataModel::Video { timestamp, data: payload }, outcome)
            && !is_refused_video(payload) ==> (outcome is Err <==> is_malformed_video(payload)),
        observed_data(SessionDataModel::Video { timestamp, data: payload }, outcome)
            && is_refused_video(payload) ==> outcome is Err,
        observed_data(SessionDataModel::Amf0 { timestamp, data: payload }, outcome)
            ==> outcome is Ok,
{
}

/// The capability that a session asks of its handler: one callback for each
/// kind of event, each with a statement of what it may return.
///
/// A handler is told of every event of its session, one at a time and in the
/// order of arrival. `Ok` lets the session go on; `Err` ends it.
pub trait SessionHandler {
    /// Whether `on_data` may return `outcome`.
    spec fn data_allows(
        &self,
        stream_id: u32,
        data: SessionDataModel,
        outcome: OutcomeModel,
    ) -> bool;

    /// Whether `on_publish` may return `outcome`.
    spec fn publish_allows(
        &self,
        stream_id: u32,
        app_name: Seq<char>,
        stream_name: Seq<char>,
        outcome: OutcomeModel,
    ) -> bool;

    /// Whether `on_unpublish` may return `outcome`.
    spec fn unpublish_allows(&self, stream_id: u32, outcome: OutcomeModel) -> bool;

    /// Called when data is received.
    fn on_data(&self, stream_id: u32, data: SessionData) -> (r: Result<Record, SessionError>)
        ensures
            self.data_allows(stream_id, data@, outcome_view(r)),
    ;

    /// Called when a stream is published.
    fn on_publish(&self, stream_id: u32, app_name: &str, stream_name: &str) -> (r: Result<
        Record,
        SessionError,
    >)
        ensures
            self.publish_allows(stream_id, app_name@, stream_name@, outcome_view(r)),
    ;

    /// Called when a stream is unpublished.
    fn on_unpublish(&self, stream_id: u32) -> (r: Result<Record, SessionError>)
        ensures
            self.unpublish_allows(stream_id, outcome_view(r)),
    ;
}

/// The default handler. It keeps no state: each callback is one observation.
#[derive(Clone, Copy, Debug)]
pub struct Handler;

/// The record of a decoded audio payload; a payload that gave no tag ends the
/// session.
pub fn audio_record(decoded: Result<AudioTag, DecodeError>) -> (r: Result<Record, SessionError>)
    ensures
        outcome_view(r) == audio_record_of(audio_result_view(decoded)),
{
    match decoded {
        Ok(tag) => Ok(Record::Audio { tag }),
        Err(cause) => Err(SessionError::AudioDecode { cause }),
    }
}

/// The record of a decoded video payload; a payload that gave no tag ends the
/// session.
pub fn video_record(decoded: Result<VideoTag, DecodeError>) -> (r: Result<Record, SessionError>)
    ensures
        outcome_view(r) == video_record_of(video_result_view(decoded)),
{
    match decoded {
        Ok(tag) => Ok(Record::Video { tag }),
        Err(cause) => Err(SessionError::VideoDecode { cause }),
    }
}

impl SessionHandler for Handler {
    open spec fn data_allows(
        &self,
        stream_id: u32,
        data: SessionDataModel,
        outcome: OutcomeModel,
    ) -> bool {
        observed_data(data, outcome)
    }

    open spec fn publish_allows(
        &self,
        stream_id: u32,
        app_name: Seq<char>,
        stream_name: Seq<char>,
        outcome: OutcomeModel,
    ) -> bool {
        outcome == Ok::<RecordModel, SessionErrorModel>(
            RecordModel::Publish { stream_id, app_name, stream_name },
        )
    }

    open spec fn unpublish_allows(&self, stream_id: u32, outcome: OutcomeModel) -> bool {
        outcome == Ok::<RecordModel, SessionErrorModel>(RecordModel::Unpublish { stream_id })
    }

    /// Decodes a media payload and records its tag, or records metadata as it
    /// came. The result is an error exactly where a media payload gives no
    /// tag: a video payload that is refused and a truncated payload never do;
    /// an audio payload with a classic header that is not truncated always
    /// does, and so does a classic video payload whose data the decoder does
    /// not read into.
    fn on_data(&self, stream_id: u32, data: SessionData) -> (r: Result<Record, SessionError>)
        ensures
            data is Amf0 ==> r is Ok,
            data is Audio ==> (r is Err <==> is_malformed_audio(data->Audio_data@)),
            data is Video && !is_refused_video(data->Video_data@) ==> (r is Err
                <==> is_malformed_video(data->Video_data@)),
            data is Video ==> (is_refused_video(data->Video_data@) <==> r is Err && r->Err_0
                is VideoDecode && r->Err_0->VideoDecode_cause is Refused),
            data is Audio && is_truncated_audio(data->Audio_data@) ==> r is Err,
            data is Video && is_truncated_video(data->Video_data@) ==> r is Err,
            data is Audio && is_legacy_audio(data->Audio_data@) ==> r is Ok && r->Ok_0 is Audio
                && r->Ok_0->Audio_tag.header == legacy_audio_header(data->Audio_data@[0]),
            data is Video && is_legacy_video_data(data->Video_data@) ==> r is Ok,
            data is Video && r is Ok ==> r->Ok_0 is Video && r->Ok_0->Video_tag.frame_type
                == frame_type_of(data->Video_data@[0]) && r->Ok_0->Video_tag.enhanced
                == is_enhanced_video(data->Video_data@[0]),
            data is Video && r is Ok && !is_enhanced_video(data->Video_data@[0])
                ==> r->Ok_0->Video_tag.codec == legacy_video_codec(data->Video_data@[0]),
    {
        match data {
            SessionData::Audio { data, .. } => audio_record(decode_audio(data.as_slice())),
            SessionData::Video { data, .. } => video_record(decode_video(data.as_slice())),
            SessionData::Amf0 { timestamp, data } => Ok(Record::Amf0 { timestamp, data }),
        }
    }

    /// Records the publish intent. It always succeeds: nothing is admitted,
    /// authenticated or deduplicated here.
    fn on_publish(&self, stream_id: u32, app_name: &str, stream_name: &str) -> (r: Result<
        Record,
        SessionError,
    >)
        ensures
            r is Ok,
    {
        Ok(
            Record::Publish {
                stream_id,
                app_name: app_name.to_owned(),
                stream_name: stream_name.to_owned(),
            },
        )
    }

    /// Records the unpublish event. It always succeeds.
    fn on_unpublish(&self, stream_id: u32) -> (r: Result<Record, SessionError>)
        ensures
            r is Ok,
    {
        Ok(Record::Unpublish { stream_id })
    }
}

} // verus!

//! Video tags: the decoded form of a video payload.
//!
//! The FLV demuxer of `scuffle_flv` does the decoding. On two kinds of bytes
//! it may fail to return: metadata whose containers nest without a bound, and
//! parameter-set extensions of an AVC configuration on whose codes its
//! arithmetic overflows. This module finds where a payload holds either,
//! refuses the payload where it does, and turns what comes back for any
//! other into a [`VideoTag`] or a [`DecodeError`].

use crate::amf::{metadata_nests_too_deep, nests_too_deep};
use crate::avc::{configuration_at_risk, is_configuration_at_risk};
use crate::media::{DecodeError, DecodeErrorModel};
use crate::octets::{read_u24, u24_at};
use bytes::Bytes;
use scuffle_flv::video::header::enhanced::ExVideoTagHeader;
use scuffle_flv::video::header::enhanced::ExVideoTagHeaderContent::{
    ManyTracks, ManyTracksManyCodecs, NoMultiTrack, OneTrack, Unknown, VideoCommand,
};
use scuffle_flv::video::header::legacy::LegacyVideoTagHeader::{AvcPacket, Other};
use scuffle_flv::video::header::legacy::VideoCodecId;
use scuffle_flv::video::header::VideoTagHeaderData::{Enhanced, Legacy};
use scuffle_flv::video::VideoData;
use vstd::prelude::*;

verus! {

/// The codec that the header of a video tag names.
#[derive(Clone, Copy, Debug, PartialEq, Eq)]
pub enum VideoCodec {
    /// A classic header, with the number of its codec.
    Legacy { codec_id: u8 },
    /// An enhanced header, with the four-character code of its codec.
    FourCc { code: [u8; 4] },
    /// The header names no codec: it is that of a command frame, or each
    /// track names its own.
    Unnamed,
}

/// A decoded video payload.
#[derive(Clone, Debug, PartialEq, Eq)]
pub struct VideoTag {
    /// The frame type, as the number that the payload carries.
    pub frame_type: u8,
    /// Whether the header is of the enhanced format.
    pub enhanced: bool,
    /// The codec.
    pub codec: VideoCodec,
    /// The whole tag, header and body, as text.
    pub description: String,
}

/// The mathematical value of a [`VideoTag`].
pub struct VideoTagModel {
    pub frame_type: u8,
    pub enhanced: bool,
    pub codec: VideoCodec,
    pub description: Seq<char>,
}

impl View for VideoTag {
    type V = VideoTagModel;

    open spec fn view(&self) -> VideoTagModel {
        VideoTagModel {
            frame_type: self.frame_type,
            enhanced: self.enhanced,
            codec: self.codec,
            description: self.description@,
        }
    }
}

/// How the packets of an enhanced video payload are laid out after its
/// header, with the four-character code of their codec where the header
/// names it.
#[derive(Clone, Copy, Debug, PartialEq, Eq)]
pub enum Tracks {
    /// No packet follows: the payload is a command.
    Command,
    /// One packet, which takes the rest of the payload.
    Single { four_cc: [u8; 4] },
    /// One track: its number, and one packet that takes the rest.
    One { four_cc: [u8; 4] },
    /// Tracks of one codec: each its number, three bytes of size and a
    /// packet of that size.
    Many { four_cc: [u8; 4] },
    /// Tracks that each name their codec: each a four-character code, its
    /// number, three bytes of size and a packet of that size.
    ManyCodecs,
}

/// The header of an enhanced video payload as far as it tells what follows.
#[derive(Clone, Copy, Debug, PartialEq, Eq)]
pub struct EnhancedHeader {
    /// The type of the packets: 0 a sequence start, 4 metadata.
    pub packet_type: u8,
    /// How the packets are laid out.
    pub tracks: Tracks,
    /// Where the header ends.
    pub body_at: usize,
}

/// What the FLV demuxer makes of a video payload: the tag, or the text of its
/// error. Of a payload with metadata the text of the tag is no part of it.
pub uninterp spec fn video_demux_outcome(payload: Seq<u8>) -> Result<VideoTagModel, Seq<char>>;

/// What the FLV demuxer makes of the header of an enhanced video payload: the
/// header, or the text of its error.
pub uninterp spec fn enhanced_header_outcome(payload: Seq<u8>) -> Result<
    EnhancedHeader,
    Seq<char>,
>;

/// The frame type of a video payload: three bits of its first byte.
pub open spec fn frame_type_of(first: u8) -> u8 {
    (first & 0x70) >> 4
}

/// Whether the first byte of a video payload announces an enhanced header.
pub open spec fn is_enhanced_video(first: u8) -> bool {
    first & 0x80 != 0
}

/// The low four bits of a byte: in the first byte of a video payload the
/// codec of a classic header, or the packet type of an enhanced one.
pub open spec fn low_nibble(byte: u8) -> u8 {
    byte & 0x0f
}

/// The codec that the classic header with this first byte names: none for a
/// command frame of another codec than AVC, else the low four bits.
pub open spec fn legacy_video_codec(first: u8) -> VideoCodec {
    if low_nibble(first) != 7 && frame_type_of(first) == 5 {
        VideoCodec::Unnamed
    } else {
        VideoCodec::Legacy { codec_id: low_nibble(first) }
    }
}

/// A classic video payload that the decoder takes without reading into its
/// data: one of another codec than AVC, a command frame with its command
/// byte, or an AVC packet with its four header bytes that is not a sequence
/// header.
pub open spec fn is_legacy_video_data(payload: Seq<u8>) -> bool {
    &&& payload.len() >= 1
    &&& !is_enhanced_video(payload[0])
    &&& if low_nibble(payload[0]) == 7 {
        payload.len() >= 5 && payload[1] != 0
    } else {
        frame_type_of(payload[0]) == 5 ==> payload.len() >= 2
    }
}

/// A video payload that ends before the decoder has read its header: one
/// with no byte at all, a classic AVC packet without its four header bytes,
/// or a classic command frame without its command byte.
pub open spec fn is_truncated_video(payload: Seq<u8>) -> bool {
    ||| payload.len() == 0
    ||| {
        &&& !is_enhanced_video(payload[0])
        &&& if low_nibble(payload[0]) == 7 {
            payload.len() < 5
        } else {
            frame_type_of(payload[0]) == 5 && payload.len() < 2
        }
    }
}

/// Whether the four-character code is `avc1`.
pub open spec fn is_avc_code(code: Seq<u8>) -> bool {
    code.len() == 4 && code[0] == 0x61 && code[1] == 0x76 && code[2] == 0x63 && code[3] == 0x31
}

/// Whether the decoder may fail to return on the packet that the bytes of
/// `payload` from `from` up to `to` hold: metadata that nests too deep, or a
/// sequence start of the codec `avc1` whose configuration is at risk.
pub open spec fn packet_at_risk(
    payload: Seq<u8>,
    from: int,
    to: int,
    packet_type: u8,
    avc: bool,
) -> bool {
    if packet_type == 4 {
        metadata_nests_too_deep(payload, from, to)
    } else {
        packet_type == 0 && avc && configuration_at_risk(payload, to, from)
    }
}

/// Whether the decoder may fail to return on one of the tracks from `at` on.
/// A track is, where `own_codec` holds, four bytes of code; one byte, its
/// number; three bytes of size; and a packet of that size. The decoder reads
/// one track after the other while bytes are left.
pub open spec fn tracks_at_risk(
    payload: Seq<u8>,
    at: int,
    packet_type: u8,
    own_codec: bool,
    avc: bool,
) -> bool
    decreases payload.len() - at,
{
    let from = if own_codec {
        at + 8
    } else {
        at + 4
    };
    if at < 0 || from > payload.len() || from + u24_at(payload, from - 3) > payload.len() {
        false
    } else {
        let to = from + u24_at(payload, from - 3);
        ||| packet_at_risk(
            payload,
            from,
            to,
            packet_type,
            if own_codec {
                is_avc_code(payload.subrange(at, at + 4))
            } else {
                avc
            },
        )
        ||| to < payload.len() && tracks_at_risk(payload, to, packet_type, own_codec, avc)
    }
}

/// Whether the decoder may fail to return on what follows the header of an
/// enhanced video payload.
pub open spec fn body_at_risk(payload: Seq<u8>, header: EnhancedHeader) -> bool {
    let at = header.body_at as int;
    &&& header.packet_type == 0 || header.packet_type == 4
    &&& at <= payload.len()
    &&& match header.tracks {
        Tracks::Command => false,
        Tracks::Single { four_cc } => packet_at_risk(
            payload,
            at,
            payload.len() as int,
            header.packet_type,
            is_avc_code(four_cc@),
        ),
        Tracks::One { four_cc } => at < payload.len() && packet_at_risk(
            payload,
            at + 1,
            payload.len() as int,
            header.packet_type,
            is_avc_code(four_cc@),
        ),
        Tracks::Many { four_cc } => tracks_at_risk(
            payload,
            at,
            header.packet_type,
            false,
            is_avc_code(four_cc@),
        ),
        Tracks::ManyCodecs => tracks_at_risk(payload, at, header.packet_type, true, false),
    }
}

/// A classic video payload that holds an AVC decoder configuration: an AVC
/// packet with its four header bytes, of the type sequence header. The
/// configuration starts after those five bytes.
pub open spec fn is_legacy_avc_configuration(payload: Seq<u8>) -> bool {
    &&& payload.len() >= 5
    &&& !is_enhanced_video(payload[0])
    &&& low_nibble(payload[0]) == 7
    &&& payload[1] == 0
}

/// A video payload with metadata: an enhanced one whose packets are of
/// type 4.
pub open spec fn holds_metadata(payload: Seq<u8>) -> bool {
    &&& payload.len() >= 1
    &&& is_enhanced_video(payload[0])
    &&& enhanced_header_outcome(payload) is Ok
    &&& enhanced_header_outcome(payload)->Ok_0.packet_type == 4
}

/// The video payloads that are not handed to the decoder, since it may not
/// return on them: those with metadata in which more containers lie within
/// one another than the limit allows, and those with an AVC configuration on
/// whose parameter-set extensions the decoder's arithmetic overflows.
pub open spec fn is_refused_video(payload: Seq<u8>) -> bool {
    if payload.len() == 0 {
        false
    } else if is_enhanced_video(payload[0]) {
        match enhanced_header_outcome(payload) {
            Ok(header) => body_at_risk(payload, header),
            Err(_) => false,
        }
    } else {
        is_legacy_avc_configuration(payload) && configuration_at_risk(
            payload,
            payload.len() as int,
            5,
        )
    }
}

/// A video payload is malformed where the decoder makes no tag of it.
pub open spec fn is_malformed_video(payload: Seq<u8>) -> bool {
    video_demux_outcome(payload) is Err
}

/// Whether two tags have the same fields, whatever their text.
pub open spec fn same_video_fields(one: VideoTagModel, other: VideoTagModel) -> bool {
    one.frame_type == other.frame_type && one.enhanced == other.enhanced && one.codec
        == other.codec
}

/// Whether `tag` may be the tag of the payload: it has the fields that the
/// decoder gives it, and its text too, but for a payload with metadata, where
/// the text follows the order in which the decoder walks its own tables.
pub open spec fn is_tag_of(payload: Seq<u8>, tag: VideoTagModel) -> bool {
    &&& video_demux_outcome(payload) is Ok
    &&& same_video_fields(tag, video_demux_outcome(payload)->Ok_0)
    &&& !holds_metadata(payload) ==> tag == video_demux_outcome(payload)->Ok_0
}

/// Whether decoding the video payload may give `result`. A refused payload
/// gives the refusal. Any other gives a tag of the payload where the decoder
/// accepts it, and the decoder's error where it does not.
pub open spec fn video_decoding_allows(
    payload: Seq<u8>,
    result: Result<VideoTagModel, DecodeErrorModel>,
) -> bool {
    if is_refused_video(payload) {
        result == Err::<VideoTagModel, DecodeErrorModel>(DecodeErrorModel::Refused)
    } else {
        match result {
            Ok(tag) => is_tag_of(payload, tag),
            Err(error) => video_demux_outcome(payload) is Err && error == (
            DecodeErrorModel::Rejected { reason: video_demux_outcome(payload)->Err_0 }),
        }
    }
}

/// The mathematical value of the result of decoding a video payload.
pub open spec fn video_result_view(r: Result<VideoTag, DecodeError>) -> Result<
    VideoTagModel,
    DecodeErrorModel,
> {
    match r {
        Ok(tag) => Ok(tag@),
        Err(e) => Err(e@),
    }
}

/// Decoding video is deterministic: two payloads that are the same byte for
/// byte may decode to the same results; whether they give a tag, the fields
/// of the tag and the error are the same whatever the results; and without
/// metadata there is one result only.
pub proof fn same_video_bytes_decode_alike(
    first: Seq<u8>,
    second: Seq<u8>,
    one: Result<VideoTagModel, DecodeErrorModel>,
    other: Result<VideoTagModel, DecodeErrorModel>,
)
    requires
        first.len() == second.len(),
        forall|i: int| 0 <= i < first.len() ==> first[i] == second[i],
        video_decoding_allows(first, one),
        video_decoding_allows(second, other),
    ensures
        video_decoding_allows(second, one),
        one is Ok <==> other is Ok,
        one is Ok ==> same_video_fields(one->Ok_0, other->Ok_0),
        one is Err ==> one == other,
        !holds_metadata(first) ==> one == other,
{
    assert(first =~= second);
}

/// A malformed video payload decodes to a failure, never to a tag: a payload
/// that is not refused gives a tag exactly where it is not malformed, and
/// every failure is a refusal or says why the decoder rejected the payload.
pub proof fn malformed_video_fails(
    payload: Seq<u8>,
    result: Result<VideoTagModel, DecodeErrorModel>,
)
    requires
        video_decoding_allows(payload, result),
    ensures
        !is_refused_video(payload) ==> (result is Err <==> is_malformed_video(payload)),
        result is Err ==> (result->Err_0 is Refused <==> is_refused_video(payload)),
{
}

/// Runs `scuffle_flv::video::VideoData::demux` on a copy of `payload`.
///
/// Trusted, not proved: whether a payload decodes, the fields of its tag and
/// the text of its error depend on its bytes alone, and without metadata the
/// text of its tag does too; a payload that ends within its classic header is
/// an error; the frame type and the kind of header of a tag are bit fields of
/// the first byte, and so is the codec of a classic header; and a classic
/// payload whose data the demuxer does not read into decodes. A tag comes
/// back with those fields and its `Debug` text, an error as its `Display`
/// text. The payloads of [`is_refused_video`] are left out because the
/// demuxer may not return on them.
#[verifier::external_body]
fn demux_video(payload: &[u8]) -> (r: Result<VideoTag, String>)
    requires
        !is_refused_video(payload@),
    ensures
        match r {
            Ok(tag) => is_tag_of(payload@, tag@),
            Err(reason) => video_demux_outcome(payload@) == Err::<VideoTagModel, Seq<char>>(
                reason@,
            ),
        },
        is_truncated_video(payload@) ==> r is Err,
        r is Ok ==> r->Ok_0.frame_type == frame_type_of(payload@[0]) && r->Ok_0.enhanced
            == is_enhanced_video(payload@[0]),
        r is Ok && !is_enhanced_video(payload@[0]) ==> r->Ok_0.codec == legacy_video_codec(
            payload@[0],
        ),
        is_legacy_video_data(payload@) ==> r is Ok,
{
    match VideoData::demux(&mut std::io::Cursor::new(Bytes::copy_from_slice(payload))) {
        Err(err) => Err(err.to_string()),
        Ok(tag) => Ok(VideoTag {
            description: format!("{:?}", tag),
            frame_type: tag.header.frame_type.0,
            enhanced: matches!(tag.header.data, Enhanced(_)),
            codec: match tag.header.data {
                Legacy(Other { video_codec_id }) => VideoCodec::Legacy { codec_id: video_codec_id.0 },
                Legacy(AvcPacket(_)) => VideoCodec::Legacy { codec_id: VideoCodecId::Avc.0 },
                Enhanced(ExVideoTagHeader { content: NoMultiTrack(cc) | OneTrack(cc) | ManyTracks(cc) | Unknown { video_four_cc: cc, .. }, .. }) => VideoCodec::FourCc { code: cc.0 },
                _ => VideoCodec::Unnamed,
            },
        }),
    }
}

/// Runs `scuffle_flv::video::header::enhanced::ExVideoTagHeader::demux` on a
/// copy of `payload`, which reads the header of an enhanced video payload:
/// the modifier extensions, the packet type, and what the header says of
/// tracks and codec.
///
/// Trusted, not proved: the outcome depends on the bytes of the payload
/// alone. The header comes back with the packet type, the layout of the
/// tracks, and the position at which the demuxer stopped reading; an error
/// comes back as its `Display` text.
#[verifier::external_body]
fn demux_enhanced_header(payload: &[u8]) -> (r: Result<EnhancedHeader, String>)
    ensures
        match r {
            Ok(header) => enhanced_header_outcome(payload@) == Ok::<EnhancedHeader, Seq<char>>(
                header,
            ),
            Err(reason) => enhanced_header_outcome(payload@) == Err::<EnhancedHeader, Seq<char>>(
                reason@,
            ),
        },
{
    let mut reader = std::io::Cursor::new(Bytes::copy_from_slice(payload));
    match ExVideoTagHeader::demux(&mut reader) {
        Err(err) => Err(err.to_string()),
        Ok(header) => Ok(EnhancedHeader {
            packet_type: header.video_packet_type.0,
            body_at: reader.position() as usize,
            tracks: match header.content {
                VideoCommand(_) => Tracks::Command,
                NoMultiTrack(cc) => Tracks::Single { four_cc: cc.0 },
                OneTrack(cc) => Tracks::One { four_cc: cc.0 },
                ManyTracks(cc) | Unknown { video_four_cc: cc, .. } => Tracks::Many { four_cc: cc.0 },
                ManyTracksManyCodecs => Tracks::ManyCodecs,
            },
        }),
    }
}

/// Turns what the video decoder returned into the result of decoding.
pub fn video_decoded(outcome: Result<VideoTag, String>) -> (r: Result<VideoTag, DecodeError>)
    ensures
        video_result_view(r) == match outcome {
            Ok(tag) => Ok::<VideoTagModel, DecodeErrorModel>(tag@),
            Err(reason) => Err(DecodeErrorModel::Rejected { reason: reason@ }),
        },
{
    match outcome {
        Ok(tag) => Ok(tag),
        Err(reason) => Err(DecodeError::Rejected { reason }),
    }
}

/// Whether the four-character code is `avc1`.
fn holds_avc_code(code: &[u8; 4]) -> (b: bool)
    ensures
        b == is_avc_code(code@),
{
    code[0] == 0x61 && code[1] == 0x76 && code[2] == 0x63 && code[3] == 0x31
}

/// Whether the decoder may fail to return on the packet from `from` up to
/// `to`.
fn is_packet_at_risk(payload: &[u8], from: usize, to: usize, packet_type: u8, avc: bool) -> (risk:
    bool)
    requires
        from <= to <= payload@.len(),
    ensures
        risk == packet_at_risk(payload@, from as int, to as int, packet_type, avc),
{
    if packet_type == 4 {
        nests_too_deep(payload, from, to)
    } else {
        packet_type == 0 && avc && is_configuration_at_risk(payload, to, from)
    }
}

/// Whether the decoder may fail to return on one of the tracks from `at` on.
fn are_tracks_at_risk(payload: &[u8], at: usize, packet_type: u8, own_codec: bool, avc: bool) -> (risk:
    bool)
    requires
        at <= payload@.len(),
    ensures
        risk == tracks_at_risk(payload@, at as int, packet_type, own_codec, avc),
{
    let len: usize = payload.len();
    let head: usize = if own_codec {
        8
    } else {
        4
    };
    let mut cur: usize = at;
    loop
        invariant
            len == payload@.len(),
            cur <= len,
            head == (if own_codec {
                8usize
            } else {
                4usize
            }),
            tracks_at_risk(payload@, cur as int, packet_type, own_codec, avc) == tracks_at_risk(
                payload@,
                at as int,
                packet_type,
                own_codec,
                avc,
            ),
        decreases len - cur,
    {
        if len - cur < head {
            return false;
        }
        let from: usize = cur + head;
        let size: usize = read_u24(payload, from - 3);
        if size > len - from {
            return false;
        }
        let to: usize = from + size;
        let track_avc: bool = if own_codec {
            proof {
                assert(payload@.subrange(cur as int, cur + 4) =~= seq![
                    payload@[cur as int],
                    payload@[cur + 1],
                    payload@[cur + 2],
                    payload@[cur + 3],
                ]);
            }
            payload[cur] == 0x61 && payload[cur + 1] == 0x76 && payload[cur + 2] == 0x63
                && payload[cur + 3] == 0x31
        } else {
            avc
        };
        if is_packet_at_risk(payload, from, to, packet_type, track_avc) {
            return true;
        }
        if to >= len {
            return false;
        }
        cur = to;
    }
}

/// Whether the decoder may fail to return on what follows the header of an
/// enhanced video payload.
pub fn is_body_at_risk(payload: &[u8], header: EnhancedHeader) -> (risk: bool)
    ensures
        risk == body_at_risk(payload@, header),
{
    let len: usize = payload.len();
    let at: usize = header.body_at;
    if !(header.packet_type == 0 || header.packet_type == 4) || at > len {
        return false;
    }
    match header.tracks {
        Tracks::Command => false,
        Tracks::Single { four_cc } => is_packet_at_risk(
            payload,
            at,
            len,
            header.packet_type,
            holds_avc_code(&four_cc),
        ),
        Tracks::One { four_cc } => at < len && is_packet_at_risk(
            payload,
            at + 1,
            len,
            header.packet_type,
            holds_avc_code(&four_cc),
        ),
        Tracks::Many { four_cc } => are_tracks_at_risk(
            payload,
            at,
            header.packet_type,
            false,
            holds_avc_code(&four_cc),
        ),
        Tracks::ManyCodecs => are_tracks_at_risk(payload, at, header.packet_type, true, false),
    }
}

/// Whether a video payload is refused: not handed to the decoder.
pub fn refuses_video(payload: &[u8]) -> (refused: bool)
    ensures
        refused == is_refused_video(payload@),
{
    if payload.len() == 0 {
        false
    } else if payload[0] & 0x80 != 0 {
        match demux_enhanced_header(payload) {
            Ok(header) => is_body_at_risk(payload, header),
            Err(_) => false,
        }
    } else {
        payload.len() >= 5 && payload[0] & 0x0f == 7 && payload[1] == 0
            && is_configuration_at_risk(payload, payload.len(), 5)
    }
}

/// Decodes a video payload.
///
/// A payload of [`is_refused_video`] is refused, and no other is. Any other
/// gives a tag exactly where the decoder accepts it, and the decoder's error
/// otherwise. A payload that ends within its classic header is rejected. The
/// frame type and the kind of header of a tag are bit fields of the first
/// byte, and so is the codec of a classic header. A classic payload whose
/// data the decoder does not read into gives a tag.
pub fn decode_video(payload: &[u8]) -> (r: Result<VideoTag, DecodeError>)
    ensures
        video_decoding_allows(payload@, video_result_view(r)),
        is_refused_video(payload@) <==> r is Err && r->Err_0 is Refused,
        !is_refused_video(payload@) ==> (r is Err <==> is_malformed_video(payload@)),
        is_truncated_video(payload@) ==> r is Err && r->Err_0 is Rejected,
        r is Ok ==> r->Ok_0.frame_type == frame_type_of(payload@[0]) && r->Ok_0.enhanced
            == is_enhanced_video(payload@[0]),
        r is Ok && !is_enhanced_video(payload@[0]) ==> r->Ok_0.codec == legacy_video_codec(
            payload@[0],
        ),
        is_legacy_video_data(payload@) ==> r is Ok,
{
    if refuses_video(payload) {
        return Err(DecodeError::Refused);
    }
    video_decoded(demux_video(payload))
}

} // verus!

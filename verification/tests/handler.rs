use rtmp_ingest::handler::{
    audio_record, video_record, Handler, Record, SessionData, SessionError, SessionHandler,
};
use rtmp_ingest::audio::{AudioHeader, AudioTag};
use rtmp_ingest::media::DecodeError;
use rtmp_ingest::video::{VideoCodec, VideoTag};

fn publish(stream_id: u32, app_name: &str, stream_name: &str) -> Record {
    Record::Publish {
        stream_id,
        app_name: app_name.to_string(),
        stream_name: stream_name.to_string(),
    }
}

#[test]
fn publish_unpublish_publish_all_succeed() {
    let handler = Handler;
    assert_eq!(handler.on_publish(5, "live", "camera1"), Ok(publish(5, "live", "camera1")));
    assert_eq!(handler.on_unpublish(5), Ok(Record::Unpublish { stream_id: 5 }));
    assert_eq!(handler.on_publish(5, "live", "camera1"), Ok(publish(5, "live", "camera1")));
}

#[test]
fn repeated_unpublish_is_not_rejected() {
    let handler = Handler;
    assert_eq!(handler.on_unpublish(0), Ok(Record::Unpublish { stream_id: 0 }));
    assert_eq!(handler.on_unpublish(0), Ok(Record::Unpublish { stream_id: 0 }));
    assert_eq!(
        handler.on_unpublish(u32::MAX),
        Ok(Record::Unpublish { stream_id: u32::MAX })
    );
}

#[test]
fn publish_keeps_both_names_as_given() {
    let handler = Handler;
    assert_eq!(handler.on_publish(1, "", ""), Ok(publish(1, "", "")));
    assert_eq!(
        handler.on_publish(2, "app/with space", "stream?key=1"),
        Ok(publish(2, "app/with space", "stream?key=1"))
    );
}

#[test]
fn audio_data_is_decoded_and_recorded() {
    let handler = Handler;
    let data = SessionData::Audio { timestamp: 40, data: vec![0xaf, 0x00, 0x12, 0x10] };
    match handler.on_data(1, data) {
        Ok(Record::Audio { tag }) => {
            assert_eq!(
                tag.header,
                AudioHeader::Legacy {
                    sound_format: 10,
                    sound_rate: 3,
                    sound_size: 1,
                    sound_type: 1
                }
            );
            assert_eq!(
                tag.description,
                "AudioData { header: Legacy(LegacyAudioTagHeader { \
                 sound_format: SoundFormat::Aac, sound_rate: SoundRate::Hz44000, \
                 sound_size: SoundSize::Bit16, sound_type: SoundType::Stereo }), \
                 body: Legacy(Aac(SequenceHeader(b\"\\x12\\x10\"))) }"
            );
        }
        other => panic!("no audio record: {:?}", other),
    }
}

#[test]
fn video_data_is_decoded_and_recorded() {
    let handler = Handler;
    let data = SessionData::Video { timestamp: 40, data: vec![0x22, 0x01] };
    match handler.on_data(1, data) {
        Ok(Record::Video { tag }) => {
            assert_eq!(tag.frame_type, 2);
            assert!(!tag.enhanced);
            assert_eq!(tag.codec, VideoCodec::Legacy { codec_id: 2 });
            assert_eq!(
                tag.description,
                "VideoData { header: VideoTagHeader { frame_type: VideoFrameType::InterFrame, \
                 data: Legacy(Other { video_codec_id: VideoCodecId::SorensonH263 }) }, \
                 body: Legacy(Other { data: b\"\\x01\" }) }"
            );
        }
        other => panic!("no video record: {:?}", other),
    }
}

#[test]
fn metadata_is_recorded_as_it_came() {
    let handler = Handler;
    let bytes = vec![0x02, 0x00, 0x0a, b'o', b'n', b'M', b'e', b't', b'a'];
    let data = SessionData::Amf0 { timestamp: 7, data: bytes.clone() };
    assert_eq!(handler.on_data(3, data), Ok(Record::Amf0 { timestamp: 7, data: bytes }));
    let empty = SessionData::Amf0 { timestamp: 0, data: vec![] };
    assert_eq!(handler.on_data(3, empty), Ok(Record::Amf0 { timestamp: 0, data: vec![] }));
}

#[test]
fn malformed_audio_ends_the_session() {
    let handler = Handler;
    let data = SessionData::Audio { timestamp: 0, data: vec![] };
    assert_eq!(
        handler.on_data(1, data),
        Err(SessionError::AudioDecode {
            cause: DecodeError::Rejected { reason: "io: failed to fill whole buffer".to_string() }
        })
    );
}

#[test]
fn malformed_video_ends_the_session() {
    let handler = Handler;
    let data = SessionData::Video { timestamp: 0, data: vec![] };
    assert_eq!(
        handler.on_data(1, data),
        Err(SessionError::VideoDecode {
            cause: DecodeError::Rejected { reason: "io: failed to fill whole buffer".to_string() }
        })
    );
}

#[test]
fn refused_video_ends_the_session() {
    let handler = Handler;
    let mut payload = vec![0x17, 0x00, 0x00, 0x00, 0x00];
    payload.extend_from_slice(&[0x01, 0x64, 0x00, 0x1e, 0xff, 0xe0, 0x00]);
    payload.extend_from_slice(&[0x01, 0x00, 0x00, 0x01, 0x00, 0x11]);
    payload.extend_from_slice(&[0, 0, 0, 0, 0, 0, 0, 0, 0x80, 0, 0, 0, 0, 0, 0, 0, 0]);
    let data = SessionData::Video { timestamp: 0, data: payload };
    assert_eq!(
        handler.on_data(1, data),
        Err(SessionError::VideoDecode { cause: DecodeError::Refused })
    );
}

#[test]
fn a_decoded_tag_becomes_a_record_and_a_failure_an_error() {
    let audio = AudioTag {
        header: AudioHeader::Enhanced { packet_type: 2, four_cc: Some(*b"Opus") },
        description: "tag".to_string(),
    };
    assert_eq!(audio_record(Ok(audio.clone())), Ok(Record::Audio { tag: audio }));
    assert_eq!(
        audio_record(Err(DecodeError::Refused)),
        Err(SessionError::AudioDecode { cause: DecodeError::Refused })
    );
    let video = VideoTag {
        frame_type: 1,
        enhanced: true,
        codec: VideoCodec::FourCc { code: *b"av01" },
        description: "tag".to_string(),
    };
    assert_eq!(video_record(Ok(video.clone())), Ok(Record::Video { tag: video }));
    let cause = DecodeError::Rejected { reason: "short".to_string() };
    assert_eq!(
        video_record(Err(cause.clone())),
        Err(SessionError::VideoDecode { cause })
    );
}

#[test]
fn video_that_the_decoder_decodes_is_recorded() {
    let handler = Handler;
    // A modifier extension before coded frames.
    let modified = vec![
        0x97, 0x02, 0x00, 0x00, 0x05, 0x01, b'a', b'v', b'c', b'1', 0x00, 0x00, 0x01, 0xaa,
    ];
    // Two tracks of one codec.
    let tracks = vec![
        0x96, 0x11, b'v', b'p', b'0', b'9', 0x00, 0x00, 0x00, 0x02, 0x01, 0x02, 0x01, 0x00, 0x00,
        0x01, 0x03,
    ];
    // Metadata.
    let metadata = vec![0x94, 1, 2, 3, 4, 0x02, 0, 0, 0x03, 0, 0, 0x09];
    // AVC configurations with zero bytes, outside any extension and in one.
    let zeros = vec![0x97, 0x00, 0xff, 0x10, b'a', b'v', b'c', b'1', 0, 0, 0, 0, 0, 0xe0, 0];
    let mut tail = vec![0x90, b'a', b'v', b'c', b'1', 0x01, 0x64, 0x00, 0x1e, 0xff, 0xe0, 0x00];
    tail.extend_from_slice(&[0x01, 0x00, 0x00, 0x01, 0x00, 0x0a, 0xe0, 0, 0, 0, 0, 0, 0, 0, 0, 0]);
    for payload in [modified, tracks, metadata, zeros, tail] {
        let data = SessionData::Video { timestamp: 0, data: payload.clone() };
        match handler.on_data(1, data) {
            Ok(Record::Video { tag }) => {
                assert!(tag.enhanced);
                assert_eq!(tag.frame_type, 1);
            }
            other => panic!("no video record for {:?}: {:?}", payload, other),
        }
    }
}

#[test]
fn the_audio_decoder_has_no_say_on_video() {
    let handler = Handler;
    // As audio this payload is cut short; as video it is whole.
    let payload = vec![0xaf];
    let audio = SessionData::Audio { timestamp: 0, data: payload.clone() };
    assert!(matches!(handler.on_data(1, audio), Err(SessionError::AudioDecode { .. })));
    let video = SessionData::Video { timestamp: 0, data: vec![0x2f] };
    assert!(matches!(handler.on_data(1, video), Ok(Record::Video { .. })));
}

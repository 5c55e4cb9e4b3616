use rtmp_ingest::audio::{audio_decoded, decode_audio, AudioHeader, AudioTag};
use rtmp_ingest::media::DecodeError;

const AAC_RAW: [u8; 5] = [0xaf, 0x01, 0x01, 0x02, 0x03];

fn rejected(reason: &str) -> DecodeError {
    DecodeError::Rejected { reason: reason.to_string() }
}

#[test]
fn legacy_aac_payload_decodes_to_its_header_fields() {
    let tag = decode_audio(&AAC_RAW).unwrap();
    assert_eq!(
        tag.header,
        AudioHeader::Legacy { sound_format: 10, sound_rate: 3, sound_size: 1, sound_type: 1 }
    );
    assert_eq!(
        tag.description,
        "AudioData { header: Legacy(LegacyAudioTagHeader { sound_format: SoundFormat::Aac, \
         sound_rate: SoundRate::Hz44000, sound_size: SoundSize::Bit16, \
         sound_type: SoundType::Stereo }), body: Legacy(Aac(Raw(b\"\\x01\\x02\\x03\"))) }"
    );
}

#[test]
fn legacy_header_fields_are_the_bit_fields_of_the_first_byte() {
    // MP3, 22 kHz, 8 bit, mono: 0010 10 0 0.
    let tag = decode_audio(&[0x28, 0xde, 0xad]).unwrap();
    assert_eq!(
        tag.header,
        AudioHeader::Legacy { sound_format: 2, sound_rate: 2, sound_size: 0, sound_type: 0 }
    );
    // A header alone is a whole payload, unless the codec is AAC.
    let tag = decode_audio(&[0x3e]).unwrap();
    assert_eq!(
        tag.header,
        AudioHeader::Legacy { sound_format: 3, sound_rate: 3, sound_size: 1, sound_type: 0 }
    );
}

#[test]
fn enhanced_audio_payload_decodes() {
    let tag = decode_audio(&[0x91, b'm', b'p', b'4', b'a', 0xde, 0xad]).unwrap();
    assert_eq!(tag.header, AudioHeader::Enhanced { packet_type: 1, four_cc: Some(*b"mp4a") });
    assert_eq!(
        tag.description,
        "AudioData { header: Enhanced(ExAudioTagHeader { audio_packet_mod_exs: [], \
         audio_packet_type: AudioPacketType::CodedFrames, \
         content: NoMultiTrack(AudioFourCc::Aac) }), \
         body: Enhanced(NoMultitrack { audio_four_cc: AudioFourCc::Aac, \
         packet: CodedFrames { data: b\"\\xde\\xad\" } }) }"
    );
}

#[test]
fn truncated_aac_payload_is_rejected() {
    assert_eq!(decode_audio(&[0xaf]), Err(rejected("io: failed to fill whole buffer")));
}

#[test]
fn nested_multitrack_audio_is_rejected() {
    assert_eq!(
        decode_audio(&[0x95, 0x15]),
        Err(rejected("nested multitracks are not allowed"))
    );
}

#[test]
fn truncated_enhanced_audio_is_rejected() {
    assert_eq!(decode_audio(&[0x91, b'm', b'p']), Err(rejected("io: failed to fill whole buffer")));
}

#[test]
fn decoding_the_same_audio_bytes_twice_gives_the_same_tag() {
    let first: AudioTag = decode_audio(&AAC_RAW).unwrap();
    let copy: Vec<u8> = AAC_RAW.to_vec();
    let second: AudioTag = decode_audio(&copy).unwrap();
    assert_eq!(first, second);
    assert_eq!(
        first.header,
        AudioHeader::Legacy { sound_format: 10, sound_rate: 3, sound_size: 1, sound_type: 1 }
    );
}

#[test]
fn empty_audio_payload_is_rejected() {
    assert_eq!(decode_audio(&[]), Err(rejected("io: failed to fill whole buffer")));
}

#[test]
fn multitrack_audio_names_its_codec_unless_each_track_does() {
    // One track of Opus, coded frames.
    let tag = decode_audio(&[0x95, 0x01, b'O', b'p', b'u', b's', 0x00, 0x01, 0x02]).unwrap();
    assert_eq!(tag.header, AudioHeader::Enhanced { packet_type: 1, four_cc: Some(*b"Opus") });
    // Tracks that each name their codec.
    let payload = [0x95, 0x21, b'f', b'L', b'a', b'C', 0x00, 0x00, 0x00, 0x01, 0x07];
    let tag = decode_audio(&payload).unwrap();
    assert_eq!(tag.header, AudioHeader::Enhanced { packet_type: 1, four_cc: None });
    assert!(tag.description.contains("ManyTracksManyCodecs"));
    assert!(tag.description.contains("AudioFourCc::Flac"));
}

#[test]
fn audio_with_a_modifier_extension_decodes() {
    let payload = [0x97, 0x02, 0x00, 0x00, 0x09, 0x01, b'm', b'p', b'4', b'a', 0xde];
    let tag = decode_audio(&payload).unwrap();
    assert_eq!(tag.header, AudioHeader::Enhanced { packet_type: 1, four_cc: Some(*b"mp4a") });
    assert!(tag.description.contains("TimestampOffsetNano { audio_timestamp_nano_offset: 9 }"));
}

#[test]
fn every_classic_audio_header_decodes_to_its_bit_fields() {
    for first in 0..=255u8 {
        let outcome = decode_audio(&[first, 0x01, 0x02, 0x03, 0x04]);
        if first >> 4 == 9 {
            continue;
        }
        let tag = outcome.unwrap();
        assert_eq!(
            tag.header,
            AudioHeader::Legacy {
                sound_format: first >> 4,
                sound_rate: (first >> 2) & 3,
                sound_size: (first >> 1) & 1,
                sound_type: first & 1,
            }
        );
        // The header alone is enough, unless the codec is AAC.
        assert_eq!(decode_audio(&[first]).is_ok(), first >> 4 != 10);
    }
}

#[test]
fn what_the_audio_decoder_returned_becomes_the_result() {
    let audio = AudioTag {
        header: AudioHeader::Legacy { sound_format: 2, sound_rate: 3, sound_size: 1, sound_type: 1 },
        description: "mp3".to_string(),
    };
    assert_eq!(audio_decoded(Ok(audio.clone())), Ok(audio));
    assert_eq!(audio_decoded(Err("short".to_string())), Err(rejected("short")));
}

use bytes::Bytes;
use reestream::relay::client::{is_audio_sequence_header, is_video_sequence_header};

#[test]
fn test_is_video_sequence_header_valid() {
    let data = Bytes::from(vec![0x17, 0x00, 0x00, 0x00]);
    assert!(is_video_sequence_header(&data));
}

#[test]
fn test_is_video_sequence_header_empty() {
    let data = Bytes::new();
    assert!(!is_video_sequence_header(&data));
}

#[test]
fn test_is_video_sequence_header_single_byte() {
    let data = Bytes::from(vec![0x17]);
    assert!(!is_video_sequence_header(&data));
}

#[test]
fn test_is_video_sequence_header_wrong_type() {
    let data = Bytes::from(vec![0x27, 0x00]);
    assert!(!is_video_sequence_header(&data));
}

#[test]
fn test_is_video_sequence_header_wrong_flag() {
    let data = Bytes::from(vec![0x17, 0x01]);
    assert!(!is_video_sequence_header(&data));
}

#[test]
fn test_is_audio_sequence_header_valid_aac() {
    let data = Bytes::from(vec![0xAF, 0x00, 0x01]);
    assert!(is_audio_sequence_header(&data));
}

#[test]
fn test_is_audio_sequence_header_valid_other_codec() {
    let data = Bytes::from(vec![0xA0, 0x00]);
    assert!(is_audio_sequence_header(&data));
}

#[test]
fn test_is_audio_sequence_header_empty() {
    let data = Bytes::new();
    assert!(!is_audio_sequence_header(&data));
}

#[test]
fn test_is_audio_sequence_header_single_byte() {
    let data = Bytes::from(vec![0xAF]);
    assert!(!is_audio_sequence_header(&data));
}

#[test]
fn test_is_audio_sequence_header_not_audio() {
    let data = Bytes::from(vec![0x17, 0x00]);
    assert!(!is_audio_sequence_header(&data));
}

#[test]
fn test_is_audio_sequence_header_wrong_flag() {
    let data = Bytes::from(vec![0xAF, 0x01]);
    assert!(!is_audio_sequence_header(&data));
}

#[test]
fn test_video_header_all_video_types() {
    let data = Bytes::from(vec![0x17, 0x00]);
    assert!(is_video_sequence_header(&data));

    for type_byte in 0x10..=0x16 {
        let data = Bytes::from(vec![type_byte, 0x00]);
        assert!(
            !is_video_sequence_header(&data),
            "Expected false for 0x{:02X} 0x00",
            type_byte
        );
    }
    for type_byte in 0x18..=0x1F {
        let data = Bytes::from(vec![type_byte, 0x00]);
        assert!(
            !is_video_sequence_header(&data),
            "Expected false for 0x{:02X} 0x00",
            type_byte
        );
    }
}

#[test]
fn test_video_header_non_video_types() {
    for type_byte in 0x00..=0x0F {
        let data = Bytes::from(vec![type_byte, 0x00]);
        assert!(
            !is_video_sequence_header(&data),
            "Expected false for 0x{:02X} 0x00",
            type_byte
        );
    }
}

#[test]
fn test_audio_header_all_audio_types() {
    for type_byte in 0xA0..=0xAF {
        let data = Bytes::from(vec![type_byte, 0x00]);
        assert!(
            is_audio_sequence_header(&data),
            "Expected true for 0x{:02X} 0x00",
            type_byte
        );
    }
}

#[test]
fn test_audio_header_non_audio_types() {
    let non_audio = [0x00, 0x17, 0x27, 0x50, 0x80, 0x9F];
    for type_byte in non_audio {
        let data = Bytes::from(vec![type_byte, 0x00]);
        assert!(
            !is_audio_sequence_header(&data),
            "Expected false for 0x{:02X} 0x00",
            type_byte
        );
    }
}

#[test]
fn test_video_header_long_payload() {
    let mut data = vec![0x17, 0x00, 0x00, 0x00, 0x00];
    data.extend_from_slice(&[0x01, 0x64, 0x00, 0x1E, 0xFF, 0xE1]);
    let data = Bytes::from(data);
    assert!(is_video_sequence_header(&data));
}

#[test]
fn test_audio_header_long_payload() {
    let mut data = vec![0xAF, 0x00];
    data.extend_from_slice(&[0x12, 0x10, 0x56, 0xE5, 0x00]);
    let data = Bytes::from(data);
    assert!(is_audio_sequence_header(&data));
}

#[test]
fn test_both_headers_independent() {
    let video = Bytes::from(vec![0x17, 0x00]);
    let audio = Bytes::from(vec![0xAF, 0x00]);
    assert!(is_video_sequence_header(&video));
    assert!(!is_audio_sequence_header(&video));
    assert!(!is_video_sequence_header(&audio));
    assert!(is_audio_sequence_header(&audio));
}

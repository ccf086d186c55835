use xeonvpn::frame::{decode_frame, encode_frame, FramingError};
use xeonvpn::relay::{downlink_step, uplink_step};

#[test]
fn round_trip_small() {
    let payload: Vec<u8> = b"hello".to_vec();
    let frame = encode_frame(&payload);
    assert_eq!(decode_frame(&frame), Ok(payload));
}

#[test]
fn round_trip_empty() {
    let payload: Vec<u8> = Vec::new();
    let frame = encode_frame(&payload);
    assert_eq!(frame.len(), 8);
    assert_eq!(decode_frame(&frame), Ok(Vec::new()));
}

#[test]
fn round_trip_max_payload() {
    let payload: Vec<u8> = vec![0x5A; 65535];
    let frame = encode_frame(&payload);
    assert_eq!(decode_frame(&frame), Ok(payload));
}

#[test]
fn encode_exact_bytes() {
    let payload: Vec<u8> = vec![0xAA; 40];
    let frame = encode_frame(&payload);
    let mut expected: Vec<u8> = Vec::new();
    expected.extend_from_slice(b"TUN ");
    expected.extend_from_slice(&[0, 0, 0, 40]);
    expected.extend_from_slice(&[0xAA; 40]);
    assert_eq!(frame, expected);
}

#[test]
fn decode_rejects_bad_tag() {
    let mut frame: Vec<u8> = Vec::new();
    frame.extend_from_slice(b"XXX ");
    frame.extend_from_slice(&[0, 0, 0, 5]);
    frame.extend_from_slice(b"abcde");
    assert_eq!(decode_frame(&frame), Err(FramingError::BadTag));
}

#[test]
fn decode_rejects_bad_tag_any_length() {
    let mut frame: Vec<u8> = Vec::new();
    frame.extend_from_slice(b"XXX ");
    frame.extend_from_slice(&[0xFF, 0xFF, 0xFF, 0xFF]);
    assert_eq!(decode_frame(&frame), Err(FramingError::BadTag));
}

#[test]
fn decode_rejects_short_header() {
    let frame: Vec<u8> = b"TUN".to_vec();
    assert_eq!(decode_frame(&frame), Err(FramingError::Truncated));
}

#[test]
fn decode_rejects_missing_payload() {
    let mut frame: Vec<u8> = Vec::new();
    frame.extend_from_slice(b"TUN ");
    frame.extend_from_slice(&[0, 0, 0, 10]);
    frame.extend_from_slice(b"abcd");
    assert_eq!(decode_frame(&frame), Err(FramingError::Truncated));
}

#[test]
fn decode_clamps_oversize_declared_length() {
    // 70000 = 0x00011170 declared, but only 65535 bytes are ever read.
    let mut frame: Vec<u8> = Vec::new();
    frame.extend_from_slice(b"TUN ");
    frame.extend_from_slice(&[0x00, 0x01, 0x11, 0x70]);
    frame.extend_from_slice(&vec![7u8; 65535]);
    assert_eq!(decode_frame(&frame), Ok(vec![7u8; 65535]));
}

#[test]
fn uplink_reads_declared_length() {
    let payload: Vec<u8> = vec![0xAA; 40];
    let frame = encode_frame(&payload);
    let header: Vec<u8> = frame[0..8].to_vec();
    assert_eq!(uplink_step(&header), Ok(40));
    // The bytes the pump then writes to the interface are the payload,
    // verbatim.
    assert_eq!(&frame[8..48], &payload[..]);
}

#[test]
fn uplink_clamps_declared_length() {
    let mut header: Vec<u8> = Vec::new();
    header.extend_from_slice(b"TUN ");
    header.extend_from_slice(&[0x00, 0x01, 0x11, 0x70]);
    assert_eq!(uplink_step(&header), Ok(65535));
}

#[test]
fn uplink_stops_on_bad_tag() {
    let mut header: Vec<u8> = Vec::new();
    header.extend_from_slice(b"XXX ");
    header.extend_from_slice(&[0, 0, 0, 40]);
    assert_eq!(uplink_step(&header), Err(FramingError::BadTag));
    // The downlink direction is independent of the failed uplink and still
    // produces frames.
    let buf: Vec<u8> = vec![1u8; 2000];
    assert!(downlink_step(&buf, 4).is_some());
}

#[test]
fn downlink_skips_empty_read() {
    let buf: Vec<u8> = vec![0u8; 2000];
    assert_eq!(downlink_step(&buf, 0), None);
}

#[test]
fn downlink_frames_bytes_read() {
    let mut buf: Vec<u8> = vec![0u8; 2000];
    for i in 0..40 {
        buf[i] = 0xAA;
    }
    let frame = downlink_step(&buf, 40).unwrap();
    assert_eq!(frame, encode_frame(&vec![0xAA; 40]));
}

use hyper_sync::protocol::{black_frame, build_frame, FrameError};

#[test]
fn header_for_65_leds() {
    let frame = build_frame(65, &vec![0u8; 195]).unwrap();
    assert_eq!(&frame[..6], &[0x41, 0x64, 0x61, 0x00, 0x00, 0x41]);
    assert_eq!(frame.len(), 201);
}

#[test]
fn frame_carries_payload_after_header() {
    let frame = build_frame(2, &[1, 2, 3, 4, 5, 6]).unwrap();
    assert_eq!(frame, vec![b'A', b'd', b'a', 0, 0, 2, 1, 2, 3, 4, 5, 6]);
}

#[test]
fn frame_for_zero_leds_is_header_only() {
    let frame = build_frame(0, &[]).unwrap();
    assert_eq!(frame, vec![0x41, 0x64, 0x61, 0, 0, 0]);
}

#[test]
fn wrong_payload_length_is_refused() {
    let err = build_frame(65, &vec![0u8; 194]).unwrap_err();
    assert_eq!(err, FrameError::PayloadLength { got: 194, expected: 195 });
    let err = build_frame(1, &[1, 2, 3, 4]).unwrap_err();
    assert_eq!(err, FrameError::PayloadLength { got: 4, expected: 3 });
}

#[test]
fn black_frame_is_all_dark() {
    let frame = black_frame(65);
    assert_eq!(frame.len(), 201);
    assert_eq!(&frame[..6], &[0x41, 0x64, 0x61, 0x00, 0x00, 65]);
    assert!(frame[6..].iter().all(|&b| b == 0));
    assert_eq!(black_frame(255).len(), 6 + 765);
}

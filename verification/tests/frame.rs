use game_api::messages::frame::{decode_length, encode_length, frame_message, read_frame, FrameError};

#[test]
fn length_header_is_little_endian() {
    assert_eq!(encode_length(5), [5, 0, 0, 0]);
    assert_eq!(encode_length(256), [0, 1, 0, 0]);
    assert_eq!(encode_length(0x0102_0304), [4, 3, 2, 1]);
    assert_eq!(decode_length([4, 3, 2, 1]), 0x0102_0304);
    assert_eq!(decode_length([255, 255, 255, 255]), u32::MAX);
}

#[test]
fn length_header_keeps_low_32_bits() {
    let len: u64 = (1u64 << 32) + 7;
    if let Ok(len) = usize::try_from(len) {
        assert_eq!(encode_length(len), [7, 0, 0, 0]);
    }
}

#[test]
fn frame_is_header_then_payload() {
    assert_eq!(frame_message(b"hi"), vec![2, 0, 0, 0, b'h', b'i']);
    assert_eq!(frame_message(b""), vec![0, 0, 0, 0]);
}

#[test]
fn reading_back_a_frame_gives_the_payload() {
    let payloads: [&[u8]; 2] = [
        br#"{"Signup":{"username":"user1234","password":"Pass@123"}}"#,
        br#"{"Login":{"username":"user1234","password":"Pass@123"}}"#,
    ];
    for payload in payloads {
        let mut buf = frame_message(payload);
        let framed = buf.len();
        buf.extend_from_slice(b"next");
        let (read, used) = read_frame(&buf).unwrap();
        assert_eq!(read, payload.to_vec());
        assert_eq!(used, framed);
    }
}

#[test]
fn reading_a_short_buffer_fails() {
    assert_eq!(read_frame(&[1, 0]), Err(FrameError::TruncatedLength));
    assert_eq!(read_frame(&[3, 0, 0, 0, b'a']), Err(FrameError::TruncatedPayload));
    assert_eq!(read_frame(&[0, 0, 0, 0]), Ok((vec![], 4)));
}

use pam_sandboxed::frame::{
    frame, header, payload_len, shutdown_frame, try_frame, HEADER_LEN, MAX_PAYLOAD,
};

#[test]
fn header_is_big_endian_length() {
    assert_eq!(header(0), [0, 0]);
    assert_eq!(header(1), [0, 1]);
    assert_eq!(header(255), [0, 255]);
    assert_eq!(header(256), [1, 0]);
    assert_eq!(header(258), [1, 2]);
    assert_eq!(header(65533), [0xff, 0xfd]);
    assert_eq!(header(65535), [0xff, 0xff]);
}

#[test]
fn payload_len_reads_big_endian_length() {
    assert_eq!(payload_len(&[0, 0]), 0);
    assert_eq!(payload_len(&[0, 1]), 1);
    assert_eq!(payload_len(&[1, 0]), 256);
    assert_eq!(payload_len(&[1, 2]), 258);
    assert_eq!(payload_len(&[0xff, 0xfd]), 65533);
    assert_eq!(payload_len(&[0xff, 0xff]), 65535);
}

#[test]
fn header_reads_back_for_every_length() {
    for len in 0..=0xffffusize {
        assert_eq!(payload_len(&header(len)), len);
    }
}

#[test]
fn frame_puts_length_in_front() {
    assert_eq!(frame(vec![1, 2, 3]), vec![0, 3, 1, 2, 3]);
    let long = vec![7u8; 300];
    let framed = frame(long.clone());
    assert_eq!(framed.len(), 300 + HEADER_LEN);
    assert_eq!(&framed[..2], &[1, 44]);
    assert_eq!(&framed[2..], &long[..]);
}

#[test]
fn frame_of_nothing_is_the_shutdown_signal() {
    assert_eq!(frame(Vec::new()), vec![0, 0]);
    assert_eq!(shutdown_frame(), [0, 0]);
}

#[test]
fn largest_payload_is_framed_whole() {
    let payload = vec![0xabu8; MAX_PAYLOAD];
    let framed = try_frame(payload.clone()).unwrap();
    assert_eq!(framed.len(), 65535);
    assert_eq!(&framed[..2], &[0xff, 0xfd]);
    assert_eq!(&framed[2..], &payload[..]);
}

#[test]
fn oversized_payload_is_refused_not_truncated() {
    assert_eq!(try_frame(vec![0u8; MAX_PAYLOAD + 1]), None);
    assert_eq!(try_frame(vec![0u8; 65536]), None);
    assert_eq!(try_frame(vec![0u8; 100_000]), None);
}

#[test]
fn try_frame_agrees_with_frame_below_the_limit() {
    assert_eq!(try_frame(vec![9, 8]), Some(vec![0, 2, 9, 8]));
    assert_eq!(try_frame(Vec::new()), Some(vec![0, 0]));
}

#[test]
fn max_payload_is_65533() {
    assert_eq!(MAX_PAYLOAD, 65533);
    assert_eq!(HEADER_LEN, 2);
}

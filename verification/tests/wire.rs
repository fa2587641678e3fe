use pam_sandboxed::error::{PamError, ProtocolError};
use pam_sandboxed::wire::{
    decode_request, decode_response, encode_request, encode_response, payload_of, PamRequest,
    PamResponse,
};

fn sample(remip: Option<&str>) -> PamRequest {
    PamRequest {
        id: 7,
        user: "alice".to_string(),
        pass: "secret".to_string(),
        service: "other".to_string(),
        remip: remip.map(|s| s.to_string()),
    }
}

#[test]
fn request_payload_has_exact_bytes_without_address() {
    let bytes = encode_request(&sample(None)).unwrap();
    let mut want: Vec<u8> = Vec::new();
    want.extend_from_slice(&[7, 0, 0, 0, 0, 0, 0, 0]);
    want.extend_from_slice(&[5, 0, 0, 0, 0, 0, 0, 0]);
    want.extend_from_slice(b"alice");
    want.extend_from_slice(&[6, 0, 0, 0, 0, 0, 0, 0]);
    want.extend_from_slice(b"secret");
    want.extend_from_slice(&[5, 0, 0, 0, 0, 0, 0, 0]);
    want.extend_from_slice(b"other");
    want.push(0);
    assert_eq!(bytes, want);
    assert_eq!(bytes.len(), 33 + 5 + 6 + 5);
}

#[test]
fn request_payload_has_exact_bytes_with_address() {
    let bytes = encode_request(&sample(Some("10.0.0.1"))).unwrap();
    let mut want: Vec<u8> = Vec::new();
    want.extend_from_slice(&[7, 0, 0, 0, 0, 0, 0, 0]);
    want.extend_from_slice(&[5, 0, 0, 0, 0, 0, 0, 0]);
    want.extend_from_slice(b"alice");
    want.extend_from_slice(&[6, 0, 0, 0, 0, 0, 0, 0]);
    want.extend_from_slice(b"secret");
    want.extend_from_slice(&[5, 0, 0, 0, 0, 0, 0, 0]);
    want.extend_from_slice(b"other");
    want.push(1);
    want.extend_from_slice(&[8, 0, 0, 0, 0, 0, 0, 0]);
    want.extend_from_slice(b"10.0.0.1");
    assert_eq!(bytes, want);
    assert_eq!(bytes.len(), 33 + 5 + 6 + 5 + 8 + 8);
}

#[test]
fn request_id_is_little_endian() {
    let mut req = sample(None);
    req.id = 0x0102030405060708;
    let bytes = encode_request(&req).unwrap();
    assert_eq!(&bytes[..8], &[8, 7, 6, 5, 4, 3, 2, 1]);
}

#[test]
fn string_length_counts_utf8_bytes() {
    let mut req = sample(None);
    req.user = "zo\u{eb}".to_string();
    let bytes = encode_request(&req).unwrap();
    assert_eq!(&bytes[8..16], &[4, 0, 0, 0, 0, 0, 0, 0]);
    assert_eq!(&bytes[16..20], &[b'z', b'o', 0xc3, 0xab]);
}

#[test]
fn request_round_trip_with_address() {
    let req = sample(Some("10.0.0.1"));
    let bytes = encode_request(&req).unwrap();
    assert_eq!(decode_request(&bytes), Ok(req));
}

#[test]
fn request_round_trip_without_address() {
    let req = sample(None);
    let bytes = encode_request(&req).unwrap();
    assert_eq!(decode_request(&bytes), Ok(req));
}

#[test]
fn request_round_trip_printable_and_empty_strings() {
    let req = PamRequest {
        id: u64::MAX,
        user: " !\"#$%&'()*+,-./0123456789:;<=>?@[\\]^_`{|}~".to_string(),
        pass: String::new(),
        service: "\u{20ac}\u{1f511} p\u{e4}ss".to_string(),
        remip: Some(String::new()),
    };
    let bytes = encode_request(&req).unwrap();
    assert_eq!(decode_request(&bytes), Ok(req));
}

#[test]
fn request_decoding_ignores_trailing_bytes() {
    let req = sample(Some("::1"));
    let mut bytes = encode_request(&req).unwrap();
    bytes.extend_from_slice(&[9, 9, 9]);
    assert_eq!(decode_request(&bytes), Ok(req));
}

#[test]
fn truncated_request_is_malformed() {
    let bytes = encode_request(&sample(Some("10.0.0.1"))).unwrap();
    for cut in 0..bytes.len() {
        assert_eq!(decode_request(&bytes[..cut]), Err(ProtocolError::Malformed));
    }
}

#[test]
fn request_with_bad_option_tag_is_malformed() {
    let mut bytes = encode_request(&sample(None)).unwrap();
    let last = bytes.len() - 1;
    bytes[last] = 2;
    assert_eq!(decode_request(&bytes), Err(ProtocolError::Malformed));
}

#[test]
fn request_with_invalid_utf8_is_malformed() {
    let mut bytes = encode_request(&sample(None)).unwrap();
    bytes[16] = 0xff;
    assert_eq!(decode_request(&bytes), Err(ProtocolError::Malformed));
}

#[test]
fn response_payload_has_exact_bytes_for_success() {
    let bytes = encode_response(&PamResponse { id: 3, result: Ok(()) }).unwrap();
    assert_eq!(bytes, vec![3, 0, 0, 0, 0, 0, 0, 0, 0, 0, 0, 0]);
}

#[test]
fn response_payload_has_exact_bytes_for_failure() {
    let bytes = encode_response(&PamResponse { id: 3, result: Err(PamError(7)) }).unwrap();
    assert_eq!(bytes, vec![3, 0, 0, 0, 0, 0, 0, 0, 1, 0, 0, 0, 7, 0, 0, 0]);
}

#[test]
fn negative_error_code_is_twos_complement() {
    let bytes = encode_response(&PamResponse { id: 0, result: Err(PamError(-2)) }).unwrap();
    assert_eq!(&bytes[12..], &[0xfe, 0xff, 0xff, 0xff]);
    assert_eq!(decode_response(&bytes), Ok(PamResponse { id: 0, result: Err(PamError(-2)) }));
}

#[test]
fn response_round_trip() {
    for resp in [
        PamResponse { id: 0, result: Ok(()) },
        PamResponse { id: 1, result: Err(PamError(7)) },
        PamResponse { id: u64::MAX, result: Err(PamError(i32::MIN)) },
        PamResponse { id: 17, result: Err(PamError(i32::MAX)) },
    ] {
        let bytes = encode_response(&resp).unwrap();
        assert_eq!(decode_response(&bytes), Ok(resp));
    }
}

#[test]
fn response_decoding_ignores_trailing_bytes() {
    let resp = PamResponse { id: 5, result: Ok(()) };
    let mut bytes = encode_response(&resp).unwrap();
    bytes.push(0xaa);
    assert_eq!(decode_response(&bytes), Ok(resp));
}

#[test]
fn truncated_response_is_malformed() {
    let bytes = encode_response(&PamResponse { id: 5, result: Err(PamError(9)) }).unwrap();
    for cut in 0..bytes.len() {
        assert_eq!(decode_response(&bytes[..cut]), Err(ProtocolError::Malformed));
    }
    assert_eq!(decode_response(&[]), Err(ProtocolError::Malformed));
}

#[test]
fn response_with_unknown_variant_is_malformed() {
    let bytes = vec![3, 0, 0, 0, 0, 0, 0, 0, 2, 0, 0, 0, 7, 0, 0, 0];
    assert_eq!(decode_response(&bytes), Err(ProtocolError::Malformed));
}

#[test]
fn encoder_outcome_is_passed_on_or_reported() {
    assert_eq!(payload_of(Ok(vec![1, 2, 3])), Ok(vec![1, 2, 3]));
    assert_eq!(
        payload_of(Err(Box::new(bincode::ErrorKind::SizeLimit))),
        Err(ProtocolError::EncodeFailed)
    );
}

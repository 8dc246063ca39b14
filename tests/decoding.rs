use base64::Engine;
use exec_js::decode::decode_content;
use exec_js::types::{Encoding, ExecError, File};

fn file(content: Vec<u8>, encoding: Option<Encoding>) -> File {
    File { name: "a.js".to_string(), content, encoding }
}

#[test]
fn base64_round_trip_of_arbitrary_bytes() {
    let bytes: Vec<u8> = (0..=255u8).rev().collect();
    let text = base64::engine::general_purpose::STANDARD.encode(&bytes);
    let decoded = decode_content(&file(text.into_bytes(), Some(Encoding::Base64))).unwrap();
    assert_eq!(decoded, bytes);
}

#[test]
fn hex_round_trip_of_arbitrary_bytes() {
    let bytes: Vec<u8> = vec![0, 1, 0x7f, 0x80, 0xfe, 0xff, 0x10];
    let text = hex::encode(&bytes);
    let decoded = decode_content(&file(text.into_bytes(), Some(Encoding::Hex))).unwrap();
    assert_eq!(decoded, bytes);
}

#[test]
fn round_trip_of_empty_content() {
    assert_eq!(decode_content(&file(vec![], Some(Encoding::Base64))).unwrap(), Vec::<u8>::new());
    assert_eq!(decode_content(&file(vec![], Some(Encoding::Hex))).unwrap(), Vec::<u8>::new());
}

#[test]
fn hex_accepts_upper_case_digits() {
    let decoded = decode_content(&file(b"FFa0".to_vec(), Some(Encoding::Hex))).unwrap();
    assert_eq!(decoded, vec![0xff, 0xa0]);
}

#[test]
fn hex_of_odd_length_is_an_internal_error() {
    let r = decode_content(&file(b"abc".to_vec(), Some(Encoding::Hex)));
    assert!(matches!(r, Err(ExecError::Internal(_))));
}

#[test]
fn hex_with_a_non_digit_is_an_internal_error() {
    let r = decode_content(&file(b"zz".to_vec(), Some(Encoding::Hex)));
    assert!(matches!(r, Err(ExecError::Internal(_))));
}

#[test]
fn invalid_base64_is_an_internal_error() {
    let r = decode_content(&file(b"!!!!".to_vec(), Some(Encoding::Base64)));
    assert!(matches!(r, Err(ExecError::Internal(_))));
}

#[test]
fn encoded_content_that_is_not_utf8_is_rejected() {
    let r = decode_content(&file(vec![0xff, 0xfe], Some(Encoding::Base64)));
    match r {
        Err(ExecError::Internal(m)) => assert!(m.starts_with("Invalid UTF-8 in base64 content: ")),
        other => panic!("unexpected {:?}", other),
    }
    let r = decode_content(&file(vec![0xff, 0xfe], Some(Encoding::Hex)));
    assert!(matches!(r, Err(ExecError::Internal(_))));
}

#[test]
fn plain_content_passes_through_unchanged() {
    let raw = vec![0xff, 0x00, 0x41];
    assert_eq!(decode_content(&file(raw.clone(), None)).unwrap(), raw);
    assert_eq!(decode_content(&file(raw.clone(), Some(Encoding::Utf8))).unwrap(), raw);
}

#[test]
fn base64_round_trip_for_every_padding() {
    for len in 0..8u8 {
        let bytes: Vec<u8> = (0..len).map(|i| i.wrapping_mul(97).wrapping_add(200)).collect();
        let text = base64::engine::general_purpose::STANDARD.encode(&bytes);
        let decoded = decode_content(&file(text.into_bytes(), Some(Encoding::Base64))).unwrap();
        assert_eq!(decoded, bytes);
    }
}

#[test]
fn decoded_content_differs_from_encoded_input() {
    let text = b"aGk=".to_vec();
    let decoded = decode_content(&file(text.clone(), Some(Encoding::Base64))).unwrap();
    assert_eq!(decoded, b"hi".to_vec());
    assert_ne!(decoded, text);
}

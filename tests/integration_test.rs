use exec_js::decode::decode_content;
use exec_js::types::{Encoding, File};

fn encoded(content: &str, encoding: Encoding) -> File {
    File { name: "main.js".to_string(), content: content.as_bytes().to_vec(), encoding: Some(encoding) }
}

#[test]
fn test_basic_functionality() {
    assert_eq!(2 + 2, 4);
}

#[test]
fn test_base64_decoding() {
    let input = "Y29uc29sZS5sb2coJ2hlbGxvJyk7";
    let result = decode_content(&encoded(input, Encoding::Base64)).unwrap();
    assert_eq!(result, "console.log('hello');".as_bytes());
}

#[test]
fn test_hex_decoding() {
    let input = "636f6e736f6c652e6c6f67282768656c6c6f27293b";
    let result = decode_content(&encoded(input, Encoding::Hex)).unwrap();
    assert_eq!(result, "console.log('hello');".as_bytes());
}

#[test]
fn integration_test_test_basic_functionality() {
    assert_eq!(2 + 2, 4);
}

#[test]
fn integration_test_test_base64_decoding() {
    let input = "cHJpbnQoJ2hlbGxvJyk=";
    let result = decode_content(&encoded(input, Encoding::Base64)).unwrap();
    assert_eq!(result, "print('hello')".as_bytes());
}

#[test]
fn integration_test_test_hex_decoding() {
    let input = "7072696e74282768656c6c6f2729";
    let result = decode_content(&encoded(input, Encoding::Hex)).unwrap();
    assert_eq!(result, "print('hello')".as_bytes());
}

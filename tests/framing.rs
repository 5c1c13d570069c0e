use tarantool_rust_api::error::BindError;
use tarantool_rust_api::frame::{check_payload, encoded_value_end, is_complete_value};

#[test]
fn scalars_are_complete_values() {
    assert!(is_complete_value(&[0x00]));
    assert!(is_complete_value(&[0xff]));
    assert!(is_complete_value(&[0xc0]));
    assert!(is_complete_value(&[0xc3]));
    assert!(is_complete_value(&[0xcd, 0x01, 0x00]));
    assert!(is_complete_value(&[0xcb, 0, 0, 0, 0, 0, 0, 0, 0]));
    assert!(is_complete_value(&[0xa3, b'a', b'b', b'c']));
    assert!(is_complete_value(&[0xd9, 0x02, b'h', b'i']));
    assert!(is_complete_value(&[0xc4, 0x01, 0x07]));
    assert!(is_complete_value(&[0xd4, 0x01, 0x02]));
}

#[test]
fn nested_values_are_framed() {
    // [1, "a", {2: nil}]
    let v = [0x93, 0x01, 0xa1, b'a', 0x81, 0x02, 0xc0];
    assert!(is_complete_value(&v));
    assert_eq!(encoded_value_end(&v, 0), Some(7));
    assert_eq!(encoded_value_end(&v, 2), Some(4));
    assert_eq!(encoded_value_end(&v, 4), Some(7));
    // array16 of two elements
    assert!(is_complete_value(&[0xdc, 0x00, 0x02, 0x01, 0x02]));
    // map32 of one pair
    assert!(is_complete_value(&[0xdf, 0, 0, 0, 1, 0x01, 0x02]));
}

#[test]
fn malformed_payloads_are_rejected() {
    assert!(!is_complete_value(&[]));
    assert!(!is_complete_value(&[0xc1]));
    assert!(!is_complete_value(&[0x93, 0x01, 0x02]));
    assert!(!is_complete_value(&[0xa3, b'a']));
    assert!(!is_complete_value(&[0xcd, 0x01]));
    assert!(!is_complete_value(&[0xda, 0x00]));
    assert!(!is_complete_value(&[0xdd, 0xff, 0xff, 0xff, 0xff, 0x01]));
    assert!(!is_complete_value(&[0x01, 0x02]));
    assert_eq!(encoded_value_end(&[0x01, 0x02], 0), Some(1));
    assert_eq!(encoded_value_end(&[0x01], 1), None);
}

#[test]
fn check_payload_gives_decode_error() {
    assert_eq!(check_payload(&[0x91, 0x00]), Ok(()));
    assert_eq!(
        check_payload(&[0x92, 0x00]),
        Err(BindError::Decode { context: "incomplete or malformed encoded value".to_string() })
    );
}

#[test]
fn encoder_output_is_one_complete_value() {
    let row = (7u32, "name".to_string(), Some(vec![1i64, -300, 70000]), None::<bool>, 1.5f64);
    let bytes = rmp_serde::to_vec(&row).unwrap();
    assert!(is_complete_value(&bytes));
    assert!(!is_complete_value(&bytes[..bytes.len() - 1]));
    let long = "x".repeat(70000);
    let bytes = rmp_serde::to_vec(&(long, vec![0u8; 300])).unwrap();
    assert!(is_complete_value(&bytes));
}

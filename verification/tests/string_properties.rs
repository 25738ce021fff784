use ireko::DecodeError;
use ireko::common::{read_string_with_length, write_string_with_length};
use ireko::str_property::StrProperty;

#[test]
fn read_string() {
    let data: Vec<u8> = vec![
        0x0a, 0x00, 0x00, 0x00, 0x72, 0x65, 0x64, 0x73, 0x74, 0x72, 0x61, 0x74, 0x65, 0x00,
    ];
    let (decoded, _) = read_string_with_length(&data, 0).unwrap();
    assert_eq!(decoded, "redstrate");
}

#[test]
fn empty_string() {
    let data: Vec<u8> = vec![
        0x04, 0x00, 0x00, 0x00, 0x00, 0x00, 0x00, 0x00, 0x00, 0x00, 0x00, 0x00, 0x00, 0x0b,
        0x00, 0x00, 0x00, 0x4c, 0x6f, 0x61, 0x64, 0x4f, 0x70, 0x74, 0x69, 0x6f, 0x6e, 0x00,
    ];
    let (decoded, _) = StrProperty::decode(&data, 0).unwrap();
    assert_eq!(decoded.value, "");
}

#[test]
fn regular_string() {
    let data: Vec<u8> = vec![
        0x1e, 0x00, 0x00, 0x00, 0x00, 0x00, 0x00, 0x00, 0x00, 0x1a, 0x00, 0x00, 0x00, 0x41,
        0x52, 0x30, 0x58, 0x4a, 0x47, 0x46, 0x57, 0x41, 0x36, 0x48, 0x4e, 0x49, 0x51, 0x31,
        0x41, 0x41, 0x55, 0x4a, 0x39, 0x55, 0x52, 0x38, 0x32, 0x38, 0x00,
    ];
    let (decoded, _) = StrProperty::decode(&data, 0).unwrap();
    assert_eq!(decoded.value, "AR0XJGFWA6HNIQ1AAUJ9UR828");
}

#[test]
fn read_empty_string() {
    let data: Vec<u8> = vec![
        0x04, 0x00, 0x00, 0x00, 0x00, 0x00, 0x00, 0x00, 0x00, 0x00, 0x00, 0x00, 0x00,
    ];
    let (decoded, _) = StrProperty::decode(&data, 0).unwrap();
    assert_eq!(decoded.value, "");
}

#[test]
fn write_empty_string() {
    let expected_data: [u8; 13] = [
        0x04, 0x00, 0x00, 0x00, 0x00, 0x00, 0x00, 0x00, 0x00, 0x00, 0x00, 0x00, 0x00,
    ];
    let property = StrProperty { value: "".to_string() };
    let mut buffer: Vec<u8> = Vec::new();
    property.encode(&mut buffer);
    assert_eq!(expected_data, &buffer[..]);
}

#[test]
fn read_regular_string() {
    let data: Vec<u8> = vec![
        0x1e, 0x00, 0x00, 0x00, 0x00, 0x00, 0x00, 0x00, 0x00, 0x1a, 0x00, 0x00, 0x00, 0x41,
        0x52, 0x30, 0x58, 0x4a, 0x47, 0x46, 0x57, 0x41, 0x36, 0x48, 0x4e, 0x49, 0x51, 0x31,
        0x41, 0x41, 0x55, 0x4a, 0x39, 0x55, 0x52, 0x38, 0x32, 0x38, 0x00,
    ];
    let (decoded, _) = StrProperty::decode(&data, 0).unwrap();
    assert_eq!(decoded.value, "AR0XJGFWA6HNIQ1AAUJ9UR828");
}

#[test]
fn write_regular_string() {
    let expected_data: [u8; 39] = [
        0x1e, 0x00, 0x00, 0x00, 0x00, 0x00, 0x00, 0x00, 0x00, 0x1a, 0x00, 0x00, 0x00, 0x41,
        0x52, 0x30, 0x58, 0x4a, 0x47, 0x46, 0x57, 0x41, 0x36, 0x48, 0x4e, 0x49, 0x51, 0x31,
        0x41, 0x41, 0x55, 0x4a, 0x39, 0x55, 0x52, 0x38, 0x32, 0x38, 0x00,
    ];
    let property = StrProperty { value: "AR0XJGFWA6HNIQ1AAUJ9UR828".to_string() };
    let mut buffer: Vec<u8> = Vec::new();
    property.encode(&mut buffer);
    assert_eq!(expected_data, &buffer[..]);
}

#[test]
fn string_round_trip() {
    let mut buffer: Vec<u8> = Vec::new();
    write_string_with_length(&mut buffer, "a str\u{e9}am of text");
    let (decoded, end) = read_string_with_length(&buffer, 0).unwrap();
    assert_eq!(decoded, "a str\u{e9}am of text");
    assert_eq!(end, buffer.len());
}

#[test]
fn encode_empty_string_bytes() {
    let mut buffer: Vec<u8> = Vec::new();
    write_string_with_length(&mut buffer, "");
    assert_eq!(&buffer[..], &[0u8, 0, 0, 0]);
}

#[test]
fn reject_bad_utf8() {
    let data: Vec<u8> = vec![0x03, 0x00, 0x00, 0x00, 0xff, 0xfe, 0x00];
    assert_eq!(read_string_with_length(&data, 0), Err(DecodeError::MalformedString));
}

#[test]
fn reject_missing_terminator() {
    let data: Vec<u8> = vec![0x03, 0x00, 0x00, 0x00, 0x61, 0x62, 0x63];
    assert_eq!(read_string_with_length(&data, 0), Err(DecodeError::MalformedString));
}

#[test]
fn reject_truncated_string() {
    let data: Vec<u8> = vec![0x0a, 0x00, 0x00, 0x00, 0x61];
    assert_eq!(read_string_with_length(&data, 0), Err(DecodeError::TruncatedBuffer));
}

use ireko::DecodeError;
use ireko::bool_property::BoolProperty;
use ireko::int_property::IntProperty;
use ireko::guid::Guid;
use ireko::struct_property::{decode_struct_body, Struct};
use ireko::structs::{LinearColorStruct, PrimaryAssetIdStruct};

#[test]
fn read_id() {
    let data: Vec<u8> = vec![
        0x11, 0x00, 0x00, 0x00, 0x50, 0x72, 0x69, 0x6d, 0x61, 0x72, 0x79, 0x41, 0x73, 0x73,
        0x65, 0x74, 0x54, 0x79, 0x70, 0x65, 0x00, 0x0f, 0x00, 0x00, 0x00, 0x53, 0x74, 0x72,
        0x75, 0x63, 0x74, 0x50, 0x72, 0x6f, 0x70, 0x65, 0x72, 0x74, 0x79, 0x00, 0x37, 0x00,
        0x00, 0x00, 0x00, 0x00, 0x00, 0x00, 0x11, 0x00, 0x00, 0x00, 0x50, 0x72, 0x69, 0x6d,
        0x61, 0x72, 0x79, 0x41, 0x73, 0x73, 0x65, 0x74, 0x54, 0x79, 0x70, 0x65, 0x00, 0x00,
        0x00, 0x00, 0x00, 0x00, 0x00, 0x00, 0x00, 0x00, 0x00, 0x00, 0x00, 0x00, 0x00, 0x00,
        0x00, 0x00, 0x05, 0x00, 0x00, 0x00, 0x4e, 0x61, 0x6d, 0x65, 0x00, 0x0d, 0x00, 0x00,
        0x00, 0x4e, 0x61, 0x6d, 0x65, 0x50, 0x72, 0x6f, 0x70, 0x65, 0x72, 0x74, 0x79, 0x00,
        0x0b, 0x00, 0x00, 0x00, 0x00, 0x00, 0x00, 0x00, 0x00, 0x07, 0x00, 0x00, 0x00, 0x50,
        0x6f, 0x74, 0x69, 0x6f, 0x6e, 0x00, 0x05, 0x00, 0x00, 0x00, 0x4e, 0x6f, 0x6e, 0x65,
        0x00, 0x11, 0x00, 0x00, 0x00, 0x50, 0x72, 0x69, 0x6d, 0x61, 0x72, 0x79, 0x41, 0x73,
        0x73, 0x65, 0x74, 0x4e, 0x61, 0x6d, 0x65, 0x00, 0x0d, 0x00, 0x00, 0x00, 0x4e, 0x61,
        0x6d, 0x65, 0x50, 0x72, 0x6f, 0x70, 0x65, 0x72, 0x74, 0x79, 0x00, 0x1d, 0x00, 0x00,
        0x00, 0x00, 0x00, 0x00, 0x00, 0x00, 0x19, 0x00, 0x00, 0x00, 0x49, 0x74, 0x65, 0x6d,
        0x5f, 0x50, 0x6f, 0x74, 0x69, 0x6f, 0x6e, 0x5f, 0x48, 0x65, 0x61, 0x6c, 0x74, 0x68,
        0x50, 0x6f, 0x74, 0x69, 0x6f, 0x6e, 0x00, 0x05, 0x00, 0x00, 0x00, 0x4e, 0x6f, 0x6e,
        0x65, 0x00,
    ];
    PrimaryAssetIdStruct::decode(&data, 0).unwrap();
}

#[test]
fn read_id_round_trip() {
    let data: Vec<u8> = vec![
        0x11, 0x00, 0x00, 0x00, 0x50, 0x72, 0x69, 0x6d, 0x61, 0x72, 0x79, 0x41, 0x73, 0x73,
        0x65, 0x74, 0x54, 0x79, 0x70, 0x65, 0x00, 0x0f, 0x00, 0x00, 0x00, 0x53, 0x74, 0x72,
        0x75, 0x63, 0x74, 0x50, 0x72, 0x6f, 0x70, 0x65, 0x72, 0x74, 0x79, 0x00, 0x37, 0x00,
        0x00, 0x00, 0x00, 0x00, 0x00, 0x00, 0x11, 0x00, 0x00, 0x00, 0x50, 0x72, 0x69, 0x6d,
        0x61, 0x72, 0x79, 0x41, 0x73, 0x73, 0x65, 0x74, 0x54, 0x79, 0x70, 0x65, 0x00, 0x00,
        0x00, 0x00, 0x00, 0x00, 0x00, 0x00, 0x00, 0x00, 0x00, 0x00, 0x00, 0x00, 0x00, 0x00,
        0x00, 0x00, 0x05, 0x00, 0x00, 0x00, 0x4e, 0x61, 0x6d, 0x65, 0x00, 0x0d, 0x00, 0x00,
        0x00, 0x4e, 0x61, 0x6d, 0x65, 0x50, 0x72, 0x6f, 0x70, 0x65, 0x72, 0x74, 0x79, 0x00,
        0x0b, 0x00, 0x00, 0x00, 0x00, 0x00, 0x00, 0x00, 0x00, 0x07, 0x00, 0x00, 0x00, 0x50,
        0x6f, 0x74, 0x69, 0x6f, 0x6e, 0x00, 0x05, 0x00, 0x00, 0x00, 0x4e, 0x6f, 0x6e, 0x65,
        0x00, 0x11, 0x00, 0x00, 0x00, 0x50, 0x72, 0x69, 0x6d, 0x61, 0x72, 0x79, 0x41, 0x73,
        0x73, 0x65, 0x74, 0x4e, 0x61, 0x6d, 0x65, 0x00, 0x0d, 0x00, 0x00, 0x00, 0x4e, 0x61,
        0x6d, 0x65, 0x50, 0x72, 0x6f, 0x70, 0x65, 0x72, 0x74, 0x79, 0x00, 0x1d, 0x00, 0x00,
        0x00, 0x00, 0x00, 0x00, 0x00, 0x00, 0x19, 0x00, 0x00, 0x00, 0x49, 0x74, 0x65, 0x6d,
        0x5f, 0x50, 0x6f, 0x74, 0x69, 0x6f, 0x6e, 0x5f, 0x48, 0x65, 0x61, 0x6c, 0x74, 0x68,
        0x50, 0x6f, 0x74, 0x69, 0x6f, 0x6e, 0x00, 0x05, 0x00, 0x00, 0x00, 0x4e, 0x6f, 0x6e,
        0x65, 0x00,
    ];
    let (decoded, end) = PrimaryAssetIdStruct::decode(&data, 0).unwrap();
    let mut buffer: Vec<u8> = Vec::new();
    decoded.encode(&mut buffer);
    assert_eq!(&buffer[..], &data[..end]);
}

#[test]
fn read_color() {
    let data: Vec<u8> = vec![
        0x2a, 0x8e, 0x23, 0x3e, 0x45, 0xa1, 0x85, 0x3e, 0x9f, 0xaa, 0xaa, 0x3e, 0x00, 0x00,
        0x00, 0x00,
    ];
    let (decoded, _) = LinearColorStruct::decode(&data, 0).unwrap();
    assert_eq!(f32::from_bits(decoded.r), 0.159722);
    assert_eq!(f32::from_bits(decoded.g), 0.260996);
    assert_eq!(f32::from_bits(decoded.b), 0.333333);
    assert_eq!(f32::from_bits(decoded.a), 0.0);
}

#[test]
fn guid_payload_is_sixteen_bytes() {
    // Dispatching on the "Guid" struct name always consumes a fixed
    // 16-byte payload, whatever surrounds it.
    let data: Vec<u8> = vec![
        0x01, 0x00, 0x00, 0x00, 0x02, 0x00, 0x00, 0x00, 0x03, 0x00, 0x00, 0x00, 0x04, 0x00,
        0x00, 0x00, 0xaa, 0xbb,
    ];
    let (decoded, end) = decode_struct_body(&data, 0, "Guid").unwrap();
    assert_eq!(end, 16);
    let Struct::Guid(g) = decoded else {
        panic!("Guid!")
    };
    assert_eq!(g.a, 1);
    assert_eq!(g.b, 2);
    assert_eq!(g.c, 3);
    assert_eq!(g.d, 4);
}

#[test]
fn guid_round_trip() {
    let g = Guid { a: 7, b: 8, c: 9, d: 10 };
    let mut buffer: Vec<u8> = Vec::new();
    g.encode(&mut buffer);
    let (decoded, end) = Guid::decode(&buffer, 0).unwrap();
    assert_eq!(end, 16);
    assert_eq!(decoded, g);
}

#[test]
fn unknown_struct_name_is_rejected() {
    let data: Vec<u8> = vec![0u8; 64];
    assert!(matches!(
        decode_struct_body(&data, 0, "SomethingElse"),
        Err(DecodeError::UnknownStructType)
    ));
}

#[test]
fn sentinel_in_place_of_field_is_rejected() {
    // A "None" entry where the first field of a known struct layout was
    // required.
    let data: Vec<u8> = vec![
        0x05, 0x00, 0x00, 0x00, 0x4e, 0x6f, 0x6e, 0x65, 0x00,
    ];
    assert!(matches!(
        ireko::structs::DALoadOptionStruct::decode(&data, 0),
        Err(DecodeError::UnexpectedSentinel)
    ));
}

#[test]
fn bool_value_byte_must_be_flag() {
    let data: Vec<u8> = vec![0x00, 0x00, 0x00, 0x00, 0x00, 0x00, 0x00, 0x00, 0x02, 0x00];
    assert!(matches!(
        BoolProperty::decode(&data, 0),
        Err(DecodeError::InvalidValue)
    ));
}

#[test]
fn int_size_field_must_be_four() {
    let data: Vec<u8> = vec![
        0x05, 0x00, 0x00, 0x00, 0x00, 0x00, 0x00, 0x00, 0x00, 0x00, 0x00, 0x00, 0x00,
    ];
    assert!(matches!(
        IntProperty::decode(&data, 0),
        Err(DecodeError::LengthMismatch)
    ));
}

#[test]
fn truncated_int_is_rejected() {
    let data: Vec<u8> = vec![0x04, 0x00, 0x00, 0x00, 0x00];
    assert!(matches!(
        IntProperty::decode(&data, 0),
        Err(DecodeError::TruncatedBuffer)
    ));
}

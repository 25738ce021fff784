use ireko::bool_property::BoolProperty;
use ireko::common::read_bool_from;
use ireko::enum_property::EnumProperty;
use ireko::float_property::FloatProperty;
use ireko::int_property::IntProperty;

#[test]
fn bool_property_read_false() {
    let data: Vec<u8> = vec![
        0x00, 0x00, 0x00, 0x00, 0x00, 0x00, 0x00, 0x00, 0x00, 0x00,
    ];
    let (decoded, _) = BoolProperty::decode(&data, 0).unwrap();
    assert!(!decoded.value);
}

#[test]
fn bool_property_write_false() {
    let expected_data: [u8; 10] = [
        0x00, 0x00, 0x00, 0x00, 0x00, 0x00, 0x00, 0x00, 0x00, 0x00,
    ];
    let property = BoolProperty { value: false };
    let mut buffer: Vec<u8> = Vec::new();
    property.encode(&mut buffer);
    assert_eq!(expected_data, &buffer[..]);
}

#[test]
fn bool_property_read_true() {
    let data: Vec<u8> = vec![
        0x00, 0x00, 0x00, 0x00, 0x00, 0x00, 0x00, 0x00, 0x01, 0x00,
    ];
    let (decoded, _) = BoolProperty::decode(&data, 0).unwrap();
    assert!(decoded.value);
}

#[test]
fn bool_property_write_true() {
    let expected_data: [u8; 10] = [
        0x00, 0x00, 0x00, 0x00, 0x00, 0x00, 0x00, 0x00, 0x01, 0x00,
    ];
    let property = BoolProperty { value: true };
    let mut buffer: Vec<u8> = Vec::new();
    property.encode(&mut buffer);
    assert_eq!(expected_data, &buffer[..]);
}

#[test]
fn read_bool_u8() {
    assert!(!read_bool_from(0u8));
    assert!(read_bool_from(1u8));
}

#[test]
fn int_property_read_zero() {
    let data: Vec<u8> = vec![
        0x04, 0x00, 0x00, 0x00, 0x00, 0x00, 0x00, 0x00, 0x00, 0x00, 0x00, 0x00, 0x00,
    ];
    let (decoded, _) = IntProperty::decode(&data, 0).unwrap();
    assert_eq!(decoded.value, 0);
}

#[test]
fn int_property_write_zero() {
    let expected_data: [u8; 13] = [
        0x04, 0x00, 0x00, 0x00, 0x00, 0x00, 0x00, 0x00, 0x00, 0x00, 0x00, 0x00, 0x00,
    ];
    let property = IntProperty { value: 0 };
    let mut buffer: Vec<u8> = Vec::new();
    property.encode(&mut buffer);
    assert_eq!(expected_data, &buffer[..]);
}

#[test]
fn int_property_integer() {
    let data: Vec<u8> = vec![
        0x04, 0x00, 0x00, 0x00, 0x00, 0x00, 0x00, 0x00, 0x00, 0x04, 0x00, 0x00, 0x00,
    ];
    let (decoded, _) = IntProperty::decode(&data, 0).unwrap();
    assert_eq!(decoded.value, 4);
}

#[test]
fn int_property_write_integer() {
    let expected_data: [u8; 13] = [
        0x04, 0x00, 0x00, 0x00, 0x00, 0x00, 0x00, 0x00, 0x00, 0x04, 0x00, 0x00, 0x00,
    ];
    let property = IntProperty { value: 4 };
    let mut buffer: Vec<u8> = Vec::new();
    property.encode(&mut buffer);
    assert_eq!(expected_data, &buffer[..]);
}

#[test]
fn read_value() {
    let data: Vec<u8> = vec![
        0x04, 0x00, 0x00, 0x00, 0x00, 0x00, 0x00, 0x00, 0x00, 0x8c, 0x76, 0x9c, 0x45,
    ];
    let (decoded, _) = FloatProperty::decode(&data, 0).unwrap();
    assert_eq!(f32::from_bits(decoded.bits), 5006.8184);
}

#[test]
fn write_value() {
    let expected_data: [u8; 13] = [
        0x04, 0x00, 0x00, 0x00, 0x00, 0x00, 0x00, 0x00, 0x00, 0x8c, 0x76, 0x9c, 0x45,
    ];
    let property = FloatProperty { bits: 5006.8184f32.to_bits() };
    let mut buffer: Vec<u8> = Vec::new();
    property.encode(&mut buffer);
    assert_eq!(expected_data, &buffer[..]);
}

#[test]
fn read_enum() {
    let data: Vec<u8> = vec![
        0x29, 0x00, 0x00, 0x00, 0x00, 0x00, 0x00, 0x00, 0x18, 0x00, 0x00, 0x00, 0x45, 0x44,
        0x41, 0x57, 0x65, 0x61, 0x70, 0x6f, 0x6e, 0x4d, 0x6f, 0x64, 0x75, 0x6c, 0x65, 0x50,
        0x6f, 0x73, 0x69, 0x74, 0x69, 0x6f, 0x6e, 0x00, 0x00, 0x25, 0x00, 0x00, 0x00, 0x45,
        0x44, 0x41, 0x57, 0x65, 0x61, 0x70, 0x6f, 0x6e, 0x4d, 0x6f, 0x64, 0x75, 0x6c, 0x65,
        0x50, 0x6f, 0x73, 0x69, 0x74, 0x69, 0x6f, 0x6e, 0x3a, 0x3a, 0x46, 0x72, 0x6f, 0x6e,
        0x74, 0x57, 0x65, 0x61, 0x70, 0x6f, 0x6e, 0x00,
    ];
    let (decoded, _) = EnumProperty::decode(&data, 0).unwrap();
    assert_eq!(decoded.enum_type, "EDAWeaponModulePosition");
    assert_eq!(decoded.value, "EDAWeaponModulePosition::FrontWeapon");
}

#[test]
fn enum_round_trip() {
    let data: Vec<u8> = vec![
        0x29, 0x00, 0x00, 0x00, 0x00, 0x00, 0x00, 0x00, 0x18, 0x00, 0x00, 0x00, 0x45, 0x44,
        0x41, 0x57, 0x65, 0x61, 0x70, 0x6f, 0x6e, 0x4d, 0x6f, 0x64, 0x75, 0x6c, 0x65, 0x50,
        0x6f, 0x73, 0x69, 0x74, 0x69, 0x6f, 0x6e, 0x00, 0x00, 0x25, 0x00, 0x00, 0x00, 0x45,
        0x44, 0x41, 0x57, 0x65, 0x61, 0x70, 0x6f, 0x6e, 0x4d, 0x6f, 0x64, 0x75, 0x6c, 0x65,
        0x50, 0x6f, 0x73, 0x69, 0x74, 0x69, 0x6f, 0x6e, 0x3a, 0x3a, 0x46, 0x72, 0x6f, 0x6e,
        0x74, 0x57, 0x65, 0x61, 0x70, 0x6f, 0x6e, 0x00,
    ];
    let (decoded, end) = EnumProperty::decode(&data, 0).unwrap();
    let mut buffer: Vec<u8> = Vec::new();
    decoded.encode(&mut buffer);
    assert_eq!(&buffer[..], &data[..end]);
}

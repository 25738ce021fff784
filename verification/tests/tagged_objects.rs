use ireko::int_property::IntProperty;
use ireko::{Entry, Property, TaggedObject, TaggedSerialization};

fn money_object() -> TaggedObject {
    // One entry of 39 wire bytes, a 9-byte sentinel, and the 4-byte size
    // field itself: the object declares 52 bytes.
    TaggedObject {
        size_in_bytes: 52,
        entries: vec![Entry {
            name: "Money".to_string(),
            tag_name: "IntProperty".to_string(),
            value: Some(Property::Int(IntProperty { value: 42 })),
        }],
    }
}

#[test]
fn tagged_object_round_trip() {
    let ser = TaggedSerialization { size_in_bytes: 52, objs: vec![money_object()], trailer: None };
    let mut buffer: Vec<u8> = Vec::new();
    ser.encode(&mut buffer);
    let (decoded, end) = TaggedSerialization::decode(&buffer, 0).unwrap();
    assert_eq!(end, buffer.len());
    assert_eq!(decoded.size_in_bytes, 52);
    assert_eq!(decoded.objs.len(), 1);
    let obj = &decoded.objs[0];
    assert_eq!(obj.size_in_bytes, 52);
    let entry = obj.entry("Money").unwrap();
    assert_eq!(entry.tag_name, "IntProperty");
    let Some(Property::Int(v)) = &entry.value else {
        panic!("Int!")
    };
    assert_eq!(v.value, 42);
    assert!(obj.entry("SavedDataVersion").is_none());

    let mut again: Vec<u8> = Vec::new();
    decoded.encode(&mut again);
    assert_eq!(again, buffer);
}

#[test]
fn entry_list_writes_one_sentinel() {
    let mut buffer: Vec<u8> = Vec::new();
    money_object().encode(&mut buffer);
    // The object ends with exactly one "None" entry: a 5-byte length,
    // the four name bytes, and the terminator.
    let none_entry = [0x05u8, 0x00, 0x00, 0x00, 0x4e, 0x6f, 0x6e, 0x65, 0x00];
    assert_eq!(&buffer[buffer.len() - 9..], &none_entry);
    assert_eq!(
        buffer.windows(9).filter(|w| *w == none_entry).count(),
        1
    );
}

#[test]
fn zero_size_marker_keeps_trailer() {
    // A region that ends early with the four-byte zero marker: the marker
    // and the remaining declared bytes are kept and written back verbatim.
    let mut buffer: Vec<u8> = Vec::new();
    let ser = TaggedSerialization { size_in_bytes: 52, objs: vec![money_object()], trailer: None };
    ser.encode(&mut buffer);
    buffer[0] = 59; // 52 object bytes + 4 marker bytes + 3 trailing bytes
    buffer.extend_from_slice(&[0x00, 0x00, 0x00, 0x00, 0xaa, 0xbb, 0xcc]);

    let (decoded, end) = TaggedSerialization::decode(&buffer, 0).unwrap();
    assert_eq!(end, buffer.len());
    assert_eq!(decoded.objs.len(), 1);
    assert_eq!(decoded.trailer.as_deref(), Some(&[0xaa, 0xbb, 0xcc][..]));

    let mut again: Vec<u8> = Vec::new();
    decoded.encode(&mut again);
    assert_eq!(again, buffer);
}

#[test]
fn object_size_field_must_match() {
    let ser = TaggedSerialization { size_in_bytes: 52, objs: vec![money_object()], trailer: None };
    let mut buffer: Vec<u8> = Vec::new();
    ser.encode(&mut buffer);
    // Corrupt the object's size field (right after the region's own size).
    buffer[4] = 53;
    assert!(TaggedSerialization::decode(&buffer, 0).is_err());
}

use std::io::Write;

use flate2::write::ZlibEncoder;
use flate2::Compression;
use ireko::compressed::CompressedSaveFile;
use ireko::int_property::IntProperty;
use ireko::{Entry, Property, TaggedObject, TaggedSerialization};

#[test]
fn decode_compressed_save() {
    let ser = TaggedSerialization {
        size_in_bytes: 52,
        trailer: None,
        objs: vec![TaggedObject {
            size_in_bytes: 52,
            entries: vec![Entry {
                name: "Money".to_string(),
                tag_name: "IntProperty".to_string(),
                value: Some(Property::Int(IntProperty { value: 42 })),
            }],
        }],
    };
    let mut plain: Vec<u8> = Vec::new();
    ser.encode(&mut plain);

    let mut encoder = ZlibEncoder::new(Vec::new(), Compression::default());
    encoder.write_all(&plain).unwrap();
    let compressed = encoder.finish().unwrap();

    let mut file: Vec<u8> = Vec::new();
    file.extend_from_slice(&0x9e2a83c1u32.to_le_bytes());
    file.extend_from_slice(&[0u8; 6]);
    file.push(2);
    file.extend_from_slice(&[0u8; 5]);
    file.extend_from_slice(&(compressed.len() as u64).to_le_bytes());
    file.extend_from_slice(&(plain.len() as u64).to_le_bytes());
    file.extend_from_slice(&(compressed.len() as u64).to_le_bytes());
    file.extend_from_slice(&(plain.len() as u64).to_le_bytes());
    file.extend_from_slice(&compressed);

    let save = CompressedSaveFile::decode(&file).unwrap();
    assert_eq!(save.blocks.len(), 1);
    assert_eq!(save.blocks[0].unk, 2);
    assert_eq!(save.blocks[0].data, plain);
    assert_eq!(save.value.size_in_bytes, 52);
    assert!(save.value.objs[0].entry("Money").is_some());
}

use ireko::bool_property::BoolProperty;
use ireko::int_property::IntProperty;
use ireko::map_property::{KeyType, MapProperty};
use ireko::save_object::LocalProfileObject;
use ireko::str_property::StrProperty;

#[test]
fn local_profile_round_trip() {
    let obj = LocalProfileObject {
        version: IntProperty { value: 1 },
        demo: BoolProperty { value: false },
        name_list: MapProperty {
            key_name: "StrProperty".to_string(),
            value_name: "StrProperty".to_string(),
            map_key_type: KeyType::String,
            entries: vec![],
        },
        name: StrProperty { value: "SaveGame01".to_string() },
        use_save_slot: BoolProperty { value: true },
    };
    let mut buffer: Vec<u8> = Vec::new();
    obj.encode(&mut buffer);
    let (decoded, end) = LocalProfileObject::decode(&buffer, 0).unwrap();
    assert_eq!(end, buffer.len());
    assert_eq!(decoded.version.value, 1);
    assert!(!decoded.demo.value);
    assert_eq!(decoded.name_list.entries.len(), 0);
    assert_eq!(decoded.name.value, "SaveGame01");
    assert!(decoded.use_save_slot.value);

    let mut again: Vec<u8> = Vec::new();
    decoded.encode(&mut again);
    assert_eq!(again, buffer);
}

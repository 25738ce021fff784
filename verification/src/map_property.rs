use vstd::prelude::*;

verus! {

use vstd::bytes::{spec_u32_to_le_bytes, lemma_auto_spec_u32_to_from_le_bytes};
use crate::DecodeError;
use crate::common::{str_fits, zero_bytes, enc_string, encoded_at, read_u32, write_u32, read_u8,
    read_zeros, write_zeros, read_string_with_length, write_string_with_length, str_eq};
use crate::guid::Guid;
use crate::struct_property::{Struct, struct_has_name, decode_struct_body, encode_struct};
use crate::{Entry, wf_entries, enc_entry_list, decode_entry_list, encode_entry_list};

/// The numeric code that selects a map or array key's wire shape.  This is
/// a second type system, separate from the string property tags.
#[derive(Debug, Clone, Copy, PartialEq, Eq, Structural)]
pub enum KeyType {
    NoneKey,
    String,
    SetStruct,
    SetStruct2,
    GUID,
    SoftObjectProperty,
    SomeID,
    SomeID2,
    EnumAgain,
    Enum,
    StructMaybe,
    ArrayStruct,
    Unknown,
    Unknown2,
}

/// The wire code of each key type.
pub open spec fn key_type_code(k: KeyType) -> u32 {
    match k {
        KeyType::NoneKey => 0x0,
        KeyType::String => 0x1,
        KeyType::SetStruct => 0x2,
        KeyType::SetStruct2 => 0x2f,
        KeyType::GUID => 0x3,
        KeyType::SoftObjectProperty => 0x5,
        KeyType::SomeID => 0x6,
        KeyType::SomeID2 => 0x10,
        KeyType::EnumAgain => 0x4,
        KeyType::Enum => 0x7,
        KeyType::StructMaybe => 0xC,
        KeyType::ArrayStruct => 0xA,
        KeyType::Unknown => 0x2E,
        KeyType::Unknown2 => 0x33,
    }
}

impl KeyType {
    /// The wire code of this key type.
    pub fn code(&self) -> (r: u32)
        ensures
            r == key_type_code(*self),
    {
        match self {
            KeyType::NoneKey => 0x0,
            KeyType::String => 0x1,
            KeyType::SetStruct => 0x2,
            KeyType::SetStruct2 => 0x2f,
            KeyType::GUID => 0x3,
            KeyType::SoftObjectProperty => 0x5,
            KeyType::SomeID => 0x6,
            KeyType::SomeID2 => 0x10,
            KeyType::EnumAgain => 0x4,
            KeyType::Enum => 0x7,
            KeyType::StructMaybe => 0xC,
            KeyType::ArrayStruct => 0xA,
            KeyType::Unknown => 0x2E,
            KeyType::Unknown2 => 0x33,
        }
    }

    /// The key type a wire code stands for, if it is a known one.
    pub fn from_code(c: u32) -> (r: Option<KeyType>)
        ensures
            match r {
                Some(k) => key_type_code(k) == c,
                None => forall|k: KeyType| key_type_code(k) != c,
            },
    {
        match c {
            0x0 => Some(KeyType::NoneKey),
            0x1 => Some(KeyType::String),
            0x2 => Some(KeyType::SetStruct),
            0x2f => Some(KeyType::SetStruct2),
            0x3 => Some(KeyType::GUID),
            0x5 => Some(KeyType::SoftObjectProperty),
            0x6 => Some(KeyType::SomeID),
            0x10 => Some(KeyType::SomeID2),
            0x4 => Some(KeyType::EnumAgain),
            0x7 => Some(KeyType::Enum),
            0xC => Some(KeyType::StructMaybe),
            0xA => Some(KeyType::ArrayStruct),
            0x2E => Some(KeyType::Unknown),
            0x33 => Some(KeyType::Unknown2),
            _ => None,
        }
    }
}

/// A plain string used as a map or array key.
#[derive(Debug)]
pub struct StringMapKey {
    pub value: String,
}

/// A name-valued entry of a map's value column.
#[derive(Debug)]
pub struct MapSubNameProperty {
    pub value: String,
}

/// A string-valued entry of a map's value column.
#[derive(Debug)]
pub struct MapSubStrProperty {
    pub value: String,
}

/// A boolean-valued entry of a map's value column: one byte, `1` for
/// `true` and `0` for `false`.
#[derive(Debug, PartialEq, Eq, Structural)]
pub struct MapSubBoolProperty {
    pub value: bool,
}

/// An integer-valued entry of a map's value column: four bytes.
#[derive(Debug, PartialEq, Eq, Structural)]
pub struct MapSubIntProperty {
    pub value: u32,
}

/// An enumeration-valued entry of a map's value column: the variant name.
#[derive(Debug)]
pub struct MapSubEnumProperty {
    pub value: String,
}

/// A float-valued entry of a map's value column, carried as the raw
/// IEEE-754 bit pattern of the four wire bytes.
#[derive(Debug, PartialEq, Eq, Structural)]
pub struct MapSubFloatProperty {
    pub bits: u32,
}

/// A nested record in a map's value column: a sentinel-terminated list of
/// tagged fields.
#[derive(Debug)]
pub struct MapSubStructProperty {
    pub fields: Vec<Entry>,
}

/// A struct-shaped map key: two announcing strings, the struct name, and
/// the struct payload, with the format's fixed padding runs between them.
#[derive(Debug)]
pub struct StructMaybeKey {
    pub unk_name: String,
    pub unk_type: String,
    pub struct_name: String,
    pub value: Struct,
}

impl StructMaybeKey {
    pub open spec fn wf(self) -> bool
        decreases self, 0int,
    {
        &&& str_fits(self.unk_name@)
        &&& str_fits(self.unk_type@)
        &&& str_fits(self.struct_name@)
        &&& struct_has_name(self.value, self.struct_name@)
        &&& self.value.wf()
    }

    /// The wire bytes of this key: name, type string, eight zero padding
    /// bytes, struct name, seventeen zero padding bytes, then the payload.
    pub open spec fn enc(self) -> Seq<u8>
        decreases self, 0int,
    {
        enc_string(self.unk_name@) + enc_string(self.unk_type@) + zero_bytes(8)
            + enc_string(self.struct_name@) + zero_bytes(17) + self.value.enc()
    }

    /// Decodes a struct-shaped key at `pos`.
    pub fn decode(data: &Vec<u8>, pos: usize) -> (r: Result<(StructMaybeKey, usize), DecodeError>)
        ensures
            r matches Ok(p) ==> {
                &&& p.0.wf()
                &&& encoded_at(data@, pos as int, p.0.enc())
                &&& pos < p.1 <= data@.len()
                &&& p.1 == pos + p.0.enc().len()
            },
        decreases data@.len() - pos, 4int,
    {
        let dlen = data.len();
        let (unk_name, p1) = match read_string_with_length(data, pos) {
            Ok(p) => p,
            Err(e) => {
                return Err(e);
            },
        };
        let (unk_type, p2) = match read_string_with_length(data, p1) {
            Ok(p) => p,
            Err(e) => {
                return Err(e);
            },
        };
        match read_zeros(data, p2, 8) {
            Ok(_) => {},
            Err(e) => {
                return Err(e);
            },
        }
        let (struct_name, p3) = match read_string_with_length(data, p2 + 8) {
            Ok(p) => p,
            Err(e) => {
                return Err(e);
            },
        };
        match read_zeros(data, p3, 17) {
            Ok(_) => {},
            Err(e) => {
                return Err(e);
            },
        }
        let (value, end) = match decode_struct_body(data, p3 + 17, struct_name.as_str()) {
            Ok(p) => p,
            Err(e) => {
                return Err(e);
            },
        };
        let v = StructMaybeKey { unk_name, unk_type, struct_name, value };
        proof {
            assert(v.enc() =~= data@.subrange(pos as int, end as int));
        }
        Ok((v, end))
    }

    /// Appends the wire form of this key.
    pub fn encode(&self, out: &mut Vec<u8>)
        requires
            self.wf(),
        ensures
            final(out)@ == old(out)@ + self.enc(),
        decreases *self, 4int,
    {
        write_string_with_length(out, self.unk_name.as_str());
        write_string_with_length(out, self.unk_type.as_str());
        write_zeros(out, 8);
        write_string_with_length(out, self.struct_name.as_str());
        write_zeros(out, 17);
        encode_struct(out, &self.value);
        proof {
            assert(out@ =~= old(out)@ + self.enc());
        }
    }
}

/// A map key, shaped by the map's numeric key type.
#[derive(Debug)]
pub enum MapKeyProperty {
    String(StringMapKey),
    StructMaybe(StructMaybeKey),
    Enum(MapSubEnumProperty),
    EnumAgain(MapSubEnumProperty),
    GUID(Guid),
    SomeID(Guid),
    SomeID2(Guid),
    ArrayStruct(StructMaybeKey),
    SomeID3(Guid),
    SoftObjectProperty(StringMapKey),
}

/// Which key type each key variant answers to.
pub open spec fn key_variant_matches(k: MapKeyProperty, kt: KeyType) -> bool {
    match k {
        MapKeyProperty::String(_) => kt == KeyType::String,
        MapKeyProperty::StructMaybe(_) => kt == KeyType::StructMaybe,
        MapKeyProperty::Enum(_) => kt == KeyType::Enum,
        MapKeyProperty::EnumAgain(_) => kt == KeyType::EnumAgain,
        MapKeyProperty::GUID(_) => kt == KeyType::GUID,
        MapKeyProperty::SomeID(_) => kt == KeyType::SomeID,
        MapKeyProperty::SomeID2(_) => kt == KeyType::SomeID2,
        MapKeyProperty::ArrayStruct(_) => kt == KeyType::ArrayStruct,
        MapKeyProperty::SomeID3(_) => kt == KeyType::Unknown2,
        MapKeyProperty::SoftObjectProperty(_) => kt == KeyType::SoftObjectProperty,
    }
}

impl MapKeyProperty {
    pub open spec fn wf(self) -> bool
        decreases self, 1int,
    {
        match self {
            MapKeyProperty::String(s) => str_fits(s.value@),
            MapKeyProperty::StructMaybe(k) => k.wf(),
            MapKeyProperty::Enum(e) => str_fits(e.value@),
            MapKeyProperty::EnumAgain(e) => str_fits(e.value@),
            MapKeyProperty::GUID(_) => true,
            MapKeyProperty::SomeID(_) => true,
            MapKeyProperty::SomeID2(_) => true,
            MapKeyProperty::ArrayStruct(k) => k.wf(),
            MapKeyProperty::SomeID3(_) => true,
            MapKeyProperty::SoftObjectProperty(s) => str_fits(s.value@),
        }
    }

    /// The wire bytes of this key.
    pub open spec fn enc(self) -> Seq<u8>
        decreases self, 1int,
    {
        match self {
            MapKeyProperty::String(s) => enc_string(s.value@),
            MapKeyProperty::StructMaybe(k) => k.enc(),
            MapKeyProperty::Enum(e) => enc_string(e.value@),
            MapKeyProperty::EnumAgain(e) => enc_string(e.value@),
            MapKeyProperty::GUID(g) => g.enc(),
            MapKeyProperty::SomeID(g) => g.enc(),
            MapKeyProperty::SomeID2(g) => g.enc(),
            MapKeyProperty::ArrayStruct(k) => k.enc(),
            MapKeyProperty::SomeID3(g) => g.enc(),
            MapKeyProperty::SoftObjectProperty(s) => enc_string(s.value@),
        }
    }
}

/// Decodes the key of one map entry, shaped by the map's key type.
pub fn decode_map_key(data: &Vec<u8>, pos: usize, kt: KeyType)
    -> (r: Result<(MapKeyProperty, usize), DecodeError>)
    ensures
        r matches Ok(p) ==> {
            &&& p.0.wf()
            &&& key_variant_matches(p.0, kt)
            &&& encoded_at(data@, pos as int, p.0.enc())
            &&& pos < p.1 <= data@.len()
            &&& p.1 == pos + p.0.enc().len()
        },
    decreases data@.len() - pos, 5int,
{
    match kt {
        KeyType::String => {
            match read_string_with_length(data, pos) {
                Ok((s, end)) => Ok((MapKeyProperty::String(StringMapKey { value: s }), end)),
                Err(e) => Err(e),
            }
        },
        KeyType::SoftObjectProperty => {
            match read_string_with_length(data, pos) {
                Ok((s, end)) => Ok((
                    MapKeyProperty::SoftObjectProperty(StringMapKey { value: s }),
                    end,
                )),
                Err(e) => Err(e),
            }
        },
        KeyType::Enum => {
            match read_string_with_length(data, pos) {
                Ok((s, end)) => Ok((MapKeyProperty::Enum(MapSubEnumProperty { value: s }), end)),
                Err(e) => Err(e),
            }
        },
        KeyType::EnumAgain => {
            match read_string_with_length(data, pos) {
                Ok((s, end)) => Ok((
                    MapKeyProperty::EnumAgain(MapSubEnumProperty { value: s }),
                    end,
                )),
                Err(e) => Err(e),
            }
        },
        KeyType::GUID => {
            match Guid::decode(data, pos) {
                Ok((g, end)) => Ok((MapKeyProperty::GUID(g), end)),
                Err(e) => Err(e),
            }
        },
        KeyType::SomeID => {
            match Guid::decode(data, pos) {
                Ok((g, end)) => Ok((MapKeyProperty::SomeID(g), end)),
                Err(e) => Err(e),
            }
        },
        KeyType::SomeID2 => {
            match Guid::decode(data, pos) {
                Ok((g, end)) => Ok((MapKeyProperty::SomeID2(g), end)),
                Err(e) => Err(e),
            }
        },
        KeyType::Unknown2 => {
            match Guid::decode(data, pos) {
                Ok((g, end)) => Ok((MapKeyProperty::SomeID3(g), end)),
                Err(e) => Err(e),
            }
        },
        KeyType::StructMaybe => {
            match StructMaybeKey::decode(data, pos) {
                Ok((k, end)) => Ok((MapKeyProperty::StructMaybe(k), end)),
                Err(e) => Err(e),
            }
        },
        KeyType::ArrayStruct => {
            match StructMaybeKey::decode(data, pos) {
                Ok((k, end)) => Ok((MapKeyProperty::ArrayStruct(k), end)),
                Err(e) => Err(e),
            }
        },
        _ => Err(DecodeError::UnknownTypeTag),
    }
}

/// Appends the wire form of a map key.
pub fn encode_map_key(out: &mut Vec<u8>, k: &MapKeyProperty)
    requires
        k.wf(),
    ensures
        final(out)@ == old(out)@ + k.enc(),
    decreases *k, 5int,
{
    match k {
        MapKeyProperty::String(s) => write_string_with_length(out, s.value.as_str()),
        MapKeyProperty::StructMaybe(sk) => sk.encode(out),
        MapKeyProperty::Enum(e) => write_string_with_length(out, e.value.as_str()),
        MapKeyProperty::EnumAgain(e) => write_string_with_length(out, e.value.as_str()),
        MapKeyProperty::GUID(g) => g.encode(out),
        MapKeyProperty::SomeID(g) => g.encode(out),
        MapKeyProperty::SomeID2(g) => g.encode(out),
        MapKeyProperty::ArrayStruct(sk) => sk.encode(out),
        MapKeyProperty::SomeID3(g) => g.encode(out),
        MapKeyProperty::SoftObjectProperty(s) => write_string_with_length(out, s.value.as_str()),
    }
}

/// A map entry's value: a shortened form of a property, selected by the
/// map's value type tag.
#[derive(Debug)]
pub enum MabSubProperty {
    Name(MapSubNameProperty),
    Struct(MapSubStructProperty),
    Float(MapSubFloatProperty),
    String(MapSubStrProperty),
    Bool(MapSubBoolProperty),
    Int(MapSubIntProperty),
    Enum(MapSubEnumProperty),
}

/// Which value type tag each value variant answers to.
pub open spec fn sub_tag_matches(v: MabSubProperty, t: Seq<char>) -> bool {
    match v {
        MabSubProperty::Name(_) => t == "NameProperty"@,
        MabSubProperty::Struct(_) => t == "StructProperty"@,
        MabSubProperty::Float(_) => t == "FloatProperty"@,
        MabSubProperty::String(_) => t == "StrProperty"@,
        MabSubProperty::Bool(_) => t == "BoolProperty"@,
        MabSubProperty::Int(_) => t == "IntProperty"@,
        MabSubProperty::Enum(_) => t == "EnumProperty"@,
    }
}

impl MabSubProperty {
    pub open spec fn wf(self) -> bool
        decreases self, 2int,
    {
        match self {
            MabSubProperty::Name(v) => str_fits(v.value@),
            MabSubProperty::Struct(v) => wf_entries(v.fields@),
            MabSubProperty::Float(_) => true,
            MabSubProperty::String(v) => str_fits(v.value@),
            MabSubProperty::Bool(_) => true,
            MabSubProperty::Int(_) => true,
            MabSubProperty::Enum(v) => str_fits(v.value@),
        }
    }

    /// The wire bytes of this value.
    pub open spec fn enc(self) -> Seq<u8>
        decreases self, 2int,
    {
        match self {
            MabSubProperty::Name(v) => enc_string(v.value@),
            MabSubProperty::Struct(v) => enc_entry_list(v.fields@),
            MabSubProperty::Float(v) => spec_u32_to_le_bytes(v.bits),
            MabSubProperty::String(v) => enc_string(v.value@),
            MabSubProperty::Bool(v) => seq![if v.value { 1u8 } else { 0u8 }],
            MabSubProperty::Int(v) => spec_u32_to_le_bytes(v.value),
            MabSubProperty::Enum(v) => enc_string(v.value@),
        }
    }
}

/// Decodes the value of one map entry, shaped by the map's value type tag.
pub fn decode_map_sub(data: &Vec<u8>, pos: usize, tag: &str)
    -> (r: Result<(MabSubProperty, usize), DecodeError>)
    ensures
        r matches Ok(p) ==> {
            &&& p.0.wf()
            &&& sub_tag_matches(p.0, tag@)
            &&& encoded_at(data@, pos as int, p.0.enc())
            &&& pos < p.1 <= data@.len()
            &&& p.1 == pos + p.0.enc().len()
        },
    decreases data@.len() - pos, 20int,
{
    proof {
        lemma_auto_spec_u32_to_from_le_bytes();
    }
    if str_eq(tag, "NameProperty") {
        match read_string_with_length(data, pos) {
            Ok((s, end)) => Ok((MabSubProperty::Name(MapSubNameProperty { value: s }), end)),
            Err(e) => Err(e),
        }
    } else if str_eq(tag, "StrProperty") {
        match read_string_with_length(data, pos) {
            Ok((s, end)) => Ok((MabSubProperty::String(MapSubStrProperty { value: s }), end)),
            Err(e) => Err(e),
        }
    } else if str_eq(tag, "EnumProperty") {
        match read_string_with_length(data, pos) {
            Ok((s, end)) => Ok((MabSubProperty::Enum(MapSubEnumProperty { value: s }), end)),
            Err(e) => Err(e),
        }
    } else if str_eq(tag, "IntProperty") {
        match read_u32(data, pos) {
            Ok(x) => {
                let dlen = data.len();
                Ok((MabSubProperty::Int(MapSubIntProperty { value: x }), pos + 4))
            },
            Err(e) => Err(e),
        }
    } else if str_eq(tag, "FloatProperty") {
        match read_u32(data, pos) {
            Ok(x) => {
                let dlen = data.len();
                Ok((MabSubProperty::Float(MapSubFloatProperty { bits: x }), pos + 4))
            },
            Err(e) => Err(e),
        }
    } else if str_eq(tag, "BoolProperty") {
        let b = match read_u8(data, pos) {
            Ok(x) => x,
            Err(e) => {
                return Err(e);
            },
        };
        if b > 1 {
            return Err(DecodeError::InvalidValue);
        }
        let dlen = data.len();
        let v = MabSubProperty::Bool(MapSubBoolProperty { value: b == 1 });
        proof {
            assert(v.enc() =~= data@.subrange(pos as int, pos + 1));
        }
        Ok((v, pos + 1))
    } else if str_eq(tag, "StructProperty") {
        match decode_entry_list(data, pos) {
            Ok((fields, end)) => Ok((MabSubProperty::Struct(MapSubStructProperty { fields }), end)),
            Err(e) => Err(e),
        }
    } else {
        Err(DecodeError::UnknownTypeTag)
    }
}

/// Appends the wire form of a map entry's value.
pub fn encode_map_sub(out: &mut Vec<u8>, v: &MabSubProperty)
    requires
        v.wf(),
    ensures
        final(out)@ == old(out)@ + v.enc(),
    decreases *v, 20int,
{
    match v {
        MabSubProperty::Name(s) => write_string_with_length(out, s.value.as_str()),
        MabSubProperty::Struct(s) => encode_entry_list(out, &s.fields),
        MabSubProperty::Float(f) => write_u32(out, f.bits),
        MabSubProperty::String(s) => write_string_with_length(out, s.value.as_str()),
        MabSubProperty::Bool(b) => {
            out.push(crate::common::write_bool_as(&b.value));
            proof {
                assert(out@ =~= old(out)@ + v.enc());
            }
        },
        MabSubProperty::Int(i) => write_u32(out, i.value),
        MabSubProperty::Enum(s) => write_string_with_length(out, s.value.as_str()),
    }
}

/// One key/value pair of a map.
#[derive(Debug)]
pub struct MapEntry {
    pub key: MapKeyProperty,
    pub value: MabSubProperty,
}

impl MapEntry {
    /// Validity relative to the map's key type and value type tag.
    pub open spec fn wf_in(self, kt: KeyType, vt: Seq<char>) -> bool
        decreases self, 3int,
    {
        &&& self.key.wf()
        &&& key_variant_matches(self.key, kt)
        &&& self.value.wf()
        &&& sub_tag_matches(self.value, vt)
    }

    /// The wire bytes of this pair: the key, then the value.
    pub open spec fn enc(self) -> Seq<u8>
        decreases self, 3int,
    {
        self.key.enc() + self.value.enc()
    }
}

/// Every entry is well formed for the map's two type descriptors.
pub open spec fn wf_map_entries(s: Seq<MapEntry>, kt: KeyType, vt: Seq<char>) -> bool
    decreases s, 4int,
{
    forall|i: int| 0 <= i < s.len() ==> (#[trigger] s[i]).wf_in(kt, vt)
}

/// The concatenated wire bytes of a map's entries.
pub open spec fn enc_map_entries(s: Seq<MapEntry>) -> Seq<u8>
    decreases s, 4int,
{
    if s.len() == 0 {
        Seq::<u8>::empty()
    } else {
        enc_map_entries(s.drop_last()) + s.last().enc()
    }
}

pub proof fn lemma_enc_map_entries_push(s: Seq<MapEntry>, e: MapEntry)
    ensures
        enc_map_entries(s.push(e)) == enc_map_entries(s) + e.enc(),
{
    assert(s.push(e).drop_last() =~= s);
    assert(s.push(e).last() == e);
}

/// Decodes one map entry: a key shaped by `kt`, then a value shaped by
/// `tag`.
pub fn decode_map_entry(data: &Vec<u8>, pos: usize, kt: KeyType, tag: &str)
    -> (r: Result<(MapEntry, usize), DecodeError>)
    ensures
        r matches Ok(p) ==> {
            &&& p.0.wf_in(kt, tag@)
            &&& encoded_at(data@, pos as int, p.0.enc())
            &&& pos < p.1 <= data@.len()
            &&& p.1 == pos + p.0.enc().len()
        },
    decreases data@.len() - pos, 6int,
{
    let (key, mid) = match decode_map_key(data, pos, kt) {
        Ok(p) => p,
        Err(e) => {
            return Err(e);
        },
    };
    let (value, end) = match decode_map_sub(data, mid, tag) {
        Ok(p) => p,
        Err(e) => {
            return Err(e);
        },
    };
    let v = MapEntry { key, value };
    proof {
        assert(v.enc() =~= data@.subrange(pos as int, end as int));
    }
    Ok((v, end))
}

/// A map property: a key name and a value name (the value's property type
/// tag), a numeric key type, and the entries.
///
/// Wire form: a `u32` size field covering the key type field, its
/// preceding padding, and the entries region; four zero padding bytes; the
/// key name; the value name; five zero padding bytes; the key type code;
/// then the entries packed back to back.  The entries region is bounded by
/// the size field, not by a count.
#[derive(Debug)]
pub struct MapProperty {
    pub key_name: String,
    pub value_name: String,
    pub map_key_type: KeyType,
    pub entries: Vec<MapEntry>,
}

impl MapProperty {
    pub open spec fn wf(self) -> bool
        decreases self, 5int,
    {
        &&& str_fits(self.key_name@)
        &&& str_fits(self.value_name@)
        &&& wf_map_entries(self.entries@, self.map_key_type, self.value_name@)
        &&& enc_map_entries(self.entries@).len() + 8 <= u32::MAX
    }

    /// The number of bytes the size field declares: the five padding bytes
    /// and key type code before the entries, plus the entries themselves.
    pub open spec fn declared_size(self) -> int
        decreases self, 5int,
    {
        enc_map_entries(self.entries@).len() + 8int
    }

    /// The wire bytes of this property.
    pub open spec fn enc(self) -> Seq<u8>
        decreases self, 6int,
    {
        spec_u32_to_le_bytes(self.declared_size() as u32) + zero_bytes(4)
            + enc_string(self.key_name@) + enc_string(self.value_name@) + zero_bytes(5)
            + spec_u32_to_le_bytes(key_type_code(self.map_key_type))
            + enc_map_entries(self.entries@)
    }

    /// Container byte bound: a map's wire form ends exactly at its
    /// entries' start plus the declared size minus the eight bytes of
    /// overhead that the size field covers besides the entries.
    pub proof fn lemma_byte_bound(self)
        requires
            self.wf(),
        ensures
            self.enc().len() == 17 + enc_string(self.key_name@).len()
                + enc_string(self.value_name@).len() + (self.declared_size() - 8),
    {
        lemma_auto_spec_u32_to_from_le_bytes();
    }

    pub fn tag_name() -> (r: &'static str)
        ensures
            r@ == "MapProperty"@,
    {
        "MapProperty"
    }

    /// Decodes a map property at `pos`.  The entries region is parsed
    /// entry by entry until the byte bound declared by the size field is
    /// reached; overshooting or undershooting it fails the parse.
    #[verifier::rlimit(100)]
    pub fn decode(data: &Vec<u8>, pos: usize) -> (r: Result<(MapProperty, usize), DecodeError>)
        ensures
            r matches Ok(p) ==> {
                &&& p.0.wf()
                &&& encoded_at(data@, pos as int, p.0.enc())
                &&& pos < p.1 <= data@.len()
                &&& p.1 == pos + p.0.enc().len()
            },
        decreases data@.len() - pos, 7int,
    {
        proof {
            lemma_auto_spec_u32_to_from_le_bytes();
        }
        let dlen = data.len();
        let size = match read_u32(data, pos) {
            Ok(x) => x,
            Err(e) => {
                return Err(e);
            },
        };
        match read_zeros(data, pos + 4, 4) {
            Ok(_) => {},
            Err(e) => {
                return Err(e);
            },
        }
        let (key_name, p1) = match read_string_with_length(data, pos + 8) {
            Ok(p) => p,
            Err(e) => {
                return Err(e);
            },
        };
        let (value_name, p2) = match read_string_with_length(data, p1) {
            Ok(p) => p,
            Err(e) => {
                return Err(e);
            },
        };
        match read_zeros(data, p2, 5) {
            Ok(_) => {},
            Err(e) => {
                return Err(e);
            },
        }
        let code = match read_u32(data, p2 + 5) {
            Ok(x) => x,
            Err(e) => {
                return Err(e);
            },
        };
        let kt = match KeyType::from_code(code) {
            Some(k) => k,
            None => {
                return Err(DecodeError::UnknownTypeTag);
            },
        };
        if size < 8 {
            return Err(DecodeError::LengthMismatch);
        }
        let entries_start = p2 + 9;
        let body_len = (size - 8) as usize;
        if body_len > dlen - entries_start {
            return Err(DecodeError::TruncatedBuffer);
        }
        let target = entries_start + body_len;
        let mut entries: Vec<MapEntry> = Vec::new();
        let mut cur = entries_start;
        while cur < target
            invariant
                entries_start <= cur <= target <= dlen,
                dlen == data@.len(),
                pos < entries_start,
                wf_map_entries(entries@, kt, value_name@),
                enc_map_entries(entries@) == data@.subrange(entries_start as int, cur as int),
            decreases target - cur,
        {
            let (e, nxt) = match decode_map_entry(data, cur, kt, value_name.as_str()) {
                Ok(p) => p,
                Err(er) => {
                    return Err(er);
                },
            };
            if nxt > target {
                return Err(DecodeError::LengthMismatch);
            }
            proof {
                lemma_enc_map_entries_push(entries@, e);
                assert(enc_map_entries(entries@.push(e))
                    =~= data@.subrange(entries_start as int, nxt as int));
            }
            entries.push(e);
            cur = nxt;
        }
        let v = MapProperty { key_name, value_name, map_key_type: kt, entries };
        proof {
            assert(v.enc() =~= data@.subrange(pos as int, target as int));
        }
        Ok((v, target))
    }

    /// Appends the wire form of this property, recomputing the size field
    /// from the entries actually held.
    pub fn encode(&self, out: &mut Vec<u8>)
        requires
            self.wf(),
        ensures
            final(out)@ == old(out)@ + self.enc(),
        decreases *self, 8int,
    {
        let size = self.calc_entry_size_in_bytes();
        write_u32(out, size as u32);
        let mut body: Vec<u8> = Vec::new();
        let n = self.entries.len();
        let mut i: usize = 0;
        while i < n
            invariant
                0 <= i <= n,
                n == self.entries@.len(),
                wf_map_entries(self.entries@, self.map_key_type, self.value_name@),
                body@ == enc_map_entries(self.entries@.subrange(0, i as int)),
            decreases n - i,
        {
            encode_map_key(&mut body, &self.entries[i].key);
            encode_map_sub(&mut body, &self.entries[i].value);
            proof {
                assert(self.entries@.subrange(0, i + 1)
                    =~= self.entries@.subrange(0, i as int).push(self.entries@[i as int]));
                lemma_enc_map_entries_push(self.entries@.subrange(0, i as int),
                    self.entries@[i as int]);
                assert(body@ =~= enc_map_entries(self.entries@.subrange(0, i as int))
                    + self.entries@[i as int].enc());
            }
            i = i + 1;
        }
        proof {
            assert(self.entries@.subrange(0, n as int) =~= self.entries@);
        }
        write_zeros(out, 4);
        write_string_with_length(out, self.key_name.as_str());
        write_string_with_length(out, self.value_name.as_str());
        write_zeros(out, 5);
        write_u32(out, self.map_key_type.code());
        out.append(&mut body);
        proof {
            assert(out@ =~= old(out)@ + self.enc());
        }
    }

    /// The value of the leading size field the encoder emits: the entries'
    /// exact byte length plus the eight bytes of overhead the field covers
    /// besides them (the five padding bytes and the key type code).
    pub fn calc_entry_size_in_bytes(&self) -> (r: u64)
        requires
            self.wf(),
        ensures
            r == self.declared_size(),
        decreases *self, 7int,
    {
        let mut body: Vec<u8> = Vec::new();
        let n = self.entries.len();
        let mut i: usize = 0;
        while i < n
            invariant
                0 <= i <= n,
                n == self.entries@.len(),
                wf_map_entries(self.entries@, self.map_key_type, self.value_name@),
                body@ == enc_map_entries(self.entries@.subrange(0, i as int)),
            decreases n - i,
        {
            encode_map_key(&mut body, &self.entries[i].key);
            encode_map_sub(&mut body, &self.entries[i].value);
            proof {
                assert(self.entries@.subrange(0, i + 1)
                    =~= self.entries@.subrange(0, i as int).push(self.entries@[i as int]));
                lemma_enc_map_entries_push(self.entries@.subrange(0, i as int),
                    self.entries@[i as int]);
                assert(body@ =~= enc_map_entries(self.entries@.subrange(0, i as int))
                    + self.entries@[i as int].enc());
            }
            i = i + 1;
        }
        proof {
            assert(self.entries@.subrange(0, n as int) =~= self.entries@);
        }
        8 + (body.len() as u64)
    }

    /// The full wire size of this property.
    pub fn size_in_bytes(&self) -> (r: u64)
        requires
            self.wf(),
        ensures
            r == self.enc().len(),
        decreases *self, 9int,
    {
        proof {
            lemma_auto_spec_u32_to_from_le_bytes();
        }
        let size_field = self.calc_entry_size_in_bytes();
        9 + crate::common::size_of_string_with_length(self.key_name.as_str()) as u64
            + crate::common::size_of_string_with_length(self.value_name.as_str()) as u64
            + size_field
    }
}

} // verus!

use vstd::prelude::*;

verus! {

use vstd::bytes::{spec_u32_to_le_bytes, lemma_auto_spec_u32_to_from_le_bytes};
use vstd::utf8::encode_utf8;
use crate::DecodeError;
use crate::common::{str_fits, zero_bytes, enc_string, encoded_at, read_u32, write_u32,
    read_zeros, write_zeros, read_string_with_length, write_string_with_length};
use crate::map_property::{KeyType, key_type_code, StringMapKey};
use crate::struct_property::{Struct, struct_has_name, decode_struct_body, encode_struct};

/// What an array's key type implies about each entry, read once in the
/// array's header.  A struct-keyed array announces the field name, the
/// property type tag, and the struct name of all its entries up front.
#[derive(Debug)]
pub enum ArrayKeyData {
    String,
    Struct { name: String, tag_name: String, struct_name: String },
}

/// Wire form of the key data, given the byte length of the entries region
/// that follows it: a struct-keyed array embeds that length once more
/// between its announcing strings.
pub open spec fn enc_key_data(kd: ArrayKeyData, body_len: int) -> Seq<u8> {
    match kd {
        ArrayKeyData::String => Seq::<u8>::empty(),
        ArrayKeyData::Struct { name, tag_name, struct_name } => enc_string(name@)
            + enc_string(tag_name@) + spec_u32_to_le_bytes(body_len as u32) + zero_bytes(4)
            + enc_string(struct_name@) + zero_bytes(17),
    }
}

/// The header overhead that the array's size field covers beyond the
/// entries region, as the format computes it.
pub open spec fn spec_header_size(key_name: Seq<char>, kd: ArrayKeyData) -> int {
    match kd {
        ArrayKeyData::String => 0,
        ArrayKeyData::Struct { name, tag_name, struct_name } => encode_utf8(name@).len()
            + encode_utf8(tag_name@).len() + encode_utf8(struct_name@).len() + 18 + 7
            + encode_utf8(key_name).len() + 1int,
    }
}

/// The header overhead of an array with the given key name and key data:
/// everything its size field covers beyond the entries region and the size
/// field itself.
pub fn calculate_header_size(key_name: &str, array_key_data: &ArrayKeyData) -> (r: u64)
    requires
        str_fits(key_name@),
        array_key_data matches ArrayKeyData::Struct { name, tag_name, struct_name }
            ==> str_fits(name@) && str_fits(tag_name@) && str_fits(struct_name@),
    ensures
        r == spec_header_size(key_name@, *array_key_data),
{
    match array_key_data {
        ArrayKeyData::String => 0,
        ArrayKeyData::Struct { name, tag_name, struct_name } => {
            (name.as_str().len() as u64) + (tag_name.as_str().len() as u64)
                + (struct_name.as_str().len() as u64) + 18 + 7 + (key_name.len() as u64) + 1
        },
    }
}


/// Reads the key data of a struct-keyed array: the announcing field name
/// and type tag, the embedded length of the entries region, the struct
/// name, and the fixed padding runs around them.
fn read_struct_key_data(data: &Vec<u8>, pos: usize)
    -> (r: Result<(ArrayKeyData, u32, usize), DecodeError>)
    ensures
        r matches Ok(p) ==> {
            &&& p.0 matches ArrayKeyData::Struct { name, tag_name, struct_name }
                && str_fits(name@) && str_fits(tag_name@) && str_fits(struct_name@)
            &&& encoded_at(data@, pos as int, enc_key_data(p.0, p.1 as int))
            &&& pos < p.2 <= data@.len()
            &&& p.2 == pos + enc_key_data(p.0, p.1 as int).len()
        },
{
    proof {
        lemma_auto_spec_u32_to_from_le_bytes();
    }
    let dlen = data.len();
    let (name, p2) = match read_string_with_length(data, pos) {
        Ok(p) => p,
        Err(e) => {
            return Err(e);
        },
    };
    let (tag_name, p3) = match read_string_with_length(data, p2) {
        Ok(p) => p,
        Err(e) => {
            return Err(e);
        },
    };
    let inner = match read_u32(data, p3) {
        Ok(x) => x,
        Err(e) => {
            return Err(e);
        },
    };
    match read_zeros(data, p3 + 4, 4) {
        Ok(_) => {},
        Err(e) => {
            return Err(e);
        },
    }
    let (struct_name, p4) = match read_string_with_length(data, p3 + 8) {
        Ok(p) => p,
        Err(e) => {
            return Err(e);
        },
    };
    match read_zeros(data, p4, 17) {
        Ok(_) => {},
        Err(e) => {
            return Err(e);
        },
    }
    let kd = ArrayKeyData::Struct { name, tag_name, struct_name };
    proof {
        assert(enc_key_data(kd, inner as int)
            =~= data@.subrange(pos as int, p4 + 17));
    }
    Ok((kd, inner, p4 + 17))
}

/// One value of an array, shaped by the array's key data.
#[derive(Debug)]
pub enum ArrayValue {
    Struct(Struct),
    String(StringMapKey),
}

/// Whether a value has the shape the array's key data announces.
pub open spec fn array_value_matches(v: ArrayValue, kd: ArrayKeyData) -> bool {
    match v {
        ArrayValue::Struct(st) => match kd {
            ArrayKeyData::Struct { struct_name, .. } => struct_has_name(st, struct_name@),
            ArrayKeyData::String => false,
        },
        ArrayValue::String(_) => kd is String,
    }
}

impl ArrayValue {
    pub open spec fn wf(self) -> bool
        decreases self, 0int,
    {
        match self {
            ArrayValue::Struct(st) => st.wf(),
            ArrayValue::String(s) => str_fits(s.value@),
        }
    }

    /// The wire bytes of this value.
    pub open spec fn enc(self) -> Seq<u8>
        decreases self, 0int,
    {
        match self {
            ArrayValue::Struct(st) => st.enc(),
            ArrayValue::String(s) => enc_string(s.value@),
        }
    }
}

/// One entry of an array.
#[derive(Debug)]
pub struct ArrayEntry {
    pub key: ArrayValue,
}

impl ArrayEntry {
    pub open spec fn wf(self) -> bool
        decreases self, 1int,
    {
        self.key.wf()
    }

    pub open spec fn enc(self) -> Seq<u8>
        decreases self, 1int,
    {
        self.key.enc()
    }
}

/// The concatenated wire bytes of an array's entries.
pub open spec fn enc_array_entries(s: Seq<ArrayEntry>) -> Seq<u8>
    decreases s, 2int,
{
    if s.len() == 0 {
        Seq::<u8>::empty()
    } else {
        enc_array_entries(s.drop_last()) + s.last().enc()
    }
}

/// Every entry is well formed and shaped as the key data announces.
pub open spec fn wf_array_entries(s: Seq<ArrayEntry>, kd: ArrayKeyData) -> bool
    decreases s, 2int,
{
    forall|i: int| 0 <= i < s.len()
        ==> (#[trigger] s[i]).wf() && array_value_matches(s[i].key, kd)
}

pub proof fn lemma_enc_array_entries_push(s: Seq<ArrayEntry>, e: ArrayEntry)
    ensures
        enc_array_entries(s.push(e)) == enc_array_entries(s) + e.enc(),
{
    assert(s.push(e).drop_last() =~= s);
    assert(s.push(e).last() == e);
}

/// Decodes one array entry, shaped by the array's key data.
pub fn decode_array_entry(data: &Vec<u8>, pos: usize, kd: &ArrayKeyData)
    -> (r: Result<(ArrayEntry, usize), DecodeError>)
    ensures
        r matches Ok(p) ==> {
            &&& p.0.wf()
            &&& array_value_matches(p.0.key, *kd)
            &&& encoded_at(data@, pos as int, p.0.enc())
            &&& pos < p.1 <= data@.len()
            &&& p.1 == pos + p.0.enc().len()
        },
    decreases data@.len() - pos, 6int,
{
    match kd {
        ArrayKeyData::String => {
            match read_string_with_length(data, pos) {
                Ok((s, end)) => Ok((
                    ArrayEntry { key: ArrayValue::String(StringMapKey { value: s }) },
                    end,
                )),
                Err(e) => Err(e),
            }
        },
        ArrayKeyData::Struct { struct_name, .. } => {
            match decode_struct_body(data, pos, struct_name.as_str()) {
                Ok((st, end)) => Ok((ArrayEntry { key: ArrayValue::Struct(st) }, end)),
                Err(e) => Err(e),
            }
        },
    }
}

/// An array property: a key name (the entries' property type tag), the
/// numeric key type, the key data, and the entries.
///
/// Wire form: a `u32` size field covering the size field itself, the
/// header overhead, and the entries region; four zero padding bytes; the
/// key name; one zero padding byte; the key type code; the key data; then
/// the entries packed back to back.  The entries region is bounded by byte
/// accounting, not by a count.
#[derive(Debug)]
pub struct ArrayProperty {
    pub key_name: String,
    pub key_type: KeyType,
    pub key_data: ArrayKeyData,
    pub entries: Vec<ArrayEntry>,
}

impl ArrayProperty {
    pub open spec fn wf(self) -> bool
        decreases self, 3int,
    {
        &&& str_fits(self.key_name@)
        &&& match self.key_data {
            ArrayKeyData::String => self.key_type == KeyType::String,
            ArrayKeyData::Struct { name, tag_name, struct_name } => {
                &&& self.key_type == KeyType::ArrayStruct
                &&& str_fits(name@)
                &&& str_fits(tag_name@)
                &&& str_fits(struct_name@)
            },
        }
        &&& wf_array_entries(self.entries@, self.key_data)
        &&& enc_array_entries(self.entries@).len() + 4
            + spec_header_size(self.key_name@, self.key_data) <= u32::MAX
    }

    /// The byte count the size field declares: the size field itself, the
    /// header overhead, and the entries region.
    pub open spec fn declared_size(self) -> int
        decreases self, 3int,
    {
        enc_array_entries(self.entries@).len() + 4
            + spec_header_size(self.key_name@, self.key_data)
    }

    /// The wire bytes of this property.
    pub open spec fn enc(self) -> Seq<u8>
        decreases self, 4int,
    {
        spec_u32_to_le_bytes(self.declared_size() as u32) + zero_bytes(4)
            + enc_string(self.key_name@) + zero_bytes(1)
            + spec_u32_to_le_bytes(key_type_code(self.key_type))
            + enc_key_data(self.key_data, enc_array_entries(self.entries@).len() as int)
            + enc_array_entries(self.entries@)
    }

    /// Container byte bound: an array's wire form ends exactly at its
    /// entries' start plus the declared size minus the size field's own
    /// four bytes and the key-dependent header overhead.
    pub proof fn lemma_byte_bound(self)
        requires
            self.wf(),
        ensures
            self.enc().len() == 13 + enc_string(self.key_name@).len()
                + enc_key_data(self.key_data, enc_array_entries(self.entries@).len() as int).len()
                + (self.declared_size() - 4 - spec_header_size(self.key_name@, self.key_data)),
    {
        lemma_auto_spec_u32_to_from_le_bytes();
    }

    pub fn tag_name() -> (r: &'static str)
        ensures
            r@ == "ArrayProperty"@,
    {
        "ArrayProperty"
    }

    /// Decodes an array property at `pos`.  The entries region is parsed
    /// entry by entry until the byte bound computed from the size field
    /// and the header overhead is reached exactly; overshooting or
    /// undershooting it fails the parse.
    #[verifier::rlimit(100)]
    pub fn decode(data: &Vec<u8>, pos: usize) -> (r: Result<(ArrayProperty, usize), DecodeError>)
        ensures
            r matches Ok(p) ==> {
                &&& p.0.wf()
                &&& encoded_at(data@, pos as int, p.0.enc())
                &&& pos < p.1 <= data@.len()
                &&& p.1 == pos + p.0.enc().len()
            },
        decreases data@.len() - pos, 7int,
    {
        proof {
            lemma_auto_spec_u32_to_from_le_bytes();
        }
        let dlen = data.len();
        let size = match read_u32(data, pos) {
            Ok(x) => x,
            Err(e) => {
                return Err(e);
            },
        };
        match read_zeros(data, pos + 4, 4) {
            Ok(_) => {},
            Err(e) => {
                return Err(e);
            },
        }
        let (key_name, p1) = match read_string_with_length(data, pos + 8) {
            Ok(p) => p,
            Err(e) => {
                return Err(e);
            },
        };
        match read_zeros(data, p1, 1) {
            Ok(_) => {},
            Err(e) => {
                return Err(e);
            },
        }
        let code = match read_u32(data, p1 + 1) {
            Ok(x) => x,
            Err(e) => {
                return Err(e);
            },
        };
        if code == 1 {
            // String-keyed array: the entries follow immediately.
            let key_data = ArrayKeyData::String;
            if size < 4 {
                return Err(DecodeError::LengthMismatch);
            }
            let entries_start = p1 + 5;
            let body_len = (size - 4) as usize;
            if body_len > dlen - entries_start {
                return Err(DecodeError::TruncatedBuffer);
            }
            let target = entries_start + body_len;
            let entries = match Self::decode_entries(data, entries_start, target, &key_data) {
                Ok(v) => v,
                Err(e) => {
                    return Err(e);
                },
            };
            let v = ArrayProperty { key_name, key_type: KeyType::String, key_data, entries };
            proof {
                assert(v.enc() =~= data@.subrange(pos as int, target as int));
            }
            Ok((v, target))
        } else if code == 0xA {
            // Struct-keyed array: three announcing strings, the entries
            // region's length once more, and the fixed padding runs.
            let (key_data, inner, p4) = match read_struct_key_data(data, p1 + 5) {
                Ok(p) => p,
                Err(e) => {
                    return Err(e);
                },
            };
            let header = calculate_header_size(key_name.as_str(), &key_data);
            if (size as u64) < 4 + header {
                return Err(DecodeError::LengthMismatch);
            }
            let body_len64 = (size as u64) - 4 - header;
            if (inner as u64) != body_len64 {
                return Err(DecodeError::LengthMismatch);
            }
            let entries_start = p4;
            let body_len = inner as usize;
            if body_len > dlen - entries_start {
                return Err(DecodeError::TruncatedBuffer);
            }
            let target = entries_start + body_len;
            let entries = match Self::decode_entries(data, entries_start, target, &key_data) {
                Ok(v) => v,
                Err(e) => {
                    return Err(e);
                },
            };
            let v = ArrayProperty { key_name, key_type: KeyType::ArrayStruct, key_data, entries };
            proof {
                assert(v.enc() =~= data@.subrange(pos as int, target as int));
            }
            Ok((v, target))
        } else {
            Err(DecodeError::UnknownTypeTag)
        }
    }

    /// Parses the entries region between `pos` and `target`, which must be
    /// met exactly.
    fn decode_entries(data: &Vec<u8>, pos: usize, target: usize, kd: &ArrayKeyData)
        -> (r: Result<Vec<ArrayEntry>, DecodeError>)
        requires
            pos <= target <= data@.len(),
        ensures
            r matches Ok(v) ==> {
                &&& wf_array_entries(v@, *kd)
                &&& enc_array_entries(v@) == data@.subrange(pos as int, target as int)
            },
        decreases data@.len() - pos, 7int,
    {
        let dlen = data.len();
        let mut entries: Vec<ArrayEntry> = Vec::new();
        let mut cur = pos;
        while cur < target
            invariant
                pos <= cur <= target <= dlen,
                dlen == data@.len(),
                wf_array_entries(entries@, *kd),
                enc_array_entries(entries@) == data@.subrange(pos as int, cur as int),
            decreases target - cur,
        {
            let (e, nxt) = match decode_array_entry(data, cur, kd) {
                Ok(p) => p,
                Err(er) => {
                    return Err(er);
                },
            };
            if nxt > target {
                return Err(DecodeError::LengthMismatch);
            }
            proof {
                lemma_enc_array_entries_push(entries@, e);
                assert(enc_array_entries(entries@.push(e))
                    =~= data@.subrange(pos as int, nxt as int));
            }
            entries.push(e);
            cur = nxt;
        }
        Ok(entries)
    }

    /// Appends the wire form of this property, recomputing the size field
    /// from the entries actually held.
    pub fn encode(&self, out: &mut Vec<u8>)
        requires
            self.wf(),
        ensures
            final(out)@ == old(out)@ + self.enc(),
        decreases *self, 7int,
    {
        let mut body: Vec<u8> = Vec::new();
        let n = self.entries.len();
        let mut i: usize = 0;
        while i < n
            invariant
                0 <= i <= n,
                n == self.entries@.len(),
                wf_array_entries(self.entries@, self.key_data),
                body@ == enc_array_entries(self.entries@.subrange(0, i as int)),
            decreases n - i,
        {
            match &self.entries[i].key {
                ArrayValue::Struct(st) => encode_struct(&mut body, st),
                ArrayValue::String(s) => write_string_with_length(&mut body, s.value.as_str()),
            }
            proof {
                assert(self.entries@.subrange(0, i + 1)
                    =~= self.entries@.subrange(0, i as int).push(self.entries@[i as int]));
                lemma_enc_array_entries_push(self.entries@.subrange(0, i as int),
                    self.entries@[i as int]);
                assert(body@ =~= enc_array_entries(self.entries@.subrange(0, i as int))
                    + self.entries@[i as int].enc());
            }
            i = i + 1;
        }
        proof {
            assert(self.entries@.subrange(0, n as int) =~= self.entries@);
        }
        let header = calculate_header_size(self.key_name.as_str(), &self.key_data);
        write_u32(out, (body.len() as u64 + 4 + header) as u32);
        write_zeros(out, 4);
        write_string_with_length(out, self.key_name.as_str());
        write_zeros(out, 1);
        write_u32(out, self.key_type.code());
        match &self.key_data {
            ArrayKeyData::String => {},
            ArrayKeyData::Struct { name, tag_name, struct_name } => {
                write_string_with_length(out, name.as_str());
                write_string_with_length(out, tag_name.as_str());
                write_u32(out, body.len() as u32);
                write_zeros(out, 4);
                write_string_with_length(out, struct_name.as_str());
                write_zeros(out, 17);
            },
        }
        crate::common::write_bytes(out, &body);
        proof {
            assert(out@ =~= old(out)@ + self.enc());
        }
    }
}

} // verus!

use vstd::prelude::*;

verus! {

use vstd::bytes::{spec_u32_to_le_bytes, lemma_auto_spec_u32_to_from_le_bytes};
use crate::DecodeError;
use crate::common::{str_fits, zero_bytes, enc_string, encoded_at, read_u32, write_u32,
    read_zeros, write_zeros, read_string_with_length, write_string_with_length, str_eq,
    read_bytes, write_bytes};
use crate::map_property::{KeyType, key_type_code, MapSubStrProperty};
use crate::{Entry, wf_entries, enc_entry_list, decode_entry_list, encode_entry_list};

/// The byte length of the opaque payload of the "AcquiredItemBoxIds" set.
pub open spec fn acquired_item_box_len() -> int {
    736
}

/// The byte length of the opaque payload of the "OpenedStrongBoxIds" set.
pub open spec fn opened_strong_box_len() -> int {
    64
}

/// One value of a set, shaped by the set's key name and, for two known
/// fixed-size payloads, by the name of the entry that carries the set.
#[derive(Debug)]
pub enum SetValue {
    /// A nested record: a sentinel-terminated list of tagged fields, as
    /// captures of struct-keyed sets show.
    Struct { fields: Vec<Entry> },
    /// A plain string.
    String(MapSubStrProperty),
    /// The opaque fixed-size payload of the "AcquiredItemBoxIds" set.
    Unknown { unk: Vec<u8> },
    /// The opaque fixed-size payload of the "OpenedStrongBoxIds" set.
    Unknown2 { unk: Vec<u8> },
}

/// Whether a value has the shape the set's key name announces.
pub open spec fn set_value_matches(v: SetValue, key_name: Seq<char>) -> bool {
    match v {
        SetValue::Struct { .. } => key_name == "StructProperty"@,
        SetValue::String(_) => key_name == "StringProperty"@ || key_name == "NameProperty"@,
        SetValue::Unknown { .. } => key_name == "StructProperty"@,
        SetValue::Unknown2 { .. } => key_name == "StructProperty"@,
    }
}

impl SetValue {
    pub open spec fn wf(self) -> bool
        decreases self, 0int,
    {
        match self {
            SetValue::Struct { fields } => wf_entries(fields@),
            SetValue::String(s) => str_fits(s.value@),
            SetValue::Unknown { unk } => unk@.len() == acquired_item_box_len(),
            SetValue::Unknown2 { unk } => unk@.len() == opened_strong_box_len(),
        }
    }

    /// The wire bytes of this value.
    pub open spec fn enc(self) -> Seq<u8>
        decreases self, 0int,
    {
        match self {
            SetValue::Struct { fields } => enc_entry_list(fields@),
            SetValue::String(s) => enc_string(s.value@),
            SetValue::Unknown { unk } => unk@,
            SetValue::Unknown2 { unk } => unk@,
        }
    }
}

/// One entry of a set.
#[derive(Debug)]
pub struct SetEntry {
    pub key: SetValue,
}

impl SetEntry {
    pub open spec fn enc(self) -> Seq<u8>
        decreases self, 1int,
    {
        self.key.enc()
    }
}

/// The concatenated wire bytes of a set's entries.
pub open spec fn enc_set_entries(s: Seq<SetEntry>) -> Seq<u8>
    decreases s, 2int,
{
    if s.len() == 0 {
        Seq::<u8>::empty()
    } else {
        enc_set_entries(s.drop_last()) + s.last().enc()
    }
}

/// Every entry is well formed and shaped as the key name announces.
pub open spec fn wf_set_entries(s: Seq<SetEntry>, key_name: Seq<char>) -> bool
    decreases s, 2int,
{
    forall|i: int| 0 <= i < s.len()
        ==> (#[trigger] s[i]).key.wf() && set_value_matches(s[i].key, key_name)
}

pub proof fn lemma_enc_set_entries_push(s: Seq<SetEntry>, e: SetEntry)
    ensures
        enc_set_entries(s.push(e)) == enc_set_entries(s) + e.enc(),
{
    assert(s.push(e).drop_last() =~= s);
    assert(s.push(e).last() == e);
}

/// Decodes one set entry.  `key_name` is the set's own key name and
/// `entry_name` the name of the entry carrying the set: two specific
/// entry names select fixed-size opaque payloads.
pub fn decode_set_entry(data: &Vec<u8>, pos: usize, key_name: &str, entry_name: &str)
    -> (r: Result<(SetEntry, usize), DecodeError>)
    ensures
        r matches Ok(p) ==> {
            &&& p.0.key.wf()
            &&& set_value_matches(p.0.key, key_name@)
            &&& encoded_at(data@, pos as int, p.0.enc())
            &&& pos < p.1 <= data@.len()
            &&& p.1 == pos + p.0.enc().len()
        },
    decreases data@.len() - pos, 20int,
{
    proof {
        lemma_auto_spec_u32_to_from_le_bytes();
    }
    let dlen = data.len();
    if str_eq(key_name, "StructProperty") {
        if str_eq(entry_name, "AcquiredItemBoxIds") {
            let unk = match read_bytes(data, pos, 736) {
                Ok(v) => v,
                Err(e) => {
                    return Err(e);
                },
            };
            let v = SetEntry { key: SetValue::Unknown { unk } };
            return Ok((v, pos + 736));
        }
        if str_eq(entry_name, "OpenedStrongBoxIds") {
            let unk = match read_bytes(data, pos, 64) {
                Ok(v) => v,
                Err(e) => {
                    return Err(e);
                },
            };
            let v = SetEntry { key: SetValue::Unknown2 { unk } };
            return Ok((v, pos + 64));
        }
        let (fields, end) = match decode_entry_list(data, pos) {
            Ok(p) => p,
            Err(e) => {
                return Err(e);
            },
        };
        let v = SetEntry { key: SetValue::Struct { fields } };
        Ok((v, end))
    } else if str_eq(key_name, "StringProperty") || str_eq(key_name, "NameProperty") {
        match read_string_with_length(data, pos) {
            Ok((s, end)) => Ok((
                SetEntry { key: SetValue::String(MapSubStrProperty { value: s }) },
                end,
            )),
            Err(e) => Err(e),
        }
    } else {
        Err(DecodeError::UnknownTypeTag)
    }
}

/// A set property: a key name naming the entries' shape, a numeric key
/// type, and the entries.
///
/// Wire form: a `u32` size field covering the five padding bytes, the key
/// type code and the entries region; four zero padding bytes; the key
/// name; five zero padding bytes; the key type code; then the entries
/// packed back to back, bounded by byte accounting rather than a count.
#[derive(Debug)]
pub struct SetProperty {
    pub key_name: String,
    pub key_type: KeyType,
    pub entries: Vec<SetEntry>,
}

impl SetProperty {
    pub open spec fn wf(self) -> bool
        decreases self, 3int,
    {
        &&& str_fits(self.key_name@)
        &&& wf_set_entries(self.entries@, self.key_name@)
        &&& enc_set_entries(self.entries@).len() + 8 <= u32::MAX
    }

    /// The byte count the size field declares.
    pub open spec fn declared_size(self) -> int
        decreases self, 3int,
    {
        enc_set_entries(self.entries@).len() + 8int
    }

    /// The wire bytes of this property.
    pub open spec fn enc(self) -> Seq<u8>
        decreases self, 4int,
    {
        spec_u32_to_le_bytes(self.declared_size() as u32) + zero_bytes(4)
            + enc_string(self.key_name@) + zero_bytes(5)
            + spec_u32_to_le_bytes(key_type_code(self.key_type))
            + enc_set_entries(self.entries@)
    }

    /// Container byte bound: a set's wire form ends exactly at its
    /// entries' start plus the declared size minus the eight bytes of
    /// overhead that the size field covers besides the entries.
    pub proof fn lemma_byte_bound(self)
        requires
            self.wf(),
        ensures
            self.enc().len() == 17 + enc_string(self.key_name@).len()
                + (self.declared_size() - 8),
    {
        lemma_auto_spec_u32_to_from_le_bytes();
    }

    pub fn tag_name() -> (r: &'static str)
        ensures
            r@ == "SetProperty"@,
    {
        "SetProperty"
    }

    /// Decodes a set property at `pos`.  `name` is the entry name that
    /// carries the set.  The entries region is parsed entry by entry until
    /// the byte bound declared by the size field is reached exactly.
    #[verifier::rlimit(100)]
    pub fn decode(data: &Vec<u8>, pos: usize, name: &str)
        -> (r: Result<(SetProperty, usize), DecodeError>)
        ensures
            r matches Ok(p) ==> {
                &&& p.0.wf()
                &&& encoded_at(data@, pos as int, p.0.enc())
                &&& pos < p.1 <= data@.len()
                &&& p.1 == pos + p.0.enc().len()
            },
        decreases data@.len() - pos, 7int,
    {
        proof {
            lemma_auto_spec_u32_to_from_le_bytes();
        }
        let dlen = data.len();
        let size = match read_u32(data, pos) {
            Ok(x) => x,
            Err(e) => {
                return Err(e);
            },
        };
        match read_zeros(data, pos + 4, 4) {
            Ok(_) => {},
            Err(e) => {
                return Err(e);
            },
        }
        let (key_name, p1) = match read_string_with_length(data, pos + 8) {
            Ok(p) => p,
            Err(e) => {
                return Err(e);
            },
        };
        match read_zeros(data, p1, 5) {
            Ok(_) => {},
            Err(e) => {
                return Err(e);
            },
        }
        let code = match read_u32(data, p1 + 5) {
            Ok(x) => x,
            Err(e) => {
                return Err(e);
            },
        };
        let kt = match KeyType::from_code(code) {
            Some(k) => k,
            None => {
                return Err(DecodeError::UnknownTypeTag);
            },
        };
        if size < 8 {
            return Err(DecodeError::LengthMismatch);
        }
        let entries_start = p1 + 9;
        let body_len = (size - 8) as usize;
        if body_len > dlen - entries_start {
            return Err(DecodeError::TruncatedBuffer);
        }
        let target = entries_start + body_len;
        let mut entries: Vec<SetEntry> = Vec::new();
        let mut cur = entries_start;
        while cur < target
            invariant
                entries_start <= cur <= target <= dlen,
                dlen == data@.len(),
                pos < entries_start,
                wf_set_entries(entries@, key_name@),
                enc_set_entries(entries@) == data@.subrange(entries_start as int, cur as int),
            decreases target - cur,
        {
            let (e, nxt) = match decode_set_entry(data, cur, key_name.as_str(), name) {
                Ok(p) => p,
                Err(er) => {
                    return Err(er);
                },
            };
            if nxt > target {
                return Err(DecodeError::LengthMismatch);
            }
            proof {
                lemma_enc_set_entries_push(entries@, e);
                assert(enc_set_entries(entries@.push(e))
                    =~= data@.subrange(entries_start as int, nxt as int));
            }
            entries.push(e);
            cur = nxt;
        }
        let v = SetProperty { key_name, key_type: kt, entries };
        proof {
            assert(v.enc() =~= data@.subrange(pos as int, target as int));
        }
        Ok((v, target))
    }

    /// Appends the wire form of this property, recomputing the size field
    /// from the entries actually held.
    pub fn encode(&self, out: &mut Vec<u8>)
        requires
            self.wf(),
        ensures
            final(out)@ == old(out)@ + self.enc(),
        decreases *self, 7int,
    {
        let mut body: Vec<u8> = Vec::new();
        let n = self.entries.len();
        let mut i: usize = 0;
        while i < n
            invariant
                0 <= i <= n,
                n == self.entries@.len(),
                wf_set_entries(self.entries@, self.key_name@),
                body@ == enc_set_entries(self.entries@.subrange(0, i as int)),
            decreases n - i,
        {
            match &self.entries[i].key {
                SetValue::Struct { fields } => encode_entry_list(&mut body, fields),
                SetValue::String(s) => write_string_with_length(&mut body, s.value.as_str()),
                SetValue::Unknown { unk } => write_bytes(&mut body, unk),
                SetValue::Unknown2 { unk } => write_bytes(&mut body, unk),
            }
            proof {
                assert(self.entries@.subrange(0, i + 1)
                    =~= self.entries@.subrange(0, i as int).push(self.entries@[i as int]));
                lemma_enc_set_entries_push(self.entries@.subrange(0, i as int),
                    self.entries@[i as int]);
                assert(body@ =~= enc_set_entries(self.entries@.subrange(0, i as int))
                    + self.entries@[i as int].enc());
            }
            i = i + 1;
        }
        proof {
            assert(self.entries@.subrange(0, n as int) =~= self.entries@);
        }
        write_u32(out, (body.len() as u32) + 8);
        write_zeros(out, 4);
        write_string_with_length(out, self.key_name.as_str());
        write_zeros(out, 5);
        write_u32(out, self.key_type.code());
        write_bytes(out, &body);
        proof {
            assert(out@ =~= old(out)@ + self.enc());
        }
    }
}

} // verus!

pub mod array_property;
pub mod bool_property;
pub mod common;
pub mod compressed;
pub mod enum_property;
pub mod float_property;
pub mod guid;
pub mod int_property;
pub mod map_property;
pub mod name_property;
pub mod save_object;
pub mod set_property;
pub mod str_property;
pub mod struct_property;
pub mod structs;

use vstd::prelude::*;

verus! {

use vstd::bytes::{spec_u32_to_le_bytes, lemma_auto_spec_u32_to_from_le_bytes};
use crate::common::{str_fits, enc_string, encoded_at, read_u32, write_u32,
    read_string_with_length, write_string_with_length, str_eq};
use crate::array_property::ArrayProperty;
use crate::bool_property::BoolProperty;
use crate::float_property::FloatProperty;
use crate::int_property::IntProperty;
use crate::map_property::MapProperty;
use crate::name_property::NameProperty;
use crate::set_property::SetProperty;
use crate::str_property::StrProperty;
use crate::struct_property::StructProperty;

/// Reasons a decode can fail.  Every failure aborts the whole parse.
#[derive(Debug, Clone, Copy, PartialEq, Eq, Structural)]
pub enum DecodeError {
    /// A string's declared length is inconsistent with the buffer,
    /// its terminator is missing, or its payload is not valid UTF-8.
    MalformedString,
    /// A property type tag outside the closed set of known tags.
    UnknownTypeTag,
    /// A struct name outside the closed set of known struct layouts.
    UnknownStructType,
    /// A "None" sentinel entry where a concrete entry was required.
    UnexpectedSentinel,
    /// A declared byte length that does not match the bytes actually parsed.
    LengthMismatch,
    /// A read past the end of the buffer.
    TruncatedBuffer,
    /// A fixed padding or flag byte holding a value the format never writes.
    InvalidValue,
}

/// A property value.  The variant is selected at decode time by the string
/// type tag that precedes the value on the wire.
#[derive(Debug)]
pub enum Property {
    Name(NameProperty),
    Struct(StructProperty),
    Float(FloatProperty),
    String(StrProperty),
    Bool(BoolProperty),
    Int(IntProperty),
    Array(ArrayProperty),
    MapProp(MapProperty),
    SetProp(SetProperty),
}

/// The string type tag under which each property variant stands on the
/// wire.  The tag is load-bearing: it is re-emitted verbatim on encode.
pub open spec fn tag_matches(p: Property, t: Seq<char>) -> bool {
    match p {
        Property::Name(_) => t == "NameProperty"@,
        Property::Struct(_) => t == "StructProperty"@,
        Property::Float(_) => t == "FloatProperty"@,
        Property::String(_) => t == "StrProperty"@,
        Property::Bool(_) => t == "BoolProperty"@,
        Property::Int(_) => t == "IntProperty"@,
        Property::Array(_) => t == "ArrayProperty"@,
        Property::MapProp(_) => t == "MapProperty"@,
        Property::SetProp(_) => t == "SetProperty"@,
    }
}

impl Property {
    /// Structural validity of the value, recursively.
    pub open spec fn wf(self) -> bool
        decreases self, 0int,
    {
        match self {
            Property::Name(v) => v.wf(),
            Property::Struct(v) => v.wf(),
            Property::Float(_) => true,
            Property::String(v) => v.wf(),
            Property::Bool(_) => true,
            Property::Int(_) => true,
            Property::Array(v) => v.wf(),
            Property::MapProp(v) => v.wf(),
            Property::SetProp(v) => v.wf(),
        }
    }

    /// The wire bytes of the value (the type tag itself is written by the
    /// entry that carries the value, not here).
    pub open spec fn enc(self) -> Seq<u8>
        decreases self, 0int,
    {
        match self {
            Property::Name(v) => v.enc(),
            Property::Struct(v) => v.enc(),
            Property::Float(v) => v.enc(),
            Property::String(v) => v.enc(),
            Property::Bool(v) => v.enc(),
            Property::Int(v) => v.enc(),
            Property::Array(v) => v.enc(),
            Property::MapProp(v) => v.enc(),
            Property::SetProp(v) => v.enc(),
        }
    }
}

/// One tagged entry: a name, a type tag, and the value.  The value is
/// absent exactly for the "None" sentinel that terminates an entry list;
/// stored lists never hold such an entry.
#[derive(Debug)]
pub struct Entry {
    pub name: String,
    pub tag_name: String,
    pub value: Option<Property>,
}

/// The wire form of the sentinel entry that ends every entry list.
pub open spec fn enc_none() -> Seq<u8> {
    enc_string("None"@)
}

impl Entry {
    /// A stored (non-sentinel) entry is well formed when its name is not
    /// the sentinel name, its strings fit on the wire, and its value is
    /// present, well formed, and matches the type tag.
    pub open spec fn wf(self) -> bool
        decreases self, 0int,
    {
        &&& self.name@ != "None"@
        &&& str_fits(self.name@)
        &&& str_fits(self.tag_name@)
        &&& match self.value {
            Some(p) => p.wf() && tag_matches(p, self.tag_name@),
            None => false,
        }
    }

    /// The wire bytes of this entry.  A sentinel entry is its name alone;
    /// any other entry carries its type tag and value after the name.
    pub open spec fn enc(self) -> Seq<u8>
        decreases self, 0int,
    {
        if self.name@ == "None"@ {
            enc_string(self.name@)
        } else {
            enc_string(self.name@) + enc_string(self.tag_name@) + match self.value {
                Some(p) => p.enc(),
                None => Seq::<u8>::empty(),
            }
        }
    }
}

/// Every entry of the sequence is well formed.
pub open spec fn wf_entries(s: Seq<Entry>) -> bool
    decreases s, 0int,
{
    forall|i: int| 0 <= i < s.len() ==> (#[trigger] s[i]).wf()
}

/// The concatenated wire bytes of the entries themselves, without the
/// closing sentinel.
pub open spec fn enc_entries_raw(s: Seq<Entry>) -> Seq<u8>
    decreases s, 0int,
{
    if s.len() == 0 {
        Seq::<u8>::empty()
    } else {
        enc_entries_raw(s.drop_last()) + s.last().enc()
    }
}

/// The wire bytes of a whole entry list: the entries in order, then
/// exactly one "None" sentinel.
pub open spec fn enc_entry_list(s: Seq<Entry>) -> Seq<u8>
    decreases s, 1int,
{
    enc_entries_raw(s) + enc_none()
}

/// Sentinel termination: the wire form of an entry list is its stored
/// entries followed by exactly one synthesized "None" entry, and a well
/// formed list stores no sentinel entry of its own.
pub proof fn lemma_entry_list_sentinel(s: Seq<Entry>)
    requires
        wf_entries(s),
    ensures
        enc_entry_list(s) == enc_entries_raw(s) + enc_none(),
        forall|i: int| 0 <= i < s.len() ==> (#[trigger] s[i]).name@ != "None"@,
{
    assert forall|i: int| 0 <= i < s.len() implies (#[trigger] s[i]).name@ != "None"@ by {
        assert(s[i].wf());
    }
}

/// Decodes the property payload that a `tag` announces.  `name` is the
/// entry name carrying the value; a few set payload shapes depend on it.
/// On success the consumed bytes are the wire form of the result and the
/// result's variant matches the tag.
pub fn decode_property(data: &Vec<u8>, pos: usize, tag: &str, name: &str)
    -> (r: Result<(Property, usize), DecodeError>)
    ensures
        r matches Ok(p) ==> {
            &&& p.0.wf()
            &&& tag_matches(p.0, tag@)
            &&& encoded_at(data@, pos as int, p.0.enc())
            &&& pos < p.1 <= data@.len()
            &&& p.1 == pos + p.0.enc().len()
        },
    decreases data@.len() - pos, 8int,
{
    if str_eq(tag, "IntProperty") {
        match IntProperty::decode(data, pos) {
            Ok((v, end)) => Ok((Property::Int(v), end)),
            Err(e) => Err(e),
        }
    } else if str_eq(tag, "BoolProperty") {
        match BoolProperty::decode(data, pos) {
            Ok((v, end)) => Ok((Property::Bool(v), end)),
            Err(e) => Err(e),
        }
    } else if str_eq(tag, "FloatProperty") {
        match FloatProperty::decode(data, pos) {
            Ok((v, end)) => Ok((Property::Float(v), end)),
            Err(e) => Err(e),
        }
    } else if str_eq(tag, "StrProperty") {
        match StrProperty::decode(data, pos) {
            Ok((v, end)) => Ok((Property::String(v), end)),
            Err(e) => Err(e),
        }
    } else if str_eq(tag, "NameProperty") {
        match NameProperty::decode(data, pos) {
            Ok((v, end)) => Ok((Property::Name(v), end)),
            Err(e) => Err(e),
        }
    } else if str_eq(tag, "StructProperty") {
        match StructProperty::decode(data, pos) {
            Ok((v, end)) => Ok((Property::Struct(v), end)),
            Err(e) => Err(e),
        }
    } else if str_eq(tag, "ArrayProperty") {
        match ArrayProperty::decode(data, pos) {
            Ok((v, end)) => Ok((Property::Array(v), end)),
            Err(e) => Err(e),
        }
    } else if str_eq(tag, "MapProperty") {
        match MapProperty::decode(data, pos) {
            Ok((v, end)) => Ok((Property::MapProp(v), end)),
            Err(e) => Err(e),
        }
    } else if str_eq(tag, "SetProperty") {
        match SetProperty::decode(data, pos, name) {
            Ok((v, end)) => Ok((Property::SetProp(v), end)),
            Err(e) => Err(e),
        }
    } else {
        Err(DecodeError::UnknownTypeTag)
    }
}

/// Appends the wire form of a property value.
pub fn encode_property(out: &mut Vec<u8>, p: &Property)
    requires
        p.wf(),
    ensures
        final(out)@ == old(out)@ + p.enc(),
    decreases *p, 8int,
{
    match p {
        Property::Name(v) => v.encode(out),
        Property::Struct(v) => v.encode(out),
        Property::Float(v) => v.encode(out),
        Property::String(v) => v.encode(out),
        Property::Bool(v) => v.encode(out),
        Property::Int(v) => v.encode(out),
        Property::Array(v) => v.encode(out),
        Property::MapProp(v) => v.encode(out),
        Property::SetProp(v) => v.encode(out),
    }
}

/// Decodes one tagged entry.  A "None" name yields the sentinel entry,
/// which carries no tag and no value; any other name is followed by its
/// type tag and payload.
pub fn decode_entry(data: &Vec<u8>, pos: usize) -> (r: Result<(Entry, usize), DecodeError>)
    ensures
        r matches Ok(p) ==> {
            &&& encoded_at(data@, pos as int, p.0.enc())
            &&& pos < p.1 <= data@.len()
            &&& p.1 == pos + p.0.enc().len()
            &&& (p.0.name@ == "None"@ <==> p.0.value is None)
            &&& (p.0.name@ != "None"@ ==> p.0.wf())
        },
    decreases data@.len() - pos, 9int,
{
    let (name, mid) = match read_string_with_length(data, pos) {
        Ok(p) => p,
        Err(e) => {
            return Err(e);
        },
    };
    if str_eq(name.as_str(), "None") {
        let e = Entry { name, tag_name: String::new(), value: None };
        return Ok((e, mid));
    }
    let (tag, vstart) = match read_string_with_length(data, mid) {
        Ok(p) => p,
        Err(e) => {
            return Err(e);
        },
    };
    let (value, end) = match decode_property(data, vstart, tag.as_str(), name.as_str()) {
        Ok(p) => p,
        Err(e) => {
            return Err(e);
        },
    };
    let e = Entry { name, tag_name: tag, value: Some(value) };
    proof {
        assert(e.enc() =~= data@.subrange(pos as int, end as int));
    }
    Ok((e, end))
}

/// Appends the wire form of one stored entry.
pub fn encode_entry(out: &mut Vec<u8>, e: &Entry)
    requires
        e.wf(),
    ensures
        final(out)@ == old(out)@ + e.enc(),
    decreases *e, 9int,
{
    write_string_with_length(out, e.name.as_str());
    write_string_with_length(out, e.tag_name.as_str());
    match &e.value {
        Some(p) => encode_property(out, p),
        None => {},
    }
    proof {
        assert(out@ =~= old(out)@ + e.enc());
    }
}

pub proof fn lemma_enc_entries_raw_push(s: Seq<Entry>, e: Entry)
    ensures
        enc_entries_raw(s.push(e)) == enc_entries_raw(s) + e.enc(),
{
    assert(s.push(e).drop_last() =~= s);
    assert(s.push(e).last() == e);
}

/// Decodes a sentinel-terminated entry list: entries are read until the
/// one "None" entry, which is consumed and not stored.  No byte beyond the
/// sentinel is touched.
pub fn decode_entry_list(data: &Vec<u8>, pos: usize)
    -> (r: Result<(Vec<Entry>, usize), DecodeError>)
    ensures
        r matches Ok(p) ==> {
            &&& wf_entries(p.0@)
            &&& encoded_at(data@, pos as int, enc_entry_list(p.0@))
            &&& pos < p.1 <= data@.len()
            &&& p.1 == pos + enc_entry_list(p.0@).len()
        },
    decreases data@.len() - pos, 10int,
{
    let dlen = data.len();
    if pos > dlen {
        return Err(DecodeError::TruncatedBuffer);
    }
    let mut entries: Vec<Entry> = Vec::new();
    let mut cur = pos;
    proof {
        assert(data@.subrange(pos as int, pos as int) =~= Seq::<u8>::empty());
    }
    loop
        invariant
            pos <= cur <= dlen,
            dlen == data@.len(),
            wf_entries(entries@),
            enc_entries_raw(entries@) == data@.subrange(pos as int, cur as int),
        decreases data@.len() - cur,
    {
        let (e, nxt) = match decode_entry(data, cur) {
            Ok(p) => p,
            Err(er) => {
                return Err(er);
            },
        };
        if e.value.is_none() {
            proof {
                assert(e.enc() == enc_none());
                assert(enc_entry_list(entries@) =~= data@.subrange(pos as int, nxt as int));
            }
            return Ok((entries, nxt));
        }
        proof {
            lemma_enc_entries_raw_push(entries@, e);
            assert(enc_entries_raw(entries@.push(e))
                =~= data@.subrange(pos as int, nxt as int));
        }
        entries.push(e);
        cur = nxt;
    }
}

/// Appends the wire form of an entry list: every entry in order, then
/// exactly one synthesized "None" sentinel.
pub fn encode_entry_list(out: &mut Vec<u8>, entries: &Vec<Entry>)
    requires
        wf_entries(entries@),
    ensures
        final(out)@ == old(out)@ + enc_entry_list(entries@),
    decreases entries@, 10int,
{
    let n = entries.len();
    let mut i: usize = 0;
    while i < n
        invariant
            0 <= i <= n,
            n == entries@.len(),
            wf_entries(entries@),
            out@ == old(out)@ + enc_entries_raw(entries@.subrange(0, i as int)),
        decreases n - i,
    {
        encode_entry(out, &entries[i]);
        proof {
            assert(entries@.subrange(0, i + 1)
                =~= entries@.subrange(0, i as int).push(entries@[i as int]));
            lemma_enc_entries_raw_push(entries@.subrange(0, i as int), entries@[i as int]);
            assert(out@ =~= old(out)@ + enc_entries_raw(entries@.subrange(0, i as int))
                + entries@[i as int].enc());
        }
        i = i + 1;
    }
    proof {
        crate::structs::lemma_tag_literals_fit();
        assert(entries@.subrange(0, n as int) =~= entries@);
    }
    write_string_with_length(out, "None");
    proof {
        assert(out@ =~= old(out)@ + enc_entry_list(entries@));
    }
}

/// One tagged object: a size field that covers the whole object (its own
/// four bytes included), then a sentinel-terminated entry list.
#[derive(Debug)]
pub struct TaggedObject {
    pub size_in_bytes: u32,
    pub entries: Vec<Entry>,
}

impl TaggedObject {
    /// The stored size must agree with the entries actually held.
    pub open spec fn wf(self) -> bool
        decreases self, 2int,
    {
        &&& wf_entries(self.entries@)
        &&& self.size_in_bytes == 4 + enc_entry_list(self.entries@).len()
    }

    /// The wire bytes of this object.
    pub open spec fn enc(self) -> Seq<u8>
        decreases self, 2int,
    {
        spec_u32_to_le_bytes(self.size_in_bytes) + enc_entry_list(self.entries@)
    }

    /// The first entry with the given name, if any.
    pub fn entry(&self, key: &str) -> (r: Option<&Entry>)
        ensures
            match r {
                Some(e) => exists|i: int| 0 <= i < self.entries@.len()
                    && self.entries@[i] == *e && e.name@ == key@
                    && (forall|j: int| 0 <= j < i
                        ==> (#[trigger] self.entries@[j]).name@ != key@),
                None => forall|i: int| 0 <= i < self.entries@.len()
                    ==> (#[trigger] self.entries@[i]).name@ != key@,
            },
    {
        let n = self.entries.len();
        let mut i: usize = 0;
        while i < n
            invariant
                0 <= i <= n,
                n == self.entries@.len(),
                forall|j: int| 0 <= j < i ==> (#[trigger] self.entries@[j]).name@ != key@,
            decreases n - i,
        {
            if str_eq(self.entries[i].name.as_str(), key) {
                proof {
                    assert(self.entries@[i as int].name@ == key@);
                }
                return Some(&self.entries[i]);
            }
            i = i + 1;
        }
        None
    }

    /// Decodes one tagged object at `pos`, checking that the declared size
    /// matches the bytes the entry list actually consumed.
    pub fn decode(data: &Vec<u8>, pos: usize) -> (r: Result<(TaggedObject, usize), DecodeError>)
        ensures
            r matches Ok(p) ==> {
                &&& p.0.wf()
                &&& encoded_at(data@, pos as int, p.0.enc())
                &&& pos < p.1 <= data@.len()
                &&& p.1 == pos + p.0.enc().len()
            },
        decreases data@.len() - pos, 11int,
    {
        proof {
            lemma_auto_spec_u32_to_from_le_bytes();
        }
        let dlen = data.len();
        let size = match read_u32(data, pos) {
            Ok(x) => x,
            Err(e) => {
                return Err(e);
            },
        };
        let (entries, end) = match decode_entry_list(data, pos + 4) {
            Ok(p) => p,
            Err(e) => {
                return Err(e);
            },
        };
        if (size as u64) != ((end - pos) as u64) {
            return Err(DecodeError::LengthMismatch);
        }
        let v = TaggedObject { size_in_bytes: size, entries };
        proof {
            assert(v.enc() =~= data@.subrange(pos as int, end as int));
        }
        Ok((v, end))
    }

    /// Appends the wire form of this object.
    pub fn encode(&self, out: &mut Vec<u8>)
        requires
            self.wf(),
        ensures
            final(out)@ == old(out)@ + self.enc(),
        decreases *self, 11int,
    {
        write_u32(out, self.size_in_bytes);
        encode_entry_list(out, &self.entries);
        proof {
            assert(out@ =~= old(out)@ + self.enc());
        }
    }
}

/// Every object of the sequence is well formed.
pub open spec fn wf_objects(s: Seq<TaggedObject>) -> bool
    decreases s, 3int,
{
    forall|i: int| 0 <= i < s.len() ==> (#[trigger] s[i]).wf()
}

/// The concatenated wire bytes of a sequence of tagged objects.
pub open spec fn enc_objects(s: Seq<TaggedObject>) -> Seq<u8>
    decreases s, 3int,
{
    if s.len() == 0 {
        Seq::<u8>::empty()
    } else {
        enc_objects(s.drop_last()) + s.last().enc()
    }
}

pub proof fn lemma_enc_objects_push(s: Seq<TaggedObject>, o: TaggedObject)
    ensures
        enc_objects(s.push(o)) == enc_objects(s) + o.enc(),
{
    assert(s.push(o).drop_last() =~= s);
    assert(s.push(o).last() == o);
}

/// A whole serialized region: a size field covering the region, then the
/// objects packed back to back.  Some captured regions end early with a
/// four-byte zero marker in place of an object's size field; the marker
/// and every declared byte after it are kept verbatim in `trailer`, so
/// such regions still re-encode exactly.
#[derive(Debug)]
pub struct TaggedSerialization {
    pub size_in_bytes: u32,
    pub objs: Vec<TaggedObject>,
    pub trailer: Option<Vec<u8>>,
}

/// The wire bytes of a region's early end: nothing, or the zero marker
/// followed by the rest of the declared region.
pub open spec fn enc_trailer(t: Option<Vec<u8>>) -> Seq<u8> {
    match t {
        Option::None => Seq::<u8>::empty(),
        Option::Some(v) => spec_u32_to_le_bytes(0) + v@,
    }
}

impl TaggedSerialization {
    /// The stored size must agree with the objects and trailer actually
    /// held.
    pub open spec fn wf(self) -> bool
        decreases self, 4int,
    {
        &&& wf_objects(self.objs@)
        &&& self.size_in_bytes == enc_objects(self.objs@).len()
            + enc_trailer(self.trailer).len()
    }

    /// The wire bytes of this region.
    pub open spec fn enc(self) -> Seq<u8>
        decreases self, 4int,
    {
        spec_u32_to_le_bytes(self.size_in_bytes) + enc_objects(self.objs@)
            + enc_trailer(self.trailer)
    }

    /// Decodes a serialized region at `pos`: objects are read until the
    /// declared size is exactly consumed, or until a zero marker stands
    /// where an object's size field would; the marker and the rest of the
    /// declared region are then kept as the trailer.
    #[verifier::rlimit(100)]
    pub fn decode(data: &Vec<u8>, pos: usize)
        -> (r: Result<(TaggedSerialization, usize), DecodeError>)
        ensures
            r matches Ok(p) ==> {
                &&& p.0.wf()
                &&& encoded_at(data@, pos as int, p.0.enc())
                &&& pos < p.1 <= data@.len()
                &&& p.1 == pos + p.0.enc().len()
            },
        decreases data@.len() - pos, 12int,
    {
        proof {
            lemma_auto_spec_u32_to_from_le_bytes();
        }
        let dlen = data.len();
        let size = match read_u32(data, pos) {
            Ok(x) => x,
            Err(e) => {
                return Err(e);
            },
        };
        if (size as u64) > ((dlen - (pos + 4)) as u64) {
            return Err(DecodeError::TruncatedBuffer);
        }
        let target = pos + 4 + (size as usize);
        let mut objs: Vec<TaggedObject> = Vec::new();
        let mut cur = pos + 4;
        while cur < target
            invariant
                pos + 4 <= cur <= target <= dlen,
                dlen == data@.len(),
                target == pos + 4 + size,
                data@.subrange(pos as int, pos + 4) == spec_u32_to_le_bytes(size),
                wf_objects(objs@),
                enc_objects(objs@) == data@.subrange(pos + 4, cur as int),
            decreases target - cur,
        {
            let peek = match read_u32(data, cur) {
                Ok(x) => x,
                Err(e) => {
                    return Err(e);
                },
            };
            if peek == 0 {
                // The early-end marker: no object's size field is zero.
                if target - cur < 4 {
                    return Err(DecodeError::LengthMismatch);
                }
                let tail = match crate::common::read_bytes(data, cur + 4, target - (cur + 4)) {
                    Ok(t) => t,
                    Err(e) => {
                        return Err(e);
                    },
                };
                let v = TaggedSerialization {
                    size_in_bytes: size,
                    objs,
                    trailer: Some(tail),
                };
                proof {
                    lemma_auto_spec_u32_to_from_le_bytes();
                    assert(data@.subrange(cur as int, cur + 4) == spec_u32_to_le_bytes(0u32));
                    assert(v.enc() =~= data@.subrange(pos as int, target as int));
                }
                return Ok((v, target));
            }
            let (o, nxt) = match TaggedObject::decode(data, cur) {
                Ok(p) => p,
                Err(e) => {
                    return Err(e);
                },
            };
            if nxt > target {
                return Err(DecodeError::LengthMismatch);
            }
            proof {
                lemma_enc_objects_push(objs@, o);
                assert(enc_objects(objs@.push(o)) =~= data@.subrange(pos + 4, nxt as int));
            }
            objs.push(o);
            cur = nxt;
        }
        let v = TaggedSerialization { size_in_bytes: size, objs, trailer: None };
        proof {
            assert(v.enc() =~= data@.subrange(pos as int, target as int));
        }
        Ok((v, target))
    }

    /// Appends the wire form of this region.
    #[verifier::rlimit(100)]
    pub fn encode(&self, out: &mut Vec<u8>)
        requires
            self.wf(),
        ensures
            final(out)@ == old(out)@ + self.enc(),
        decreases *self, 12int,
    {
        write_u32(out, self.size_in_bytes);
        let n = self.objs.len();
        let mut i: usize = 0;
        while i < n
            invariant
                0 <= i <= n,
                n == self.objs@.len(),
                wf_objects(self.objs@),
                out@ == old(out)@ + spec_u32_to_le_bytes(self.size_in_bytes)
                    + enc_objects(self.objs@.subrange(0, i as int)),
            decreases n - i,
        {
            self.objs[i].encode(out);
            proof {
                assert(self.objs@.subrange(0, i + 1)
                    =~= self.objs@.subrange(0, i as int).push(self.objs@[i as int]));
                lemma_enc_objects_push(self.objs@.subrange(0, i as int), self.objs@[i as int]);
                assert(out@ =~= old(out)@ + spec_u32_to_le_bytes(self.size_in_bytes)
                    + enc_objects(self.objs@.subrange(0, i as int))
                    + self.objs@[i as int].enc());
            }
            i = i + 1;
        }
        proof {
            assert(self.objs@.subrange(0, n as int) =~= self.objs@);
        }
        match &self.trailer {
            Option::None => {},
            Option::Some(t) => {
                write_u32(out, 0);
                crate::common::write_bytes(out, t);
            },
        }
        proof {
            assert(out@ =~= old(out)@ + self.enc());
        }
    }
}

} // verus!

use vstd::prelude::*;

verus! {

use vstd::bytes::{spec_u32_to_le_bytes, lemma_auto_spec_u32_to_from_le_bytes,
    spec_u64_to_le_bytes, lemma_auto_spec_u64_to_from_le_bytes};
use vstd::utf8::{is_ascii_chars, is_ascii_chars_encode_utf8};
use crate::DecodeError;
use crate::common::{str_fits, zero_bytes, enc_string, encoded_at, string_encoded_at,
    read_u32, write_u32, read_u64, write_u64, read_zeros, write_zeros,
    read_string_with_length, write_string_with_length, str_eq};
use crate::array_property::ArrayProperty;
use crate::bool_property::BoolProperty;
use crate::enum_property::EnumProperty;
use crate::float_property::FloatProperty;
use crate::guid::Guid;
use crate::int_property::IntProperty;
use crate::map_property::MapProperty;
use crate::name_property::NameProperty;
use crate::str_property::StrProperty;

/// The two strings that precede every field of a serialized struct: the
/// field's name and its property type tag.
#[derive(Debug)]
pub struct StructFieldPrelude {
    pub property_name: String,
    pub tag_name: String,
}

/// Wire form of a field prelude.
pub open spec fn enc_field_prelude(name: Seq<char>, tag: Seq<char>) -> Seq<u8> {
    enc_string(name) + enc_string(tag)
}

impl StructFieldPrelude {
    pub open spec fn wf(self) -> bool {
        str_fits(self.property_name@) && str_fits(self.tag_name@)
    }

    /// The wire bytes of this prelude.
    pub open spec fn enc(self) -> Seq<u8> {
        enc_field_prelude(self.property_name@, self.tag_name@)
    }

    /// Decodes a field prelude at `pos` without judging its names.
    /// Succeeds exactly when one is encoded there.
    pub fn decode(data: &Vec<u8>, pos: usize)
        -> (r: Result<(StructFieldPrelude, usize), DecodeError>)
        ensures
            r matches Ok(p) ==> {
                &&& p.0.wf()
                &&& encoded_at(data@, pos as int, p.0.enc())
                &&& pos < p.1 <= data@.len()
                &&& p.1 == pos + p.0.enc().len()
            },
            r is Err ==> forall|p: StructFieldPrelude| p.wf()
                ==> !encoded_at(data@, pos as int, p.enc()),
    {
        let (property_name, mid) = match read_string_with_length(data, pos) {
            Ok(p) => p,
            Err(e) => {
                proof {
                    assert forall|p: StructFieldPrelude| p.wf()
                        implies !encoded_at(data@, pos as int, p.enc()) by {
                        if encoded_at(data@, pos as int, p.enc()) {
                            crate::common::lemma_encoded_slice(data@, pos as int, p.enc(),
                                0, enc_string(p.property_name@).len() as int);
                            assert(p.enc().subrange(0, enc_string(p.property_name@).len() as int)
                                =~= enc_string(p.property_name@));
                            assert(string_encoded_at(data@, pos as int, p.property_name@));
                            assert(false);
                        }
                    }
                }
                return Err(e);
            },
        };
        let (tag_name, end) = match read_string_with_length(data, mid) {
            Ok(p) => p,
            Err(e) => {
                proof {
                    assert forall|p: StructFieldPrelude| p.wf()
                        implies !encoded_at(data@, pos as int, p.enc()) by {
                        if encoded_at(data@, pos as int, p.enc()) {
                            crate::common::lemma_encoded_slice(data@, pos as int, p.enc(),
                                0, enc_string(p.property_name@).len() as int);
                            assert(p.enc().subrange(0, enc_string(p.property_name@).len() as int)
                                =~= enc_string(p.property_name@));
                            assert(string_encoded_at(data@, pos as int, p.property_name@));
                            assert(p.property_name@ == property_name@);
                            crate::common::lemma_encoded_slice(data@, pos as int, p.enc(),
                                enc_string(p.property_name@).len() as int, p.enc().len() as int);
                            assert(p.enc().subrange(enc_string(p.property_name@).len() as int,
                                p.enc().len() as int) =~= enc_string(p.tag_name@));
                            assert(string_encoded_at(data@, mid as int, p.tag_name@));
                            assert(false);
                        }
                    }
                }
                return Err(e);
            },
        };
        let v = StructFieldPrelude { property_name, tag_name };
        proof {
            crate::common::lemma_subrange_join(data@, pos as int, mid as int, end as int);
            assert(v.enc() == data@.subrange(pos as int, end as int));
        }
        Ok((v, end))
    }

    /// Appends the wire form of this prelude.
    pub fn encode(&self, out: &mut Vec<u8>)
        requires
            self.wf(),
        ensures
            final(out)@ == old(out)@ + self.enc(),
    {
        write_field_prelude(out, self.property_name.as_str(), self.tag_name.as_str());
    }
}

/// The header that precedes a struct-typed field's payload: the payload's
/// byte size, four zero padding bytes, the struct name, and seventeen more
/// zero padding bytes (a fixed constant of the format).
#[derive(Debug)]
pub struct StructPrelude {
    pub size_in_bytes: u32,
    pub struct_name: String,
}

/// Wire form of a struct prelude.
pub open spec fn enc_struct_prelude(size: u32, struct_name: Seq<char>) -> Seq<u8> {
    spec_u32_to_le_bytes(size) + zero_bytes(4) + enc_string(struct_name) + zero_bytes(17)
}

impl StructPrelude {
    pub open spec fn wf(self) -> bool {
        str_fits(self.struct_name@)
    }

    /// The wire bytes of this prelude.
    pub open spec fn enc(self) -> Seq<u8> {
        enc_struct_prelude(self.size_in_bytes, self.struct_name@)
    }

    /// Decodes a struct prelude at `pos` without judging the struct name.
    /// Succeeds exactly when one is encoded there.
    pub fn decode(data: &Vec<u8>, pos: usize)
        -> (r: Result<(StructPrelude, usize), DecodeError>)
        ensures
            r matches Ok(p) ==> {
                &&& p.0.wf()
                &&& encoded_at(data@, pos as int, p.0.enc())
                &&& pos < p.1 <= data@.len()
                &&& p.1 == pos + p.0.enc().len()
            },
            r is Err ==> forall|p: StructPrelude| p.wf()
                ==> !encoded_at(data@, pos as int, p.enc()),
    {
        proof {
            lemma_auto_spec_u32_to_from_le_bytes();
        }
        let dlen = data.len();
        let size_in_bytes = match read_u32(data, pos) {
            Ok(x) => x,
            Err(e) => {
                return Err(e);
            },
        };
        match read_zeros(data, pos + 4, 4) {
            Ok(_) => {},
            Err(e) => {
                proof {
                    assert forall|p: StructPrelude| p.wf()
                        implies !encoded_at(data@, pos as int, p.enc()) by {
                        if encoded_at(data@, pos as int, p.enc()) {
                            crate::common::lemma_encoded_slice(data@, pos as int, p.enc(), 4, 8);
                            assert(p.enc().subrange(4, 8) =~= zero_bytes(4));
                        }
                    }
                }
                return Err(e);
            },
        }
        // When a prelude is encoded here, its name string stands at offset 8.
        proof {
            assert forall|p: StructPrelude| p.wf()
                && encoded_at(data@, pos as int, p.enc())
                implies string_encoded_at(data@, pos + 8, p.struct_name@) by {
                crate::common::lemma_encoded_slice(data@, pos as int, p.enc(), 8,
                    8 + enc_string(p.struct_name@).len() as int);
                assert(p.enc().subrange(8, 8 + enc_string(p.struct_name@).len() as int)
                    =~= enc_string(p.struct_name@));
            }
        }
        let (struct_name, mid) = match read_string_with_length(data, pos + 8) {
            Ok(p) => p,
            Err(e) => {
                return Err(e);
            },
        };
        match read_zeros(data, mid, 17) {
            Ok(_) => {},
            Err(e) => {
                proof {
                    assert forall|p: StructPrelude| p.wf()
                        implies !encoded_at(data@, pos as int, p.enc()) by {
                        if encoded_at(data@, pos as int, p.enc()) {
                            assert(p.struct_name@ == struct_name@);
                            crate::common::lemma_encoded_slice(data@, pos as int, p.enc(),
                                8 + enc_string(p.struct_name@).len() as int,
                                p.enc().len() as int);
                            assert(p.enc().subrange(
                                8 + enc_string(p.struct_name@).len() as int,
                                p.enc().len() as int) =~= zero_bytes(17));
                        }
                    }
                }
                return Err(e);
            },
        }
        let v = StructPrelude { size_in_bytes, struct_name };
        proof {
            assert(v.enc() =~= data@.subrange(pos as int, mid + 17));
        }
        Ok((v, mid + 17))
    }

    /// Appends the wire form of this prelude.
    pub fn encode(&self, out: &mut Vec<u8>)
        requires
            self.wf(),
        ensures
            final(out)@ == old(out)@ + self.enc(),
    {
        write_struct_prelude(out, self.size_in_bytes, self.struct_name.as_str());
    }
}

/// Reads a field prelude and checks it announces the expected field `name`
/// and type `tag`.  A "None" sentinel in place of the field is reported as
/// such; any other mismatch is rejected.  When the expected prelude is
/// encoded at `pos` the read succeeds.
pub fn read_field_prelude(data: &Vec<u8>, pos: usize, name: &str, tag: &str)
    -> (r: Result<usize, DecodeError>)
    ensures
        r matches Ok(end) ==> {
            &&& encoded_at(data@, pos as int, enc_field_prelude(name@, tag@))
            &&& pos < end <= data@.len()
            &&& end == pos + enc_field_prelude(name@, tag@).len()
            &&& str_fits(name@) && str_fits(tag@)
        },
        r is Err && str_fits(name@) && str_fits(tag@)
            ==> !encoded_at(data@, pos as int, enc_field_prelude(name@, tag@)),
{
    let (read_name, mid) = match read_string_with_length(data, pos) {
        Ok(p) => p,
        Err(e) => {
            proof {
                if str_fits(name@) && str_fits(tag@)
                    && encoded_at(data@, pos as int, enc_field_prelude(name@, tag@)) {
                    crate::common::lemma_encoded_slice(data@, pos as int,
                        enc_field_prelude(name@, tag@), 0, enc_string(name@).len() as int);
                    assert(enc_field_prelude(name@, tag@)
                        .subrange(0, enc_string(name@).len() as int) =~= enc_string(name@));
                    assert(string_encoded_at(data@, pos as int, name@));
                    assert(false);
                }
            }
            return Err(e);
        },
    };
    // When the expected prelude is encoded here, the name just read is it.
    proof {
        if str_fits(name@) && str_fits(tag@)
            && encoded_at(data@, pos as int, enc_field_prelude(name@, tag@)) {
            crate::common::lemma_encoded_slice(data@, pos as int,
                enc_field_prelude(name@, tag@), 0, enc_string(name@).len() as int);
            assert(enc_field_prelude(name@, tag@)
                .subrange(0, enc_string(name@).len() as int) =~= enc_string(name@));
            assert(string_encoded_at(data@, pos as int, name@));
            assert(read_name@ == name@);
        }
    }
    if !str_eq(read_name.as_str(), name) {
        if str_eq(read_name.as_str(), "None") {
            return Err(DecodeError::UnexpectedSentinel);
        }
        return Err(DecodeError::InvalidValue);
    }
    let (read_tag, end) = match read_string_with_length(data, mid) {
        Ok(p) => p,
        Err(e) => {
            proof {
                if str_fits(name@) && str_fits(tag@)
                    && encoded_at(data@, pos as int, enc_field_prelude(name@, tag@)) {
                    assert(mid == pos + enc_string(name@).len());
                    crate::common::lemma_encoded_slice(data@, pos as int,
                        enc_field_prelude(name@, tag@), enc_string(name@).len() as int,
                        enc_field_prelude(name@, tag@).len() as int);
                    assert(enc_field_prelude(name@, tag@).subrange(
                        enc_string(name@).len() as int,
                        enc_field_prelude(name@, tag@).len() as int) =~= enc_string(tag@));
                    assert(string_encoded_at(data@, mid as int, tag@));
                    assert(false);
                }
            }
            return Err(e);
        },
    };
    proof {
        if str_fits(name@) && str_fits(tag@)
            && encoded_at(data@, pos as int, enc_field_prelude(name@, tag@)) {
            assert(mid == pos + enc_string(name@).len());
            crate::common::lemma_encoded_slice(data@, pos as int,
                enc_field_prelude(name@, tag@), enc_string(name@).len() as int,
                enc_field_prelude(name@, tag@).len() as int);
            assert(enc_field_prelude(name@, tag@).subrange(
                enc_string(name@).len() as int,
                enc_field_prelude(name@, tag@).len() as int) =~= enc_string(tag@));
            assert(string_encoded_at(data@, mid as int, tag@));
            assert(read_tag@ == tag@);
        }
    }
    if !str_eq(read_tag.as_str(), tag) {
        return Err(DecodeError::UnknownTypeTag);
    }
    proof {
        assert(enc_field_prelude(name@, tag@)
            =~= data@.subrange(pos as int, end as int));
    }
    Ok(end)
}

/// Writes the prelude of the field `name` with type `tag`.
pub fn write_field_prelude(out: &mut Vec<u8>, name: &str, tag: &str)
    requires
        str_fits(name@),
        str_fits(tag@),
    ensures
        final(out)@ == old(out)@ + enc_field_prelude(name@, tag@),
{
    write_string_with_length(out, name);
    write_string_with_length(out, tag);
    proof {
        assert(out@ =~= old(out)@ + enc_field_prelude(name@, tag@));
    }
}

/// Reads a struct prelude and checks it announces the expected
/// `struct_name`.  The declared payload size is returned for the caller to
/// hold against the payload it then parses; no other size is encoded here,
/// and when a prelude with this struct name is encoded at `pos` the read
/// succeeds.
pub fn read_struct_prelude(data: &Vec<u8>, pos: usize, struct_name: &str)
    -> (r: Result<(u32, usize), DecodeError>)
    ensures
        r matches Ok(p) ==> {
            &&& encoded_at(data@, pos as int, enc_struct_prelude(p.0, struct_name@))
            &&& pos < p.1 <= data@.len()
            &&& p.1 == pos + enc_struct_prelude(p.0, struct_name@).len()
            &&& str_fits(struct_name@)
            &&& forall|sz: u32| encoded_at(data@, pos as int,
                enc_struct_prelude(sz, struct_name@)) ==> sz == p.0
        },
        r is Err && str_fits(struct_name@) ==> forall|sz: u32|
            !encoded_at(data@, pos as int, enc_struct_prelude(sz, struct_name@)),
{
    proof {
        lemma_auto_spec_u32_to_from_le_bytes();
    }
    let dlen = data.len();
    let size = match read_u32(data, pos) {
        Ok(x) => x,
        Err(e) => {
            return Err(e);
        },
    };
    match read_zeros(data, pos + 4, 4) {
        Ok(_) => {},
        Err(e) => {
            proof {
                assert forall|sz: u32|
                    !encoded_at(data@, pos as int, enc_struct_prelude(sz, struct_name@)) by {
                    if encoded_at(data@, pos as int, enc_struct_prelude(sz, struct_name@)) {
                        crate::common::lemma_encoded_slice(data@, pos as int,
                            enc_struct_prelude(sz, struct_name@), 4, 8);
                        assert(enc_struct_prelude(sz, struct_name@).subrange(4, 8)
                            =~= zero_bytes(4));
                    }
                }
            }
            return Err(e);
        },
    }
    // When a prelude with this struct name is encoded here, its name string
    // stands at offset 8.
    proof {
        if str_fits(struct_name@) {
            assert forall|sz: u32|
                encoded_at(data@, pos as int, enc_struct_prelude(sz, struct_name@))
                implies string_encoded_at(data@, pos + 8, struct_name@) by {
                crate::common::lemma_encoded_slice(data@, pos as int,
                    enc_struct_prelude(sz, struct_name@), 8,
                    8 + enc_string(struct_name@).len() as int);
                assert(enc_struct_prelude(sz, struct_name@).subrange(8,
                    8 + enc_string(struct_name@).len() as int) =~= enc_string(struct_name@));
            }
        }
    }
    let (read_name, mid) = match read_string_with_length(data, pos + 8) {
        Ok(p) => p,
        Err(e) => {
            return Err(e);
        },
    };
    if !str_eq(read_name.as_str(), struct_name) {
        return Err(DecodeError::UnknownStructType);
    }
    match read_zeros(data, mid, 17) {
        Ok(_) => {},
        Err(e) => {
            proof {
                if str_fits(struct_name@) {
                    assert forall|sz: u32|
                        !encoded_at(data@, pos as int, enc_struct_prelude(sz, struct_name@)) by {
                        if encoded_at(data@, pos as int, enc_struct_prelude(sz, struct_name@)) {
                            crate::common::lemma_encoded_slice(data@, pos as int,
                                enc_struct_prelude(sz, struct_name@),
                                8 + enc_string(struct_name@).len() as int,
                                enc_struct_prelude(sz, struct_name@).len() as int);
                            assert(enc_struct_prelude(sz, struct_name@).subrange(
                                8 + enc_string(struct_name@).len() as int,
                                enc_struct_prelude(sz, struct_name@).len() as int)
                                =~= zero_bytes(17));
                        }
                    }
                }
            }
            return Err(e);
        },
    }
    proof {
        assert(enc_struct_prelude(size, struct_name@)
            =~= data@.subrange(pos as int, mid + 17));
        assert forall|sz: u32|
            encoded_at(data@, pos as int, enc_struct_prelude(sz, struct_name@))
            implies sz == size by {
            crate::common::lemma_encoded_slice(data@, pos as int,
                enc_struct_prelude(sz, struct_name@), 0, 4);
            assert(enc_struct_prelude(sz, struct_name@).subrange(0, 4)
                =~= spec_u32_to_le_bytes(sz));
        }
    }
    Ok((size, mid + 17))
}

/// Writes the struct prelude announcing `struct_name` and a payload of
/// `size` bytes.
pub fn write_struct_prelude(out: &mut Vec<u8>, size: u32, struct_name: &str)
    requires
        str_fits(struct_name@),
    ensures
        final(out)@ == old(out)@ + enc_struct_prelude(size, struct_name@),
{
    write_u32(out, size);
    write_zeros(out, 4);
    write_string_with_length(out, struct_name);
    write_zeros(out, 17);
    proof {
        assert(out@ =~= old(out)@ + enc_struct_prelude(size, struct_name@));
    }
}

/// The number of wire bytes a field prelude takes, with the struct prelude
/// counted in for struct-typed fields.
pub fn calc_struct_field_prelude_byte_size(tag_name: &str, field_name: &str,
    struct_name: Option<&str>) -> (r: u64)
    requires
        str_fits(tag_name@),
        str_fits(field_name@),
        struct_name matches Some(n) ==> str_fits(n@),
    ensures
        match struct_name {
            Some(n) => r == enc_field_prelude(field_name@, "StructProperty"@).len()
                + enc_struct_prelude(0, n@).len(),
            None => r == enc_field_prelude(field_name@, tag_name@).len(),
        },
{
    proof {
        lemma_auto_spec_u32_to_from_le_bytes();
        lemma_tag_literals_fit();
    }
    let base = crate::common::size_of_string_with_length(field_name) as u64;
    match struct_name {
        Some(n) => {
            base + crate::common::size_of_string_with_length("StructProperty") as u64
                + crate::common::size_of_string_with_length(n) as u64 + 4 + 17 + 4
        },
        None => base + crate::common::size_of_string_with_length(tag_name) as u64,
    }
}

/// A date and time: the count of 100-nanosecond ticks since the epoch the
/// format uses, stored as eight little-endian bytes.
#[derive(Debug, PartialEq, Eq, Structural)]
pub struct DateTimeStruct {
    pub ticks: i64,
}

impl DateTimeStruct {
    /// The wire bytes of this struct: always exactly 8 of them.
    pub open spec fn enc(self) -> Seq<u8> {
        spec_u64_to_le_bytes(self.ticks as u64)
    }

    pub fn struct_name() -> (r: &'static str)
        ensures
            r@ == "DateTime"@,
    {
        "DateTime"
    }

    pub fn size_in_bytes(&self) -> (r: u32)
        ensures
            r == self.enc().len(),
    {
        proof {
            lemma_auto_spec_u64_to_from_le_bytes();
        }
        8
    }

    /// Decodes a date-time at `pos`: succeeds exactly when 8 bytes remain.
    pub fn decode(data: &Vec<u8>, pos: usize) -> (r: Result<(DateTimeStruct, usize), DecodeError>)
        ensures
            match r {
                Ok(p) => {
                    &&& encoded_at(data@, pos as int, p.0.enc())
                    &&& pos < p.1 <= data@.len()
                    &&& p.1 == pos + p.0.enc().len()
                },
                Err(e) => forall|v: DateTimeStruct| !encoded_at(data@, pos as int, v.enc()),
            },
    {
        proof {
            lemma_auto_spec_u64_to_from_le_bytes();
        }
        let dlen = data.len();
        let x = match read_u64(data, pos) {
            Ok(x) => x,
            Err(e) => {
                return Err(e);
            },
        };
        let ticks = #[verifier::truncate] (x as i64);
        proof {
            assert((#[verifier::truncate] (x as i64)) as u64 == x) by (bit_vector);
        }
        Ok((DateTimeStruct { ticks }, pos + 8))
    }

    /// Appends the wire form of this struct.
    pub fn encode(&self, out: &mut Vec<u8>)
        ensures
            final(out)@ == old(out)@ + self.enc(),
    {
        write_u64(out, #[verifier::truncate] (self.ticks as u64));
    }
}

/// A linear RGBA color.  Each component is a 32-bit float on the wire; the
/// library carries the four raw IEEE-754 bit patterns.
#[derive(Debug, PartialEq, Eq, Structural)]
pub struct LinearColorStruct {
    pub r: u32,
    pub g: u32,
    pub b: u32,
    pub a: u32,
}

impl LinearColorStruct {
    /// The wire bytes of this struct: always exactly 16 of them.
    pub open spec fn enc(self) -> Seq<u8> {
        spec_u32_to_le_bytes(self.r) + spec_u32_to_le_bytes(self.g) + spec_u32_to_le_bytes(self.b)
            + spec_u32_to_le_bytes(self.a)
    }

    pub fn struct_name() -> (r: &'static str)
        ensures
            r@ == "LinearColor"@,
    {
        "LinearColor"
    }

    pub fn size_in_bytes(&self) -> (r: u32)
        ensures
            r == self.enc().len(),
    {
        proof {
            lemma_auto_spec_u32_to_from_le_bytes();
        }
        16
    }

    /// Decodes a color at `pos`: succeeds exactly when 16 bytes remain.
    #[verifier::rlimit(100)]
    pub fn decode(data: &Vec<u8>, pos: usize)
        -> (r: Result<(LinearColorStruct, usize), DecodeError>)
        ensures
            match r {
                Ok(p) => {
                    &&& encoded_at(data@, pos as int, p.0.enc())
                    &&& pos < p.1 <= data@.len()
                    &&& p.1 == pos + p.0.enc().len()
                },
                Err(e) => forall|v: LinearColorStruct| !encoded_at(data@, pos as int, v.enc()),
            },
    {
        proof {
            lemma_auto_spec_u32_to_from_le_bytes();
        }
        let dlen = data.len();
        if dlen < 16 || pos > dlen - 16 {
            return Err(DecodeError::TruncatedBuffer);
        }
        let r = match read_u32(data, pos) {
            Ok(x) => x,
            Err(e) => { return Err(e); },
        };
        let g = match read_u32(data, pos + 4) {
            Ok(x) => x,
            Err(e) => { return Err(e); },
        };
        let b = match read_u32(data, pos + 8) {
            Ok(x) => x,
            Err(e) => { return Err(e); },
        };
        let a = match read_u32(data, pos + 12) {
            Ok(x) => x,
            Err(e) => { return Err(e); },
        };
        let v = LinearColorStruct { r, g, b, a };
        proof {
            assert(v.enc() =~= data@.subrange(pos as int, pos + 16));
        }
        Ok((v, pos + 16))
    }

    /// Appends the wire form of this struct.
    pub fn encode(&self, out: &mut Vec<u8>)
        ensures
            final(out)@ == old(out)@ + self.enc(),
    {
        write_u32(out, self.r);
        write_u32(out, self.g);
        write_u32(out, self.b);
        write_u32(out, self.a);
        proof {
            assert(out@ =~= old(out)@ + self.enc());
        }
    }
}

/// A quaternion.  Each component is a 32-bit float on the wire; the library
/// carries the four raw IEEE-754 bit patterns, scalar part first.
#[derive(Debug, PartialEq, Eq, Structural)]
pub struct QuatStruct {
    pub w: u32,
    pub x: u32,
    pub y: u32,
    pub z: u32,
}

impl QuatStruct {
    /// The wire bytes of this struct: always exactly 16 of them.
    pub open spec fn enc(self) -> Seq<u8> {
        spec_u32_to_le_bytes(self.w) + spec_u32_to_le_bytes(self.x) + spec_u32_to_le_bytes(self.y)
            + spec_u32_to_le_bytes(self.z)
    }

    pub fn struct_name() -> (r: &'static str)
        ensures
            r@ == "Quat"@,
    {
        "Quat"
    }

    pub fn size_in_bytes(&self) -> (r: u32)
        ensures
            r == self.enc().len(),
    {
        proof {
            lemma_auto_spec_u32_to_from_le_bytes();
        }
        16
    }

    /// Decodes a quaternion at `pos`: succeeds exactly when 16 bytes remain.
    pub fn decode(data: &Vec<u8>, pos: usize) -> (r: Result<(QuatStruct, usize), DecodeError>)
        ensures
            match r {
                Ok(p) => {
                    &&& encoded_at(data@, pos as int, p.0.enc())
                    &&& pos < p.1 <= data@.len()
                    &&& p.1 == pos + p.0.enc().len()
                },
                Err(e) => forall|v: QuatStruct| !encoded_at(data@, pos as int, v.enc()),
            },
    {
        proof {
            lemma_auto_spec_u32_to_from_le_bytes();
        }
        let dlen = data.len();
        if dlen < 16 || pos > dlen - 16 {
            return Err(DecodeError::TruncatedBuffer);
        }
        let w = match read_u32(data, pos) {
            Ok(x) => x,
            Err(e) => { return Err(e); },
        };
        let x = match read_u32(data, pos + 4) {
            Ok(x) => x,
            Err(e) => { return Err(e); },
        };
        let y = match read_u32(data, pos + 8) {
            Ok(x) => x,
            Err(e) => { return Err(e); },
        };
        let z = match read_u32(data, pos + 12) {
            Ok(x) => x,
            Err(e) => { return Err(e); },
        };
        let v = QuatStruct { w, x, y, z };
        proof {
            assert(v.enc() =~= data@.subrange(pos as int, pos + 16));
        }
        Ok((v, pos + 16))
    }

    /// Appends the wire form of this struct.
    pub fn encode(&self, out: &mut Vec<u8>)
        ensures
            final(out)@ == old(out)@ + self.enc(),
    {
        write_u32(out, self.w);
        write_u32(out, self.x);
        write_u32(out, self.y);
        write_u32(out, self.z);
        proof {
            assert(out@ =~= old(out)@ + self.enc());
        }
    }
}

/// A three-component vector.  Each component is a 32-bit float on the wire;
/// the library carries the three raw IEEE-754 bit patterns.
#[derive(Debug, PartialEq, Eq, Structural)]
pub struct VectorStruct {
    pub x: u32,
    pub y: u32,
    pub z: u32,
}

impl VectorStruct {
    /// The wire bytes of this struct: always exactly 12 of them.
    pub open spec fn enc(self) -> Seq<u8> {
        spec_u32_to_le_bytes(self.x) + spec_u32_to_le_bytes(self.y) + spec_u32_to_le_bytes(self.z)
    }

    pub fn struct_name() -> (r: &'static str)
        ensures
            r@ == "Vector"@,
    {
        "Vector"
    }

    pub fn size_in_bytes(&self) -> (r: u32)
        ensures
            r == self.enc().len(),
    {
        proof {
            lemma_auto_spec_u32_to_from_le_bytes();
        }
        12
    }

    /// Decodes a vector at `pos`: succeeds exactly when 12 bytes remain.
    pub fn decode(data: &Vec<u8>, pos: usize) -> (r: Result<(VectorStruct, usize), DecodeError>)
        ensures
            match r {
                Ok(p) => {
                    &&& encoded_at(data@, pos as int, p.0.enc())
                    &&& pos < p.1 <= data@.len()
                    &&& p.1 == pos + p.0.enc().len()
                },
                Err(e) => forall|v: VectorStruct| !encoded_at(data@, pos as int, v.enc()),
            },
    {
        proof {
            lemma_auto_spec_u32_to_from_le_bytes();
        }
        let dlen = data.len();
        if dlen < 12 || pos > dlen - 12 {
            return Err(DecodeError::TruncatedBuffer);
        }
        let x = match read_u32(data, pos) {
            Ok(x) => x,
            Err(e) => { return Err(e); },
        };
        let y = match read_u32(data, pos + 4) {
            Ok(x) => x,
            Err(e) => { return Err(e); },
        };
        let z = match read_u32(data, pos + 8) {
            Ok(x) => x,
            Err(e) => { return Err(e); },
        };
        let v = VectorStruct { x, y, z };
        proof {
            assert(v.enc() =~= data@.subrange(pos as int, pos + 12));
        }
        Ok((v, pos + 12))
    }

    /// Appends the wire form of this struct.
    pub fn encode(&self, out: &mut Vec<u8>)
        ensures
            final(out)@ == old(out)@ + self.enc(),
    {
        write_u32(out, self.x);
        write_u32(out, self.y);
        write_u32(out, self.z);
        proof {
            assert(out@ =~= old(out)@ + self.enc());
        }
    }
}

/// The closed set of property type tags all fit on the wire.
pub proof fn lemma_tag_literals_fit()
    ensures
        str_fits("None"@),
        str_fits("IntProperty"@),
        str_fits("BoolProperty"@),
        str_fits("FloatProperty"@),
        str_fits("StrProperty"@),
        str_fits("NameProperty"@),
        str_fits("EnumProperty"@),
        str_fits("StructProperty"@),
        str_fits("ArrayProperty"@),
        str_fits("MapProperty"@),
        str_fits("SetProperty"@),
        str_fits("StringProperty"@),
{
    reveal_strlit("None");
    assert(is_ascii_chars("None"@));
    is_ascii_chars_encode_utf8("None"@);
    reveal_strlit("IntProperty");
    assert(is_ascii_chars("IntProperty"@));
    is_ascii_chars_encode_utf8("IntProperty"@);
    reveal_strlit("BoolProperty");
    assert(is_ascii_chars("BoolProperty"@));
    is_ascii_chars_encode_utf8("BoolProperty"@);
    reveal_strlit("FloatProperty");
    assert(is_ascii_chars("FloatProperty"@));
    is_ascii_chars_encode_utf8("FloatProperty"@);
    reveal_strlit("StrProperty");
    assert(is_ascii_chars("StrProperty"@));
    is_ascii_chars_encode_utf8("StrProperty"@);
    reveal_strlit("NameProperty");
    assert(is_ascii_chars("NameProperty"@));
    is_ascii_chars_encode_utf8("NameProperty"@);
    reveal_strlit("EnumProperty");
    assert(is_ascii_chars("EnumProperty"@));
    is_ascii_chars_encode_utf8("EnumProperty"@);
    reveal_strlit("StructProperty");
    assert(is_ascii_chars("StructProperty"@));
    is_ascii_chars_encode_utf8("StructProperty"@);
    reveal_strlit("ArrayProperty");
    assert(is_ascii_chars("ArrayProperty"@));
    is_ascii_chars_encode_utf8("ArrayProperty"@);
    reveal_strlit("MapProperty");
    assert(is_ascii_chars("MapProperty"@));
    is_ascii_chars_encode_utf8("MapProperty"@);
    reveal_strlit("SetProperty");
    assert(is_ascii_chars("SetProperty"@));
    is_ascii_chars_encode_utf8("SetProperty"@);
    reveal_strlit("StringProperty");
    assert(is_ascii_chars("StringProperty"@));
    is_ascii_chars_encode_utf8("StringProperty"@);
}




/// Wire form of one plain-typed field of a serialized struct.
pub open spec fn enc_plain_field(name: Seq<char>, tag: Seq<char>, payload: Seq<u8>) -> Seq<u8> {
    enc_field_prelude(name, tag) + payload
}

/// Wire form of one struct-typed field of a serialized struct: the field
/// prelude, the struct prelude declaring the payload's byte size, then the
/// payload.
pub open spec fn enc_struct_field(name: Seq<char>, struct_name: Seq<char>, payload: Seq<u8>)
    -> Seq<u8> {
    enc_field_prelude(name, "StructProperty"@) + enc_struct_prelude(payload.len() as u32,
        struct_name) + payload
}

/// Reads the "None" sentinel that closes a serialized struct's field list.
/// When the sentinel is encoded at `pos` the read succeeds.
pub fn read_none_field(data: &Vec<u8>, pos: usize) -> (r: Result<usize, DecodeError>)
    ensures
        r matches Ok(end) ==> {
            &&& encoded_at(data@, pos as int, crate::enc_none())
            &&& pos < end <= data@.len()
            &&& end == pos + crate::enc_none().len()
        },
        r is Err ==> !encoded_at(data@, pos as int, crate::enc_none()),
{
    proof {
        lemma_tag_literals_fit();
    }
    let (s, end) = match read_string_with_length(data, pos) {
        Ok(p) => p,
        Err(e) => {
            proof {
                if encoded_at(data@, pos as int, crate::enc_none()) {
                    assert(crate::enc_none() == enc_string("None"@));
                    assert(string_encoded_at(data@, pos as int, "None"@));
                    assert(false);
                }
            }
            return Err(e);
        },
    };
    proof {
        if encoded_at(data@, pos as int, crate::enc_none()) {
            assert(crate::enc_none() == enc_string("None"@));
            assert(string_encoded_at(data@, pos as int, "None"@));
            assert(s@ == "None"@);
        }
    }
    if !str_eq(s.as_str(), "None") {
        return Err(DecodeError::InvalidValue);
    }
    Ok(end)
}

/// Writes the "None" sentinel that closes a serialized struct's field list.
pub fn write_none_field(out: &mut Vec<u8>)
    ensures
        final(out)@ == old(out)@ + crate::enc_none(),
{
    proof {
        lemma_tag_literals_fit();
    }
    write_string_with_length(out, "None");
}




/// The struct names of the fixed-layout field helpers fit on the wire.
proof fn lemma_fixed_struct_names_fit()
    ensures
        str_fits("Guid"@),
        str_fits("LinearColor"@),
{
    reveal_strlit("Guid");
    assert(is_ascii_chars("Guid"@));
    is_ascii_chars_encode_utf8("Guid"@);
    reveal_strlit("LinearColor");
    assert(is_ascii_chars("LinearColor"@));
    is_ascii_chars_encode_utf8("LinearColor"@);
}

/// Reads one struct-typed field whose payload is a 16-byte color: the
/// field prelude announcing `name`, the struct prelude announcing
/// "LinearColor", then the four components.
pub fn read_color_field(data: &Vec<u8>, pos: usize, name: &str)
    -> (r: Result<(LinearColorStruct, usize), DecodeError>)
    ensures
        r matches Ok(p) ==> {
            &&& encoded_at(data@, pos as int,
                enc_struct_field(name@, "LinearColor"@, p.0.enc()))
            &&& pos < p.1 <= data@.len()
            &&& p.1 == pos + enc_struct_field(name@, "LinearColor"@, p.0.enc()).len()
            &&& p.0.enc().len() == 16
            &&& str_fits(name@)
        },
        r is Err && str_fits(name@) ==> forall|v: LinearColorStruct|
            !encoded_at(data@, pos as int, enc_struct_field(name@, "LinearColor"@, v.enc())),
{
    proof {
        lemma_tag_literals_fit();
        lemma_fixed_struct_names_fit();
    }
    proof {
        lemma_auto_spec_u32_to_from_le_bytes();
    }
    let m = match read_field_prelude(data, pos, name, "StructProperty") {
        Ok(x) => x,
        Err(e) => {
            proof {
                if str_fits(name@) {
                    assert forall|v: LinearColorStruct|
                        !encoded_at(data@, pos as int, enc_struct_field(name@, "LinearColor"@, v.enc())) by {
                        if encoded_at(data@, pos as int, enc_struct_field(name@, "LinearColor"@, v.enc())) {
                            crate::common::lemma_encoded_slice(data@, pos as int,
                                enc_struct_field(name@, "LinearColor"@, v.enc()), 0, enc_field_prelude(name@, "StructProperty"@).len() as int);
                            assert(enc_struct_field(name@, "LinearColor"@, v.enc()).subrange(0, enc_field_prelude(name@, "StructProperty"@).len() as int) =~= enc_field_prelude(name@, "StructProperty"@));
                            assert(false);
                        }
                    }
                }
            }
            return Err(e);
        },
    };
    let (sz, b) = match read_struct_prelude(data, m, "LinearColor") {
        Ok(p) => p,
        Err(e) => {
            proof {
                if str_fits(name@) {
                    assert forall|v: LinearColorStruct|
                        !encoded_at(data@, pos as int, enc_struct_field(name@, "LinearColor"@, v.enc())) by {
                        if encoded_at(data@, pos as int, enc_struct_field(name@, "LinearColor"@, v.enc())) {
                            assert(v.enc().len() == 16);
                            crate::common::lemma_encoded_slice(data@, pos as int,
                                enc_struct_field(name@, "LinearColor"@, v.enc()), enc_field_prelude(name@, "StructProperty"@).len() as int,
                                enc_field_prelude(name@, "StructProperty"@).len() + enc_struct_prelude((v.enc().len() as u32), "LinearColor"@).len() as int);
                            assert(enc_struct_field(name@, "LinearColor"@, v.enc()).subrange(enc_field_prelude(name@, "StructProperty"@).len() as int,
                                enc_field_prelude(name@, "StructProperty"@).len() + enc_struct_prelude((v.enc().len() as u32), "LinearColor"@).len() as int) =~= enc_struct_prelude((v.enc().len() as u32), "LinearColor"@));
                            assert(encoded_at(data@, m as int, enc_struct_prelude((v.enc().len() as u32), "LinearColor"@)));
                            assert(false);
                        }
                    }
                }
            }
            return Err(e);
        },
    };
    // When a field with this name is encoded here, its payload stands at
    // `b` and its declared size is 16.
    proof {
        if str_fits(name@) {
            assert forall|v: LinearColorStruct|
                encoded_at(data@, pos as int, enc_struct_field(name@, "LinearColor"@, v.enc()))
                implies encoded_at(data@, b as int, v.enc()) && sz == 16 by {
                assert(v.enc().len() == 16);
                crate::common::lemma_encoded_slice(data@, pos as int,
                    enc_struct_field(name@, "LinearColor"@, v.enc()), enc_field_prelude(name@, "StructProperty"@).len() as int,
                    enc_field_prelude(name@, "StructProperty"@).len() + enc_struct_prelude((v.enc().len() as u32), "LinearColor"@).len() as int);
                assert(enc_struct_field(name@, "LinearColor"@, v.enc()).subrange(enc_field_prelude(name@, "StructProperty"@).len() as int,
                    enc_field_prelude(name@, "StructProperty"@).len() + enc_struct_prelude((v.enc().len() as u32), "LinearColor"@).len() as int) =~= enc_struct_prelude((v.enc().len() as u32), "LinearColor"@));
                assert(encoded_at(data@, m as int, enc_struct_prelude((v.enc().len() as u32), "LinearColor"@)));
                crate::common::lemma_encoded_slice(data@, pos as int,
                    enc_struct_field(name@, "LinearColor"@, v.enc()), enc_field_prelude(name@, "StructProperty"@).len() + enc_struct_prelude((v.enc().len() as u32), "LinearColor"@).len() as int,
                    enc_struct_field(name@, "LinearColor"@, v.enc()).len() as int);
                assert(enc_struct_field(name@, "LinearColor"@, v.enc()).subrange(enc_field_prelude(name@, "StructProperty"@).len() + enc_struct_prelude((v.enc().len() as u32), "LinearColor"@).len() as int,
                    enc_struct_field(name@, "LinearColor"@, v.enc()).len() as int) =~= v.enc());
            }
        }
    }
    let (c, end) = match LinearColorStruct::decode(data, b) {
        Ok(p) => p,
        Err(e) => {
            return Err(e);
        },
    };
    if (sz as u64) != ((end - b) as u64) {
        return Err(DecodeError::LengthMismatch);
    }
    proof {
        crate::common::lemma_subrange_join(data@, pos as int, m as int, b as int);
        crate::common::lemma_subrange_join(data@, pos as int, b as int, end as int);
        assert(enc_struct_field(name@, "LinearColor"@, c.enc())
            == data@.subrange(pos as int, end as int));
    }
    Ok((c, end))
}

/// Reads one struct-typed field whose payload is a 16-byte identifier:
/// the field prelude announcing `name`, the struct prelude announcing
/// "Guid", then the identifier itself.
pub fn read_guid_field(data: &Vec<u8>, pos: usize, name: &str)
    -> (r: Result<(Guid, usize), DecodeError>)
    ensures
        r matches Ok(p) ==> {
            &&& encoded_at(data@, pos as int,
                enc_struct_field(name@, "Guid"@, p.0.enc()))
            &&& pos < p.1 <= data@.len()
            &&& p.1 == pos + enc_struct_field(name@, "Guid"@, p.0.enc()).len()
            &&& p.0.enc().len() == 16
            &&& str_fits(name@)
        },
        r is Err && str_fits(name@) ==> forall|v: Guid|
            !encoded_at(data@, pos as int, enc_struct_field(name@, "Guid"@, v.enc())),
{
    proof {
        lemma_tag_literals_fit();
        lemma_fixed_struct_names_fit();
    }
    proof {
        lemma_auto_spec_u32_to_from_le_bytes();
    }
    let m = match read_field_prelude(data, pos, name, "StructProperty") {
        Ok(x) => x,
        Err(e) => {
            proof {
                if str_fits(name@) {
                    assert forall|v: Guid|
                        !encoded_at(data@, pos as int, enc_struct_field(name@, "Guid"@, v.enc())) by {
                        if encoded_at(data@, pos as int, enc_struct_field(name@, "Guid"@, v.enc())) {
                            crate::common::lemma_encoded_slice(data@, pos as int,
                                enc_struct_field(name@, "Guid"@, v.enc()), 0, enc_field_prelude(name@, "StructProperty"@).len() as int);
                            assert(enc_struct_field(name@, "Guid"@, v.enc()).subrange(0, enc_field_prelude(name@, "StructProperty"@).len() as int) =~= enc_field_prelude(name@, "StructProperty"@));
                            assert(false);
                        }
                    }
                }
            }
            return Err(e);
        },
    };
    let (sz, b) = match read_struct_prelude(data, m, "Guid") {
        Ok(p) => p,
        Err(e) => {
            proof {
                if str_fits(name@) {
                    assert forall|v: Guid|
                        !encoded_at(data@, pos as int, enc_struct_field(name@, "Guid"@, v.enc())) by {
                        if encoded_at(data@, pos as int, enc_struct_field(name@, "Guid"@, v.enc())) {
                            assert(v.enc().len() == 16);
                            crate::common::lemma_encoded_slice(data@, pos as int,
                                enc_struct_field(name@, "Guid"@, v.enc()), enc_field_prelude(name@, "StructProperty"@).len() as int,
                                enc_field_prelude(name@, "StructProperty"@).len() + enc_struct_prelude((v.enc().len() as u32), "Guid"@).len() as int);
                            assert(enc_struct_field(name@, "Guid"@, v.enc()).subrange(enc_field_prelude(name@, "StructProperty"@).len() as int,
                                enc_field_prelude(name@, "StructProperty"@).len() + enc_struct_prelude((v.enc().len() as u32), "Guid"@).len() as int) =~= enc_struct_prelude((v.enc().len() as u32), "Guid"@));
                            assert(encoded_at(data@, m as int, enc_struct_prelude((v.enc().len() as u32), "Guid"@)));
                            assert(false);
                        }
                    }
                }
            }
            return Err(e);
        },
    };
    // When a field with this name is encoded here, its payload stands at
    // `b` and its declared size is 16.
    proof {
        if str_fits(name@) {
            assert forall|v: Guid|
                encoded_at(data@, pos as int, enc_struct_field(name@, "Guid"@, v.enc()))
                implies encoded_at(data@, b as int, v.enc()) && sz == 16 by {
                assert(v.enc().len() == 16);
                crate::common::lemma_encoded_slice(data@, pos as int,
                    enc_struct_field(name@, "Guid"@, v.enc()), enc_field_prelude(name@, "StructProperty"@).len() as int,
                    enc_field_prelude(name@, "StructProperty"@).len() + enc_struct_prelude((v.enc().len() as u32), "Guid"@).len() as int);
                assert(enc_struct_field(name@, "Guid"@, v.enc()).subrange(enc_field_prelude(name@, "StructProperty"@).len() as int,
                    enc_field_prelude(name@, "StructProperty"@).len() + enc_struct_prelude((v.enc().len() as u32), "Guid"@).len() as int) =~= enc_struct_prelude((v.enc().len() as u32), "Guid"@));
                assert(encoded_at(data@, m as int, enc_struct_prelude((v.enc().len() as u32), "Guid"@)));
                crate::common::lemma_encoded_slice(data@, pos as int,
                    enc_struct_field(name@, "Guid"@, v.enc()), enc_field_prelude(name@, "StructProperty"@).len() + enc_struct_prelude((v.enc().len() as u32), "Guid"@).len() as int,
                    enc_struct_field(name@, "Guid"@, v.enc()).len() as int);
                assert(enc_struct_field(name@, "Guid"@, v.enc()).subrange(enc_field_prelude(name@, "StructProperty"@).len() + enc_struct_prelude((v.enc().len() as u32), "Guid"@).len() as int,
                    enc_struct_field(name@, "Guid"@, v.enc()).len() as int) =~= v.enc());
            }
        }
    }
    let (g, end) = match Guid::decode(data, b) {
        Ok(p) => p,
        Err(e) => {
            return Err(e);
        },
    };
    if (sz as u64) != ((end - b) as u64) {
        return Err(DecodeError::LengthMismatch);
    }
    proof {
        crate::common::lemma_subrange_join(data@, pos as int, m as int, b as int);
        crate::common::lemma_subrange_join(data@, pos as int, b as int, end as int);
        assert(enc_struct_field(name@, "Guid"@, g.enc())
            == data@.subrange(pos as int, end as int));
    }
    Ok((g, end))
}

/// The type half of a primary asset identifier.
///
/// On the wire this is a fixed field list under the struct name "PrimaryAssetType".
#[derive(Debug)]
pub struct PrimaryAssetTypeStruct {
    pub name: NameProperty,
}

impl PrimaryAssetTypeStruct {
    #[verifier::opaque]
    pub open spec fn wf(self) -> bool
        decreases self, 5int,
    {
        self.name.wf()
    }

    /// The wire bytes of this struct: its fields in order, each under
    /// its prelude, closed by one "None" sentinel.
    #[verifier::opaque]
    pub open spec fn enc(self) -> Seq<u8>
        decreases self, 5int,
    {
        enc_plain_field("Name"@, "NameProperty"@, self.name.enc())
            + crate::enc_none()
    }

    pub fn struct_name() -> (r: &'static str)
        ensures
            r@ == "PrimaryAssetType"@,
    {
        "PrimaryAssetType"
    }

    /// The names this struct's encoder writes all fit on the wire.
    proof fn names_fit()
        ensures
            str_fits("None"@),
            str_fits("Name"@),
            str_fits("NameProperty"@),
    {
        reveal_strlit("None");
        assert(is_ascii_chars("None"@));
        is_ascii_chars_encode_utf8("None"@);
        reveal_strlit("Name");
        assert(is_ascii_chars("Name"@));
        is_ascii_chars_encode_utf8("Name"@);
        reveal_strlit("NameProperty");
        assert(is_ascii_chars("NameProperty"@));
        is_ascii_chars_encode_utf8("NameProperty"@);
    }

    /// Decodes this struct's field list at `pos`, checking every field
    /// prelude and the closing sentinel.
    #[verifier::rlimit(100)]
    pub fn decode(data: &Vec<u8>, pos: usize)
        -> (r: Result<(PrimaryAssetTypeStruct, usize), DecodeError>)
        ensures
            r matches Ok(p) ==> {
                &&& p.0.wf()
                &&& encoded_at(data@, pos as int, p.0.enc())
                &&& pos < p.1 <= data@.len()
                &&& p.1 == pos + p.0.enc().len()
            },
        decreases data@.len() - pos, 2int,
    {
        let dlen = data.len();
        proof {
            reveal(PrimaryAssetTypeStruct::wf);
            reveal(PrimaryAssetTypeStruct::enc);
        }
        let m0 = match read_field_prelude(data, pos, "Name", "NameProperty") {
            Ok(x) => x,
            Err(e) => { return Err(e); },
        };
        let (name, e0) = match NameProperty::decode(data, m0) {
            Ok(p) => p,
            Err(e) => { return Err(e); },
        };
        proof {
            crate::common::lemma_subrange_join(data@, pos as int, m0 as int, e0 as int);
            assert(enc_plain_field("Name"@, "NameProperty"@, name.enc())
                == data@.subrange(pos as int, e0 as int));
        }
        let fin = match read_none_field(data, e0) {
            Ok(x) => x,
            Err(e) => { return Err(e); },
        };
        let v = PrimaryAssetTypeStruct { name };
        proof {
            crate::common::lemma_subrange_join(data@, pos as int, e0 as int, fin as int);
            assert(v.enc() == data@.subrange(pos as int, fin as int));
        }
        Ok((v, fin))
    }

    /// Appends the wire form of this struct, synthesizing the closing
    /// sentinel.
    #[verifier::rlimit(100)]
    pub fn encode(&self, out: &mut Vec<u8>)
        requires
            self.wf(),
        ensures
            final(out)@ == old(out)@ + self.enc(),
        decreases *self, 2int,
    {
        proof {
            reveal(PrimaryAssetTypeStruct::wf);
            reveal(PrimaryAssetTypeStruct::enc);
            Self::names_fit();
        }
        let ghost prev_out0: Seq<u8> = out@;
        write_field_prelude(out, "Name", "NameProperty");
        self.name.encode(out);
        proof {
            crate::common::lemma_add_assoc(prev_out0, enc_field_prelude("Name"@, "NameProperty"@), self.name.enc());
            assert(out@ == prev_out0 + enc_plain_field("Name"@, "NameProperty"@, self.name.enc()));
        }
        write_none_field(out);
        proof {
            crate::common::lemma_add_assoc(old(out)@, enc_plain_field("Name"@, "NameProperty"@, self.name.enc()),
                crate::enc_none());
            assert(out@ == old(out)@ + self.enc());
        }
    }
}

/// A primary asset identifier: its type and its name.
///
/// On the wire this is a fixed field list under the struct name "PrimaryAssetId".
#[derive(Debug)]
pub struct PrimaryAssetIdStruct {
    pub primary_asset_type: PrimaryAssetTypeStruct,
    pub primary_asset_name: NameProperty,
}

impl PrimaryAssetIdStruct {
    #[verifier::opaque]
    pub open spec fn wf(self) -> bool
        decreases self, 5int,
    {
        &&& self.primary_asset_type.wf()
        &&& self.primary_asset_type.enc().len() <= u32::MAX
        &&& self.primary_asset_name.wf()
    }

    /// The wire bytes of this struct: its fields in order, each under
    /// its prelude, closed by one "None" sentinel.
    #[verifier::opaque]
    pub open spec fn enc(self) -> Seq<u8>
        decreases self, 5int,
    {
        enc_struct_field("PrimaryAssetType"@, "PrimaryAssetType"@, self.primary_asset_type.enc())
            + enc_plain_field("PrimaryAssetName"@, "NameProperty"@, self.primary_asset_name.enc())
            + crate::enc_none()
    }

    pub fn struct_name() -> (r: &'static str)
        ensures
            r@ == "PrimaryAssetId"@,
    {
        "PrimaryAssetId"
    }

    /// The names this struct's encoder writes all fit on the wire.
    proof fn names_fit()
        ensures
            str_fits("None"@),
            str_fits("PrimaryAssetType"@),
            str_fits("StructProperty"@),
            str_fits("PrimaryAssetName"@),
            str_fits("NameProperty"@),
    {
        reveal_strlit("None");
        assert(is_ascii_chars("None"@));
        is_ascii_chars_encode_utf8("None"@);
        reveal_strlit("PrimaryAssetType");
        assert(is_ascii_chars("PrimaryAssetType"@));
        is_ascii_chars_encode_utf8("PrimaryAssetType"@);
        reveal_strlit("StructProperty");
        assert(is_ascii_chars("StructProperty"@));
        is_ascii_chars_encode_utf8("StructProperty"@);
        reveal_strlit("PrimaryAssetName");
        assert(is_ascii_chars("PrimaryAssetName"@));
        is_ascii_chars_encode_utf8("PrimaryAssetName"@);
        reveal_strlit("NameProperty");
        assert(is_ascii_chars("NameProperty"@));
        is_ascii_chars_encode_utf8("NameProperty"@);
    }

    /// Decodes this struct's field list at `pos`, checking every field
    /// prelude and the closing sentinel.
    #[verifier::rlimit(100)]
    pub fn decode(data: &Vec<u8>, pos: usize)
        -> (r: Result<(PrimaryAssetIdStruct, usize), DecodeError>)
        ensures
            r matches Ok(p) ==> {
                &&& p.0.wf()
                &&& encoded_at(data@, pos as int, p.0.enc())
                &&& pos < p.1 <= data@.len()
                &&& p.1 == pos + p.0.enc().len()
            },
        decreases data@.len() - pos, 2int,
    {
        let dlen = data.len();
        proof {
            reveal(PrimaryAssetIdStruct::wf);
            reveal(PrimaryAssetIdStruct::enc);
        }
        let m0 = match read_field_prelude(data, pos, "PrimaryAssetType", "StructProperty") {
            Ok(x) => x,
            Err(e) => { return Err(e); },
        };
        let (sz0, b0) = match read_struct_prelude(data, m0, "PrimaryAssetType") {
            Ok(p) => p,
            Err(e) => { return Err(e); },
        };
        let (primary_asset_type, e0) = match PrimaryAssetTypeStruct::decode(data, b0) {
            Ok(p) => p,
            Err(e) => { return Err(e); },
        };
        if (sz0 as u64) != ((e0 - b0) as u64) {
            return Err(DecodeError::LengthMismatch);
        }
        proof {
            crate::common::lemma_subrange_join(data@, pos as int, m0 as int, b0 as int);
            crate::common::lemma_subrange_join(data@, pos as int, b0 as int, e0 as int);
            assert(enc_struct_field("PrimaryAssetType"@, "PrimaryAssetType"@, primary_asset_type.enc())
                == data@.subrange(pos as int, e0 as int));
        }
        let m1 = match read_field_prelude(data, e0, "PrimaryAssetName", "NameProperty") {
            Ok(x) => x,
            Err(e) => { return Err(e); },
        };
        let (primary_asset_name, e1) = match NameProperty::decode(data, m1) {
            Ok(p) => p,
            Err(e) => { return Err(e); },
        };
        proof {
            crate::common::lemma_subrange_join(data@, e0 as int, m1 as int, e1 as int);
            assert(enc_plain_field("PrimaryAssetName"@, "NameProperty"@, primary_asset_name.enc())
                == data@.subrange(e0 as int, e1 as int));
        }
        let fin = match read_none_field(data, e1) {
            Ok(x) => x,
            Err(e) => { return Err(e); },
        };
        let v = PrimaryAssetIdStruct { primary_asset_type, primary_asset_name };
        proof {
            crate::common::lemma_subrange_join(data@, pos as int, e0 as int, e1 as int);
            crate::common::lemma_subrange_join(data@, pos as int, e1 as int, fin as int);
            assert(v.enc() == data@.subrange(pos as int, fin as int));
        }
        Ok((v, fin))
    }

    /// Appends the wire form of this struct, synthesizing the closing
    /// sentinel.
    #[verifier::rlimit(100)]
    pub fn encode(&self, out: &mut Vec<u8>)
        requires
            self.wf(),
        ensures
            final(out)@ == old(out)@ + self.enc(),
        decreases *self, 2int,
    {
        proof {
            reveal(PrimaryAssetIdStruct::wf);
            reveal(PrimaryAssetIdStruct::enc);
            Self::names_fit();
        }
        let ghost prev_out0: Seq<u8> = out@;
        write_field_prelude(out, "PrimaryAssetType", "StructProperty");
        let mut tmp0: Vec<u8> = Vec::new();
        self.primary_asset_type.encode(&mut tmp0);
        let sz0: u32 = tmp0.len() as u32;
        write_struct_prelude(out, sz0, "PrimaryAssetType");
        crate::common::write_bytes(out, &tmp0);
        proof {
            crate::common::lemma_add_assoc(prev_out0, enc_field_prelude("PrimaryAssetType"@, "StructProperty"@), enc_struct_prelude(sz0, "PrimaryAssetType"@));
            crate::common::lemma_add_assoc(prev_out0, enc_field_prelude("PrimaryAssetType"@, "StructProperty"@) + enc_struct_prelude(sz0, "PrimaryAssetType"@), self.primary_asset_type.enc());
            assert(out@ == prev_out0 + enc_struct_field("PrimaryAssetType"@, "PrimaryAssetType"@, self.primary_asset_type.enc()));
        }
        let ghost prev_out1: Seq<u8> = out@;
        write_field_prelude(out, "PrimaryAssetName", "NameProperty");
        self.primary_asset_name.encode(out);
        proof {
            crate::common::lemma_add_assoc(prev_out1, enc_field_prelude("PrimaryAssetName"@, "NameProperty"@), self.primary_asset_name.enc());
            assert(out@ == prev_out1 + enc_plain_field("PrimaryAssetName"@, "NameProperty"@, self.primary_asset_name.enc()));
        }
        write_none_field(out);
        proof {
            crate::common::lemma_add_assoc(old(out)@, enc_struct_field("PrimaryAssetType"@, "PrimaryAssetType"@, self.primary_asset_type.enc()),
                enc_plain_field("PrimaryAssetName"@, "NameProperty"@, self.primary_asset_name.enc()));
            crate::common::lemma_add_assoc(old(out)@, enc_struct_field("PrimaryAssetType"@, "PrimaryAssetType"@, self.primary_asset_type.enc()) + enc_plain_field("PrimaryAssetName"@, "NameProperty"@, self.primary_asset_name.enc()),
                crate::enc_none());
            assert(out@ == old(out)@ + self.enc());
        }
    }
}

/// The load options of a save slot.
///
/// On the wire this is a fixed field list under the struct name "DALoadOption".
#[derive(Debug)]
pub struct DALoadOptionStruct {
    pub load_types: IntProperty,
}

impl DALoadOptionStruct {
    #[verifier::opaque]
    pub open spec fn wf(self) -> bool
        decreases self, 5int,
    {
        true
    }

    /// The wire bytes of this struct: its fields in order, each under
    /// its prelude, closed by one "None" sentinel.
    #[verifier::opaque]
    pub open spec fn enc(self) -> Seq<u8>
        decreases self, 5int,
    {
        enc_plain_field("LoadTypes"@, "IntProperty"@, self.load_types.enc())
            + crate::enc_none()
    }

    pub fn struct_name() -> (r: &'static str)
        ensures
            r@ == "DALoadOption"@,
    {
        "DALoadOption"
    }

    /// The names this struct's encoder writes all fit on the wire.
    proof fn names_fit()
        ensures
            str_fits("None"@),
            str_fits("LoadTypes"@),
            str_fits("IntProperty"@),
    {
        reveal_strlit("None");
        assert(is_ascii_chars("None"@));
        is_ascii_chars_encode_utf8("None"@);
        reveal_strlit("LoadTypes");
        assert(is_ascii_chars("LoadTypes"@));
        is_ascii_chars_encode_utf8("LoadTypes"@);
        reveal_strlit("IntProperty");
        assert(is_ascii_chars("IntProperty"@));
        is_ascii_chars_encode_utf8("IntProperty"@);
    }

    /// Decodes this struct's field list at `pos`, checking every field
    /// prelude and the closing sentinel.
    #[verifier::rlimit(100)]
    pub fn decode(data: &Vec<u8>, pos: usize)
        -> (r: Result<(DALoadOptionStruct, usize), DecodeError>)
        ensures
            r matches Ok(p) ==> {
                &&& p.0.wf()
                &&& encoded_at(data@, pos as int, p.0.enc())
                &&& pos < p.1 <= data@.len()
                &&& p.1 == pos + p.0.enc().len()
            },
            r is Err ==> forall|v: DALoadOptionStruct| !encoded_at(data@, pos as int, v.enc()),
        decreases data@.len() - pos, 2int,
    {
        let dlen = data.len();
        proof {
            reveal(DALoadOptionStruct::wf);
            reveal(DALoadOptionStruct::enc);
            Self::names_fit();
            lemma_auto_spec_u32_to_from_le_bytes();
        }
        let m0 = match read_field_prelude(data, pos, "LoadTypes", "IntProperty") {
            Ok(x) => x,
            Err(e) => {
                proof {
                    assert forall|v: DALoadOptionStruct| !encoded_at(data@, pos as int, v.enc()) by {
                        if encoded_at(data@, pos as int, v.enc()) {
                            reveal(DALoadOptionStruct::enc);
                            crate::common::lemma_encoded_slice(data@, pos as int, v.enc(),
                                0, (0 + enc_field_prelude("LoadTypes"@, "IntProperty"@).len()) as int);
                            assert(v.enc().subrange(0 as int,
                                0 + enc_field_prelude("LoadTypes"@, "IntProperty"@).len() as int) =~= enc_field_prelude("LoadTypes"@, "IntProperty"@));
                            assert(false);
                        }
                    }
                }
                return Err(e);
            },
        };
        let (load_types, e0) = match IntProperty::decode(data, m0) {
            Ok(p) => p,
            Err(e) => {
                proof {
                    assert forall|v: DALoadOptionStruct| !encoded_at(data@, pos as int, v.enc()) by {
                        if encoded_at(data@, pos as int, v.enc()) {
                            reveal(DALoadOptionStruct::enc);
                            crate::common::lemma_encoded_slice(data@, pos as int, v.enc(),
                                (0 + enc_field_prelude("LoadTypes"@, "IntProperty"@).len()) as int,
                                (0 + enc_field_prelude("LoadTypes"@, "IntProperty"@).len() + v.load_types.enc().len()) as int);
                            assert(v.enc().subrange(0 + enc_field_prelude("LoadTypes"@, "IntProperty"@).len() as int,
                                0 + enc_field_prelude("LoadTypes"@, "IntProperty"@).len() + v.load_types.enc().len() as int) =~= v.load_types.enc());
                            assert(false);
                        }
                    }
                }
                return Err(e);
            },
        };
        proof {
            crate::common::lemma_subrange_join(data@, pos as int, m0 as int, e0 as int);
            assert(enc_plain_field("LoadTypes"@, "IntProperty"@, load_types.enc())
                == data@.subrange(pos as int, e0 as int));
        }
        let fin = match read_none_field(data, e0) {
            Ok(x) => x,
            Err(e) => {
                proof {
                    assert forall|v: DALoadOptionStruct| !encoded_at(data@, pos as int, v.enc()) by {
                        if encoded_at(data@, pos as int, v.enc()) {
                            reveal(DALoadOptionStruct::enc);
                            crate::common::lemma_encoded_slice(data@, pos as int, v.enc(),
                                (enc_plain_field("LoadTypes"@, "IntProperty"@, v.load_types.enc()).len()) as int,
                                v.enc().len() as int);
                            assert(v.enc().subrange((enc_plain_field("LoadTypes"@, "IntProperty"@, v.load_types.enc()).len()) as int,
                                v.enc().len() as int) =~= crate::enc_none());
                            assert(false);
                        }
                    }
                }
                return Err(e);
            },
        };
        let v = DALoadOptionStruct { load_types };
        proof {
            crate::common::lemma_subrange_join(data@, pos as int, e0 as int, fin as int);
            assert(v.enc() == data@.subrange(pos as int, fin as int));
        }
        Ok((v, fin))
    }

    /// Appends the wire form of this struct, synthesizing the closing
    /// sentinel.
    #[verifier::rlimit(100)]
    pub fn encode(&self, out: &mut Vec<u8>)
        requires
            self.wf(),
        ensures
            final(out)@ == old(out)@ + self.enc(),
        decreases *self, 2int,
    {
        proof {
            reveal(DALoadOptionStruct::wf);
            reveal(DALoadOptionStruct::enc);
            Self::names_fit();
        }
        let ghost prev_out0: Seq<u8> = out@;
        write_field_prelude(out, "LoadTypes", "IntProperty");
        self.load_types.encode(out);
        proof {
            crate::common::lemma_add_assoc(prev_out0, enc_field_prelude("LoadTypes"@, "IntProperty"@), self.load_types.enc());
            assert(out@ == prev_out0 + enc_plain_field("LoadTypes"@, "IntProperty"@, self.load_types.enc()));
        }
        write_none_field(out);
        proof {
            crate::common::lemma_add_assoc(old(out)@, enc_plain_field("LoadTypes"@, "IntProperty"@, self.load_types.enc()),
                crate::enc_none());
            assert(out@ == old(out)@ + self.enc());
        }
    }
}

/// A module item and its level.
///
/// On the wire this is a fixed field list under the struct name "DAModuleItemData".
#[derive(Debug)]
pub struct DAModuleItemDataStruct {
    pub module_level: IntProperty,
}

impl DAModuleItemDataStruct {
    #[verifier::opaque]
    pub open spec fn wf(self) -> bool
        decreases self, 5int,
    {
        true
    }

    /// The wire bytes of this struct: its fields in order, each under
    /// its prelude, closed by one "None" sentinel.
    #[verifier::opaque]
    pub open spec fn enc(self) -> Seq<u8>
        decreases self, 5int,
    {
        enc_plain_field("ModuleLevel"@, "IntProperty"@, self.module_level.enc())
            + crate::enc_none()
    }

    pub fn struct_name() -> (r: &'static str)
        ensures
            r@ == "DAModuleItemData"@,
    {
        "DAModuleItemData"
    }

    /// The names this struct's encoder writes all fit on the wire.
    proof fn names_fit()
        ensures
            str_fits("None"@),
            str_fits("ModuleLevel"@),
            str_fits("IntProperty"@),
    {
        reveal_strlit("None");
        assert(is_ascii_chars("None"@));
        is_ascii_chars_encode_utf8("None"@);
        reveal_strlit("ModuleLevel");
        assert(is_ascii_chars("ModuleLevel"@));
        is_ascii_chars_encode_utf8("ModuleLevel"@);
        reveal_strlit("IntProperty");
        assert(is_ascii_chars("IntProperty"@));
        is_ascii_chars_encode_utf8("IntProperty"@);
    }

    /// Decodes this struct's field list at `pos`, checking every field
    /// prelude and the closing sentinel.
    #[verifier::rlimit(100)]
    pub fn decode(data: &Vec<u8>, pos: usize)
        -> (r: Result<(DAModuleItemDataStruct, usize), DecodeError>)
        ensures
            r matches Ok(p) ==> {
                &&& p.0.wf()
                &&& encoded_at(data@, pos as int, p.0.enc())
                &&& pos < p.1 <= data@.len()
                &&& p.1 == pos + p.0.enc().len()
            },
            r is Err ==> forall|v: DAModuleItemDataStruct| !encoded_at(data@, pos as int, v.enc()),
        decreases data@.len() - pos, 2int,
    {
        let dlen = data.len();
        proof {
            reveal(DAModuleItemDataStruct::wf);
            reveal(DAModuleItemDataStruct::enc);
            Self::names_fit();
            lemma_auto_spec_u32_to_from_le_bytes();
        }
        let m0 = match read_field_prelude(data, pos, "ModuleLevel", "IntProperty") {
            Ok(x) => x,
            Err(e) => {
                proof {
                    assert forall|v: DAModuleItemDataStruct| !encoded_at(data@, pos as int, v.enc()) by {
                        if encoded_at(data@, pos as int, v.enc()) {
                            reveal(DAModuleItemDataStruct::enc);
                            crate::common::lemma_encoded_slice(data@, pos as int, v.enc(),
                                0, (0 + enc_field_prelude("ModuleLevel"@, "IntProperty"@).len()) as int);
                            assert(v.enc().subrange(0 as int,
                                0 + enc_field_prelude("ModuleLevel"@, "IntProperty"@).len() as int) =~= enc_field_prelude("ModuleLevel"@, "IntProperty"@));
                            assert(false);
                        }
                    }
                }
                return Err(e);
            },
        };
        let (module_level, e0) = match IntProperty::decode(data, m0) {
            Ok(p) => p,
            Err(e) => {
                proof {
                    assert forall|v: DAModuleItemDataStruct| !encoded_at(data@, pos as int, v.enc()) by {
                        if encoded_at(data@, pos as int, v.enc()) {
                            reveal(DAModuleItemDataStruct::enc);
                            crate::common::lemma_encoded_slice(data@, pos as int, v.enc(),
                                (0 + enc_field_prelude("ModuleLevel"@, "IntProperty"@).len()) as int,
                                (0 + enc_field_prelude("ModuleLevel"@, "IntProperty"@).len() + v.module_level.enc().len()) as int);
                            assert(v.enc().subrange(0 + enc_field_prelude("ModuleLevel"@, "IntProperty"@).len() as int,
                                0 + enc_field_prelude("ModuleLevel"@, "IntProperty"@).len() + v.module_level.enc().len() as int) =~= v.module_level.enc());
                            assert(false);
                        }
                    }
                }
                return Err(e);
            },
        };
        proof {
            crate::common::lemma_subrange_join(data@, pos as int, m0 as int, e0 as int);
            assert(enc_plain_field("ModuleLevel"@, "IntProperty"@, module_level.enc())
                == data@.subrange(pos as int, e0 as int));
        }
        let fin = match read_none_field(data, e0) {
            Ok(x) => x,
            Err(e) => {
                proof {
                    assert forall|v: DAModuleItemDataStruct| !encoded_at(data@, pos as int, v.enc()) by {
                        if encoded_at(data@, pos as int, v.enc()) {
                            reveal(DAModuleItemDataStruct::enc);
                            crate::common::lemma_encoded_slice(data@, pos as int, v.enc(),
                                (enc_plain_field("ModuleLevel"@, "IntProperty"@, v.module_level.enc()).len()) as int,
                                v.enc().len() as int);
                            assert(v.enc().subrange((enc_plain_field("ModuleLevel"@, "IntProperty"@, v.module_level.enc()).len()) as int,
                                v.enc().len() as int) =~= crate::enc_none());
                            assert(false);
                        }
                    }
                }
                return Err(e);
            },
        };
        let v = DAModuleItemDataStruct { module_level };
        proof {
            crate::common::lemma_subrange_join(data@, pos as int, e0 as int, fin as int);
            assert(v.enc() == data@.subrange(pos as int, fin as int));
        }
        Ok((v, fin))
    }

    /// Appends the wire form of this struct, synthesizing the closing
    /// sentinel.
    #[verifier::rlimit(100)]
    pub fn encode(&self, out: &mut Vec<u8>)
        requires
            self.wf(),
        ensures
            final(out)@ == old(out)@ + self.enc(),
        decreases *self, 2int,
    {
        proof {
            reveal(DAModuleItemDataStruct::wf);
            reveal(DAModuleItemDataStruct::enc);
            Self::names_fit();
        }
        let ghost prev_out0: Seq<u8> = out@;
        write_field_prelude(out, "ModuleLevel", "IntProperty");
        self.module_level.encode(out);
        proof {
            crate::common::lemma_add_assoc(prev_out0, enc_field_prelude("ModuleLevel"@, "IntProperty"@), self.module_level.enc());
            assert(out@ == prev_out0 + enc_plain_field("ModuleLevel"@, "IntProperty"@, self.module_level.enc()));
        }
        write_none_field(out);
        proof {
            crate::common::lemma_add_assoc(old(out)@, enc_plain_field("ModuleLevel"@, "IntProperty"@, self.module_level.enc()),
                crate::enc_none());
            assert(out@ == old(out)@ + self.enc());
        }
    }
}

/// The spent and available tuning points.
///
/// On the wire this is a fixed field list under the struct name "DATuningPointData".
#[derive(Debug)]
pub struct DATuningPointData {
    pub tuning_point: IntProperty,
    pub max_tuning_point: IntProperty,
}

impl DATuningPointData {
    #[verifier::opaque]
    pub open spec fn wf(self) -> bool
        decreases self, 5int,
    {
        true
    }

    /// The wire bytes of this struct: its fields in order, each under
    /// its prelude, closed by one "None" sentinel.
    #[verifier::opaque]
    pub open spec fn enc(self) -> Seq<u8>
        decreases self, 5int,
    {
        enc_plain_field("TuningPoint"@, "IntProperty"@, self.tuning_point.enc())
            + enc_plain_field("MaxTuningPoint"@, "IntProperty"@, self.max_tuning_point.enc())
            + crate::enc_none()
    }

    pub fn struct_name() -> (r: &'static str)
        ensures
            r@ == "DATuningPointData"@,
    {
        "DATuningPointData"
    }

    /// The names this struct's encoder writes all fit on the wire.
    proof fn names_fit()
        ensures
            str_fits("None"@),
            str_fits("TuningPoint"@),
            str_fits("IntProperty"@),
            str_fits("MaxTuningPoint"@),
    {
        reveal_strlit("None");
        assert(is_ascii_chars("None"@));
        is_ascii_chars_encode_utf8("None"@);
        reveal_strlit("TuningPoint");
        assert(is_ascii_chars("TuningPoint"@));
        is_ascii_chars_encode_utf8("TuningPoint"@);
        reveal_strlit("IntProperty");
        assert(is_ascii_chars("IntProperty"@));
        is_ascii_chars_encode_utf8("IntProperty"@);
        reveal_strlit("MaxTuningPoint");
        assert(is_ascii_chars("MaxTuningPoint"@));
        is_ascii_chars_encode_utf8("MaxTuningPoint"@);
    }

    /// Decodes this struct's field list at `pos`, checking every field
    /// prelude and the closing sentinel.
    #[verifier::rlimit(100)]
    pub fn decode(data: &Vec<u8>, pos: usize)
        -> (r: Result<(DATuningPointData, usize), DecodeError>)
        ensures
            r matches Ok(p) ==> {
                &&& p.0.wf()
                &&& encoded_at(data@, pos as int, p.0.enc())
                &&& pos < p.1 <= data@.len()
                &&& p.1 == pos + p.0.enc().len()
            },
            r is Err ==> forall|v: DATuningPointData| !encoded_at(data@, pos as int, v.enc()),
        decreases data@.len() - pos, 2int,
    {
        let dlen = data.len();
        proof {
            reveal(DATuningPointData::wf);
            reveal(DATuningPointData::enc);
            Self::names_fit();
            lemma_auto_spec_u32_to_from_le_bytes();
        }
        let m0 = match read_field_prelude(data, pos, "TuningPoint", "IntProperty") {
            Ok(x) => x,
            Err(e) => {
                proof {
                    assert forall|v: DATuningPointData| !encoded_at(data@, pos as int, v.enc()) by {
                        if encoded_at(data@, pos as int, v.enc()) {
                            reveal(DATuningPointData::enc);
                            crate::common::lemma_encoded_slice(data@, pos as int, v.enc(),
                                0, (0 + enc_field_prelude("TuningPoint"@, "IntProperty"@).len()) as int);
                            assert(v.enc().subrange(0 as int,
                                0 + enc_field_prelude("TuningPoint"@, "IntProperty"@).len() as int) =~= enc_field_prelude("TuningPoint"@, "IntProperty"@));
                            assert(false);
                        }
                    }
                }
                return Err(e);
            },
        };
        let (tuning_point, e0) = match IntProperty::decode(data, m0) {
            Ok(p) => p,
            Err(e) => {
                proof {
                    assert forall|v: DATuningPointData| !encoded_at(data@, pos as int, v.enc()) by {
                        if encoded_at(data@, pos as int, v.enc()) {
                            reveal(DATuningPointData::enc);
                            crate::common::lemma_encoded_slice(data@, pos as int, v.enc(),
                                (0 + enc_field_prelude("TuningPoint"@, "IntProperty"@).len()) as int,
                                (0 + enc_field_prelude("TuningPoint"@, "IntProperty"@).len() + v.tuning_point.enc().len()) as int);
                            assert(v.enc().subrange(0 + enc_field_prelude("TuningPoint"@, "IntProperty"@).len() as int,
                                0 + enc_field_prelude("TuningPoint"@, "IntProperty"@).len() + v.tuning_point.enc().len() as int) =~= v.tuning_point.enc());
                            assert(false);
                        }
                    }
                }
                return Err(e);
            },
        };
        proof {
            crate::common::lemma_subrange_join(data@, pos as int, m0 as int, e0 as int);
            assert(enc_plain_field("TuningPoint"@, "IntProperty"@, tuning_point.enc())
                == data@.subrange(pos as int, e0 as int));
        }
        let m1 = match read_field_prelude(data, e0, "MaxTuningPoint", "IntProperty") {
            Ok(x) => x,
            Err(e) => {
                proof {
                    assert forall|v: DATuningPointData| !encoded_at(data@, pos as int, v.enc()) by {
                        if encoded_at(data@, pos as int, v.enc()) {
                            reveal(DATuningPointData::enc);
                            crate::common::lemma_encoded_slice(data@, pos as int, v.enc(),
                                (enc_plain_field("TuningPoint"@, "IntProperty"@, v.tuning_point.enc()).len()) as int,
                                ((enc_plain_field("TuningPoint"@, "IntProperty"@, v.tuning_point.enc()).len())
                                    + enc_field_prelude("MaxTuningPoint"@, "IntProperty"@).len()) as int);
                            assert(v.enc().subrange((enc_plain_field("TuningPoint"@, "IntProperty"@, v.tuning_point.enc()).len()) as int,
                                (enc_plain_field("TuningPoint"@, "IntProperty"@, v.tuning_point.enc()).len()) + enc_field_prelude("MaxTuningPoint"@, "IntProperty"@).len() as int) =~= enc_field_prelude("MaxTuningPoint"@, "IntProperty"@));
                            assert(false);
                        }
                    }
                }
                return Err(e);
            },
        };
        let (max_tuning_point, e1) = match IntProperty::decode(data, m1) {
            Ok(p) => p,
            Err(e) => {
                proof {
                    assert forall|v: DATuningPointData| !encoded_at(data@, pos as int, v.enc()) by {
                        if encoded_at(data@, pos as int, v.enc()) {
                            reveal(DATuningPointData::enc);
                            crate::common::lemma_encoded_slice(data@, pos as int, v.enc(),
                                ((enc_plain_field("TuningPoint"@, "IntProperty"@, v.tuning_point.enc()).len()) + enc_field_prelude("MaxTuningPoint"@, "IntProperty"@).len()) as int,
                                ((enc_plain_field("TuningPoint"@, "IntProperty"@, v.tuning_point.enc()).len()) + enc_field_prelude("MaxTuningPoint"@, "IntProperty"@).len() + v.max_tuning_point.enc().len()) as int);
                            assert(v.enc().subrange((enc_plain_field("TuningPoint"@, "IntProperty"@, v.tuning_point.enc()).len()) + enc_field_prelude("MaxTuningPoint"@, "IntProperty"@).len() as int,
                                (enc_plain_field("TuningPoint"@, "IntProperty"@, v.tuning_point.enc()).len()) + enc_field_prelude("MaxTuningPoint"@, "IntProperty"@).len() + v.max_tuning_point.enc().len() as int) =~= v.max_tuning_point.enc());
                            assert(false);
                        }
                    }
                }
                return Err(e);
            },
        };
        proof {
            crate::common::lemma_subrange_join(data@, e0 as int, m1 as int, e1 as int);
            assert(enc_plain_field("MaxTuningPoint"@, "IntProperty"@, max_tuning_point.enc())
                == data@.subrange(e0 as int, e1 as int));
        }
        let fin = match read_none_field(data, e1) {
            Ok(x) => x,
            Err(e) => {
                proof {
                    assert forall|v: DATuningPointData| !encoded_at(data@, pos as int, v.enc()) by {
                        if encoded_at(data@, pos as int, v.enc()) {
                            reveal(DATuningPointData::enc);
                            crate::common::lemma_encoded_slice(data@, pos as int, v.enc(),
                                (enc_plain_field("TuningPoint"@, "IntProperty"@, v.tuning_point.enc()).len()
                                    + enc_plain_field("MaxTuningPoint"@, "IntProperty"@, v.max_tuning_point.enc()).len()) as int,
                                v.enc().len() as int);
                            assert(v.enc().subrange((enc_plain_field("TuningPoint"@, "IntProperty"@, v.tuning_point.enc()).len() + enc_plain_field("MaxTuningPoint"@, "IntProperty"@, v.max_tuning_point.enc()).len()) as int,
                                v.enc().len() as int) =~= crate::enc_none());
                            assert(false);
                        }
                    }
                }
                return Err(e);
            },
        };
        let v = DATuningPointData { tuning_point, max_tuning_point };
        proof {
            crate::common::lemma_subrange_join(data@, pos as int, e0 as int, e1 as int);
            crate::common::lemma_subrange_join(data@, pos as int, e1 as int, fin as int);
            assert(v.enc() == data@.subrange(pos as int, fin as int));
        }
        Ok((v, fin))
    }

    /// Appends the wire form of this struct, synthesizing the closing
    /// sentinel.
    #[verifier::rlimit(100)]
    pub fn encode(&self, out: &mut Vec<u8>)
        requires
            self.wf(),
        ensures
            final(out)@ == old(out)@ + self.enc(),
        decreases *self, 2int,
    {
        proof {
            reveal(DATuningPointData::wf);
            reveal(DATuningPointData::enc);
            Self::names_fit();
        }
        let ghost prev_out0: Seq<u8> = out@;
        write_field_prelude(out, "TuningPoint", "IntProperty");
        self.tuning_point.encode(out);
        proof {
            crate::common::lemma_add_assoc(prev_out0, enc_field_prelude("TuningPoint"@, "IntProperty"@), self.tuning_point.enc());
            assert(out@ == prev_out0 + enc_plain_field("TuningPoint"@, "IntProperty"@, self.tuning_point.enc()));
        }
        let ghost prev_out1: Seq<u8> = out@;
        write_field_prelude(out, "MaxTuningPoint", "IntProperty");
        self.max_tuning_point.encode(out);
        proof {
            crate::common::lemma_add_assoc(prev_out1, enc_field_prelude("MaxTuningPoint"@, "IntProperty"@), self.max_tuning_point.enc());
            assert(out@ == prev_out1 + enc_plain_field("MaxTuningPoint"@, "IntProperty"@, self.max_tuning_point.enc()));
        }
        write_none_field(out);
        proof {
            crate::common::lemma_add_assoc(old(out)@, enc_plain_field("TuningPoint"@, "IntProperty"@, self.tuning_point.enc()),
                enc_plain_field("MaxTuningPoint"@, "IntProperty"@, self.max_tuning_point.enc()));
            crate::common::lemma_add_assoc(old(out)@, enc_plain_field("TuningPoint"@, "IntProperty"@, self.tuning_point.enc()) + enc_plain_field("MaxTuningPoint"@, "IntProperty"@, self.max_tuning_point.enc()),
                crate::enc_none());
            assert(out@ == old(out)@ + self.enc());
        }
    }
}

/// The four colors of a machine module.
///
/// On the wire this is a fixed field list under the struct name "DAModuleColor".
#[derive(Debug)]
pub struct DAModuleColorStruct {
    pub main: LinearColorStruct,
    pub sub: LinearColorStruct,
    pub inner: LinearColorStruct,
    pub glow: LinearColorStruct,
}

impl DAModuleColorStruct {
    #[verifier::opaque]
    pub open spec fn wf(self) -> bool
        decreases self, 5int,
    {
        &&& self.main.enc().len() <= u32::MAX
        &&& self.sub.enc().len() <= u32::MAX
        &&& self.inner.enc().len() <= u32::MAX
        &&& self.glow.enc().len() <= u32::MAX
    }

    /// The wire bytes of this struct: its fields in order, each under
    /// its prelude, closed by one "None" sentinel.
    #[verifier::opaque]
    pub open spec fn enc(self) -> Seq<u8>
        decreases self, 5int,
    {
        enc_struct_field("Main"@, "LinearColor"@, self.main.enc())
            + enc_struct_field("Sub"@, "LinearColor"@, self.sub.enc())
            + enc_struct_field("Inner"@, "LinearColor"@, self.inner.enc())
            + enc_struct_field("Glow"@, "LinearColor"@, self.glow.enc())
            + crate::enc_none()
    }

    pub fn struct_name() -> (r: &'static str)
        ensures
            r@ == "DAModuleColor"@,
    {
        "DAModuleColor"
    }

    /// The names this struct's encoder writes all fit on the wire.
    proof fn names_fit()
        ensures
            str_fits("None"@),
            str_fits("Main"@),
            str_fits("StructProperty"@),
            str_fits("LinearColor"@),
            str_fits("Sub"@),
            str_fits("Inner"@),
            str_fits("Glow"@),
    {
        reveal_strlit("None");
        assert(is_ascii_chars("None"@));
        is_ascii_chars_encode_utf8("None"@);
        reveal_strlit("Main");
        assert(is_ascii_chars("Main"@));
        is_ascii_chars_encode_utf8("Main"@);
        reveal_strlit("StructProperty");
        assert(is_ascii_chars("StructProperty"@));
        is_ascii_chars_encode_utf8("StructProperty"@);
        reveal_strlit("LinearColor");
        assert(is_ascii_chars("LinearColor"@));
        is_ascii_chars_encode_utf8("LinearColor"@);
        reveal_strlit("Sub");
        assert(is_ascii_chars("Sub"@));
        is_ascii_chars_encode_utf8("Sub"@);
        reveal_strlit("Inner");
        assert(is_ascii_chars("Inner"@));
        is_ascii_chars_encode_utf8("Inner"@);
        reveal_strlit("Glow");
        assert(is_ascii_chars("Glow"@));
        is_ascii_chars_encode_utf8("Glow"@);
    }

    /// Where each piece of an encoded record of this layout stands,
    /// and the fixed length of each color payload.
    #[verifier::rlimit(100)]
    proof fn lemma_regions(data: Seq<u8>, pos: int, v: DAModuleColorStruct)
        requires
            encoded_at(data, pos, v.enc()),
        ensures
            encoded_at(data, pos + 0, enc_struct_field("Main"@, "LinearColor"@, v.main.enc())),
            v.main.enc().len() == 16,
            encoded_at(data, pos + (enc_struct_field("Main"@, "LinearColor"@, v.main.enc()).len()), enc_struct_field("Sub"@, "LinearColor"@, v.sub.enc())),
            v.sub.enc().len() == 16,
            encoded_at(data, pos + (enc_struct_field("Main"@, "LinearColor"@, v.main.enc()).len() + enc_struct_field("Sub"@, "LinearColor"@, v.sub.enc()).len()), enc_struct_field("Inner"@, "LinearColor"@, v.inner.enc())),
            v.inner.enc().len() == 16,
            encoded_at(data, pos + (enc_struct_field("Main"@, "LinearColor"@, v.main.enc()).len() + enc_struct_field("Sub"@, "LinearColor"@, v.sub.enc()).len() + enc_struct_field("Inner"@, "LinearColor"@, v.inner.enc()).len()), enc_struct_field("Glow"@, "LinearColor"@, v.glow.enc())),
            v.glow.enc().len() == 16,
            encoded_at(data, pos + (enc_struct_field("Main"@, "LinearColor"@, v.main.enc()).len() + enc_struct_field("Sub"@, "LinearColor"@, v.sub.enc()).len() + enc_struct_field("Inner"@, "LinearColor"@, v.inner.enc()).len() + enc_struct_field("Glow"@, "LinearColor"@, v.glow.enc()).len()), crate::enc_none()),
    {
        reveal(DAModuleColorStruct::enc);
        lemma_auto_spec_u32_to_from_le_bytes();
        crate::common::lemma_encoded_slice(data, pos, v.enc(),
            (0) as int,
            (0 + enc_struct_field("Main"@, "LinearColor"@, v.main.enc()).len()) as int);
        assert(v.enc().subrange((0) as int, (0 + enc_struct_field("Main"@, "LinearColor"@, v.main.enc()).len()) as int)
            =~= enc_struct_field("Main"@, "LinearColor"@, v.main.enc()));
        crate::common::lemma_encoded_slice(data, pos, v.enc(),
            ((enc_struct_field("Main"@, "LinearColor"@, v.main.enc()).len())) as int,
            ((enc_struct_field("Main"@, "LinearColor"@, v.main.enc()).len()) + enc_struct_field("Sub"@, "LinearColor"@, v.sub.enc()).len()) as int);
        assert(v.enc().subrange(((enc_struct_field("Main"@, "LinearColor"@, v.main.enc()).len())) as int, ((enc_struct_field("Main"@, "LinearColor"@, v.main.enc()).len()) + enc_struct_field("Sub"@, "LinearColor"@, v.sub.enc()).len()) as int)
            =~= enc_struct_field("Sub"@, "LinearColor"@, v.sub.enc()));
        crate::common::lemma_encoded_slice(data, pos, v.enc(),
            ((enc_struct_field("Main"@, "LinearColor"@, v.main.enc()).len() + enc_struct_field("Sub"@, "LinearColor"@, v.sub.enc()).len())) as int,
            ((enc_struct_field("Main"@, "LinearColor"@, v.main.enc()).len() + enc_struct_field("Sub"@, "LinearColor"@, v.sub.enc()).len()) + enc_struct_field("Inner"@, "LinearColor"@, v.inner.enc()).len()) as int);
        assert(v.enc().subrange(((enc_struct_field("Main"@, "LinearColor"@, v.main.enc()).len() + enc_struct_field("Sub"@, "LinearColor"@, v.sub.enc()).len())) as int, ((enc_struct_field("Main"@, "LinearColor"@, v.main.enc()).len() + enc_struct_field("Sub"@, "LinearColor"@, v.sub.enc()).len()) + enc_struct_field("Inner"@, "LinearColor"@, v.inner.enc()).len()) as int)
            =~= enc_struct_field("Inner"@, "LinearColor"@, v.inner.enc()));
        crate::common::lemma_encoded_slice(data, pos, v.enc(),
            ((enc_struct_field("Main"@, "LinearColor"@, v.main.enc()).len() + enc_struct_field("Sub"@, "LinearColor"@, v.sub.enc()).len() + enc_struct_field("Inner"@, "LinearColor"@, v.inner.enc()).len())) as int,
            ((enc_struct_field("Main"@, "LinearColor"@, v.main.enc()).len() + enc_struct_field("Sub"@, "LinearColor"@, v.sub.enc()).len() + enc_struct_field("Inner"@, "LinearColor"@, v.inner.enc()).len()) + enc_struct_field("Glow"@, "LinearColor"@, v.glow.enc()).len()) as int);
        assert(v.enc().subrange(((enc_struct_field("Main"@, "LinearColor"@, v.main.enc()).len() + enc_struct_field("Sub"@, "LinearColor"@, v.sub.enc()).len() + enc_struct_field("Inner"@, "LinearColor"@, v.inner.enc()).len())) as int, ((enc_struct_field("Main"@, "LinearColor"@, v.main.enc()).len() + enc_struct_field("Sub"@, "LinearColor"@, v.sub.enc()).len() + enc_struct_field("Inner"@, "LinearColor"@, v.inner.enc()).len()) + enc_struct_field("Glow"@, "LinearColor"@, v.glow.enc()).len()) as int)
            =~= enc_struct_field("Glow"@, "LinearColor"@, v.glow.enc()));
        crate::common::lemma_encoded_slice(data, pos, v.enc(),
            ((enc_struct_field("Main"@, "LinearColor"@, v.main.enc()).len() + enc_struct_field("Sub"@, "LinearColor"@, v.sub.enc()).len() + enc_struct_field("Inner"@, "LinearColor"@, v.inner.enc()).len() + enc_struct_field("Glow"@, "LinearColor"@, v.glow.enc()).len())) as int,
            v.enc().len() as int);
        assert(v.enc().subrange(((enc_struct_field("Main"@, "LinearColor"@, v.main.enc()).len() + enc_struct_field("Sub"@, "LinearColor"@, v.sub.enc()).len() + enc_struct_field("Inner"@, "LinearColor"@, v.inner.enc()).len() + enc_struct_field("Glow"@, "LinearColor"@, v.glow.enc()).len())) as int, v.enc().len() as int)
            =~= crate::enc_none());
    }

    /// Decodes this struct's field list at `pos`, checking every field
    /// prelude and the closing sentinel.
    #[verifier::rlimit(100)]
    pub fn decode(data: &Vec<u8>, pos: usize)
        -> (r: Result<(DAModuleColorStruct, usize), DecodeError>)
        ensures
            r matches Ok(p) ==> {
                &&& p.0.wf()
                &&& encoded_at(data@, pos as int, p.0.enc())
                &&& pos < p.1 <= data@.len()
                &&& p.1 == pos + p.0.enc().len()
            },
            r is Err ==> forall|v: DAModuleColorStruct| !encoded_at(data@, pos as int, v.enc()),
        decreases data@.len() - pos, 2int,
    {
        let dlen = data.len();
        proof {
            reveal(DAModuleColorStruct::wf);
            reveal(DAModuleColorStruct::enc);
            Self::names_fit();
        }
        let (main, e0) = match read_color_field(data, pos, "Main") {
            Ok(p) => p,
            Err(e) => {
                proof {
                    assert forall|v: DAModuleColorStruct| !encoded_at(data@, pos as int, v.enc()) by {
                        if encoded_at(data@, pos as int, v.enc()) {
                            Self::lemma_regions(data@, pos as int, v);
                            assert(false);
                        }
                    }
                }
                return Err(e);
            },
        };
        let (sub, e1) = match read_color_field(data, e0, "Sub") {
            Ok(p) => p,
            Err(e) => {
                proof {
                    assert forall|v: DAModuleColorStruct| !encoded_at(data@, pos as int, v.enc()) by {
                        if encoded_at(data@, pos as int, v.enc()) {
                            Self::lemma_regions(data@, pos as int, v);
                            assert(false);
                        }
                    }
                }
                return Err(e);
            },
        };
        let (inner, e2) = match read_color_field(data, e1, "Inner") {
            Ok(p) => p,
            Err(e) => {
                proof {
                    assert forall|v: DAModuleColorStruct| !encoded_at(data@, pos as int, v.enc()) by {
                        if encoded_at(data@, pos as int, v.enc()) {
                            Self::lemma_regions(data@, pos as int, v);
                            assert(false);
                        }
                    }
                }
                return Err(e);
            },
        };
        let (glow, e3) = match read_color_field(data, e2, "Glow") {
            Ok(p) => p,
            Err(e) => {
                proof {
                    assert forall|v: DAModuleColorStruct| !encoded_at(data@, pos as int, v.enc()) by {
                        if encoded_at(data@, pos as int, v.enc()) {
                            Self::lemma_regions(data@, pos as int, v);
                            assert(false);
                        }
                    }
                }
                return Err(e);
            },
        };
        let fin = match read_none_field(data, e3) {
            Ok(x) => x,
            Err(e) => {
                proof {
                    assert forall|v: DAModuleColorStruct| !encoded_at(data@, pos as int, v.enc()) by {
                        if encoded_at(data@, pos as int, v.enc()) {
                            Self::lemma_regions(data@, pos as int, v);
                            assert(false);
                        }
                    }
                }
                return Err(e);
            },
        };
        let v = DAModuleColorStruct { main, sub, inner, glow };
        proof {
            crate::common::lemma_subrange_join(data@, pos as int, e0 as int, e1 as int);
            crate::common::lemma_subrange_join(data@, pos as int, e1 as int, e2 as int);
            crate::common::lemma_subrange_join(data@, pos as int, e2 as int, e3 as int);
            crate::common::lemma_subrange_join(data@, pos as int, e3 as int, fin as int);
            assert(v.enc() == data@.subrange(pos as int, fin as int));
        }
        Ok((v, fin))
    }

    /// Appends the wire form of this struct, synthesizing the closing
    /// sentinel.
    #[verifier::rlimit(100)]
    pub fn encode(&self, out: &mut Vec<u8>)
        requires
            self.wf(),
        ensures
            final(out)@ == old(out)@ + self.enc(),
        decreases *self, 2int,
    {
        proof {
            reveal(DAModuleColorStruct::wf);
            reveal(DAModuleColorStruct::enc);
            Self::names_fit();
        }
        let ghost prev_out0: Seq<u8> = out@;
        write_field_prelude(out, "Main", "StructProperty");
        let mut tmp0: Vec<u8> = Vec::new();
        self.main.encode(&mut tmp0);
        let sz0: u32 = tmp0.len() as u32;
        write_struct_prelude(out, sz0, "LinearColor");
        crate::common::write_bytes(out, &tmp0);
        proof {
            crate::common::lemma_add_assoc(prev_out0, enc_field_prelude("Main"@, "StructProperty"@), enc_struct_prelude(sz0, "LinearColor"@));
            crate::common::lemma_add_assoc(prev_out0, enc_field_prelude("Main"@, "StructProperty"@) + enc_struct_prelude(sz0, "LinearColor"@), self.main.enc());
            assert(out@ == prev_out0 + enc_struct_field("Main"@, "LinearColor"@, self.main.enc()));
        }
        let ghost prev_out1: Seq<u8> = out@;
        write_field_prelude(out, "Sub", "StructProperty");
        let mut tmp1: Vec<u8> = Vec::new();
        self.sub.encode(&mut tmp1);
        let sz1: u32 = tmp1.len() as u32;
        write_struct_prelude(out, sz1, "LinearColor");
        crate::common::write_bytes(out, &tmp1);
        proof {
            crate::common::lemma_add_assoc(prev_out1, enc_field_prelude("Sub"@, "StructProperty"@), enc_struct_prelude(sz1, "LinearColor"@));
            crate::common::lemma_add_assoc(prev_out1, enc_field_prelude("Sub"@, "StructProperty"@) + enc_struct_prelude(sz1, "LinearColor"@), self.sub.enc());
            assert(out@ == prev_out1 + enc_struct_field("Sub"@, "LinearColor"@, self.sub.enc()));
        }
        let ghost prev_out2: Seq<u8> = out@;
        write_field_prelude(out, "Inner", "StructProperty");
        let mut tmp2: Vec<u8> = Vec::new();
        self.inner.encode(&mut tmp2);
        let sz2: u32 = tmp2.len() as u32;
        write_struct_prelude(out, sz2, "LinearColor");
        crate::common::write_bytes(out, &tmp2);
        proof {
            crate::common::lemma_add_assoc(prev_out2, enc_field_prelude("Inner"@, "StructProperty"@), enc_struct_prelude(sz2, "LinearColor"@));
            crate::common::lemma_add_assoc(prev_out2, enc_field_prelude("Inner"@, "StructProperty"@) + enc_struct_prelude(sz2, "LinearColor"@), self.inner.enc());
            assert(out@ == prev_out2 + enc_struct_field("Inner"@, "LinearColor"@, self.inner.enc()));
        }
        let ghost prev_out3: Seq<u8> = out@;
        write_field_prelude(out, "Glow", "StructProperty");
        let mut tmp3: Vec<u8> = Vec::new();
        self.glow.encode(&mut tmp3);
        let sz3: u32 = tmp3.len() as u32;
        write_struct_prelude(out, sz3, "LinearColor");
        crate::common::write_bytes(out, &tmp3);
        proof {
            crate::common::lemma_add_assoc(prev_out3, enc_field_prelude("Glow"@, "StructProperty"@), enc_struct_prelude(sz3, "LinearColor"@));
            crate::common::lemma_add_assoc(prev_out3, enc_field_prelude("Glow"@, "StructProperty"@) + enc_struct_prelude(sz3, "LinearColor"@), self.glow.enc());
            assert(out@ == prev_out3 + enc_struct_field("Glow"@, "LinearColor"@, self.glow.enc()));
        }
        write_none_field(out);
        proof {
            crate::common::lemma_add_assoc(old(out)@, enc_struct_field("Main"@, "LinearColor"@, self.main.enc()),
                enc_struct_field("Sub"@, "LinearColor"@, self.sub.enc()));
            crate::common::lemma_add_assoc(old(out)@, enc_struct_field("Main"@, "LinearColor"@, self.main.enc()) + enc_struct_field("Sub"@, "LinearColor"@, self.sub.enc()),
                enc_struct_field("Inner"@, "LinearColor"@, self.inner.enc()));
            crate::common::lemma_add_assoc(old(out)@, enc_struct_field("Main"@, "LinearColor"@, self.main.enc()) + enc_struct_field("Sub"@, "LinearColor"@, self.sub.enc()) + enc_struct_field("Inner"@, "LinearColor"@, self.inner.enc()),
                enc_struct_field("Glow"@, "LinearColor"@, self.glow.enc()));
            crate::common::lemma_add_assoc(old(out)@, enc_struct_field("Main"@, "LinearColor"@, self.main.enc()) + enc_struct_field("Sub"@, "LinearColor"@, self.sub.enc()) + enc_struct_field("Inner"@, "LinearColor"@, self.inner.enc()) + enc_struct_field("Glow"@, "LinearColor"@, self.glow.enc()),
                crate::enc_none());
            assert(out@ == old(out)@ + self.enc());
        }
    }
}

/// The colors of a humanoid character.
///
/// On the wire this is a fixed field list under the struct name "DAHumanoidColoringData".
#[derive(Debug)]
pub struct DAHumanoidColoringDataStruct {
    pub skin: LinearColorStruct,
    pub hair_base: LinearColorStruct,
    pub hair_gradation: LinearColorStruct,
    pub hair_highlight: LinearColorStruct,
    pub head_option: LinearColorStruct,
    pub eye_l: LinearColorStruct,
    pub eye_r: LinearColorStruct,
    pub body_main: LinearColorStruct,
    pub body_sub1: LinearColorStruct,
    pub body_sub2: LinearColorStruct,
    pub body_sub3: LinearColorStruct,
}

impl DAHumanoidColoringDataStruct {
    #[verifier::opaque]
    pub open spec fn wf(self) -> bool
        decreases self, 5int,
    {
        &&& self.skin.enc().len() <= u32::MAX
        &&& self.hair_base.enc().len() <= u32::MAX
        &&& self.hair_gradation.enc().len() <= u32::MAX
        &&& self.hair_highlight.enc().len() <= u32::MAX
        &&& self.head_option.enc().len() <= u32::MAX
        &&& self.eye_l.enc().len() <= u32::MAX
        &&& self.eye_r.enc().len() <= u32::MAX
        &&& self.body_main.enc().len() <= u32::MAX
        &&& self.body_sub1.enc().len() <= u32::MAX
        &&& self.body_sub2.enc().len() <= u32::MAX
        &&& self.body_sub3.enc().len() <= u32::MAX
    }

    /// The wire bytes of this struct: its fields in order, each under
    /// its prelude, closed by one "None" sentinel.
    #[verifier::opaque]
    pub open spec fn enc(self) -> Seq<u8>
        decreases self, 5int,
    {
        enc_struct_field("Skin"@, "LinearColor"@, self.skin.enc())
            + enc_struct_field("HairBase"@, "LinearColor"@, self.hair_base.enc())
            + enc_struct_field("HairGradation"@, "LinearColor"@, self.hair_gradation.enc())
            + enc_struct_field("HairHighlight"@, "LinearColor"@, self.hair_highlight.enc())
            + enc_struct_field("HeadOption"@, "LinearColor"@, self.head_option.enc())
            + enc_struct_field("EyeL"@, "LinearColor"@, self.eye_l.enc())
            + enc_struct_field("EyeR"@, "LinearColor"@, self.eye_r.enc())
            + enc_struct_field("BodyMain"@, "LinearColor"@, self.body_main.enc())
            + enc_struct_field("BodySub1"@, "LinearColor"@, self.body_sub1.enc())
            + enc_struct_field("BodySub2"@, "LinearColor"@, self.body_sub2.enc())
            + enc_struct_field("BodySub3"@, "LinearColor"@, self.body_sub3.enc())
            + crate::enc_none()
    }

    pub fn struct_name() -> (r: &'static str)
        ensures
            r@ == "DAHumanoidColoringData"@,
    {
        "DAHumanoidColoringData"
    }

    /// The names this struct's encoder writes all fit on the wire.
    proof fn names_fit()
        ensures
            str_fits("None"@),
            str_fits("Skin"@),
            str_fits("StructProperty"@),
            str_fits("LinearColor"@),
            str_fits("HairBase"@),
            str_fits("HairGradation"@),
            str_fits("HairHighlight"@),
            str_fits("HeadOption"@),
            str_fits("EyeL"@),
            str_fits("EyeR"@),
            str_fits("BodyMain"@),
            str_fits("BodySub1"@),
            str_fits("BodySub2"@),
            str_fits("BodySub3"@),
    {
        reveal_strlit("None");
        assert(is_ascii_chars("None"@));
        is_ascii_chars_encode_utf8("None"@);
        reveal_strlit("Skin");
        assert(is_ascii_chars("Skin"@));
        is_ascii_chars_encode_utf8("Skin"@);
        reveal_strlit("StructProperty");
        assert(is_ascii_chars("StructProperty"@));
        is_ascii_chars_encode_utf8("StructProperty"@);
        reveal_strlit("LinearColor");
        assert(is_ascii_chars("LinearColor"@));
        is_ascii_chars_encode_utf8("LinearColor"@);
        reveal_strlit("HairBase");
        assert(is_ascii_chars("HairBase"@));
        is_ascii_chars_encode_utf8("HairBase"@);
        reveal_strlit("HairGradation");
        assert(is_ascii_chars("HairGradation"@));
        is_ascii_chars_encode_utf8("HairGradation"@);
        reveal_strlit("HairHighlight");
        assert(is_ascii_chars("HairHighlight"@));
        is_ascii_chars_encode_utf8("HairHighlight"@);
        reveal_strlit("HeadOption");
        assert(is_ascii_chars("HeadOption"@));
        is_ascii_chars_encode_utf8("HeadOption"@);
        reveal_strlit("EyeL");
        assert(is_ascii_chars("EyeL"@));
        is_ascii_chars_encode_utf8("EyeL"@);
        reveal_strlit("EyeR");
        assert(is_ascii_chars("EyeR"@));
        is_ascii_chars_encode_utf8("EyeR"@);
        reveal_strlit("BodyMain");
        assert(is_ascii_chars("BodyMain"@));
        is_ascii_chars_encode_utf8("BodyMain"@);
        reveal_strlit("BodySub1");
        assert(is_ascii_chars("BodySub1"@));
        is_ascii_chars_encode_utf8("BodySub1"@);
        reveal_strlit("BodySub2");
        assert(is_ascii_chars("BodySub2"@));
        is_ascii_chars_encode_utf8("BodySub2"@);
        reveal_strlit("BodySub3");
        assert(is_ascii_chars("BodySub3"@));
        is_ascii_chars_encode_utf8("BodySub3"@);
    }

    /// Decodes this struct's field list at `pos`, checking every field
    /// prelude and the closing sentinel.
    #[verifier::rlimit(100)]
    pub fn decode(data: &Vec<u8>, pos: usize)
        -> (r: Result<(DAHumanoidColoringDataStruct, usize), DecodeError>)
        ensures
            r matches Ok(p) ==> {
                &&& p.0.wf()
                &&& encoded_at(data@, pos as int, p.0.enc())
                &&& pos < p.1 <= data@.len()
                &&& p.1 == pos + p.0.enc().len()
            },
        decreases data@.len() - pos, 2int,
    {
        let dlen = data.len();
        proof {
            reveal(DAHumanoidColoringDataStruct::wf);
            reveal(DAHumanoidColoringDataStruct::enc);
        }
        let (skin, e0) = match read_color_field(data, pos, "Skin") {
            Ok(p) => p,
            Err(e) => { return Err(e); },
        };
        let (hair_base, e1) = match read_color_field(data, e0, "HairBase") {
            Ok(p) => p,
            Err(e) => { return Err(e); },
        };
        let (hair_gradation, e2) = match read_color_field(data, e1, "HairGradation") {
            Ok(p) => p,
            Err(e) => { return Err(e); },
        };
        let (hair_highlight, e3) = match read_color_field(data, e2, "HairHighlight") {
            Ok(p) => p,
            Err(e) => { return Err(e); },
        };
        let (head_option, e4) = match read_color_field(data, e3, "HeadOption") {
            Ok(p) => p,
            Err(e) => { return Err(e); },
        };
        let (eye_l, e5) = match read_color_field(data, e4, "EyeL") {
            Ok(p) => p,
            Err(e) => { return Err(e); },
        };
        let (eye_r, e6) = match read_color_field(data, e5, "EyeR") {
            Ok(p) => p,
            Err(e) => { return Err(e); },
        };
        let (body_main, e7) = match read_color_field(data, e6, "BodyMain") {
            Ok(p) => p,
            Err(e) => { return Err(e); },
        };
        let (body_sub1, e8) = match read_color_field(data, e7, "BodySub1") {
            Ok(p) => p,
            Err(e) => { return Err(e); },
        };
        let (body_sub2, e9) = match read_color_field(data, e8, "BodySub2") {
            Ok(p) => p,
            Err(e) => { return Err(e); },
        };
        let (body_sub3, e10) = match read_color_field(data, e9, "BodySub3") {
            Ok(p) => p,
            Err(e) => { return Err(e); },
        };
        let fin = match read_none_field(data, e10) {
            Ok(x) => x,
            Err(e) => { return Err(e); },
        };
        let v = DAHumanoidColoringDataStruct { skin, hair_base, hair_gradation, hair_highlight, head_option, eye_l, eye_r, body_main, body_sub1, body_sub2, body_sub3 };
        proof {
            crate::common::lemma_subrange_join(data@, pos as int, e0 as int, e1 as int);
            crate::common::lemma_subrange_join(data@, pos as int, e1 as int, e2 as int);
            crate::common::lemma_subrange_join(data@, pos as int, e2 as int, e3 as int);
            crate::common::lemma_subrange_join(data@, pos as int, e3 as int, e4 as int);
            crate::common::lemma_subrange_join(data@, pos as int, e4 as int, e5 as int);
            crate::common::lemma_subrange_join(data@, pos as int, e5 as int, e6 as int);
            crate::common::lemma_subrange_join(data@, pos as int, e6 as int, e7 as int);
            crate::common::lemma_subrange_join(data@, pos as int, e7 as int, e8 as int);
            crate::common::lemma_subrange_join(data@, pos as int, e8 as int, e9 as int);
            crate::common::lemma_subrange_join(data@, pos as int, e9 as int, e10 as int);
            crate::common::lemma_subrange_join(data@, pos as int, e10 as int, fin as int);
            assert(v.enc() == data@.subrange(pos as int, fin as int));
        }
        Ok((v, fin))
    }

    /// Appends the wire form of this struct, synthesizing the closing
    /// sentinel.
    #[verifier::rlimit(100)]
    pub fn encode(&self, out: &mut Vec<u8>)
        requires
            self.wf(),
        ensures
            final(out)@ == old(out)@ + self.enc(),
        decreases *self, 2int,
    {
        proof {
            reveal(DAHumanoidColoringDataStruct::wf);
            reveal(DAHumanoidColoringDataStruct::enc);
            Self::names_fit();
        }
        let ghost prev_out0: Seq<u8> = out@;
        write_field_prelude(out, "Skin", "StructProperty");
        let mut tmp0: Vec<u8> = Vec::new();
        self.skin.encode(&mut tmp0);
        let sz0: u32 = tmp0.len() as u32;
        write_struct_prelude(out, sz0, "LinearColor");
        crate::common::write_bytes(out, &tmp0);
        proof {
            crate::common::lemma_add_assoc(prev_out0, enc_field_prelude("Skin"@, "StructProperty"@), enc_struct_prelude(sz0, "LinearColor"@));
            crate::common::lemma_add_assoc(prev_out0, enc_field_prelude("Skin"@, "StructProperty"@) + enc_struct_prelude(sz0, "LinearColor"@), self.skin.enc());
            assert(out@ == prev_out0 + enc_struct_field("Skin"@, "LinearColor"@, self.skin.enc()));
        }
        let ghost prev_out1: Seq<u8> = out@;
        write_field_prelude(out, "HairBase", "StructProperty");
        let mut tmp1: Vec<u8> = Vec::new();
        self.hair_base.encode(&mut tmp1);
        let sz1: u32 = tmp1.len() as u32;
        write_struct_prelude(out, sz1, "LinearColor");
        crate::common::write_bytes(out, &tmp1);
        proof {
            crate::common::lemma_add_assoc(prev_out1, enc_field_prelude("HairBase"@, "StructProperty"@), enc_struct_prelude(sz1, "LinearColor"@));
            crate::common::lemma_add_assoc(prev_out1, enc_field_prelude("HairBase"@, "StructProperty"@) + enc_struct_prelude(sz1, "LinearColor"@), self.hair_base.enc());
            assert(out@ == prev_out1 + enc_struct_field("HairBase"@, "LinearColor"@, self.hair_base.enc()));
        }
        let ghost prev_out2: Seq<u8> = out@;
        write_field_prelude(out, "HairGradation", "StructProperty");
        let mut tmp2: Vec<u8> = Vec::new();
        self.hair_gradation.encode(&mut tmp2);
        let sz2: u32 = tmp2.len() as u32;
        write_struct_prelude(out, sz2, "LinearColor");
        crate::common::write_bytes(out, &tmp2);
        proof {
            crate::common::lemma_add_assoc(prev_out2, enc_field_prelude("HairGradation"@, "StructProperty"@), enc_struct_prelude(sz2, "LinearColor"@));
            crate::common::lemma_add_assoc(prev_out2, enc_field_prelude("HairGradation"@, "StructProperty"@) + enc_struct_prelude(sz2, "LinearColor"@), self.hair_gradation.enc());
            assert(out@ == prev_out2 + enc_struct_field("HairGradation"@, "LinearColor"@, self.hair_gradation.enc()));
        }
        let ghost prev_out3: Seq<u8> = out@;
        write_field_prelude(out, "HairHighlight", "StructProperty");
        let mut tmp3: Vec<u8> = Vec::new();
        self.hair_highlight.encode(&mut tmp3);
        let sz3: u32 = tmp3.len() as u32;
        write_struct_prelude(out, sz3, "LinearColor");
        crate::common::write_bytes(out, &tmp3);
        proof {
            crate::common::lemma_add_assoc(prev_out3, enc_field_prelude("HairHighlight"@, "StructProperty"@), enc_struct_prelude(sz3, "LinearColor"@));
            crate::common::lemma_add_assoc(prev_out3, enc_field_prelude("HairHighlight"@, "StructProperty"@) + enc_struct_prelude(sz3, "LinearColor"@), self.hair_highlight.enc());
            assert(out@ == prev_out3 + enc_struct_field("HairHighlight"@, "LinearColor"@, self.hair_highlight.enc()));
        }
        let ghost prev_out4: Seq<u8> = out@;
        write_field_prelude(out, "HeadOption", "StructProperty");
        let mut tmp4: Vec<u8> = Vec::new();
        self.head_option.encode(&mut tmp4);
        let sz4: u32 = tmp4.len() as u32;
        write_struct_prelude(out, sz4, "LinearColor");
        crate::common::write_bytes(out, &tmp4);
        proof {
            crate::common::lemma_add_assoc(prev_out4, enc_field_prelude("HeadOption"@, "StructProperty"@), enc_struct_prelude(sz4, "LinearColor"@));
            crate::common::lemma_add_assoc(prev_out4, enc_field_prelude("HeadOption"@, "StructProperty"@) + enc_struct_prelude(sz4, "LinearColor"@), self.head_option.enc());
            assert(out@ == prev_out4 + enc_struct_field("HeadOption"@, "LinearColor"@, self.head_option.enc()));
        }
        let ghost prev_out5: Seq<u8> = out@;
        write_field_prelude(out, "EyeL", "StructProperty");
        let mut tmp5: Vec<u8> = Vec::new();
        self.eye_l.encode(&mut tmp5);
        let sz5: u32 = tmp5.len() as u32;
        write_struct_prelude(out, sz5, "LinearColor");
        crate::common::write_bytes(out, &tmp5);
        proof {
            crate::common::lemma_add_assoc(prev_out5, enc_field_prelude("EyeL"@, "StructProperty"@), enc_struct_prelude(sz5, "LinearColor"@));
            crate::common::lemma_add_assoc(prev_out5, enc_field_prelude("EyeL"@, "StructProperty"@) + enc_struct_prelude(sz5, "LinearColor"@), self.eye_l.enc());
            assert(out@ == prev_out5 + enc_struct_field("EyeL"@, "LinearColor"@, self.eye_l.enc()));
        }
        let ghost prev_out6: Seq<u8> = out@;
        write_field_prelude(out, "EyeR", "StructProperty");
        let mut tmp6: Vec<u8> = Vec::new();
        self.eye_r.encode(&mut tmp6);
        let sz6: u32 = tmp6.len() as u32;
        write_struct_prelude(out, sz6, "LinearColor");
        crate::common::write_bytes(out, &tmp6);
        proof {
            crate::common::lemma_add_assoc(prev_out6, enc_field_prelude("EyeR"@, "StructProperty"@), enc_struct_prelude(sz6, "LinearColor"@));
            crate::common::lemma_add_assoc(prev_out6, enc_field_prelude("EyeR"@, "StructProperty"@) + enc_struct_prelude(sz6, "LinearColor"@), self.eye_r.enc());
            assert(out@ == prev_out6 + enc_struct_field("EyeR"@, "LinearColor"@, self.eye_r.enc()));
        }
        let ghost prev_out7: Seq<u8> = out@;
        write_field_prelude(out, "BodyMain", "StructProperty");
        let mut tmp7: Vec<u8> = Vec::new();
        self.body_main.encode(&mut tmp7);
        let sz7: u32 = tmp7.len() as u32;
        write_struct_prelude(out, sz7, "LinearColor");
        crate::common::write_bytes(out, &tmp7);
        proof {
            crate::common::lemma_add_assoc(prev_out7, enc_field_prelude("BodyMain"@, "StructProperty"@), enc_struct_prelude(sz7, "LinearColor"@));
            crate::common::lemma_add_assoc(prev_out7, enc_field_prelude("BodyMain"@, "StructProperty"@) + enc_struct_prelude(sz7, "LinearColor"@), self.body_main.enc());
            assert(out@ == prev_out7 + enc_struct_field("BodyMain"@, "LinearColor"@, self.body_main.enc()));
        }
        let ghost prev_out8: Seq<u8> = out@;
        write_field_prelude(out, "BodySub1", "StructProperty");
        let mut tmp8: Vec<u8> = Vec::new();
        self.body_sub1.encode(&mut tmp8);
        let sz8: u32 = tmp8.len() as u32;
        write_struct_prelude(out, sz8, "LinearColor");
        crate::common::write_bytes(out, &tmp8);
        proof {
            crate::common::lemma_add_assoc(prev_out8, enc_field_prelude("BodySub1"@, "StructProperty"@), enc_struct_prelude(sz8, "LinearColor"@));
            crate::common::lemma_add_assoc(prev_out8, enc_field_prelude("BodySub1"@, "StructProperty"@) + enc_struct_prelude(sz8, "LinearColor"@), self.body_sub1.enc());
            assert(out@ == prev_out8 + enc_struct_field("BodySub1"@, "LinearColor"@, self.body_sub1.enc()));
        }
        let ghost prev_out9: Seq<u8> = out@;
        write_field_prelude(out, "BodySub2", "StructProperty");
        let mut tmp9: Vec<u8> = Vec::new();
        self.body_sub2.encode(&mut tmp9);
        let sz9: u32 = tmp9.len() as u32;
        write_struct_prelude(out, sz9, "LinearColor");
        crate::common::write_bytes(out, &tmp9);
        proof {
            crate::common::lemma_add_assoc(prev_out9, enc_field_prelude("BodySub2"@, "StructProperty"@), enc_struct_prelude(sz9, "LinearColor"@));
            crate::common::lemma_add_assoc(prev_out9, enc_field_prelude("BodySub2"@, "StructProperty"@) + enc_struct_prelude(sz9, "LinearColor"@), self.body_sub2.enc());
            assert(out@ == prev_out9 + enc_struct_field("BodySub2"@, "LinearColor"@, self.body_sub2.enc()));
        }
        let ghost prev_out10: Seq<u8> = out@;
        write_field_prelude(out, "BodySub3", "StructProperty");
        let mut tmp10: Vec<u8> = Vec::new();
        self.body_sub3.encode(&mut tmp10);
        let sz10: u32 = tmp10.len() as u32;
        write_struct_prelude(out, sz10, "LinearColor");
        crate::common::write_bytes(out, &tmp10);
        proof {
            crate::common::lemma_add_assoc(prev_out10, enc_field_prelude("BodySub3"@, "StructProperty"@), enc_struct_prelude(sz10, "LinearColor"@));
            crate::common::lemma_add_assoc(prev_out10, enc_field_prelude("BodySub3"@, "StructProperty"@) + enc_struct_prelude(sz10, "LinearColor"@), self.body_sub3.enc());
            assert(out@ == prev_out10 + enc_struct_field("BodySub3"@, "LinearColor"@, self.body_sub3.enc()));
        }
        write_none_field(out);
        proof {
            crate::common::lemma_add_assoc(old(out)@, enc_struct_field("Skin"@, "LinearColor"@, self.skin.enc()),
                enc_struct_field("HairBase"@, "LinearColor"@, self.hair_base.enc()));
            crate::common::lemma_add_assoc(old(out)@, enc_struct_field("Skin"@, "LinearColor"@, self.skin.enc()) + enc_struct_field("HairBase"@, "LinearColor"@, self.hair_base.enc()),
                enc_struct_field("HairGradation"@, "LinearColor"@, self.hair_gradation.enc()));
            crate::common::lemma_add_assoc(old(out)@, enc_struct_field("Skin"@, "LinearColor"@, self.skin.enc()) + enc_struct_field("HairBase"@, "LinearColor"@, self.hair_base.enc()) + enc_struct_field("HairGradation"@, "LinearColor"@, self.hair_gradation.enc()),
                enc_struct_field("HairHighlight"@, "LinearColor"@, self.hair_highlight.enc()));
            crate::common::lemma_add_assoc(old(out)@, enc_struct_field("Skin"@, "LinearColor"@, self.skin.enc()) + enc_struct_field("HairBase"@, "LinearColor"@, self.hair_base.enc()) + enc_struct_field("HairGradation"@, "LinearColor"@, self.hair_gradation.enc()) + enc_struct_field("HairHighlight"@, "LinearColor"@, self.hair_highlight.enc()),
                enc_struct_field("HeadOption"@, "LinearColor"@, self.head_option.enc()));
            crate::common::lemma_add_assoc(old(out)@, enc_struct_field("Skin"@, "LinearColor"@, self.skin.enc()) + enc_struct_field("HairBase"@, "LinearColor"@, self.hair_base.enc()) + enc_struct_field("HairGradation"@, "LinearColor"@, self.hair_gradation.enc()) + enc_struct_field("HairHighlight"@, "LinearColor"@, self.hair_highlight.enc()) + enc_struct_field("HeadOption"@, "LinearColor"@, self.head_option.enc()),
                enc_struct_field("EyeL"@, "LinearColor"@, self.eye_l.enc()));
            crate::common::lemma_add_assoc(old(out)@, enc_struct_field("Skin"@, "LinearColor"@, self.skin.enc()) + enc_struct_field("HairBase"@, "LinearColor"@, self.hair_base.enc()) + enc_struct_field("HairGradation"@, "LinearColor"@, self.hair_gradation.enc()) + enc_struct_field("HairHighlight"@, "LinearColor"@, self.hair_highlight.enc()) + enc_struct_field("HeadOption"@, "LinearColor"@, self.head_option.enc()) + enc_struct_field("EyeL"@, "LinearColor"@, self.eye_l.enc()),
                enc_struct_field("EyeR"@, "LinearColor"@, self.eye_r.enc()));
            crate::common::lemma_add_assoc(old(out)@, enc_struct_field("Skin"@, "LinearColor"@, self.skin.enc()) + enc_struct_field("HairBase"@, "LinearColor"@, self.hair_base.enc()) + enc_struct_field("HairGradation"@, "LinearColor"@, self.hair_gradation.enc()) + enc_struct_field("HairHighlight"@, "LinearColor"@, self.hair_highlight.enc()) + enc_struct_field("HeadOption"@, "LinearColor"@, self.head_option.enc()) + enc_struct_field("EyeL"@, "LinearColor"@, self.eye_l.enc()) + enc_struct_field("EyeR"@, "LinearColor"@, self.eye_r.enc()),
                enc_struct_field("BodyMain"@, "LinearColor"@, self.body_main.enc()));
            crate::common::lemma_add_assoc(old(out)@, enc_struct_field("Skin"@, "LinearColor"@, self.skin.enc()) + enc_struct_field("HairBase"@, "LinearColor"@, self.hair_base.enc()) + enc_struct_field("HairGradation"@, "LinearColor"@, self.hair_gradation.enc()) + enc_struct_field("HairHighlight"@, "LinearColor"@, self.hair_highlight.enc()) + enc_struct_field("HeadOption"@, "LinearColor"@, self.head_option.enc()) + enc_struct_field("EyeL"@, "LinearColor"@, self.eye_l.enc()) + enc_struct_field("EyeR"@, "LinearColor"@, self.eye_r.enc()) + enc_struct_field("BodyMain"@, "LinearColor"@, self.body_main.enc()),
                enc_struct_field("BodySub1"@, "LinearColor"@, self.body_sub1.enc()));
            crate::common::lemma_add_assoc(old(out)@, enc_struct_field("Skin"@, "LinearColor"@, self.skin.enc()) + enc_struct_field("HairBase"@, "LinearColor"@, self.hair_base.enc()) + enc_struct_field("HairGradation"@, "LinearColor"@, self.hair_gradation.enc()) + enc_struct_field("HairHighlight"@, "LinearColor"@, self.hair_highlight.enc()) + enc_struct_field("HeadOption"@, "LinearColor"@, self.head_option.enc()) + enc_struct_field("EyeL"@, "LinearColor"@, self.eye_l.enc()) + enc_struct_field("EyeR"@, "LinearColor"@, self.eye_r.enc()) + enc_struct_field("BodyMain"@, "LinearColor"@, self.body_main.enc()) + enc_struct_field("BodySub1"@, "LinearColor"@, self.body_sub1.enc()),
                enc_struct_field("BodySub2"@, "LinearColor"@, self.body_sub2.enc()));
            crate::common::lemma_add_assoc(old(out)@, enc_struct_field("Skin"@, "LinearColor"@, self.skin.enc()) + enc_struct_field("HairBase"@, "LinearColor"@, self.hair_base.enc()) + enc_struct_field("HairGradation"@, "LinearColor"@, self.hair_gradation.enc()) + enc_struct_field("HairHighlight"@, "LinearColor"@, self.hair_highlight.enc()) + enc_struct_field("HeadOption"@, "LinearColor"@, self.head_option.enc()) + enc_struct_field("EyeL"@, "LinearColor"@, self.eye_l.enc()) + enc_struct_field("EyeR"@, "LinearColor"@, self.eye_r.enc()) + enc_struct_field("BodyMain"@, "LinearColor"@, self.body_main.enc()) + enc_struct_field("BodySub1"@, "LinearColor"@, self.body_sub1.enc()) + enc_struct_field("BodySub2"@, "LinearColor"@, self.body_sub2.enc()),
                enc_struct_field("BodySub3"@, "LinearColor"@, self.body_sub3.enc()));
            crate::common::lemma_add_assoc(old(out)@, enc_struct_field("Skin"@, "LinearColor"@, self.skin.enc()) + enc_struct_field("HairBase"@, "LinearColor"@, self.hair_base.enc()) + enc_struct_field("HairGradation"@, "LinearColor"@, self.hair_gradation.enc()) + enc_struct_field("HairHighlight"@, "LinearColor"@, self.hair_highlight.enc()) + enc_struct_field("HeadOption"@, "LinearColor"@, self.head_option.enc()) + enc_struct_field("EyeL"@, "LinearColor"@, self.eye_l.enc()) + enc_struct_field("EyeR"@, "LinearColor"@, self.eye_r.enc()) + enc_struct_field("BodyMain"@, "LinearColor"@, self.body_main.enc()) + enc_struct_field("BodySub1"@, "LinearColor"@, self.body_sub1.enc()) + enc_struct_field("BodySub2"@, "LinearColor"@, self.body_sub2.enc()) + enc_struct_field("BodySub3"@, "LinearColor"@, self.body_sub3.enc()),
                crate::enc_none());
            assert(out@ == old(out)@ + self.enc());
        }
    }
}

/// The figure sliders of a humanoid character.
///
/// On the wire this is a fixed field list under the struct name "DAHumanoidFigureData".
#[derive(Debug)]
pub struct DAHumanoidFigureData {
    pub bust_up: FloatProperty,
    pub fat_up: FloatProperty,
    pub arm_up: FloatProperty,
    pub leg_up: FloatProperty,
    pub waist_up: FloatProperty,
}

impl DAHumanoidFigureData {
    #[verifier::opaque]
    pub open spec fn wf(self) -> bool
        decreases self, 5int,
    {
        true
    }

    /// The wire bytes of this struct: its fields in order, each under
    /// its prelude, closed by one "None" sentinel.
    #[verifier::opaque]
    pub open spec fn enc(self) -> Seq<u8>
        decreases self, 5int,
    {
        enc_plain_field("BustUp"@, "FloatProperty"@, self.bust_up.enc())
            + enc_plain_field("FatUp"@, "FloatProperty"@, self.fat_up.enc())
            + enc_plain_field("ArmUp"@, "FloatProperty"@, self.arm_up.enc())
            + enc_plain_field("LegUp"@, "FloatProperty"@, self.leg_up.enc())
            + enc_plain_field("WaistUp"@, "FloatProperty"@, self.waist_up.enc())
            + crate::enc_none()
    }

    pub fn struct_name() -> (r: &'static str)
        ensures
            r@ == "DAHumanoidFigureData"@,
    {
        "DAHumanoidFigureData"
    }

    /// The names this struct's encoder writes all fit on the wire.
    proof fn names_fit()
        ensures
            str_fits("None"@),
            str_fits("BustUp"@),
            str_fits("FloatProperty"@),
            str_fits("FatUp"@),
            str_fits("ArmUp"@),
            str_fits("LegUp"@),
            str_fits("WaistUp"@),
    {
        reveal_strlit("None");
        assert(is_ascii_chars("None"@));
        is_ascii_chars_encode_utf8("None"@);
        reveal_strlit("BustUp");
        assert(is_ascii_chars("BustUp"@));
        is_ascii_chars_encode_utf8("BustUp"@);
        reveal_strlit("FloatProperty");
        assert(is_ascii_chars("FloatProperty"@));
        is_ascii_chars_encode_utf8("FloatProperty"@);
        reveal_strlit("FatUp");
        assert(is_ascii_chars("FatUp"@));
        is_ascii_chars_encode_utf8("FatUp"@);
        reveal_strlit("ArmUp");
        assert(is_ascii_chars("ArmUp"@));
        is_ascii_chars_encode_utf8("ArmUp"@);
        reveal_strlit("LegUp");
        assert(is_ascii_chars("LegUp"@));
        is_ascii_chars_encode_utf8("LegUp"@);
        reveal_strlit("WaistUp");
        assert(is_ascii_chars("WaistUp"@));
        is_ascii_chars_encode_utf8("WaistUp"@);
    }

    /// Where each piece of an encoded figure-data record stands.
    #[verifier::rlimit(100)]
    proof fn lemma_regions(data: Seq<u8>, pos: int, v: DAHumanoidFigureData)
        requires
            encoded_at(data, pos, v.enc()),
        ensures
            encoded_at(data, pos + 0, enc_field_prelude("BustUp"@, "FloatProperty"@)),
            encoded_at(data, pos + 0 + enc_field_prelude("BustUp"@, "FloatProperty"@).len(), v.bust_up.enc()),
            encoded_at(data, pos + (enc_plain_field("BustUp"@, "FloatProperty"@, v.bust_up.enc()).len()), enc_field_prelude("FatUp"@, "FloatProperty"@)),
            encoded_at(data, pos + (enc_plain_field("BustUp"@, "FloatProperty"@, v.bust_up.enc()).len()) + enc_field_prelude("FatUp"@, "FloatProperty"@).len(), v.fat_up.enc()),
            encoded_at(data, pos + (enc_plain_field("BustUp"@, "FloatProperty"@, v.bust_up.enc()).len() + enc_plain_field("FatUp"@, "FloatProperty"@, v.fat_up.enc()).len()), enc_field_prelude("ArmUp"@, "FloatProperty"@)),
            encoded_at(data, pos + (enc_plain_field("BustUp"@, "FloatProperty"@, v.bust_up.enc()).len() + enc_plain_field("FatUp"@, "FloatProperty"@, v.fat_up.enc()).len()) + enc_field_prelude("ArmUp"@, "FloatProperty"@).len(), v.arm_up.enc()),
            encoded_at(data, pos + (enc_plain_field("BustUp"@, "FloatProperty"@, v.bust_up.enc()).len() + enc_plain_field("FatUp"@, "FloatProperty"@, v.fat_up.enc()).len() + enc_plain_field("ArmUp"@, "FloatProperty"@, v.arm_up.enc()).len()), enc_field_prelude("LegUp"@, "FloatProperty"@)),
            encoded_at(data, pos + (enc_plain_field("BustUp"@, "FloatProperty"@, v.bust_up.enc()).len() + enc_plain_field("FatUp"@, "FloatProperty"@, v.fat_up.enc()).len() + enc_plain_field("ArmUp"@, "FloatProperty"@, v.arm_up.enc()).len()) + enc_field_prelude("LegUp"@, "FloatProperty"@).len(), v.leg_up.enc()),
            encoded_at(data, pos + (enc_plain_field("BustUp"@, "FloatProperty"@, v.bust_up.enc()).len() + enc_plain_field("FatUp"@, "FloatProperty"@, v.fat_up.enc()).len() + enc_plain_field("ArmUp"@, "FloatProperty"@, v.arm_up.enc()).len() + enc_plain_field("LegUp"@, "FloatProperty"@, v.leg_up.enc()).len()), enc_field_prelude("WaistUp"@, "FloatProperty"@)),
            encoded_at(data, pos + (enc_plain_field("BustUp"@, "FloatProperty"@, v.bust_up.enc()).len() + enc_plain_field("FatUp"@, "FloatProperty"@, v.fat_up.enc()).len() + enc_plain_field("ArmUp"@, "FloatProperty"@, v.arm_up.enc()).len() + enc_plain_field("LegUp"@, "FloatProperty"@, v.leg_up.enc()).len()) + enc_field_prelude("WaistUp"@, "FloatProperty"@).len(), v.waist_up.enc()),
            encoded_at(data, pos + (enc_plain_field("BustUp"@, "FloatProperty"@, v.bust_up.enc()).len() + enc_plain_field("FatUp"@, "FloatProperty"@, v.fat_up.enc()).len() + enc_plain_field("ArmUp"@, "FloatProperty"@, v.arm_up.enc()).len() + enc_plain_field("LegUp"@, "FloatProperty"@, v.leg_up.enc()).len() + enc_plain_field("WaistUp"@, "FloatProperty"@, v.waist_up.enc()).len()), crate::enc_none()),
    {
        reveal(DAHumanoidFigureData::enc);
        crate::common::lemma_encoded_slice(data, pos, v.enc(),
            (0) as int,
            (0 + enc_field_prelude("BustUp"@, "FloatProperty"@).len()) as int);
        assert(v.enc().subrange((0) as int, (0 + enc_field_prelude("BustUp"@, "FloatProperty"@).len()) as int)
            =~= enc_field_prelude("BustUp"@, "FloatProperty"@));
        crate::common::lemma_encoded_slice(data, pos, v.enc(),
            (0 + enc_field_prelude("BustUp"@, "FloatProperty"@).len()) as int,
            (0 + enc_plain_field("BustUp"@, "FloatProperty"@, v.bust_up.enc()).len()) as int);
        assert(v.enc().subrange((0 + enc_field_prelude("BustUp"@, "FloatProperty"@).len()) as int, (0 + enc_plain_field("BustUp"@, "FloatProperty"@, v.bust_up.enc()).len()) as int)
            =~= v.bust_up.enc());
        crate::common::lemma_encoded_slice(data, pos, v.enc(),
            ((enc_plain_field("BustUp"@, "FloatProperty"@, v.bust_up.enc()).len())) as int,
            ((enc_plain_field("BustUp"@, "FloatProperty"@, v.bust_up.enc()).len()) + enc_field_prelude("FatUp"@, "FloatProperty"@).len()) as int);
        assert(v.enc().subrange(((enc_plain_field("BustUp"@, "FloatProperty"@, v.bust_up.enc()).len())) as int, ((enc_plain_field("BustUp"@, "FloatProperty"@, v.bust_up.enc()).len()) + enc_field_prelude("FatUp"@, "FloatProperty"@).len()) as int)
            =~= enc_field_prelude("FatUp"@, "FloatProperty"@));
        crate::common::lemma_encoded_slice(data, pos, v.enc(),
            ((enc_plain_field("BustUp"@, "FloatProperty"@, v.bust_up.enc()).len()) + enc_field_prelude("FatUp"@, "FloatProperty"@).len()) as int,
            ((enc_plain_field("BustUp"@, "FloatProperty"@, v.bust_up.enc()).len()) + enc_plain_field("FatUp"@, "FloatProperty"@, v.fat_up.enc()).len()) as int);
        assert(v.enc().subrange(((enc_plain_field("BustUp"@, "FloatProperty"@, v.bust_up.enc()).len()) + enc_field_prelude("FatUp"@, "FloatProperty"@).len()) as int, ((enc_plain_field("BustUp"@, "FloatProperty"@, v.bust_up.enc()).len()) + enc_plain_field("FatUp"@, "FloatProperty"@, v.fat_up.enc()).len()) as int)
            =~= v.fat_up.enc());
        crate::common::lemma_encoded_slice(data, pos, v.enc(),
            ((enc_plain_field("BustUp"@, "FloatProperty"@, v.bust_up.enc()).len() + enc_plain_field("FatUp"@, "FloatProperty"@, v.fat_up.enc()).len())) as int,
            ((enc_plain_field("BustUp"@, "FloatProperty"@, v.bust_up.enc()).len() + enc_plain_field("FatUp"@, "FloatProperty"@, v.fat_up.enc()).len()) + enc_field_prelude("ArmUp"@, "FloatProperty"@).len()) as int);
        assert(v.enc().subrange(((enc_plain_field("BustUp"@, "FloatProperty"@, v.bust_up.enc()).len() + enc_plain_field("FatUp"@, "FloatProperty"@, v.fat_up.enc()).len())) as int, ((enc_plain_field("BustUp"@, "FloatProperty"@, v.bust_up.enc()).len() + enc_plain_field("FatUp"@, "FloatProperty"@, v.fat_up.enc()).len()) + enc_field_prelude("ArmUp"@, "FloatProperty"@).len()) as int)
            =~= enc_field_prelude("ArmUp"@, "FloatProperty"@));
        crate::common::lemma_encoded_slice(data, pos, v.enc(),
            ((enc_plain_field("BustUp"@, "FloatProperty"@, v.bust_up.enc()).len() + enc_plain_field("FatUp"@, "FloatProperty"@, v.fat_up.enc()).len()) + enc_field_prelude("ArmUp"@, "FloatProperty"@).len()) as int,
            ((enc_plain_field("BustUp"@, "FloatProperty"@, v.bust_up.enc()).len() + enc_plain_field("FatUp"@, "FloatProperty"@, v.fat_up.enc()).len()) + enc_plain_field("ArmUp"@, "FloatProperty"@, v.arm_up.enc()).len()) as int);
        assert(v.enc().subrange(((enc_plain_field("BustUp"@, "FloatProperty"@, v.bust_up.enc()).len() + enc_plain_field("FatUp"@, "FloatProperty"@, v.fat_up.enc()).len()) + enc_field_prelude("ArmUp"@, "FloatProperty"@).len()) as int, ((enc_plain_field("BustUp"@, "FloatProperty"@, v.bust_up.enc()).len() + enc_plain_field("FatUp"@, "FloatProperty"@, v.fat_up.enc()).len()) + enc_plain_field("ArmUp"@, "FloatProperty"@, v.arm_up.enc()).len()) as int)
            =~= v.arm_up.enc());
        crate::common::lemma_encoded_slice(data, pos, v.enc(),
            ((enc_plain_field("BustUp"@, "FloatProperty"@, v.bust_up.enc()).len() + enc_plain_field("FatUp"@, "FloatProperty"@, v.fat_up.enc()).len() + enc_plain_field("ArmUp"@, "FloatProperty"@, v.arm_up.enc()).len())) as int,
            ((enc_plain_field("BustUp"@, "FloatProperty"@, v.bust_up.enc()).len() + enc_plain_field("FatUp"@, "FloatProperty"@, v.fat_up.enc()).len() + enc_plain_field("ArmUp"@, "FloatProperty"@, v.arm_up.enc()).len()) + enc_field_prelude("LegUp"@, "FloatProperty"@).len()) as int);
        assert(v.enc().subrange(((enc_plain_field("BustUp"@, "FloatProperty"@, v.bust_up.enc()).len() + enc_plain_field("FatUp"@, "FloatProperty"@, v.fat_up.enc()).len() + enc_plain_field("ArmUp"@, "FloatProperty"@, v.arm_up.enc()).len())) as int, ((enc_plain_field("BustUp"@, "FloatProperty"@, v.bust_up.enc()).len() + enc_plain_field("FatUp"@, "FloatProperty"@, v.fat_up.enc()).len() + enc_plain_field("ArmUp"@, "FloatProperty"@, v.arm_up.enc()).len()) + enc_field_prelude("LegUp"@, "FloatProperty"@).len()) as int)
            =~= enc_field_prelude("LegUp"@, "FloatProperty"@));
        crate::common::lemma_encoded_slice(data, pos, v.enc(),
            ((enc_plain_field("BustUp"@, "FloatProperty"@, v.bust_up.enc()).len() + enc_plain_field("FatUp"@, "FloatProperty"@, v.fat_up.enc()).len() + enc_plain_field("ArmUp"@, "FloatProperty"@, v.arm_up.enc()).len()) + enc_field_prelude("LegUp"@, "FloatProperty"@).len()) as int,
            ((enc_plain_field("BustUp"@, "FloatProperty"@, v.bust_up.enc()).len() + enc_plain_field("FatUp"@, "FloatProperty"@, v.fat_up.enc()).len() + enc_plain_field("ArmUp"@, "FloatProperty"@, v.arm_up.enc()).len()) + enc_plain_field("LegUp"@, "FloatProperty"@, v.leg_up.enc()).len()) as int);
        assert(v.enc().subrange(((enc_plain_field("BustUp"@, "FloatProperty"@, v.bust_up.enc()).len() + enc_plain_field("FatUp"@, "FloatProperty"@, v.fat_up.enc()).len() + enc_plain_field("ArmUp"@, "FloatProperty"@, v.arm_up.enc()).len()) + enc_field_prelude("LegUp"@, "FloatProperty"@).len()) as int, ((enc_plain_field("BustUp"@, "FloatProperty"@, v.bust_up.enc()).len() + enc_plain_field("FatUp"@, "FloatProperty"@, v.fat_up.enc()).len() + enc_plain_field("ArmUp"@, "FloatProperty"@, v.arm_up.enc()).len()) + enc_plain_field("LegUp"@, "FloatProperty"@, v.leg_up.enc()).len()) as int)
            =~= v.leg_up.enc());
        crate::common::lemma_encoded_slice(data, pos, v.enc(),
            ((enc_plain_field("BustUp"@, "FloatProperty"@, v.bust_up.enc()).len() + enc_plain_field("FatUp"@, "FloatProperty"@, v.fat_up.enc()).len() + enc_plain_field("ArmUp"@, "FloatProperty"@, v.arm_up.enc()).len() + enc_plain_field("LegUp"@, "FloatProperty"@, v.leg_up.enc()).len())) as int,
            ((enc_plain_field("BustUp"@, "FloatProperty"@, v.bust_up.enc()).len() + enc_plain_field("FatUp"@, "FloatProperty"@, v.fat_up.enc()).len() + enc_plain_field("ArmUp"@, "FloatProperty"@, v.arm_up.enc()).len() + enc_plain_field("LegUp"@, "FloatProperty"@, v.leg_up.enc()).len()) + enc_field_prelude("WaistUp"@, "FloatProperty"@).len()) as int);
        assert(v.enc().subrange(((enc_plain_field("BustUp"@, "FloatProperty"@, v.bust_up.enc()).len() + enc_plain_field("FatUp"@, "FloatProperty"@, v.fat_up.enc()).len() + enc_plain_field("ArmUp"@, "FloatProperty"@, v.arm_up.enc()).len() + enc_plain_field("LegUp"@, "FloatProperty"@, v.leg_up.enc()).len())) as int, ((enc_plain_field("BustUp"@, "FloatProperty"@, v.bust_up.enc()).len() + enc_plain_field("FatUp"@, "FloatProperty"@, v.fat_up.enc()).len() + enc_plain_field("ArmUp"@, "FloatProperty"@, v.arm_up.enc()).len() + enc_plain_field("LegUp"@, "FloatProperty"@, v.leg_up.enc()).len()) + enc_field_prelude("WaistUp"@, "FloatProperty"@).len()) as int)
            =~= enc_field_prelude("WaistUp"@, "FloatProperty"@));
        crate::common::lemma_encoded_slice(data, pos, v.enc(),
            ((enc_plain_field("BustUp"@, "FloatProperty"@, v.bust_up.enc()).len() + enc_plain_field("FatUp"@, "FloatProperty"@, v.fat_up.enc()).len() + enc_plain_field("ArmUp"@, "FloatProperty"@, v.arm_up.enc()).len() + enc_plain_field("LegUp"@, "FloatProperty"@, v.leg_up.enc()).len()) + enc_field_prelude("WaistUp"@, "FloatProperty"@).len()) as int,
            ((enc_plain_field("BustUp"@, "FloatProperty"@, v.bust_up.enc()).len() + enc_plain_field("FatUp"@, "FloatProperty"@, v.fat_up.enc()).len() + enc_plain_field("ArmUp"@, "FloatProperty"@, v.arm_up.enc()).len() + enc_plain_field("LegUp"@, "FloatProperty"@, v.leg_up.enc()).len()) + enc_plain_field("WaistUp"@, "FloatProperty"@, v.waist_up.enc()).len()) as int);
        assert(v.enc().subrange(((enc_plain_field("BustUp"@, "FloatProperty"@, v.bust_up.enc()).len() + enc_plain_field("FatUp"@, "FloatProperty"@, v.fat_up.enc()).len() + enc_plain_field("ArmUp"@, "FloatProperty"@, v.arm_up.enc()).len() + enc_plain_field("LegUp"@, "FloatProperty"@, v.leg_up.enc()).len()) + enc_field_prelude("WaistUp"@, "FloatProperty"@).len()) as int, ((enc_plain_field("BustUp"@, "FloatProperty"@, v.bust_up.enc()).len() + enc_plain_field("FatUp"@, "FloatProperty"@, v.fat_up.enc()).len() + enc_plain_field("ArmUp"@, "FloatProperty"@, v.arm_up.enc()).len() + enc_plain_field("LegUp"@, "FloatProperty"@, v.leg_up.enc()).len()) + enc_plain_field("WaistUp"@, "FloatProperty"@, v.waist_up.enc()).len()) as int)
            =~= v.waist_up.enc());
        crate::common::lemma_encoded_slice(data, pos, v.enc(),
            ((enc_plain_field("BustUp"@, "FloatProperty"@, v.bust_up.enc()).len() + enc_plain_field("FatUp"@, "FloatProperty"@, v.fat_up.enc()).len() + enc_plain_field("ArmUp"@, "FloatProperty"@, v.arm_up.enc()).len() + enc_plain_field("LegUp"@, "FloatProperty"@, v.leg_up.enc()).len() + enc_plain_field("WaistUp"@, "FloatProperty"@, v.waist_up.enc()).len())) as int,
            v.enc().len() as int);
        assert(v.enc().subrange(((enc_plain_field("BustUp"@, "FloatProperty"@, v.bust_up.enc()).len() + enc_plain_field("FatUp"@, "FloatProperty"@, v.fat_up.enc()).len() + enc_plain_field("ArmUp"@, "FloatProperty"@, v.arm_up.enc()).len() + enc_plain_field("LegUp"@, "FloatProperty"@, v.leg_up.enc()).len() + enc_plain_field("WaistUp"@, "FloatProperty"@, v.waist_up.enc()).len())) as int, v.enc().len() as int)
            =~= crate::enc_none());
    }

    /// Decodes this struct's field list at `pos`, checking every field
    /// prelude and the closing sentinel.
    #[verifier::rlimit(100)]
    pub fn decode(data: &Vec<u8>, pos: usize)
        -> (r: Result<(DAHumanoidFigureData, usize), DecodeError>)
        ensures
            r matches Ok(p) ==> {
                &&& p.0.wf()
                &&& encoded_at(data@, pos as int, p.0.enc())
                &&& pos < p.1 <= data@.len()
                &&& p.1 == pos + p.0.enc().len()
            },
            r is Err ==> forall|v: DAHumanoidFigureData| !encoded_at(data@, pos as int, v.enc()),
        decreases data@.len() - pos, 2int,
    {
        let dlen = data.len();
        proof {
            reveal(DAHumanoidFigureData::wf);
            reveal(DAHumanoidFigureData::enc);
            Self::names_fit();
            lemma_auto_spec_u32_to_from_le_bytes();
        }
        let m0 = match read_field_prelude(data, pos, "BustUp", "FloatProperty") {
            Ok(x) => x,
            Err(e) => {
                proof {
                    assert forall|v: DAHumanoidFigureData| !encoded_at(data@, pos as int, v.enc()) by {
                        if encoded_at(data@, pos as int, v.enc()) {
                            Self::lemma_regions(data@, pos as int, v);
                            assert(false);
                        }
                    }
                }
                return Err(e);
            },
        };
        let (bust_up, e0) = match FloatProperty::decode(data, m0) {
            Ok(p) => p,
            Err(e) => {
                proof {
                    assert forall|v: DAHumanoidFigureData| !encoded_at(data@, pos as int, v.enc()) by {
                        if encoded_at(data@, pos as int, v.enc()) {
                            Self::lemma_regions(data@, pos as int, v);
                            assert(false);
                        }
                    }
                }
                return Err(e);
            },
        };
        proof {
            crate::common::lemma_subrange_join(data@, pos as int, m0 as int, e0 as int);
            assert(enc_plain_field("BustUp"@, "FloatProperty"@, bust_up.enc())
                == data@.subrange(pos as int, e0 as int));
        }
        let m1 = match read_field_prelude(data, e0, "FatUp", "FloatProperty") {
            Ok(x) => x,
            Err(e) => {
                proof {
                    assert forall|v: DAHumanoidFigureData| !encoded_at(data@, pos as int, v.enc()) by {
                        if encoded_at(data@, pos as int, v.enc()) {
                            Self::lemma_regions(data@, pos as int, v);
                            assert(false);
                        }
                    }
                }
                return Err(e);
            },
        };
        let (fat_up, e1) = match FloatProperty::decode(data, m1) {
            Ok(p) => p,
            Err(e) => {
                proof {
                    assert forall|v: DAHumanoidFigureData| !encoded_at(data@, pos as int, v.enc()) by {
                        if encoded_at(data@, pos as int, v.enc()) {
                            Self::lemma_regions(data@, pos as int, v);
                            assert(false);
                        }
                    }
                }
                return Err(e);
            },
        };
        proof {
            crate::common::lemma_subrange_join(data@, e0 as int, m1 as int, e1 as int);
            assert(enc_plain_field("FatUp"@, "FloatProperty"@, fat_up.enc())
                == data@.subrange(e0 as int, e1 as int));
        }
        let m2 = match read_field_prelude(data, e1, "ArmUp", "FloatProperty") {
            Ok(x) => x,
            Err(e) => {
                proof {
                    assert forall|v: DAHumanoidFigureData| !encoded_at(data@, pos as int, v.enc()) by {
                        if encoded_at(data@, pos as int, v.enc()) {
                            Self::lemma_regions(data@, pos as int, v);
                            assert(false);
                        }
                    }
                }
                return Err(e);
            },
        };
        let (arm_up, e2) = match FloatProperty::decode(data, m2) {
            Ok(p) => p,
            Err(e) => {
                proof {
                    assert forall|v: DAHumanoidFigureData| !encoded_at(data@, pos as int, v.enc()) by {
                        if encoded_at(data@, pos as int, v.enc()) {
                            Self::lemma_regions(data@, pos as int, v);
                            assert(false);
                        }
                    }
                }
                return Err(e);
            },
        };
        proof {
            crate::common::lemma_subrange_join(data@, e1 as int, m2 as int, e2 as int);
            assert(enc_plain_field("ArmUp"@, "FloatProperty"@, arm_up.enc())
                == data@.subrange(e1 as int, e2 as int));
        }
        let m3 = match read_field_prelude(data, e2, "LegUp", "FloatProperty") {
            Ok(x) => x,
            Err(e) => {
                proof {
                    assert forall|v: DAHumanoidFigureData| !encoded_at(data@, pos as int, v.enc()) by {
                        if encoded_at(data@, pos as int, v.enc()) {
                            Self::lemma_regions(data@, pos as int, v);
                            assert(false);
                        }
                    }
                }
                return Err(e);
            },
        };
        let (leg_up, e3) = match FloatProperty::decode(data, m3) {
            Ok(p) => p,
            Err(e) => {
                proof {
                    assert forall|v: DAHumanoidFigureData| !encoded_at(data@, pos as int, v.enc()) by {
                        if encoded_at(data@, pos as int, v.enc()) {
                            Self::lemma_regions(data@, pos as int, v);
                            assert(false);
                        }
                    }
                }
                return Err(e);
            },
        };
        proof {
            crate::common::lemma_subrange_join(data@, e2 as int, m3 as int, e3 as int);
            assert(enc_plain_field("LegUp"@, "FloatProperty"@, leg_up.enc())
                == data@.subrange(e2 as int, e3 as int));
        }
        let m4 = match read_field_prelude(data, e3, "WaistUp", "FloatProperty") {
            Ok(x) => x,
            Err(e) => {
                proof {
                    assert forall|v: DAHumanoidFigureData| !encoded_at(data@, pos as int, v.enc()) by {
                        if encoded_at(data@, pos as int, v.enc()) {
                            Self::lemma_regions(data@, pos as int, v);
                            assert(false);
                        }
                    }
                }
                return Err(e);
            },
        };
        let (waist_up, e4) = match FloatProperty::decode(data, m4) {
            Ok(p) => p,
            Err(e) => {
                proof {
                    assert forall|v: DAHumanoidFigureData| !encoded_at(data@, pos as int, v.enc()) by {
                        if encoded_at(data@, pos as int, v.enc()) {
                            Self::lemma_regions(data@, pos as int, v);
                            assert(false);
                        }
                    }
                }
                return Err(e);
            },
        };
        proof {
            crate::common::lemma_subrange_join(data@, e3 as int, m4 as int, e4 as int);
            assert(enc_plain_field("WaistUp"@, "FloatProperty"@, waist_up.enc())
                == data@.subrange(e3 as int, e4 as int));
        }
        let fin = match read_none_field(data, e4) {
            Ok(x) => x,
            Err(e) => {
                proof {
                    assert forall|v: DAHumanoidFigureData| !encoded_at(data@, pos as int, v.enc()) by {
                        if encoded_at(data@, pos as int, v.enc()) {
                            Self::lemma_regions(data@, pos as int, v);
                            assert(false);
                        }
                    }
                }
                return Err(e);
            },
        };
        let v = DAHumanoidFigureData { bust_up, fat_up, arm_up, leg_up, waist_up };
        proof {
            crate::common::lemma_subrange_join(data@, pos as int, e0 as int, e1 as int);
            crate::common::lemma_subrange_join(data@, pos as int, e1 as int, e2 as int);
            crate::common::lemma_subrange_join(data@, pos as int, e2 as int, e3 as int);
            crate::common::lemma_subrange_join(data@, pos as int, e3 as int, e4 as int);
            crate::common::lemma_subrange_join(data@, pos as int, e4 as int, fin as int);
            assert(v.enc() == data@.subrange(pos as int, fin as int));
        }
        Ok((v, fin))
    }

    /// Appends the wire form of this struct, synthesizing the closing
    /// sentinel.
    #[verifier::rlimit(100)]
    pub fn encode(&self, out: &mut Vec<u8>)
        requires
            self.wf(),
        ensures
            final(out)@ == old(out)@ + self.enc(),
        decreases *self, 2int,
    {
        proof {
            reveal(DAHumanoidFigureData::wf);
            reveal(DAHumanoidFigureData::enc);
            Self::names_fit();
        }
        let ghost prev_out0: Seq<u8> = out@;
        write_field_prelude(out, "BustUp", "FloatProperty");
        self.bust_up.encode(out);
        proof {
            crate::common::lemma_add_assoc(prev_out0, enc_field_prelude("BustUp"@, "FloatProperty"@), self.bust_up.enc());
            assert(out@ == prev_out0 + enc_plain_field("BustUp"@, "FloatProperty"@, self.bust_up.enc()));
        }
        let ghost prev_out1: Seq<u8> = out@;
        write_field_prelude(out, "FatUp", "FloatProperty");
        self.fat_up.encode(out);
        proof {
            crate::common::lemma_add_assoc(prev_out1, enc_field_prelude("FatUp"@, "FloatProperty"@), self.fat_up.enc());
            assert(out@ == prev_out1 + enc_plain_field("FatUp"@, "FloatProperty"@, self.fat_up.enc()));
        }
        let ghost prev_out2: Seq<u8> = out@;
        write_field_prelude(out, "ArmUp", "FloatProperty");
        self.arm_up.encode(out);
        proof {
            crate::common::lemma_add_assoc(prev_out2, enc_field_prelude("ArmUp"@, "FloatProperty"@), self.arm_up.enc());
            assert(out@ == prev_out2 + enc_plain_field("ArmUp"@, "FloatProperty"@, self.arm_up.enc()));
        }
        let ghost prev_out3: Seq<u8> = out@;
        write_field_prelude(out, "LegUp", "FloatProperty");
        self.leg_up.encode(out);
        proof {
            crate::common::lemma_add_assoc(prev_out3, enc_field_prelude("LegUp"@, "FloatProperty"@), self.leg_up.enc());
            assert(out@ == prev_out3 + enc_plain_field("LegUp"@, "FloatProperty"@, self.leg_up.enc()));
        }
        let ghost prev_out4: Seq<u8> = out@;
        write_field_prelude(out, "WaistUp", "FloatProperty");
        self.waist_up.encode(out);
        proof {
            crate::common::lemma_add_assoc(prev_out4, enc_field_prelude("WaistUp"@, "FloatProperty"@), self.waist_up.enc());
            assert(out@ == prev_out4 + enc_plain_field("WaistUp"@, "FloatProperty"@, self.waist_up.enc()));
        }
        write_none_field(out);
        proof {
            crate::common::lemma_add_assoc(old(out)@, enc_plain_field("BustUp"@, "FloatProperty"@, self.bust_up.enc()),
                enc_plain_field("FatUp"@, "FloatProperty"@, self.fat_up.enc()));
            crate::common::lemma_add_assoc(old(out)@, enc_plain_field("BustUp"@, "FloatProperty"@, self.bust_up.enc()) + enc_plain_field("FatUp"@, "FloatProperty"@, self.fat_up.enc()),
                enc_plain_field("ArmUp"@, "FloatProperty"@, self.arm_up.enc()));
            crate::common::lemma_add_assoc(old(out)@, enc_plain_field("BustUp"@, "FloatProperty"@, self.bust_up.enc()) + enc_plain_field("FatUp"@, "FloatProperty"@, self.fat_up.enc()) + enc_plain_field("ArmUp"@, "FloatProperty"@, self.arm_up.enc()),
                enc_plain_field("LegUp"@, "FloatProperty"@, self.leg_up.enc()));
            crate::common::lemma_add_assoc(old(out)@, enc_plain_field("BustUp"@, "FloatProperty"@, self.bust_up.enc()) + enc_plain_field("FatUp"@, "FloatProperty"@, self.fat_up.enc()) + enc_plain_field("ArmUp"@, "FloatProperty"@, self.arm_up.enc()) + enc_plain_field("LegUp"@, "FloatProperty"@, self.leg_up.enc()),
                enc_plain_field("WaistUp"@, "FloatProperty"@, self.waist_up.enc()));
            crate::common::lemma_add_assoc(old(out)@, enc_plain_field("BustUp"@, "FloatProperty"@, self.bust_up.enc()) + enc_plain_field("FatUp"@, "FloatProperty"@, self.fat_up.enc()) + enc_plain_field("ArmUp"@, "FloatProperty"@, self.arm_up.enc()) + enc_plain_field("LegUp"@, "FloatProperty"@, self.leg_up.enc()) + enc_plain_field("WaistUp"@, "FloatProperty"@, self.waist_up.enc()),
                crate::enc_none());
            assert(out@ == old(out)@ + self.enc());
        }
    }
}


/// Reads one struct-typed field whose payload is a module's four colors:
/// the field prelude announcing `name`, the struct prelude announcing
/// "DAModuleColor", then the payload.
fn read_module_color_field(data: &Vec<u8>, pos: usize, name: &str)
    -> (r: Result<(DAModuleColorStruct, usize), DecodeError>)
    ensures
        r matches Ok(p) ==> {
            &&& p.0.wf()
            &&& encoded_at(data@, pos as int,
                enc_struct_field(name@, "DAModuleColor"@, p.0.enc()))
            &&& pos < p.1 <= data@.len()
            &&& p.1 == pos + enc_struct_field(name@, "DAModuleColor"@, p.0.enc()).len()
            &&& p.0.enc().len() <= u32::MAX
            &&& str_fits(name@)
        },
{
    let m = match read_field_prelude(data, pos, name, "StructProperty") {
        Ok(x) => x,
        Err(e) => {
            return Err(e);
        },
    };
    let (sz, b) = match read_struct_prelude(data, m, "DAModuleColor") {
        Ok(p) => p,
        Err(e) => {
            return Err(e);
        },
    };
    let (c, end) = match DAModuleColorStruct::decode(data, b) {
        Ok(p) => p,
        Err(e) => {
            return Err(e);
        },
    };
    if (sz as u64) != ((end - b) as u64) {
        return Err(DecodeError::LengthMismatch);
    }
    proof {
        crate::common::lemma_subrange_join(data@, pos as int, m as int, b as int);
        crate::common::lemma_subrange_join(data@, pos as int, b as int, end as int);
        assert(enc_struct_field(name@, "DAModuleColor"@, c.enc())
            == data@.subrange(pos as int, end as int));
    }
    Ok((c, end))
}

/// The colors of every module of a machine.
///
/// On the wire this is a fixed field list under the struct name "DAMachineColoringData".
#[derive(Debug)]
pub struct DAMachineColoringDataStruct {
    pub hanger: DAModuleColorStruct,
    pub headset: DAModuleColorStruct,
    pub mobility: DAModuleColorStruct,
    pub thruster: DAModuleColorStruct,
    pub utility: DAModuleColorStruct,
    pub primary_front_weapon: DAModuleColorStruct,
    pub secondary_front_weapon: DAModuleColorStruct,
    pub left_rear_weapon: DAModuleColorStruct,
    pub right_rear_weapon: DAModuleColorStruct,
}

impl DAMachineColoringDataStruct {
    #[verifier::opaque]
    pub open spec fn wf(self) -> bool
        decreases self, 5int,
    {
        &&& self.hanger.wf()
        &&& self.hanger.enc().len() <= u32::MAX
        &&& self.headset.wf()
        &&& self.headset.enc().len() <= u32::MAX
        &&& self.mobility.wf()
        &&& self.mobility.enc().len() <= u32::MAX
        &&& self.thruster.wf()
        &&& self.thruster.enc().len() <= u32::MAX
        &&& self.utility.wf()
        &&& self.utility.enc().len() <= u32::MAX
        &&& self.primary_front_weapon.wf()
        &&& self.primary_front_weapon.enc().len() <= u32::MAX
        &&& self.secondary_front_weapon.wf()
        &&& self.secondary_front_weapon.enc().len() <= u32::MAX
        &&& self.left_rear_weapon.wf()
        &&& self.left_rear_weapon.enc().len() <= u32::MAX
        &&& self.right_rear_weapon.wf()
        &&& self.right_rear_weapon.enc().len() <= u32::MAX
    }

    /// The wire bytes of this struct: its fields in order, each under
    /// its prelude, closed by one "None" sentinel.
    #[verifier::opaque]
    pub open spec fn enc(self) -> Seq<u8>
        decreases self, 5int,
    {
        enc_struct_field("Hanger"@, "DAModuleColor"@, self.hanger.enc())
            + enc_struct_field("Headset"@, "DAModuleColor"@, self.headset.enc())
            + enc_struct_field("Mobility"@, "DAModuleColor"@, self.mobility.enc())
            + enc_struct_field("Thruster"@, "DAModuleColor"@, self.thruster.enc())
            + enc_struct_field("Utility"@, "DAModuleColor"@, self.utility.enc())
            + enc_struct_field("PrimaryFrontWeapon"@, "DAModuleColor"@, self.primary_front_weapon.enc())
            + enc_struct_field("SecondaryFrontWeapon"@, "DAModuleColor"@, self.secondary_front_weapon.enc())
            + enc_struct_field("LeftRearWeapon"@, "DAModuleColor"@, self.left_rear_weapon.enc())
            + enc_struct_field("RightRearWeapon"@, "DAModuleColor"@, self.right_rear_weapon.enc())
            + crate::enc_none()
    }

    pub fn struct_name() -> (r: &'static str)
        ensures
            r@ == "DAMachineColoringData"@,
    {
        "DAMachineColoringData"
    }

    /// The names this struct's encoder writes all fit on the wire.
    proof fn names_fit()
        ensures
            str_fits("None"@),
            str_fits("Hanger"@),
            str_fits("StructProperty"@),
            str_fits("DAModuleColor"@),
            str_fits("Headset"@),
            str_fits("Mobility"@),
            str_fits("Thruster"@),
            str_fits("Utility"@),
            str_fits("PrimaryFrontWeapon"@),
            str_fits("SecondaryFrontWeapon"@),
            str_fits("LeftRearWeapon"@),
            str_fits("RightRearWeapon"@),
    {
        reveal_strlit("None");
        assert(is_ascii_chars("None"@));
        is_ascii_chars_encode_utf8("None"@);
        reveal_strlit("Hanger");
        assert(is_ascii_chars("Hanger"@));
        is_ascii_chars_encode_utf8("Hanger"@);
        reveal_strlit("StructProperty");
        assert(is_ascii_chars("StructProperty"@));
        is_ascii_chars_encode_utf8("StructProperty"@);
        reveal_strlit("DAModuleColor");
        assert(is_ascii_chars("DAModuleColor"@));
        is_ascii_chars_encode_utf8("DAModuleColor"@);
        reveal_strlit("Headset");
        assert(is_ascii_chars("Headset"@));
        is_ascii_chars_encode_utf8("Headset"@);
        reveal_strlit("Mobility");
        assert(is_ascii_chars("Mobility"@));
        is_ascii_chars_encode_utf8("Mobility"@);
        reveal_strlit("Thruster");
        assert(is_ascii_chars("Thruster"@));
        is_ascii_chars_encode_utf8("Thruster"@);
        reveal_strlit("Utility");
        assert(is_ascii_chars("Utility"@));
        is_ascii_chars_encode_utf8("Utility"@);
        reveal_strlit("PrimaryFrontWeapon");
        assert(is_ascii_chars("PrimaryFrontWeapon"@));
        is_ascii_chars_encode_utf8("PrimaryFrontWeapon"@);
        reveal_strlit("SecondaryFrontWeapon");
        assert(is_ascii_chars("SecondaryFrontWeapon"@));
        is_ascii_chars_encode_utf8("SecondaryFrontWeapon"@);
        reveal_strlit("LeftRearWeapon");
        assert(is_ascii_chars("LeftRearWeapon"@));
        is_ascii_chars_encode_utf8("LeftRearWeapon"@);
        reveal_strlit("RightRearWeapon");
        assert(is_ascii_chars("RightRearWeapon"@));
        is_ascii_chars_encode_utf8("RightRearWeapon"@);
    }

    /// Decodes this struct's field list at `pos`, checking every field
    /// prelude and the closing sentinel.
    #[verifier::rlimit(100)]
    pub fn decode(data: &Vec<u8>, pos: usize)
        -> (r: Result<(DAMachineColoringDataStruct, usize), DecodeError>)
        ensures
            r matches Ok(p) ==> {
                &&& p.0.wf()
                &&& encoded_at(data@, pos as int, p.0.enc())
                &&& pos < p.1 <= data@.len()
                &&& p.1 == pos + p.0.enc().len()
            },
        decreases data@.len() - pos, 2int,
    {
        let dlen = data.len();
        proof {
            reveal(DAMachineColoringDataStruct::wf);
            reveal(DAMachineColoringDataStruct::enc);
        }
        let (hanger, e0) = match read_module_color_field(data, pos, "Hanger") {
            Ok(p) => p,
            Err(e) => { return Err(e); },
        };
        let (headset, e1) = match read_module_color_field(data, e0, "Headset") {
            Ok(p) => p,
            Err(e) => { return Err(e); },
        };
        let (mobility, e2) = match read_module_color_field(data, e1, "Mobility") {
            Ok(p) => p,
            Err(e) => { return Err(e); },
        };
        let (thruster, e3) = match read_module_color_field(data, e2, "Thruster") {
            Ok(p) => p,
            Err(e) => { return Err(e); },
        };
        let (utility, e4) = match read_module_color_field(data, e3, "Utility") {
            Ok(p) => p,
            Err(e) => { return Err(e); },
        };
        let (primary_front_weapon, e5) = match read_module_color_field(data, e4, "PrimaryFrontWeapon") {
            Ok(p) => p,
            Err(e) => { return Err(e); },
        };
        let (secondary_front_weapon, e6) = match read_module_color_field(data, e5, "SecondaryFrontWeapon") {
            Ok(p) => p,
            Err(e) => { return Err(e); },
        };
        let (left_rear_weapon, e7) = match read_module_color_field(data, e6, "LeftRearWeapon") {
            Ok(p) => p,
            Err(e) => { return Err(e); },
        };
        let (right_rear_weapon, e8) = match read_module_color_field(data, e7, "RightRearWeapon") {
            Ok(p) => p,
            Err(e) => { return Err(e); },
        };
        let fin = match read_none_field(data, e8) {
            Ok(x) => x,
            Err(e) => { return Err(e); },
        };
        let v = DAMachineColoringDataStruct { hanger, headset, mobility, thruster, utility, primary_front_weapon, secondary_front_weapon, left_rear_weapon, right_rear_weapon };
        proof {
            crate::common::lemma_subrange_join(data@, pos as int, e0 as int, e1 as int);
            crate::common::lemma_subrange_join(data@, pos as int, e1 as int, e2 as int);
            crate::common::lemma_subrange_join(data@, pos as int, e2 as int, e3 as int);
            crate::common::lemma_subrange_join(data@, pos as int, e3 as int, e4 as int);
            crate::common::lemma_subrange_join(data@, pos as int, e4 as int, e5 as int);
            crate::common::lemma_subrange_join(data@, pos as int, e5 as int, e6 as int);
            crate::common::lemma_subrange_join(data@, pos as int, e6 as int, e7 as int);
            crate::common::lemma_subrange_join(data@, pos as int, e7 as int, e8 as int);
            crate::common::lemma_subrange_join(data@, pos as int, e8 as int, fin as int);
            assert(v.enc() == data@.subrange(pos as int, fin as int));
        }
        Ok((v, fin))
    }

    /// Appends the wire form of this struct, synthesizing the closing
    /// sentinel.
    #[verifier::rlimit(100)]
    pub fn encode(&self, out: &mut Vec<u8>)
        requires
            self.wf(),
        ensures
            final(out)@ == old(out)@ + self.enc(),
        decreases *self, 2int,
    {
        proof {
            reveal(DAMachineColoringDataStruct::wf);
            reveal(DAMachineColoringDataStruct::enc);
            Self::names_fit();
        }
        let ghost prev_out0: Seq<u8> = out@;
        write_field_prelude(out, "Hanger", "StructProperty");
        let mut tmp0: Vec<u8> = Vec::new();
        self.hanger.encode(&mut tmp0);
        let sz0: u32 = tmp0.len() as u32;
        write_struct_prelude(out, sz0, "DAModuleColor");
        crate::common::write_bytes(out, &tmp0);
        proof {
            crate::common::lemma_add_assoc(prev_out0, enc_field_prelude("Hanger"@, "StructProperty"@), enc_struct_prelude(sz0, "DAModuleColor"@));
            crate::common::lemma_add_assoc(prev_out0, enc_field_prelude("Hanger"@, "StructProperty"@) + enc_struct_prelude(sz0, "DAModuleColor"@), self.hanger.enc());
            assert(out@ == prev_out0 + enc_struct_field("Hanger"@, "DAModuleColor"@, self.hanger.enc()));
        }
        let ghost prev_out1: Seq<u8> = out@;
        write_field_prelude(out, "Headset", "StructProperty");
        let mut tmp1: Vec<u8> = Vec::new();
        self.headset.encode(&mut tmp1);
        let sz1: u32 = tmp1.len() as u32;
        write_struct_prelude(out, sz1, "DAModuleColor");
        crate::common::write_bytes(out, &tmp1);
        proof {
            crate::common::lemma_add_assoc(prev_out1, enc_field_prelude("Headset"@, "StructProperty"@), enc_struct_prelude(sz1, "DAModuleColor"@));
            crate::common::lemma_add_assoc(prev_out1, enc_field_prelude("Headset"@, "StructProperty"@) + enc_struct_prelude(sz1, "DAModuleColor"@), self.headset.enc());
            assert(out@ == prev_out1 + enc_struct_field("Headset"@, "DAModuleColor"@, self.headset.enc()));
        }
        let ghost prev_out2: Seq<u8> = out@;
        write_field_prelude(out, "Mobility", "StructProperty");
        let mut tmp2: Vec<u8> = Vec::new();
        self.mobility.encode(&mut tmp2);
        let sz2: u32 = tmp2.len() as u32;
        write_struct_prelude(out, sz2, "DAModuleColor");
        crate::common::write_bytes(out, &tmp2);
        proof {
            crate::common::lemma_add_assoc(prev_out2, enc_field_prelude("Mobility"@, "StructProperty"@), enc_struct_prelude(sz2, "DAModuleColor"@));
            crate::common::lemma_add_assoc(prev_out2, enc_field_prelude("Mobility"@, "StructProperty"@) + enc_struct_prelude(sz2, "DAModuleColor"@), self.mobility.enc());
            assert(out@ == prev_out2 + enc_struct_field("Mobility"@, "DAModuleColor"@, self.mobility.enc()));
        }
        let ghost prev_out3: Seq<u8> = out@;
        write_field_prelude(out, "Thruster", "StructProperty");
        let mut tmp3: Vec<u8> = Vec::new();
        self.thruster.encode(&mut tmp3);
        let sz3: u32 = tmp3.len() as u32;
        write_struct_prelude(out, sz3, "DAModuleColor");
        crate::common::write_bytes(out, &tmp3);
        proof {
            crate::common::lemma_add_assoc(prev_out3, enc_field_prelude("Thruster"@, "StructProperty"@), enc_struct_prelude(sz3, "DAModuleColor"@));
            crate::common::lemma_add_assoc(prev_out3, enc_field_prelude("Thruster"@, "StructProperty"@) + enc_struct_prelude(sz3, "DAModuleColor"@), self.thruster.enc());
            assert(out@ == prev_out3 + enc_struct_field("Thruster"@, "DAModuleColor"@, self.thruster.enc()));
        }
        let ghost prev_out4: Seq<u8> = out@;
        write_field_prelude(out, "Utility", "StructProperty");
        let mut tmp4: Vec<u8> = Vec::new();
        self.utility.encode(&mut tmp4);
        let sz4: u32 = tmp4.len() as u32;
        write_struct_prelude(out, sz4, "DAModuleColor");
        crate::common::write_bytes(out, &tmp4);
        proof {
            crate::common::lemma_add_assoc(prev_out4, enc_field_prelude("Utility"@, "StructProperty"@), enc_struct_prelude(sz4, "DAModuleColor"@));
            crate::common::lemma_add_assoc(prev_out4, enc_field_prelude("Utility"@, "StructProperty"@) + enc_struct_prelude(sz4, "DAModuleColor"@), self.utility.enc());
            assert(out@ == prev_out4 + enc_struct_field("Utility"@, "DAModuleColor"@, self.utility.enc()));
        }
        let ghost prev_out5: Seq<u8> = out@;
        write_field_prelude(out, "PrimaryFrontWeapon", "StructProperty");
        let mut tmp5: Vec<u8> = Vec::new();
        self.primary_front_weapon.encode(&mut tmp5);
        let sz5: u32 = tmp5.len() as u32;
        write_struct_prelude(out, sz5, "DAModuleColor");
        crate::common::write_bytes(out, &tmp5);
        proof {
            crate::common::lemma_add_assoc(prev_out5, enc_field_prelude("PrimaryFrontWeapon"@, "StructProperty"@), enc_struct_prelude(sz5, "DAModuleColor"@));
            crate::common::lemma_add_assoc(prev_out5, enc_field_prelude("PrimaryFrontWeapon"@, "StructProperty"@) + enc_struct_prelude(sz5, "DAModuleColor"@), self.primary_front_weapon.enc());
            assert(out@ == prev_out5 + enc_struct_field("PrimaryFrontWeapon"@, "DAModuleColor"@, self.primary_front_weapon.enc()));
        }
        let ghost prev_out6: Seq<u8> = out@;
        write_field_prelude(out, "SecondaryFrontWeapon", "StructProperty");
        let mut tmp6: Vec<u8> = Vec::new();
        self.secondary_front_weapon.encode(&mut tmp6);
        let sz6: u32 = tmp6.len() as u32;
        write_struct_prelude(out, sz6, "DAModuleColor");
        crate::common::write_bytes(out, &tmp6);
        proof {
            crate::common::lemma_add_assoc(prev_out6, enc_field_prelude("SecondaryFrontWeapon"@, "StructProperty"@), enc_struct_prelude(sz6, "DAModuleColor"@));
            crate::common::lemma_add_assoc(prev_out6, enc_field_prelude("SecondaryFrontWeapon"@, "StructProperty"@) + enc_struct_prelude(sz6, "DAModuleColor"@), self.secondary_front_weapon.enc());
            assert(out@ == prev_out6 + enc_struct_field("SecondaryFrontWeapon"@, "DAModuleColor"@, self.secondary_front_weapon.enc()));
        }
        let ghost prev_out7: Seq<u8> = out@;
        write_field_prelude(out, "LeftRearWeapon", "StructProperty");
        let mut tmp7: Vec<u8> = Vec::new();
        self.left_rear_weapon.encode(&mut tmp7);
        let sz7: u32 = tmp7.len() as u32;
        write_struct_prelude(out, sz7, "DAModuleColor");
        crate::common::write_bytes(out, &tmp7);
        proof {
            crate::common::lemma_add_assoc(prev_out7, enc_field_prelude("LeftRearWeapon"@, "StructProperty"@), enc_struct_prelude(sz7, "DAModuleColor"@));
            crate::common::lemma_add_assoc(prev_out7, enc_field_prelude("LeftRearWeapon"@, "StructProperty"@) + enc_struct_prelude(sz7, "DAModuleColor"@), self.left_rear_weapon.enc());
            assert(out@ == prev_out7 + enc_struct_field("LeftRearWeapon"@, "DAModuleColor"@, self.left_rear_weapon.enc()));
        }
        let ghost prev_out8: Seq<u8> = out@;
        write_field_prelude(out, "RightRearWeapon", "StructProperty");
        let mut tmp8: Vec<u8> = Vec::new();
        self.right_rear_weapon.encode(&mut tmp8);
        let sz8: u32 = tmp8.len() as u32;
        write_struct_prelude(out, sz8, "DAModuleColor");
        crate::common::write_bytes(out, &tmp8);
        proof {
            crate::common::lemma_add_assoc(prev_out8, enc_field_prelude("RightRearWeapon"@, "StructProperty"@), enc_struct_prelude(sz8, "DAModuleColor"@));
            crate::common::lemma_add_assoc(prev_out8, enc_field_prelude("RightRearWeapon"@, "StructProperty"@) + enc_struct_prelude(sz8, "DAModuleColor"@), self.right_rear_weapon.enc());
            assert(out@ == prev_out8 + enc_struct_field("RightRearWeapon"@, "DAModuleColor"@, self.right_rear_weapon.enc()));
        }
        write_none_field(out);
        proof {
            crate::common::lemma_add_assoc(old(out)@, enc_struct_field("Hanger"@, "DAModuleColor"@, self.hanger.enc()),
                enc_struct_field("Headset"@, "DAModuleColor"@, self.headset.enc()));
            crate::common::lemma_add_assoc(old(out)@, enc_struct_field("Hanger"@, "DAModuleColor"@, self.hanger.enc()) + enc_struct_field("Headset"@, "DAModuleColor"@, self.headset.enc()),
                enc_struct_field("Mobility"@, "DAModuleColor"@, self.mobility.enc()));
            crate::common::lemma_add_assoc(old(out)@, enc_struct_field("Hanger"@, "DAModuleColor"@, self.hanger.enc()) + enc_struct_field("Headset"@, "DAModuleColor"@, self.headset.enc()) + enc_struct_field("Mobility"@, "DAModuleColor"@, self.mobility.enc()),
                enc_struct_field("Thruster"@, "DAModuleColor"@, self.thruster.enc()));
            crate::common::lemma_add_assoc(old(out)@, enc_struct_field("Hanger"@, "DAModuleColor"@, self.hanger.enc()) + enc_struct_field("Headset"@, "DAModuleColor"@, self.headset.enc()) + enc_struct_field("Mobility"@, "DAModuleColor"@, self.mobility.enc()) + enc_struct_field("Thruster"@, "DAModuleColor"@, self.thruster.enc()),
                enc_struct_field("Utility"@, "DAModuleColor"@, self.utility.enc()));
            crate::common::lemma_add_assoc(old(out)@, enc_struct_field("Hanger"@, "DAModuleColor"@, self.hanger.enc()) + enc_struct_field("Headset"@, "DAModuleColor"@, self.headset.enc()) + enc_struct_field("Mobility"@, "DAModuleColor"@, self.mobility.enc()) + enc_struct_field("Thruster"@, "DAModuleColor"@, self.thruster.enc()) + enc_struct_field("Utility"@, "DAModuleColor"@, self.utility.enc()),
                enc_struct_field("PrimaryFrontWeapon"@, "DAModuleColor"@, self.primary_front_weapon.enc()));
            crate::common::lemma_add_assoc(old(out)@, enc_struct_field("Hanger"@, "DAModuleColor"@, self.hanger.enc()) + enc_struct_field("Headset"@, "DAModuleColor"@, self.headset.enc()) + enc_struct_field("Mobility"@, "DAModuleColor"@, self.mobility.enc()) + enc_struct_field("Thruster"@, "DAModuleColor"@, self.thruster.enc()) + enc_struct_field("Utility"@, "DAModuleColor"@, self.utility.enc()) + enc_struct_field("PrimaryFrontWeapon"@, "DAModuleColor"@, self.primary_front_weapon.enc()),
                enc_struct_field("SecondaryFrontWeapon"@, "DAModuleColor"@, self.secondary_front_weapon.enc()));
            crate::common::lemma_add_assoc(old(out)@, enc_struct_field("Hanger"@, "DAModuleColor"@, self.hanger.enc()) + enc_struct_field("Headset"@, "DAModuleColor"@, self.headset.enc()) + enc_struct_field("Mobility"@, "DAModuleColor"@, self.mobility.enc()) + enc_struct_field("Thruster"@, "DAModuleColor"@, self.thruster.enc()) + enc_struct_field("Utility"@, "DAModuleColor"@, self.utility.enc()) + enc_struct_field("PrimaryFrontWeapon"@, "DAModuleColor"@, self.primary_front_weapon.enc()) + enc_struct_field("SecondaryFrontWeapon"@, "DAModuleColor"@, self.secondary_front_weapon.enc()),
                enc_struct_field("LeftRearWeapon"@, "DAModuleColor"@, self.left_rear_weapon.enc()));
            crate::common::lemma_add_assoc(old(out)@, enc_struct_field("Hanger"@, "DAModuleColor"@, self.hanger.enc()) + enc_struct_field("Headset"@, "DAModuleColor"@, self.headset.enc()) + enc_struct_field("Mobility"@, "DAModuleColor"@, self.mobility.enc()) + enc_struct_field("Thruster"@, "DAModuleColor"@, self.thruster.enc()) + enc_struct_field("Utility"@, "DAModuleColor"@, self.utility.enc()) + enc_struct_field("PrimaryFrontWeapon"@, "DAModuleColor"@, self.primary_front_weapon.enc()) + enc_struct_field("SecondaryFrontWeapon"@, "DAModuleColor"@, self.secondary_front_weapon.enc()) + enc_struct_field("LeftRearWeapon"@, "DAModuleColor"@, self.left_rear_weapon.enc()),
                enc_struct_field("RightRearWeapon"@, "DAModuleColor"@, self.right_rear_weapon.enc()));
            crate::common::lemma_add_assoc(old(out)@, enc_struct_field("Hanger"@, "DAModuleColor"@, self.hanger.enc()) + enc_struct_field("Headset"@, "DAModuleColor"@, self.headset.enc()) + enc_struct_field("Mobility"@, "DAModuleColor"@, self.mobility.enc()) + enc_struct_field("Thruster"@, "DAModuleColor"@, self.thruster.enc()) + enc_struct_field("Utility"@, "DAModuleColor"@, self.utility.enc()) + enc_struct_field("PrimaryFrontWeapon"@, "DAModuleColor"@, self.primary_front_weapon.enc()) + enc_struct_field("SecondaryFrontWeapon"@, "DAModuleColor"@, self.secondary_front_weapon.enc()) + enc_struct_field("LeftRearWeapon"@, "DAModuleColor"@, self.left_rear_weapon.enc()) + enc_struct_field("RightRearWeapon"@, "DAModuleColor"@, self.right_rear_weapon.enc()),
                crate::enc_none());
            assert(out@ == old(out)@ + self.enc());
        }
    }
}

/// The assembled machine: one identifier per module, and its coloring.
///
/// On the wire this is a fixed field list under the struct name "DAAssembleIdData".
#[derive(Debug)]
pub struct DAAssembleIdDataStruct {
    pub hanger: Guid,
    pub headset: Guid,
    pub mobility: Guid,
    pub thruster: Guid,
    pub utility: Guid,
    pub primary_front_weapon: Guid,
    pub secondary_front_weapon: Guid,
    pub left_rear_weapon: Guid,
    pub right_rear_weapon: Guid,
    pub coloring_data: DAMachineColoringDataStruct,
}

impl DAAssembleIdDataStruct {
    #[verifier::opaque]
    pub open spec fn wf(self) -> bool
        decreases self, 5int,
    {
        &&& self.hanger.enc().len() <= u32::MAX
        &&& self.headset.enc().len() <= u32::MAX
        &&& self.mobility.enc().len() <= u32::MAX
        &&& self.thruster.enc().len() <= u32::MAX
        &&& self.utility.enc().len() <= u32::MAX
        &&& self.primary_front_weapon.enc().len() <= u32::MAX
        &&& self.secondary_front_weapon.enc().len() <= u32::MAX
        &&& self.left_rear_weapon.enc().len() <= u32::MAX
        &&& self.right_rear_weapon.enc().len() <= u32::MAX
        &&& self.coloring_data.wf()
        &&& self.coloring_data.enc().len() <= u32::MAX
    }

    /// The wire bytes of this struct: its fields in order, each under
    /// its prelude, closed by one "None" sentinel.
    #[verifier::opaque]
    pub open spec fn enc(self) -> Seq<u8>
        decreases self, 5int,
    {
        enc_struct_field("Hanger"@, "Guid"@, self.hanger.enc())
            + enc_struct_field("Headset"@, "Guid"@, self.headset.enc())
            + enc_struct_field("Mobility"@, "Guid"@, self.mobility.enc())
            + enc_struct_field("Thruster"@, "Guid"@, self.thruster.enc())
            + enc_struct_field("Utility"@, "Guid"@, self.utility.enc())
            + enc_struct_field("PrimaryFrontWeapon"@, "Guid"@, self.primary_front_weapon.enc())
            + enc_struct_field("SecondaryFrontWeapon"@, "Guid"@, self.secondary_front_weapon.enc())
            + enc_struct_field("LeftRearWeapon"@, "Guid"@, self.left_rear_weapon.enc())
            + enc_struct_field("RightRearWeapon"@, "Guid"@, self.right_rear_weapon.enc())
            + enc_struct_field("ColoringData"@, "DAMachineColoringData"@, self.coloring_data.enc())
            + crate::enc_none()
    }

    pub fn struct_name() -> (r: &'static str)
        ensures
            r@ == "DAAssembleIdData"@,
    {
        "DAAssembleIdData"
    }

    /// The names this struct's encoder writes all fit on the wire.
    proof fn names_fit()
        ensures
            str_fits("None"@),
            str_fits("Hanger"@),
            str_fits("StructProperty"@),
            str_fits("Guid"@),
            str_fits("Headset"@),
            str_fits("Mobility"@),
            str_fits("Thruster"@),
            str_fits("Utility"@),
            str_fits("PrimaryFrontWeapon"@),
            str_fits("SecondaryFrontWeapon"@),
            str_fits("LeftRearWeapon"@),
            str_fits("RightRearWeapon"@),
            str_fits("ColoringData"@),
            str_fits("DAMachineColoringData"@),
    {
        reveal_strlit("None");
        assert(is_ascii_chars("None"@));
        is_ascii_chars_encode_utf8("None"@);
        reveal_strlit("Hanger");
        assert(is_ascii_chars("Hanger"@));
        is_ascii_chars_encode_utf8("Hanger"@);
        reveal_strlit("StructProperty");
        assert(is_ascii_chars("StructProperty"@));
        is_ascii_chars_encode_utf8("StructProperty"@);
        reveal_strlit("Guid");
        assert(is_ascii_chars("Guid"@));
        is_ascii_chars_encode_utf8("Guid"@);
        reveal_strlit("Headset");
        assert(is_ascii_chars("Headset"@));
        is_ascii_chars_encode_utf8("Headset"@);
        reveal_strlit("Mobility");
        assert(is_ascii_chars("Mobility"@));
        is_ascii_chars_encode_utf8("Mobility"@);
        reveal_strlit("Thruster");
        assert(is_ascii_chars("Thruster"@));
        is_ascii_chars_encode_utf8("Thruster"@);
        reveal_strlit("Utility");
        assert(is_ascii_chars("Utility"@));
        is_ascii_chars_encode_utf8("Utility"@);
        reveal_strlit("PrimaryFrontWeapon");
        assert(is_ascii_chars("PrimaryFrontWeapon"@));
        is_ascii_chars_encode_utf8("PrimaryFrontWeapon"@);
        reveal_strlit("SecondaryFrontWeapon");
        assert(is_ascii_chars("SecondaryFrontWeapon"@));
        is_ascii_chars_encode_utf8("SecondaryFrontWeapon"@);
        reveal_strlit("LeftRearWeapon");
        assert(is_ascii_chars("LeftRearWeapon"@));
        is_ascii_chars_encode_utf8("LeftRearWeapon"@);
        reveal_strlit("RightRearWeapon");
        assert(is_ascii_chars("RightRearWeapon"@));
        is_ascii_chars_encode_utf8("RightRearWeapon"@);
        reveal_strlit("ColoringData");
        assert(is_ascii_chars("ColoringData"@));
        is_ascii_chars_encode_utf8("ColoringData"@);
        reveal_strlit("DAMachineColoringData");
        assert(is_ascii_chars("DAMachineColoringData"@));
        is_ascii_chars_encode_utf8("DAMachineColoringData"@);
    }

    /// Decodes this struct's field list at `pos`, checking every field
    /// prelude and the closing sentinel.
    #[verifier::rlimit(100)]
    pub fn decode(data: &Vec<u8>, pos: usize)
        -> (r: Result<(DAAssembleIdDataStruct, usize), DecodeError>)
        ensures
            r matches Ok(p) ==> {
                &&& p.0.wf()
                &&& encoded_at(data@, pos as int, p.0.enc())
                &&& pos < p.1 <= data@.len()
                &&& p.1 == pos + p.0.enc().len()
            },
        decreases data@.len() - pos, 2int,
    {
        let dlen = data.len();
        proof {
            reveal(DAAssembleIdDataStruct::wf);
            reveal(DAAssembleIdDataStruct::enc);
        }
        let (hanger, e0) = match read_guid_field(data, pos, "Hanger") {
            Ok(p) => p,
            Err(e) => { return Err(e); },
        };
        let (headset, e1) = match read_guid_field(data, e0, "Headset") {
            Ok(p) => p,
            Err(e) => { return Err(e); },
        };
        let (mobility, e2) = match read_guid_field(data, e1, "Mobility") {
            Ok(p) => p,
            Err(e) => { return Err(e); },
        };
        let (thruster, e3) = match read_guid_field(data, e2, "Thruster") {
            Ok(p) => p,
            Err(e) => { return Err(e); },
        };
        let (utility, e4) = match read_guid_field(data, e3, "Utility") {
            Ok(p) => p,
            Err(e) => { return Err(e); },
        };
        let (primary_front_weapon, e5) = match read_guid_field(data, e4, "PrimaryFrontWeapon") {
            Ok(p) => p,
            Err(e) => { return Err(e); },
        };
        let (secondary_front_weapon, e6) = match read_guid_field(data, e5, "SecondaryFrontWeapon") {
            Ok(p) => p,
            Err(e) => { return Err(e); },
        };
        let (left_rear_weapon, e7) = match read_guid_field(data, e6, "LeftRearWeapon") {
            Ok(p) => p,
            Err(e) => { return Err(e); },
        };
        let (right_rear_weapon, e8) = match read_guid_field(data, e7, "RightRearWeapon") {
            Ok(p) => p,
            Err(e) => { return Err(e); },
        };
        let m9 = match read_field_prelude(data, e8, "ColoringData", "StructProperty") {
            Ok(x) => x,
            Err(e) => { return Err(e); },
        };
        let (sz9, b9) = match read_struct_prelude(data, m9, "DAMachineColoringData") {
            Ok(p) => p,
            Err(e) => { return Err(e); },
        };
        let (coloring_data, e9) = match DAMachineColoringDataStruct::decode(data, b9) {
            Ok(p) => p,
            Err(e) => { return Err(e); },
        };
        if (sz9 as u64) != ((e9 - b9) as u64) {
            return Err(DecodeError::LengthMismatch);
        }
        proof {
            crate::common::lemma_subrange_join(data@, e8 as int, m9 as int, b9 as int);
            crate::common::lemma_subrange_join(data@, e8 as int, b9 as int, e9 as int);
            assert(enc_struct_field("ColoringData"@, "DAMachineColoringData"@, coloring_data.enc())
                == data@.subrange(e8 as int, e9 as int));
        }
        let fin = match read_none_field(data, e9) {
            Ok(x) => x,
            Err(e) => { return Err(e); },
        };
        let v = DAAssembleIdDataStruct { hanger, headset, mobility, thruster, utility, primary_front_weapon, secondary_front_weapon, left_rear_weapon, right_rear_weapon, coloring_data };
        proof {
            crate::common::lemma_subrange_join(data@, pos as int, e0 as int, e1 as int);
            crate::common::lemma_subrange_join(data@, pos as int, e1 as int, e2 as int);
            assert((enc_struct_field("Hanger"@, "Guid"@, hanger.enc()) + enc_struct_field("Headset"@, "Guid"@, headset.enc()) + enc_struct_field("Mobility"@, "Guid"@, mobility.enc()))
                == data@.subrange(pos as int, e2 as int));
            crate::common::lemma_subrange_join(data@, pos as int, e2 as int, e3 as int);
            crate::common::lemma_subrange_join(data@, pos as int, e3 as int, e4 as int);
            crate::common::lemma_subrange_join(data@, pos as int, e4 as int, e5 as int);
            assert((enc_struct_field("Hanger"@, "Guid"@, hanger.enc()) + enc_struct_field("Headset"@, "Guid"@, headset.enc()) + enc_struct_field("Mobility"@, "Guid"@, mobility.enc()) + enc_struct_field("Thruster"@, "Guid"@, thruster.enc()) + enc_struct_field("Utility"@, "Guid"@, utility.enc()) + enc_struct_field("PrimaryFrontWeapon"@, "Guid"@, primary_front_weapon.enc()))
                == data@.subrange(pos as int, e5 as int));
            crate::common::lemma_subrange_join(data@, pos as int, e5 as int, e6 as int);
            crate::common::lemma_subrange_join(data@, pos as int, e6 as int, e7 as int);
            assert((enc_struct_field("Hanger"@, "Guid"@, hanger.enc()) + enc_struct_field("Headset"@, "Guid"@, headset.enc()) + enc_struct_field("Mobility"@, "Guid"@, mobility.enc()) + enc_struct_field("Thruster"@, "Guid"@, thruster.enc()) + enc_struct_field("Utility"@, "Guid"@, utility.enc()) + enc_struct_field("PrimaryFrontWeapon"@, "Guid"@, primary_front_weapon.enc()) + enc_struct_field("SecondaryFrontWeapon"@, "Guid"@, secondary_front_weapon.enc()) + enc_struct_field("LeftRearWeapon"@, "Guid"@, left_rear_weapon.enc()))
                == data@.subrange(pos as int, e7 as int));
            crate::common::lemma_subrange_join(data@, pos as int, e7 as int, e8 as int);
            crate::common::lemma_subrange_join(data@, pos as int, e8 as int, e9 as int);
            crate::common::lemma_subrange_join(data@, pos as int, e9 as int, fin as int);
            assert(v.enc() == data@.subrange(pos as int, fin as int));
        }
        Ok((v, fin))
    }

    /// Appends the wire form of this struct, synthesizing the closing
    /// sentinel.
    #[verifier::rlimit(100)]
    pub fn encode(&self, out: &mut Vec<u8>)
        requires
            self.wf(),
        ensures
            final(out)@ == old(out)@ + self.enc(),
        decreases *self, 2int,
    {
        proof {
            reveal(DAAssembleIdDataStruct::wf);
            reveal(DAAssembleIdDataStruct::enc);
            Self::names_fit();
        }
        let ghost prev_out0: Seq<u8> = out@;
        write_field_prelude(out, "Hanger", "StructProperty");
        let mut tmp0: Vec<u8> = Vec::new();
        self.hanger.encode(&mut tmp0);
        let sz0: u32 = tmp0.len() as u32;
        write_struct_prelude(out, sz0, "Guid");
        crate::common::write_bytes(out, &tmp0);
        proof {
            crate::common::lemma_add_assoc(prev_out0, enc_field_prelude("Hanger"@, "StructProperty"@), enc_struct_prelude(sz0, "Guid"@));
            crate::common::lemma_add_assoc(prev_out0, enc_field_prelude("Hanger"@, "StructProperty"@) + enc_struct_prelude(sz0, "Guid"@), self.hanger.enc());
            assert(out@ == prev_out0 + enc_struct_field("Hanger"@, "Guid"@, self.hanger.enc()));
        }
        let ghost prev_out1: Seq<u8> = out@;
        write_field_prelude(out, "Headset", "StructProperty");
        let mut tmp1: Vec<u8> = Vec::new();
        self.headset.encode(&mut tmp1);
        let sz1: u32 = tmp1.len() as u32;
        write_struct_prelude(out, sz1, "Guid");
        crate::common::write_bytes(out, &tmp1);
        proof {
            crate::common::lemma_add_assoc(prev_out1, enc_field_prelude("Headset"@, "StructProperty"@), enc_struct_prelude(sz1, "Guid"@));
            crate::common::lemma_add_assoc(prev_out1, enc_field_prelude("Headset"@, "StructProperty"@) + enc_struct_prelude(sz1, "Guid"@), self.headset.enc());
            assert(out@ == prev_out1 + enc_struct_field("Headset"@, "Guid"@, self.headset.enc()));
        }
        let ghost prev_out2: Seq<u8> = out@;
        write_field_prelude(out, "Mobility", "StructProperty");
        let mut tmp2: Vec<u8> = Vec::new();
        self.mobility.encode(&mut tmp2);
        let sz2: u32 = tmp2.len() as u32;
        write_struct_prelude(out, sz2, "Guid");
        crate::common::write_bytes(out, &tmp2);
        proof {
            crate::common::lemma_add_assoc(prev_out2, enc_field_prelude("Mobility"@, "StructProperty"@), enc_struct_prelude(sz2, "Guid"@));
            crate::common::lemma_add_assoc(prev_out2, enc_field_prelude("Mobility"@, "StructProperty"@) + enc_struct_prelude(sz2, "Guid"@), self.mobility.enc());
            assert(out@ == prev_out2 + enc_struct_field("Mobility"@, "Guid"@, self.mobility.enc()));
        }
        let ghost prev_out3: Seq<u8> = out@;
        write_field_prelude(out, "Thruster", "StructProperty");
        let mut tmp3: Vec<u8> = Vec::new();
        self.thruster.encode(&mut tmp3);
        let sz3: u32 = tmp3.len() as u32;
        write_struct_prelude(out, sz3, "Guid");
        crate::common::write_bytes(out, &tmp3);
        proof {
            crate::common::lemma_add_assoc(prev_out3, enc_field_prelude("Thruster"@, "StructProperty"@), enc_struct_prelude(sz3, "Guid"@));
            crate::common::lemma_add_assoc(prev_out3, enc_field_prelude("Thruster"@, "StructProperty"@) + enc_struct_prelude(sz3, "Guid"@), self.thruster.enc());
            assert(out@ == prev_out3 + enc_struct_field("Thruster"@, "Guid"@, self.thruster.enc()));
        }
        let ghost prev_out4: Seq<u8> = out@;
        write_field_prelude(out, "Utility", "StructProperty");
        let mut tmp4: Vec<u8> = Vec::new();
        self.utility.encode(&mut tmp4);
        let sz4: u32 = tmp4.len() as u32;
        write_struct_prelude(out, sz4, "Guid");
        crate::common::write_bytes(out, &tmp4);
        proof {
            crate::common::lemma_add_assoc(prev_out4, enc_field_prelude("Utility"@, "StructProperty"@), enc_struct_prelude(sz4, "Guid"@));
            crate::common::lemma_add_assoc(prev_out4, enc_field_prelude("Utility"@, "StructProperty"@) + enc_struct_prelude(sz4, "Guid"@), self.utility.enc());
            assert(out@ == prev_out4 + enc_struct_field("Utility"@, "Guid"@, self.utility.enc()));
        }
        let ghost prev_out5: Seq<u8> = out@;
        write_field_prelude(out, "PrimaryFrontWeapon", "StructProperty");
        let mut tmp5: Vec<u8> = Vec::new();
        self.primary_front_weapon.encode(&mut tmp5);
        let sz5: u32 = tmp5.len() as u32;
        write_struct_prelude(out, sz5, "Guid");
        crate::common::write_bytes(out, &tmp5);
        proof {
            crate::common::lemma_add_assoc(prev_out5, enc_field_prelude("PrimaryFrontWeapon"@, "StructProperty"@), enc_struct_prelude(sz5, "Guid"@));
            crate::common::lemma_add_assoc(prev_out5, enc_field_prelude("PrimaryFrontWeapon"@, "StructProperty"@) + enc_struct_prelude(sz5, "Guid"@), self.primary_front_weapon.enc());
            assert(out@ == prev_out5 + enc_struct_field("PrimaryFrontWeapon"@, "Guid"@, self.primary_front_weapon.enc()));
        }
        let ghost prev_out6: Seq<u8> = out@;
        write_field_prelude(out, "SecondaryFrontWeapon", "StructProperty");
        let mut tmp6: Vec<u8> = Vec::new();
        self.secondary_front_weapon.encode(&mut tmp6);
        let sz6: u32 = tmp6.len() as u32;
        write_struct_prelude(out, sz6, "Guid");
        crate::common::write_bytes(out, &tmp6);
        proof {
            crate::common::lemma_add_assoc(prev_out6, enc_field_prelude("SecondaryFrontWeapon"@, "StructProperty"@), enc_struct_prelude(sz6, "Guid"@));
            crate::common::lemma_add_assoc(prev_out6, enc_field_prelude("SecondaryFrontWeapon"@, "StructProperty"@) + enc_struct_prelude(sz6, "Guid"@), self.secondary_front_weapon.enc());
            assert(out@ == prev_out6 + enc_struct_field("SecondaryFrontWeapon"@, "Guid"@, self.secondary_front_weapon.enc()));
        }
        let ghost prev_out7: Seq<u8> = out@;
        write_field_prelude(out, "LeftRearWeapon", "StructProperty");
        let mut tmp7: Vec<u8> = Vec::new();
        self.left_rear_weapon.encode(&mut tmp7);
        let sz7: u32 = tmp7.len() as u32;
        write_struct_prelude(out, sz7, "Guid");
        crate::common::write_bytes(out, &tmp7);
        proof {
            crate::common::lemma_add_assoc(prev_out7, enc_field_prelude("LeftRearWeapon"@, "StructProperty"@), enc_struct_prelude(sz7, "Guid"@));
            crate::common::lemma_add_assoc(prev_out7, enc_field_prelude("LeftRearWeapon"@, "StructProperty"@) + enc_struct_prelude(sz7, "Guid"@), self.left_rear_weapon.enc());
            assert(out@ == prev_out7 + enc_struct_field("LeftRearWeapon"@, "Guid"@, self.left_rear_weapon.enc()));
        }
        let ghost prev_out8: Seq<u8> = out@;
        write_field_prelude(out, "RightRearWeapon", "StructProperty");
        let mut tmp8: Vec<u8> = Vec::new();
        self.right_rear_weapon.encode(&mut tmp8);
        let sz8: u32 = tmp8.len() as u32;
        write_struct_prelude(out, sz8, "Guid");
        crate::common::write_bytes(out, &tmp8);
        proof {
            crate::common::lemma_add_assoc(prev_out8, enc_field_prelude("RightRearWeapon"@, "StructProperty"@), enc_struct_prelude(sz8, "Guid"@));
            crate::common::lemma_add_assoc(prev_out8, enc_field_prelude("RightRearWeapon"@, "StructProperty"@) + enc_struct_prelude(sz8, "Guid"@), self.right_rear_weapon.enc());
            assert(out@ == prev_out8 + enc_struct_field("RightRearWeapon"@, "Guid"@, self.right_rear_weapon.enc()));
        }
        let ghost prev_out9: Seq<u8> = out@;
        write_field_prelude(out, "ColoringData", "StructProperty");
        let mut tmp9: Vec<u8> = Vec::new();
        self.coloring_data.encode(&mut tmp9);
        let sz9: u32 = tmp9.len() as u32;
        write_struct_prelude(out, sz9, "DAMachineColoringData");
        crate::common::write_bytes(out, &tmp9);
        proof {
            crate::common::lemma_add_assoc(prev_out9, enc_field_prelude("ColoringData"@, "StructProperty"@), enc_struct_prelude(sz9, "DAMachineColoringData"@));
            crate::common::lemma_add_assoc(prev_out9, enc_field_prelude("ColoringData"@, "StructProperty"@) + enc_struct_prelude(sz9, "DAMachineColoringData"@), self.coloring_data.enc());
            assert(out@ == prev_out9 + enc_struct_field("ColoringData"@, "DAMachineColoringData"@, self.coloring_data.enc()));
        }
        write_none_field(out);
        proof {
            crate::common::lemma_add_assoc(old(out)@, enc_struct_field("Hanger"@, "Guid"@, self.hanger.enc()),
                enc_struct_field("Headset"@, "Guid"@, self.headset.enc()));
            crate::common::lemma_add_assoc(old(out)@, enc_struct_field("Hanger"@, "Guid"@, self.hanger.enc()) + enc_struct_field("Headset"@, "Guid"@, self.headset.enc()),
                enc_struct_field("Mobility"@, "Guid"@, self.mobility.enc()));
            crate::common::lemma_add_assoc(old(out)@, enc_struct_field("Hanger"@, "Guid"@, self.hanger.enc()) + enc_struct_field("Headset"@, "Guid"@, self.headset.enc()) + enc_struct_field("Mobility"@, "Guid"@, self.mobility.enc()),
                enc_struct_field("Thruster"@, "Guid"@, self.thruster.enc()));
            crate::common::lemma_add_assoc(old(out)@, enc_struct_field("Hanger"@, "Guid"@, self.hanger.enc()) + enc_struct_field("Headset"@, "Guid"@, self.headset.enc()) + enc_struct_field("Mobility"@, "Guid"@, self.mobility.enc()) + enc_struct_field("Thruster"@, "Guid"@, self.thruster.enc()),
                enc_struct_field("Utility"@, "Guid"@, self.utility.enc()));
            crate::common::lemma_add_assoc(old(out)@, enc_struct_field("Hanger"@, "Guid"@, self.hanger.enc()) + enc_struct_field("Headset"@, "Guid"@, self.headset.enc()) + enc_struct_field("Mobility"@, "Guid"@, self.mobility.enc()) + enc_struct_field("Thruster"@, "Guid"@, self.thruster.enc()) + enc_struct_field("Utility"@, "Guid"@, self.utility.enc()),
                enc_struct_field("PrimaryFrontWeapon"@, "Guid"@, self.primary_front_weapon.enc()));
            crate::common::lemma_add_assoc(old(out)@, enc_struct_field("Hanger"@, "Guid"@, self.hanger.enc()) + enc_struct_field("Headset"@, "Guid"@, self.headset.enc()) + enc_struct_field("Mobility"@, "Guid"@, self.mobility.enc()) + enc_struct_field("Thruster"@, "Guid"@, self.thruster.enc()) + enc_struct_field("Utility"@, "Guid"@, self.utility.enc()) + enc_struct_field("PrimaryFrontWeapon"@, "Guid"@, self.primary_front_weapon.enc()),
                enc_struct_field("SecondaryFrontWeapon"@, "Guid"@, self.secondary_front_weapon.enc()));
            crate::common::lemma_add_assoc(old(out)@, enc_struct_field("Hanger"@, "Guid"@, self.hanger.enc()) + enc_struct_field("Headset"@, "Guid"@, self.headset.enc()) + enc_struct_field("Mobility"@, "Guid"@, self.mobility.enc()) + enc_struct_field("Thruster"@, "Guid"@, self.thruster.enc()) + enc_struct_field("Utility"@, "Guid"@, self.utility.enc()) + enc_struct_field("PrimaryFrontWeapon"@, "Guid"@, self.primary_front_weapon.enc()) + enc_struct_field("SecondaryFrontWeapon"@, "Guid"@, self.secondary_front_weapon.enc()),
                enc_struct_field("LeftRearWeapon"@, "Guid"@, self.left_rear_weapon.enc()));
            crate::common::lemma_add_assoc(old(out)@, enc_struct_field("Hanger"@, "Guid"@, self.hanger.enc()) + enc_struct_field("Headset"@, "Guid"@, self.headset.enc()) + enc_struct_field("Mobility"@, "Guid"@, self.mobility.enc()) + enc_struct_field("Thruster"@, "Guid"@, self.thruster.enc()) + enc_struct_field("Utility"@, "Guid"@, self.utility.enc()) + enc_struct_field("PrimaryFrontWeapon"@, "Guid"@, self.primary_front_weapon.enc()) + enc_struct_field("SecondaryFrontWeapon"@, "Guid"@, self.secondary_front_weapon.enc()) + enc_struct_field("LeftRearWeapon"@, "Guid"@, self.left_rear_weapon.enc()),
                enc_struct_field("RightRearWeapon"@, "Guid"@, self.right_rear_weapon.enc()));
            crate::common::lemma_add_assoc(old(out)@, enc_struct_field("Hanger"@, "Guid"@, self.hanger.enc()) + enc_struct_field("Headset"@, "Guid"@, self.headset.enc()) + enc_struct_field("Mobility"@, "Guid"@, self.mobility.enc()) + enc_struct_field("Thruster"@, "Guid"@, self.thruster.enc()) + enc_struct_field("Utility"@, "Guid"@, self.utility.enc()) + enc_struct_field("PrimaryFrontWeapon"@, "Guid"@, self.primary_front_weapon.enc()) + enc_struct_field("SecondaryFrontWeapon"@, "Guid"@, self.secondary_front_weapon.enc()) + enc_struct_field("LeftRearWeapon"@, "Guid"@, self.left_rear_weapon.enc()) + enc_struct_field("RightRearWeapon"@, "Guid"@, self.right_rear_weapon.enc()),
                enc_struct_field("ColoringData"@, "DAMachineColoringData"@, self.coloring_data.enc()));
            crate::common::lemma_add_assoc(old(out)@, enc_struct_field("Hanger"@, "Guid"@, self.hanger.enc()) + enc_struct_field("Headset"@, "Guid"@, self.headset.enc()) + enc_struct_field("Mobility"@, "Guid"@, self.mobility.enc()) + enc_struct_field("Thruster"@, "Guid"@, self.thruster.enc()) + enc_struct_field("Utility"@, "Guid"@, self.utility.enc()) + enc_struct_field("PrimaryFrontWeapon"@, "Guid"@, self.primary_front_weapon.enc()) + enc_struct_field("SecondaryFrontWeapon"@, "Guid"@, self.secondary_front_weapon.enc()) + enc_struct_field("LeftRearWeapon"@, "Guid"@, self.left_rear_weapon.enc()) + enc_struct_field("RightRearWeapon"@, "Guid"@, self.right_rear_weapon.enc()) + enc_struct_field("ColoringData"@, "DAMachineColoringData"@, self.coloring_data.enc()),
                crate::enc_none());
            assert(out@ == old(out)@ + self.enc());
        }
    }
}

/// The weapon positions bound to the three triggers.
///
/// On the wire this is a fixed field list under the struct name "DATriggerData".
#[derive(Debug)]
pub struct DATriggerDataStruct {
    pub a: EnumProperty,
    pub b: EnumProperty,
    pub c: EnumProperty,
}

impl DATriggerDataStruct {
    #[verifier::opaque]
    pub open spec fn wf(self) -> bool
        decreases self, 5int,
    {
        &&& self.a.wf()
        &&& self.b.wf()
        &&& self.c.wf()
    }

    /// The wire bytes of this struct: its fields in order, each under
    /// its prelude, closed by one "None" sentinel.
    #[verifier::opaque]
    pub open spec fn enc(self) -> Seq<u8>
        decreases self, 5int,
    {
        enc_plain_field("A"@, "EnumProperty"@, self.a.enc())
            + enc_plain_field("B"@, "EnumProperty"@, self.b.enc())
            + enc_plain_field("C"@, "EnumProperty"@, self.c.enc())
            + crate::enc_none()
    }

    pub fn struct_name() -> (r: &'static str)
        ensures
            r@ == "DATriggerData"@,
    {
        "DATriggerData"
    }

    /// The names this struct's encoder writes all fit on the wire.
    proof fn names_fit()
        ensures
            str_fits("None"@),
            str_fits("A"@),
            str_fits("EnumProperty"@),
            str_fits("B"@),
            str_fits("C"@),
    {
        reveal_strlit("None");
        assert(is_ascii_chars("None"@));
        is_ascii_chars_encode_utf8("None"@);
        reveal_strlit("A");
        assert(is_ascii_chars("A"@));
        is_ascii_chars_encode_utf8("A"@);
        reveal_strlit("EnumProperty");
        assert(is_ascii_chars("EnumProperty"@));
        is_ascii_chars_encode_utf8("EnumProperty"@);
        reveal_strlit("B");
        assert(is_ascii_chars("B"@));
        is_ascii_chars_encode_utf8("B"@);
        reveal_strlit("C");
        assert(is_ascii_chars("C"@));
        is_ascii_chars_encode_utf8("C"@);
    }

    /// Decodes this struct's field list at `pos`, checking every field
    /// prelude and the closing sentinel.
    #[verifier::rlimit(100)]
    pub fn decode(data: &Vec<u8>, pos: usize)
        -> (r: Result<(DATriggerDataStruct, usize), DecodeError>)
        ensures
            r matches Ok(p) ==> {
                &&& p.0.wf()
                &&& encoded_at(data@, pos as int, p.0.enc())
                &&& pos < p.1 <= data@.len()
                &&& p.1 == pos + p.0.enc().len()
            },
        decreases data@.len() - pos, 2int,
    {
        let dlen = data.len();
        proof {
            reveal(DATriggerDataStruct::wf);
            reveal(DATriggerDataStruct::enc);
        }
        let m0 = match read_field_prelude(data, pos, "A", "EnumProperty") {
            Ok(x) => x,
            Err(e) => { return Err(e); },
        };
        let (a, e0) = match EnumProperty::decode(data, m0) {
            Ok(p) => p,
            Err(e) => { return Err(e); },
        };
        proof {
            crate::common::lemma_subrange_join(data@, pos as int, m0 as int, e0 as int);
            assert(enc_plain_field("A"@, "EnumProperty"@, a.enc())
                == data@.subrange(pos as int, e0 as int));
        }
        let m1 = match read_field_prelude(data, e0, "B", "EnumProperty") {
            Ok(x) => x,
            Err(e) => { return Err(e); },
        };
        let (b, e1) = match EnumProperty::decode(data, m1) {
            Ok(p) => p,
            Err(e) => { return Err(e); },
        };
        proof {
            crate::common::lemma_subrange_join(data@, e0 as int, m1 as int, e1 as int);
            assert(enc_plain_field("B"@, "EnumProperty"@, b.enc())
                == data@.subrange(e0 as int, e1 as int));
        }
        let m2 = match read_field_prelude(data, e1, "C", "EnumProperty") {
            Ok(x) => x,
            Err(e) => { return Err(e); },
        };
        let (c, e2) = match EnumProperty::decode(data, m2) {
            Ok(p) => p,
            Err(e) => { return Err(e); },
        };
        proof {
            crate::common::lemma_subrange_join(data@, e1 as int, m2 as int, e2 as int);
            assert(enc_plain_field("C"@, "EnumProperty"@, c.enc())
                == data@.subrange(e1 as int, e2 as int));
        }
        let fin = match read_none_field(data, e2) {
            Ok(x) => x,
            Err(e) => { return Err(e); },
        };
        let v = DATriggerDataStruct { a, b, c };
        proof {
            crate::common::lemma_subrange_join(data@, pos as int, e0 as int, e1 as int);
            crate::common::lemma_subrange_join(data@, pos as int, e1 as int, e2 as int);
            crate::common::lemma_subrange_join(data@, pos as int, e2 as int, fin as int);
            assert(v.enc() == data@.subrange(pos as int, fin as int));
        }
        Ok((v, fin))
    }

    /// Appends the wire form of this struct, synthesizing the closing
    /// sentinel.
    #[verifier::rlimit(100)]
    pub fn encode(&self, out: &mut Vec<u8>)
        requires
            self.wf(),
        ensures
            final(out)@ == old(out)@ + self.enc(),
        decreases *self, 2int,
    {
        proof {
            reveal(DATriggerDataStruct::wf);
            reveal(DATriggerDataStruct::enc);
            Self::names_fit();
        }
        let ghost prev_out0: Seq<u8> = out@;
        write_field_prelude(out, "A", "EnumProperty");
        self.a.encode(out);
        proof {
            crate::common::lemma_add_assoc(prev_out0, enc_field_prelude("A"@, "EnumProperty"@), self.a.enc());
            assert(out@ == prev_out0 + enc_plain_field("A"@, "EnumProperty"@, self.a.enc()));
        }
        let ghost prev_out1: Seq<u8> = out@;
        write_field_prelude(out, "B", "EnumProperty");
        self.b.encode(out);
        proof {
            crate::common::lemma_add_assoc(prev_out1, enc_field_prelude("B"@, "EnumProperty"@), self.b.enc());
            assert(out@ == prev_out1 + enc_plain_field("B"@, "EnumProperty"@, self.b.enc()));
        }
        let ghost prev_out2: Seq<u8> = out@;
        write_field_prelude(out, "C", "EnumProperty");
        self.c.encode(out);
        proof {
            crate::common::lemma_add_assoc(prev_out2, enc_field_prelude("C"@, "EnumProperty"@), self.c.enc());
            assert(out@ == prev_out2 + enc_plain_field("C"@, "EnumProperty"@, self.c.enc()));
        }
        write_none_field(out);
        proof {
            crate::common::lemma_add_assoc(old(out)@, enc_plain_field("A"@, "EnumProperty"@, self.a.enc()),
                enc_plain_field("B"@, "EnumProperty"@, self.b.enc()));
            crate::common::lemma_add_assoc(old(out)@, enc_plain_field("A"@, "EnumProperty"@, self.a.enc()) + enc_plain_field("B"@, "EnumProperty"@, self.b.enc()),
                enc_plain_field("C"@, "EnumProperty"@, self.c.enc()));
            crate::common::lemma_add_assoc(old(out)@, enc_plain_field("A"@, "EnumProperty"@, self.a.enc()) + enc_plain_field("B"@, "EnumProperty"@, self.b.enc()) + enc_plain_field("C"@, "EnumProperty"@, self.c.enc()),
                crate::enc_none());
            assert(out@ == old(out)@ + self.enc());
        }
    }
}

/// The customization of a humanoid character.
///
/// On the wire this is a fixed field list under the struct name "DACustomizeAssetIdData".
#[derive(Debug)]
pub struct DACustomizeAssetIdDataStruct {
    pub body: PrimaryAssetIdStruct,
    pub face: PrimaryAssetIdStruct,
    pub front_hair: PrimaryAssetIdStruct,
    pub back_hair: PrimaryAssetIdStruct,
    pub coloring_data: DAHumanoidColoringDataStruct,
    pub figure_data: DAHumanoidFigureData,
    pub inverse_face_mesh: BoolProperty,
    pub inverse_front_hair_mesh: BoolProperty,
    pub inverse_back_hair_mesh: BoolProperty,
}

impl DACustomizeAssetIdDataStruct {
    #[verifier::opaque]
    pub open spec fn wf(self) -> bool
        decreases self, 5int,
    {
        &&& self.body.wf()
        &&& self.body.enc().len() <= u32::MAX
        &&& self.face.wf()
        &&& self.face.enc().len() <= u32::MAX
        &&& self.front_hair.wf()
        &&& self.front_hair.enc().len() <= u32::MAX
        &&& self.back_hair.wf()
        &&& self.back_hair.enc().len() <= u32::MAX
        &&& self.coloring_data.wf()
        &&& self.coloring_data.enc().len() <= u32::MAX
        &&& self.figure_data.wf()
        &&& self.figure_data.enc().len() <= u32::MAX
    }

    /// The wire bytes of this struct: its fields in order, each under
    /// its prelude, closed by one "None" sentinel.
    #[verifier::opaque]
    pub open spec fn enc(self) -> Seq<u8>
        decreases self, 5int,
    {
        enc_struct_field("Body"@, "PrimaryAssetId"@, self.body.enc())
            + enc_struct_field("Face"@, "PrimaryAssetId"@, self.face.enc())
            + enc_struct_field("FrontHair"@, "PrimaryAssetId"@, self.front_hair.enc())
            + enc_struct_field("BackHair"@, "PrimaryAssetId"@, self.back_hair.enc())
            + enc_struct_field("ColoringData"@, "DAHumanoidColoringData"@, self.coloring_data.enc())
            + enc_struct_field("FigureData"@, "DAHumanoidFigureData"@, self.figure_data.enc())
            + enc_plain_field("bInverseFaceMesh"@, "BoolProperty"@, self.inverse_face_mesh.enc())
            + enc_plain_field("bInverseFrontHairMesh"@, "BoolProperty"@, self.inverse_front_hair_mesh.enc())
            + enc_plain_field("bInverseBackHairMesh"@, "BoolProperty"@, self.inverse_back_hair_mesh.enc())
            + crate::enc_none()
    }

    pub fn struct_name() -> (r: &'static str)
        ensures
            r@ == "DACustomizeAssetIdData"@,
    {
        "DACustomizeAssetIdData"
    }

    /// The names this struct's encoder writes all fit on the wire.
    proof fn names_fit()
        ensures
            str_fits("None"@),
            str_fits("Body"@),
            str_fits("StructProperty"@),
            str_fits("PrimaryAssetId"@),
            str_fits("Face"@),
            str_fits("FrontHair"@),
            str_fits("BackHair"@),
            str_fits("ColoringData"@),
            str_fits("DAHumanoidColoringData"@),
            str_fits("FigureData"@),
            str_fits("DAHumanoidFigureData"@),
            str_fits("bInverseFaceMesh"@),
            str_fits("BoolProperty"@),
            str_fits("bInverseFrontHairMesh"@),
            str_fits("bInverseBackHairMesh"@),
    {
        reveal_strlit("None");
        assert(is_ascii_chars("None"@));
        is_ascii_chars_encode_utf8("None"@);
        reveal_strlit("Body");
        assert(is_ascii_chars("Body"@));
        is_ascii_chars_encode_utf8("Body"@);
        reveal_strlit("StructProperty");
        assert(is_ascii_chars("StructProperty"@));
        is_ascii_chars_encode_utf8("StructProperty"@);
        reveal_strlit("PrimaryAssetId");
        assert(is_ascii_chars("PrimaryAssetId"@));
        is_ascii_chars_encode_utf8("PrimaryAssetId"@);
        reveal_strlit("Face");
        assert(is_ascii_chars("Face"@));
        is_ascii_chars_encode_utf8("Face"@);
        reveal_strlit("FrontHair");
        assert(is_ascii_chars("FrontHair"@));
        is_ascii_chars_encode_utf8("FrontHair"@);
        reveal_strlit("BackHair");
        assert(is_ascii_chars("BackHair"@));
        is_ascii_chars_encode_utf8("BackHair"@);
        reveal_strlit("ColoringData");
        assert(is_ascii_chars("ColoringData"@));
        is_ascii_chars_encode_utf8("ColoringData"@);
        reveal_strlit("DAHumanoidColoringData");
        assert(is_ascii_chars("DAHumanoidColoringData"@));
        is_ascii_chars_encode_utf8("DAHumanoidColoringData"@);
        reveal_strlit("FigureData");
        assert(is_ascii_chars("FigureData"@));
        is_ascii_chars_encode_utf8("FigureData"@);
        reveal_strlit("DAHumanoidFigureData");
        assert(is_ascii_chars("DAHumanoidFigureData"@));
        is_ascii_chars_encode_utf8("DAHumanoidFigureData"@);
        reveal_strlit("bInverseFaceMesh");
        assert(is_ascii_chars("bInverseFaceMesh"@));
        is_ascii_chars_encode_utf8("bInverseFaceMesh"@);
        reveal_strlit("BoolProperty");
        assert(is_ascii_chars("BoolProperty"@));
        is_ascii_chars_encode_utf8("BoolProperty"@);
        reveal_strlit("bInverseFrontHairMesh");
        assert(is_ascii_chars("bInverseFrontHairMesh"@));
        is_ascii_chars_encode_utf8("bInverseFrontHairMesh"@);
        reveal_strlit("bInverseBackHairMesh");
        assert(is_ascii_chars("bInverseBackHairMesh"@));
        is_ascii_chars_encode_utf8("bInverseBackHairMesh"@);
    }

    /// Decodes this struct's field list at `pos`, checking every field
    /// prelude and the closing sentinel.
    #[verifier::rlimit(100)]
    pub fn decode(data: &Vec<u8>, pos: usize)
        -> (r: Result<(DACustomizeAssetIdDataStruct, usize), DecodeError>)
        ensures
            r matches Ok(p) ==> {
                &&& p.0.wf()
                &&& encoded_at(data@, pos as int, p.0.enc())
                &&& pos < p.1 <= data@.len()
                &&& p.1 == pos + p.0.enc().len()
            },
        decreases data@.len() - pos, 2int,
    {
        let dlen = data.len();
        proof {
            reveal(DACustomizeAssetIdDataStruct::wf);
            reveal(DACustomizeAssetIdDataStruct::enc);
        }
        let m0 = match read_field_prelude(data, pos, "Body", "StructProperty") {
            Ok(x) => x,
            Err(e) => { return Err(e); },
        };
        let (sz0, b0) = match read_struct_prelude(data, m0, "PrimaryAssetId") {
            Ok(p) => p,
            Err(e) => { return Err(e); },
        };
        let (body, e0) = match PrimaryAssetIdStruct::decode(data, b0) {
            Ok(p) => p,
            Err(e) => { return Err(e); },
        };
        if (sz0 as u64) != ((e0 - b0) as u64) {
            return Err(DecodeError::LengthMismatch);
        }
        proof {
            crate::common::lemma_subrange_join(data@, pos as int, m0 as int, b0 as int);
            crate::common::lemma_subrange_join(data@, pos as int, b0 as int, e0 as int);
            assert(enc_struct_field("Body"@, "PrimaryAssetId"@, body.enc())
                == data@.subrange(pos as int, e0 as int));
        }
        let m1 = match read_field_prelude(data, e0, "Face", "StructProperty") {
            Ok(x) => x,
            Err(e) => { return Err(e); },
        };
        let (sz1, b1) = match read_struct_prelude(data, m1, "PrimaryAssetId") {
            Ok(p) => p,
            Err(e) => { return Err(e); },
        };
        let (face, e1) = match PrimaryAssetIdStruct::decode(data, b1) {
            Ok(p) => p,
            Err(e) => { return Err(e); },
        };
        if (sz1 as u64) != ((e1 - b1) as u64) {
            return Err(DecodeError::LengthMismatch);
        }
        proof {
            crate::common::lemma_subrange_join(data@, e0 as int, m1 as int, b1 as int);
            crate::common::lemma_subrange_join(data@, e0 as int, b1 as int, e1 as int);
            assert(enc_struct_field("Face"@, "PrimaryAssetId"@, face.enc())
                == data@.subrange(e0 as int, e1 as int));
        }
        let m2 = match read_field_prelude(data, e1, "FrontHair", "StructProperty") {
            Ok(x) => x,
            Err(e) => { return Err(e); },
        };
        let (sz2, b2) = match read_struct_prelude(data, m2, "PrimaryAssetId") {
            Ok(p) => p,
            Err(e) => { return Err(e); },
        };
        let (front_hair, e2) = match PrimaryAssetIdStruct::decode(data, b2) {
            Ok(p) => p,
            Err(e) => { return Err(e); },
        };
        if (sz2 as u64) != ((e2 - b2) as u64) {
            return Err(DecodeError::LengthMismatch);
        }
        proof {
            crate::common::lemma_subrange_join(data@, e1 as int, m2 as int, b2 as int);
            crate::common::lemma_subrange_join(data@, e1 as int, b2 as int, e2 as int);
            assert(enc_struct_field("FrontHair"@, "PrimaryAssetId"@, front_hair.enc())
                == data@.subrange(e1 as int, e2 as int));
        }
        let m3 = match read_field_prelude(data, e2, "BackHair", "StructProperty") {
            Ok(x) => x,
            Err(e) => { return Err(e); },
        };
        let (sz3, b3) = match read_struct_prelude(data, m3, "PrimaryAssetId") {
            Ok(p) => p,
            Err(e) => { return Err(e); },
        };
        let (back_hair, e3) = match PrimaryAssetIdStruct::decode(data, b3) {
            Ok(p) => p,
            Err(e) => { return Err(e); },
        };
        if (sz3 as u64) != ((e3 - b3) as u64) {
            return Err(DecodeError::LengthMismatch);
        }
        proof {
            crate::common::lemma_subrange_join(data@, e2 as int, m3 as int, b3 as int);
            crate::common::lemma_subrange_join(data@, e2 as int, b3 as int, e3 as int);
            assert(enc_struct_field("BackHair"@, "PrimaryAssetId"@, back_hair.enc())
                == data@.subrange(e2 as int, e3 as int));
        }
        let m4 = match read_field_prelude(data, e3, "ColoringData", "StructProperty") {
            Ok(x) => x,
            Err(e) => { return Err(e); },
        };
        let (sz4, b4) = match read_struct_prelude(data, m4, "DAHumanoidColoringData") {
            Ok(p) => p,
            Err(e) => { return Err(e); },
        };
        let (coloring_data, e4) = match DAHumanoidColoringDataStruct::decode(data, b4) {
            Ok(p) => p,
            Err(e) => { return Err(e); },
        };
        if (sz4 as u64) != ((e4 - b4) as u64) {
            return Err(DecodeError::LengthMismatch);
        }
        proof {
            crate::common::lemma_subrange_join(data@, e3 as int, m4 as int, b4 as int);
            crate::common::lemma_subrange_join(data@, e3 as int, b4 as int, e4 as int);
            assert(enc_struct_field("ColoringData"@, "DAHumanoidColoringData"@, coloring_data.enc())
                == data@.subrange(e3 as int, e4 as int));
        }
        let m5 = match read_field_prelude(data, e4, "FigureData", "StructProperty") {
            Ok(x) => x,
            Err(e) => { return Err(e); },
        };
        let (sz5, b5) = match read_struct_prelude(data, m5, "DAHumanoidFigureData") {
            Ok(p) => p,
            Err(e) => { return Err(e); },
        };
        let (figure_data, e5) = match DAHumanoidFigureData::decode(data, b5) {
            Ok(p) => p,
            Err(e) => { return Err(e); },
        };
        if (sz5 as u64) != ((e5 - b5) as u64) {
            return Err(DecodeError::LengthMismatch);
        }
        proof {
            crate::common::lemma_subrange_join(data@, e4 as int, m5 as int, b5 as int);
            crate::common::lemma_subrange_join(data@, e4 as int, b5 as int, e5 as int);
            assert(enc_struct_field("FigureData"@, "DAHumanoidFigureData"@, figure_data.enc())
                == data@.subrange(e4 as int, e5 as int));
        }
        let m6 = match read_field_prelude(data, e5, "bInverseFaceMesh", "BoolProperty") {
            Ok(x) => x,
            Err(e) => { return Err(e); },
        };
        let (inverse_face_mesh, e6) = match BoolProperty::decode(data, m6) {
            Ok(p) => p,
            Err(e) => { return Err(e); },
        };
        proof {
            crate::common::lemma_subrange_join(data@, e5 as int, m6 as int, e6 as int);
            assert(enc_plain_field("bInverseFaceMesh"@, "BoolProperty"@, inverse_face_mesh.enc())
                == data@.subrange(e5 as int, e6 as int));
        }
        let m7 = match read_field_prelude(data, e6, "bInverseFrontHairMesh", "BoolProperty") {
            Ok(x) => x,
            Err(e) => { return Err(e); },
        };
        let (inverse_front_hair_mesh, e7) = match BoolProperty::decode(data, m7) {
            Ok(p) => p,
            Err(e) => { return Err(e); },
        };
        proof {
            crate::common::lemma_subrange_join(data@, e6 as int, m7 as int, e7 as int);
            assert(enc_plain_field("bInverseFrontHairMesh"@, "BoolProperty"@, inverse_front_hair_mesh.enc())
                == data@.subrange(e6 as int, e7 as int));
        }
        let m8 = match read_field_prelude(data, e7, "bInverseBackHairMesh", "BoolProperty") {
            Ok(x) => x,
            Err(e) => { return Err(e); },
        };
        let (inverse_back_hair_mesh, e8) = match BoolProperty::decode(data, m8) {
            Ok(p) => p,
            Err(e) => { return Err(e); },
        };
        proof {
            crate::common::lemma_subrange_join(data@, e7 as int, m8 as int, e8 as int);
            assert(enc_plain_field("bInverseBackHairMesh"@, "BoolProperty"@, inverse_back_hair_mesh.enc())
                == data@.subrange(e7 as int, e8 as int));
        }
        let fin = match read_none_field(data, e8) {
            Ok(x) => x,
            Err(e) => { return Err(e); },
        };
        let v = DACustomizeAssetIdDataStruct { body, face, front_hair, back_hair, coloring_data, figure_data, inverse_face_mesh, inverse_front_hair_mesh, inverse_back_hair_mesh };
        proof {
            crate::common::lemma_subrange_join(data@, pos as int, e0 as int, e1 as int);
            crate::common::lemma_subrange_join(data@, pos as int, e1 as int, e2 as int);
            crate::common::lemma_subrange_join(data@, pos as int, e2 as int, e3 as int);
            crate::common::lemma_subrange_join(data@, pos as int, e3 as int, e4 as int);
            crate::common::lemma_subrange_join(data@, pos as int, e4 as int, e5 as int);
            crate::common::lemma_subrange_join(data@, pos as int, e5 as int, e6 as int);
            crate::common::lemma_subrange_join(data@, pos as int, e6 as int, e7 as int);
            crate::common::lemma_subrange_join(data@, pos as int, e7 as int, e8 as int);
            crate::common::lemma_subrange_join(data@, pos as int, e8 as int, fin as int);
            assert(v.enc() == data@.subrange(pos as int, fin as int));
        }
        Ok((v, fin))
    }

    /// Appends the wire form of this struct, synthesizing the closing
    /// sentinel.
    #[verifier::rlimit(100)]
    pub fn encode(&self, out: &mut Vec<u8>)
        requires
            self.wf(),
        ensures
            final(out)@ == old(out)@ + self.enc(),
        decreases *self, 2int,
    {
        proof {
            reveal(DACustomizeAssetIdDataStruct::wf);
            reveal(DACustomizeAssetIdDataStruct::enc);
            Self::names_fit();
        }
        let ghost prev_out0: Seq<u8> = out@;
        write_field_prelude(out, "Body", "StructProperty");
        let mut tmp0: Vec<u8> = Vec::new();
        self.body.encode(&mut tmp0);
        let sz0: u32 = tmp0.len() as u32;
        write_struct_prelude(out, sz0, "PrimaryAssetId");
        crate::common::write_bytes(out, &tmp0);
        proof {
            crate::common::lemma_add_assoc(prev_out0, enc_field_prelude("Body"@, "StructProperty"@), enc_struct_prelude(sz0, "PrimaryAssetId"@));
            crate::common::lemma_add_assoc(prev_out0, enc_field_prelude("Body"@, "StructProperty"@) + enc_struct_prelude(sz0, "PrimaryAssetId"@), self.body.enc());
            assert(out@ == prev_out0 + enc_struct_field("Body"@, "PrimaryAssetId"@, self.body.enc()));
        }
        let ghost prev_out1: Seq<u8> = out@;
        write_field_prelude(out, "Face", "StructProperty");
        let mut tmp1: Vec<u8> = Vec::new();
        self.face.encode(&mut tmp1);
        let sz1: u32 = tmp1.len() as u32;
        write_struct_prelude(out, sz1, "PrimaryAssetId");
        crate::common::write_bytes(out, &tmp1);
        proof {
            crate::common::lemma_add_assoc(prev_out1, enc_field_prelude("Face"@, "StructProperty"@), enc_struct_prelude(sz1, "PrimaryAssetId"@));
            crate::common::lemma_add_assoc(prev_out1, enc_field_prelude("Face"@, "StructProperty"@) + enc_struct_prelude(sz1, "PrimaryAssetId"@), self.face.enc());
            assert(out@ == prev_out1 + enc_struct_field("Face"@, "PrimaryAssetId"@, self.face.enc()));
        }
        let ghost prev_out2: Seq<u8> = out@;
        write_field_prelude(out, "FrontHair", "StructProperty");
        let mut tmp2: Vec<u8> = Vec::new();
        self.front_hair.encode(&mut tmp2);
        let sz2: u32 = tmp2.len() as u32;
        write_struct_prelude(out, sz2, "PrimaryAssetId");
        crate::common::write_bytes(out, &tmp2);
        proof {
            crate::common::lemma_add_assoc(prev_out2, enc_field_prelude("FrontHair"@, "StructProperty"@), enc_struct_prelude(sz2, "PrimaryAssetId"@));
            crate::common::lemma_add_assoc(prev_out2, enc_field_prelude("FrontHair"@, "StructProperty"@) + enc_struct_prelude(sz2, "PrimaryAssetId"@), self.front_hair.enc());
            assert(out@ == prev_out2 + enc_struct_field("FrontHair"@, "PrimaryAssetId"@, self.front_hair.enc()));
        }
        let ghost prev_out3: Seq<u8> = out@;
        write_field_prelude(out, "BackHair", "StructProperty");
        let mut tmp3: Vec<u8> = Vec::new();
        self.back_hair.encode(&mut tmp3);
        let sz3: u32 = tmp3.len() as u32;
        write_struct_prelude(out, sz3, "PrimaryAssetId");
        crate::common::write_bytes(out, &tmp3);
        proof {
            crate::common::lemma_add_assoc(prev_out3, enc_field_prelude("BackHair"@, "StructProperty"@), enc_struct_prelude(sz3, "PrimaryAssetId"@));
            crate::common::lemma_add_assoc(prev_out3, enc_field_prelude("BackHair"@, "StructProperty"@) + enc_struct_prelude(sz3, "PrimaryAssetId"@), self.back_hair.enc());
            assert(out@ == prev_out3 + enc_struct_field("BackHair"@, "PrimaryAssetId"@, self.back_hair.enc()));
        }
        let ghost prev_out4: Seq<u8> = out@;
        write_field_prelude(out, "ColoringData", "StructProperty");
        let mut tmp4: Vec<u8> = Vec::new();
        self.coloring_data.encode(&mut tmp4);
        let sz4: u32 = tmp4.len() as u32;
        write_struct_prelude(out, sz4, "DAHumanoidColoringData");
        crate::common::write_bytes(out, &tmp4);
        proof {
            crate::common::lemma_add_assoc(prev_out4, enc_field_prelude("ColoringData"@, "StructProperty"@), enc_struct_prelude(sz4, "DAHumanoidColoringData"@));
            crate::common::lemma_add_assoc(prev_out4, enc_field_prelude("ColoringData"@, "StructProperty"@) + enc_struct_prelude(sz4, "DAHumanoidColoringData"@), self.coloring_data.enc());
            assert(out@ == prev_out4 + enc_struct_field("ColoringData"@, "DAHumanoidColoringData"@, self.coloring_data.enc()));
        }
        let ghost prev_out5: Seq<u8> = out@;
        write_field_prelude(out, "FigureData", "StructProperty");
        let mut tmp5: Vec<u8> = Vec::new();
        self.figure_data.encode(&mut tmp5);
        let sz5: u32 = tmp5.len() as u32;
        write_struct_prelude(out, sz5, "DAHumanoidFigureData");
        crate::common::write_bytes(out, &tmp5);
        proof {
            crate::common::lemma_add_assoc(prev_out5, enc_field_prelude("FigureData"@, "StructProperty"@), enc_struct_prelude(sz5, "DAHumanoidFigureData"@));
            crate::common::lemma_add_assoc(prev_out5, enc_field_prelude("FigureData"@, "StructProperty"@) + enc_struct_prelude(sz5, "DAHumanoidFigureData"@), self.figure_data.enc());
            assert(out@ == prev_out5 + enc_struct_field("FigureData"@, "DAHumanoidFigureData"@, self.figure_data.enc()));
        }
        let ghost prev_out6: Seq<u8> = out@;
        write_field_prelude(out, "bInverseFaceMesh", "BoolProperty");
        self.inverse_face_mesh.encode(out);
        proof {
            crate::common::lemma_add_assoc(prev_out6, enc_field_prelude("bInverseFaceMesh"@, "BoolProperty"@), self.inverse_face_mesh.enc());
            assert(out@ == prev_out6 + enc_plain_field("bInverseFaceMesh"@, "BoolProperty"@, self.inverse_face_mesh.enc()));
        }
        let ghost prev_out7: Seq<u8> = out@;
        write_field_prelude(out, "bInverseFrontHairMesh", "BoolProperty");
        self.inverse_front_hair_mesh.encode(out);
        proof {
            crate::common::lemma_add_assoc(prev_out7, enc_field_prelude("bInverseFrontHairMesh"@, "BoolProperty"@), self.inverse_front_hair_mesh.enc());
            assert(out@ == prev_out7 + enc_plain_field("bInverseFrontHairMesh"@, "BoolProperty"@, self.inverse_front_hair_mesh.enc()));
        }
        let ghost prev_out8: Seq<u8> = out@;
        write_field_prelude(out, "bInverseBackHairMesh", "BoolProperty");
        self.inverse_back_hair_mesh.encode(out);
        proof {
            crate::common::lemma_add_assoc(prev_out8, enc_field_prelude("bInverseBackHairMesh"@, "BoolProperty"@), self.inverse_back_hair_mesh.enc());
            assert(out@ == prev_out8 + enc_plain_field("bInverseBackHairMesh"@, "BoolProperty"@, self.inverse_back_hair_mesh.enc()));
        }
        write_none_field(out);
        proof {
            crate::common::lemma_add_assoc(old(out)@, enc_struct_field("Body"@, "PrimaryAssetId"@, self.body.enc()),
                enc_struct_field("Face"@, "PrimaryAssetId"@, self.face.enc()));
            crate::common::lemma_add_assoc(old(out)@, enc_struct_field("Body"@, "PrimaryAssetId"@, self.body.enc()) + enc_struct_field("Face"@, "PrimaryAssetId"@, self.face.enc()),
                enc_struct_field("FrontHair"@, "PrimaryAssetId"@, self.front_hair.enc()));
            crate::common::lemma_add_assoc(old(out)@, enc_struct_field("Body"@, "PrimaryAssetId"@, self.body.enc()) + enc_struct_field("Face"@, "PrimaryAssetId"@, self.face.enc()) + enc_struct_field("FrontHair"@, "PrimaryAssetId"@, self.front_hair.enc()),
                enc_struct_field("BackHair"@, "PrimaryAssetId"@, self.back_hair.enc()));
            crate::common::lemma_add_assoc(old(out)@, enc_struct_field("Body"@, "PrimaryAssetId"@, self.body.enc()) + enc_struct_field("Face"@, "PrimaryAssetId"@, self.face.enc()) + enc_struct_field("FrontHair"@, "PrimaryAssetId"@, self.front_hair.enc()) + enc_struct_field("BackHair"@, "PrimaryAssetId"@, self.back_hair.enc()),
                enc_struct_field("ColoringData"@, "DAHumanoidColoringData"@, self.coloring_data.enc()));
            crate::common::lemma_add_assoc(old(out)@, enc_struct_field("Body"@, "PrimaryAssetId"@, self.body.enc()) + enc_struct_field("Face"@, "PrimaryAssetId"@, self.face.enc()) + enc_struct_field("FrontHair"@, "PrimaryAssetId"@, self.front_hair.enc()) + enc_struct_field("BackHair"@, "PrimaryAssetId"@, self.back_hair.enc()) + enc_struct_field("ColoringData"@, "DAHumanoidColoringData"@, self.coloring_data.enc()),
                enc_struct_field("FigureData"@, "DAHumanoidFigureData"@, self.figure_data.enc()));
            crate::common::lemma_add_assoc(old(out)@, enc_struct_field("Body"@, "PrimaryAssetId"@, self.body.enc()) + enc_struct_field("Face"@, "PrimaryAssetId"@, self.face.enc()) + enc_struct_field("FrontHair"@, "PrimaryAssetId"@, self.front_hair.enc()) + enc_struct_field("BackHair"@, "PrimaryAssetId"@, self.back_hair.enc()) + enc_struct_field("ColoringData"@, "DAHumanoidColoringData"@, self.coloring_data.enc()) + enc_struct_field("FigureData"@, "DAHumanoidFigureData"@, self.figure_data.enc()),
                enc_plain_field("bInverseFaceMesh"@, "BoolProperty"@, self.inverse_face_mesh.enc()));
            crate::common::lemma_add_assoc(old(out)@, enc_struct_field("Body"@, "PrimaryAssetId"@, self.body.enc()) + enc_struct_field("Face"@, "PrimaryAssetId"@, self.face.enc()) + enc_struct_field("FrontHair"@, "PrimaryAssetId"@, self.front_hair.enc()) + enc_struct_field("BackHair"@, "PrimaryAssetId"@, self.back_hair.enc()) + enc_struct_field("ColoringData"@, "DAHumanoidColoringData"@, self.coloring_data.enc()) + enc_struct_field("FigureData"@, "DAHumanoidFigureData"@, self.figure_data.enc()) + enc_plain_field("bInverseFaceMesh"@, "BoolProperty"@, self.inverse_face_mesh.enc()),
                enc_plain_field("bInverseFrontHairMesh"@, "BoolProperty"@, self.inverse_front_hair_mesh.enc()));
            crate::common::lemma_add_assoc(old(out)@, enc_struct_field("Body"@, "PrimaryAssetId"@, self.body.enc()) + enc_struct_field("Face"@, "PrimaryAssetId"@, self.face.enc()) + enc_struct_field("FrontHair"@, "PrimaryAssetId"@, self.front_hair.enc()) + enc_struct_field("BackHair"@, "PrimaryAssetId"@, self.back_hair.enc()) + enc_struct_field("ColoringData"@, "DAHumanoidColoringData"@, self.coloring_data.enc()) + enc_struct_field("FigureData"@, "DAHumanoidFigureData"@, self.figure_data.enc()) + enc_plain_field("bInverseFaceMesh"@, "BoolProperty"@, self.inverse_face_mesh.enc()) + enc_plain_field("bInverseFrontHairMesh"@, "BoolProperty"@, self.inverse_front_hair_mesh.enc()),
                enc_plain_field("bInverseBackHairMesh"@, "BoolProperty"@, self.inverse_back_hair_mesh.enc()));
            crate::common::lemma_add_assoc(old(out)@, enc_struct_field("Body"@, "PrimaryAssetId"@, self.body.enc()) + enc_struct_field("Face"@, "PrimaryAssetId"@, self.face.enc()) + enc_struct_field("FrontHair"@, "PrimaryAssetId"@, self.front_hair.enc()) + enc_struct_field("BackHair"@, "PrimaryAssetId"@, self.back_hair.enc()) + enc_struct_field("ColoringData"@, "DAHumanoidColoringData"@, self.coloring_data.enc()) + enc_struct_field("FigureData"@, "DAHumanoidFigureData"@, self.figure_data.enc()) + enc_plain_field("bInverseFaceMesh"@, "BoolProperty"@, self.inverse_face_mesh.enc()) + enc_plain_field("bInverseFrontHairMesh"@, "BoolProperty"@, self.inverse_front_hair_mesh.enc()) + enc_plain_field("bInverseBackHairMesh"@, "BoolProperty"@, self.inverse_back_hair_mesh.enc()),
                crate::enc_none());
            assert(out@ == old(out)@ + self.enc());
        }
    }
}

/// The tuning points granted per machine.
///
/// On the wire this is a fixed field list under the struct name "DATuningData".
#[derive(Debug)]
pub struct DATuningDataStruct {
    pub granted_tuning_point_list: MapProperty,
}

impl DATuningDataStruct {
    #[verifier::opaque]
    pub open spec fn wf(self) -> bool
        decreases self, 5int,
    {
        self.granted_tuning_point_list.wf()
    }

    /// The wire bytes of this struct: its fields in order, each under
    /// its prelude, closed by one "None" sentinel.
    #[verifier::opaque]
    pub open spec fn enc(self) -> Seq<u8>
        decreases self, 5int,
    {
        enc_plain_field("GrantedTuningPointList"@, "MapProperty"@, self.granted_tuning_point_list.enc())
            + crate::enc_none()
    }

    pub fn struct_name() -> (r: &'static str)
        ensures
            r@ == "DATuningData"@,
    {
        "DATuningData"
    }

    /// The names this struct's encoder writes all fit on the wire.
    proof fn names_fit()
        ensures
            str_fits("None"@),
            str_fits("GrantedTuningPointList"@),
            str_fits("MapProperty"@),
    {
        reveal_strlit("None");
        assert(is_ascii_chars("None"@));
        is_ascii_chars_encode_utf8("None"@);
        reveal_strlit("GrantedTuningPointList");
        assert(is_ascii_chars("GrantedTuningPointList"@));
        is_ascii_chars_encode_utf8("GrantedTuningPointList"@);
        reveal_strlit("MapProperty");
        assert(is_ascii_chars("MapProperty"@));
        is_ascii_chars_encode_utf8("MapProperty"@);
    }

    /// Decodes this struct's field list at `pos`, checking every field
    /// prelude and the closing sentinel.
    #[verifier::rlimit(100)]
    pub fn decode(data: &Vec<u8>, pos: usize)
        -> (r: Result<(DATuningDataStruct, usize), DecodeError>)
        ensures
            r matches Ok(p) ==> {
                &&& p.0.wf()
                &&& encoded_at(data@, pos as int, p.0.enc())
                &&& pos < p.1 <= data@.len()
                &&& p.1 == pos + p.0.enc().len()
            },
        decreases data@.len() - pos, 2int,
    {
        let dlen = data.len();
        proof {
            reveal(DATuningDataStruct::wf);
            reveal(DATuningDataStruct::enc);
        }
        let m0 = match read_field_prelude(data, pos, "GrantedTuningPointList", "MapProperty") {
            Ok(x) => x,
            Err(e) => { return Err(e); },
        };
        let (granted_tuning_point_list, e0) = match MapProperty::decode(data, m0) {
            Ok(p) => p,
            Err(e) => { return Err(e); },
        };
        proof {
            crate::common::lemma_subrange_join(data@, pos as int, m0 as int, e0 as int);
            assert(enc_plain_field("GrantedTuningPointList"@, "MapProperty"@, granted_tuning_point_list.enc())
                == data@.subrange(pos as int, e0 as int));
        }
        let fin = match read_none_field(data, e0) {
            Ok(x) => x,
            Err(e) => { return Err(e); },
        };
        let v = DATuningDataStruct { granted_tuning_point_list };
        proof {
            crate::common::lemma_subrange_join(data@, pos as int, e0 as int, fin as int);
            assert(v.enc() == data@.subrange(pos as int, fin as int));
        }
        Ok((v, fin))
    }

    /// Appends the wire form of this struct, synthesizing the closing
    /// sentinel.
    #[verifier::rlimit(100)]
    pub fn encode(&self, out: &mut Vec<u8>)
        requires
            self.wf(),
        ensures
            final(out)@ == old(out)@ + self.enc(),
        decreases *self, 2int,
    {
        proof {
            reveal(DATuningDataStruct::wf);
            reveal(DATuningDataStruct::enc);
            Self::names_fit();
        }
        let ghost prev_out0: Seq<u8> = out@;
        write_field_prelude(out, "GrantedTuningPointList", "MapProperty");
        self.granted_tuning_point_list.encode(out);
        proof {
            crate::common::lemma_add_assoc(prev_out0, enc_field_prelude("GrantedTuningPointList"@, "MapProperty"@), self.granted_tuning_point_list.enc());
            assert(out@ == prev_out0 + enc_plain_field("GrantedTuningPointList"@, "MapProperty"@, self.granted_tuning_point_list.enc()));
        }
        write_none_field(out);
        proof {
            crate::common::lemma_add_assoc(old(out)@, enc_plain_field("GrantedTuningPointList"@, "MapProperty"@, self.granted_tuning_point_list.enc()),
                crate::enc_none());
            assert(out@ == old(out)@ + self.enc());
        }
    }
}

/// A transform: rotation, translation and scale.
///
/// On the wire this is a fixed field list under the struct name "Transform".
#[derive(Debug)]
pub struct TransformStruct {
    pub rotation: QuatStruct,
    pub translation: VectorStruct,
    pub scale: VectorStruct,
}

impl TransformStruct {
    #[verifier::opaque]
    pub open spec fn wf(self) -> bool
        decreases self, 5int,
    {
        &&& self.rotation.enc().len() <= u32::MAX
        &&& self.translation.enc().len() <= u32::MAX
        &&& self.scale.enc().len() <= u32::MAX
    }

    /// The wire bytes of this struct: its fields in order, each under
    /// its prelude, closed by one "None" sentinel.
    #[verifier::opaque]
    pub open spec fn enc(self) -> Seq<u8>
        decreases self, 5int,
    {
        enc_struct_field("Rotation"@, "Quat"@, self.rotation.enc())
            + enc_struct_field("Translation"@, "Vector"@, self.translation.enc())
            + enc_struct_field("Scale3D"@, "Vector"@, self.scale.enc())
            + crate::enc_none()
    }

    pub fn struct_name() -> (r: &'static str)
        ensures
            r@ == "Transform"@,
    {
        "Transform"
    }

    /// The names this struct's encoder writes all fit on the wire.
    proof fn names_fit()
        ensures
            str_fits("None"@),
            str_fits("Rotation"@),
            str_fits("StructProperty"@),
            str_fits("Quat"@),
            str_fits("Translation"@),
            str_fits("Vector"@),
            str_fits("Scale3D"@),
    {
        reveal_strlit("None");
        assert(is_ascii_chars("None"@));
        is_ascii_chars_encode_utf8("None"@);
        reveal_strlit("Rotation");
        assert(is_ascii_chars("Rotation"@));
        is_ascii_chars_encode_utf8("Rotation"@);
        reveal_strlit("StructProperty");
        assert(is_ascii_chars("StructProperty"@));
        is_ascii_chars_encode_utf8("StructProperty"@);
        reveal_strlit("Quat");
        assert(is_ascii_chars("Quat"@));
        is_ascii_chars_encode_utf8("Quat"@);
        reveal_strlit("Translation");
        assert(is_ascii_chars("Translation"@));
        is_ascii_chars_encode_utf8("Translation"@);
        reveal_strlit("Vector");
        assert(is_ascii_chars("Vector"@));
        is_ascii_chars_encode_utf8("Vector"@);
        reveal_strlit("Scale3D");
        assert(is_ascii_chars("Scale3D"@));
        is_ascii_chars_encode_utf8("Scale3D"@);
    }

    /// Decodes this struct's field list at `pos`, checking every field
    /// prelude and the closing sentinel.
    #[verifier::rlimit(100)]
    pub fn decode(data: &Vec<u8>, pos: usize)
        -> (r: Result<(TransformStruct, usize), DecodeError>)
        ensures
            r matches Ok(p) ==> {
                &&& p.0.wf()
                &&& encoded_at(data@, pos as int, p.0.enc())
                &&& pos < p.1 <= data@.len()
                &&& p.1 == pos + p.0.enc().len()
            },
        decreases data@.len() - pos, 2int,
    {
        let dlen = data.len();
        proof {
            reveal(TransformStruct::wf);
            reveal(TransformStruct::enc);
        }
        let m0 = match read_field_prelude(data, pos, "Rotation", "StructProperty") {
            Ok(x) => x,
            Err(e) => { return Err(e); },
        };
        let (sz0, b0) = match read_struct_prelude(data, m0, "Quat") {
            Ok(p) => p,
            Err(e) => { return Err(e); },
        };
        let (rotation, e0) = match QuatStruct::decode(data, b0) {
            Ok(p) => p,
            Err(e) => { return Err(e); },
        };
        if (sz0 as u64) != ((e0 - b0) as u64) {
            return Err(DecodeError::LengthMismatch);
        }
        proof {
            crate::common::lemma_subrange_join(data@, pos as int, m0 as int, b0 as int);
            crate::common::lemma_subrange_join(data@, pos as int, b0 as int, e0 as int);
            assert(enc_struct_field("Rotation"@, "Quat"@, rotation.enc())
                == data@.subrange(pos as int, e0 as int));
        }
        let m1 = match read_field_prelude(data, e0, "Translation", "StructProperty") {
            Ok(x) => x,
            Err(e) => { return Err(e); },
        };
        let (sz1, b1) = match read_struct_prelude(data, m1, "Vector") {
            Ok(p) => p,
            Err(e) => { return Err(e); },
        };
        let (translation, e1) = match VectorStruct::decode(data, b1) {
            Ok(p) => p,
            Err(e) => { return Err(e); },
        };
        if (sz1 as u64) != ((e1 - b1) as u64) {
            return Err(DecodeError::LengthMismatch);
        }
        proof {
            crate::common::lemma_subrange_join(data@, e0 as int, m1 as int, b1 as int);
            crate::common::lemma_subrange_join(data@, e0 as int, b1 as int, e1 as int);
            assert(enc_struct_field("Translation"@, "Vector"@, translation.enc())
                == data@.subrange(e0 as int, e1 as int));
        }
        let m2 = match read_field_prelude(data, e1, "Scale3D", "StructProperty") {
            Ok(x) => x,
            Err(e) => { return Err(e); },
        };
        let (sz2, b2) = match read_struct_prelude(data, m2, "Vector") {
            Ok(p) => p,
            Err(e) => { return Err(e); },
        };
        let (scale, e2) = match VectorStruct::decode(data, b2) {
            Ok(p) => p,
            Err(e) => { return Err(e); },
        };
        if (sz2 as u64) != ((e2 - b2) as u64) {
            return Err(DecodeError::LengthMismatch);
        }
        proof {
            crate::common::lemma_subrange_join(data@, e1 as int, m2 as int, b2 as int);
            crate::common::lemma_subrange_join(data@, e1 as int, b2 as int, e2 as int);
            assert(enc_struct_field("Scale3D"@, "Vector"@, scale.enc())
                == data@.subrange(e1 as int, e2 as int));
        }
        let fin = match read_none_field(data, e2) {
            Ok(x) => x,
            Err(e) => { return Err(e); },
        };
        let v = TransformStruct { rotation, translation, scale };
        proof {
            crate::common::lemma_subrange_join(data@, pos as int, e0 as int, e1 as int);
            crate::common::lemma_subrange_join(data@, pos as int, e1 as int, e2 as int);
            crate::common::lemma_subrange_join(data@, pos as int, e2 as int, fin as int);
            assert(v.enc() == data@.subrange(pos as int, fin as int));
        }
        Ok((v, fin))
    }

    /// Appends the wire form of this struct, synthesizing the closing
    /// sentinel.
    #[verifier::rlimit(100)]
    pub fn encode(&self, out: &mut Vec<u8>)
        requires
            self.wf(),
        ensures
            final(out)@ == old(out)@ + self.enc(),
        decreases *self, 2int,
    {
        proof {
            reveal(TransformStruct::wf);
            reveal(TransformStruct::enc);
            Self::names_fit();
        }
        let ghost prev_out0: Seq<u8> = out@;
        write_field_prelude(out, "Rotation", "StructProperty");
        let mut tmp0: Vec<u8> = Vec::new();
        self.rotation.encode(&mut tmp0);
        let sz0: u32 = tmp0.len() as u32;
        write_struct_prelude(out, sz0, "Quat");
        crate::common::write_bytes(out, &tmp0);
        proof {
            crate::common::lemma_add_assoc(prev_out0, enc_field_prelude("Rotation"@, "StructProperty"@), enc_struct_prelude(sz0, "Quat"@));
            crate::common::lemma_add_assoc(prev_out0, enc_field_prelude("Rotation"@, "StructProperty"@) + enc_struct_prelude(sz0, "Quat"@), self.rotation.enc());
            assert(out@ == prev_out0 + enc_struct_field("Rotation"@, "Quat"@, self.rotation.enc()));
        }
        let ghost prev_out1: Seq<u8> = out@;
        write_field_prelude(out, "Translation", "StructProperty");
        let mut tmp1: Vec<u8> = Vec::new();
        self.translation.encode(&mut tmp1);
        let sz1: u32 = tmp1.len() as u32;
        write_struct_prelude(out, sz1, "Vector");
        crate::common::write_bytes(out, &tmp1);
        proof {
            crate::common::lemma_add_assoc(prev_out1, enc_field_prelude("Translation"@, "StructProperty"@), enc_struct_prelude(sz1, "Vector"@));
            crate::common::lemma_add_assoc(prev_out1, enc_field_prelude("Translation"@, "StructProperty"@) + enc_struct_prelude(sz1, "Vector"@), self.translation.enc());
            assert(out@ == prev_out1 + enc_struct_field("Translation"@, "Vector"@, self.translation.enc()));
        }
        let ghost prev_out2: Seq<u8> = out@;
        write_field_prelude(out, "Scale3D", "StructProperty");
        let mut tmp2: Vec<u8> = Vec::new();
        self.scale.encode(&mut tmp2);
        let sz2: u32 = tmp2.len() as u32;
        write_struct_prelude(out, sz2, "Vector");
        crate::common::write_bytes(out, &tmp2);
        proof {
            crate::common::lemma_add_assoc(prev_out2, enc_field_prelude("Scale3D"@, "StructProperty"@), enc_struct_prelude(sz2, "Vector"@));
            crate::common::lemma_add_assoc(prev_out2, enc_field_prelude("Scale3D"@, "StructProperty"@) + enc_struct_prelude(sz2, "Vector"@), self.scale.enc());
            assert(out@ == prev_out2 + enc_struct_field("Scale3D"@, "Vector"@, self.scale.enc()));
        }
        write_none_field(out);
        proof {
            crate::common::lemma_add_assoc(old(out)@, enc_struct_field("Rotation"@, "Quat"@, self.rotation.enc()),
                enc_struct_field("Translation"@, "Vector"@, self.translation.enc()));
            crate::common::lemma_add_assoc(old(out)@, enc_struct_field("Rotation"@, "Quat"@, self.rotation.enc()) + enc_struct_field("Translation"@, "Vector"@, self.translation.enc()),
                enc_struct_field("Scale3D"@, "Vector"@, self.scale.enc()));
            crate::common::lemma_add_assoc(old(out)@, enc_struct_field("Rotation"@, "Quat"@, self.rotation.enc()) + enc_struct_field("Translation"@, "Vector"@, self.translation.enc()) + enc_struct_field("Scale3D"@, "Vector"@, self.scale.enc()),
                crate::enc_none());
            assert(out@ == old(out)@ + self.enc());
        }
    }
}

/// What a save slot shows in the menu: its name, timestamp, level and players.
///
/// On the wire this is a fixed field list under the struct name "SaveSlotInfo".
#[derive(Debug)]
pub struct SaveSlotInfoStruct {
    pub name: StrProperty,
    pub timestamp: DateTimeStruct,
    pub level: NameProperty,
    pub players: ArrayProperty,
}

impl SaveSlotInfoStruct {
    #[verifier::opaque]
    pub open spec fn wf(self) -> bool
        decreases self, 5int,
    {
        &&& self.name.wf()
        &&& self.timestamp.enc().len() <= u32::MAX
        &&& self.level.wf()
        &&& self.players.wf()
    }

    /// The wire bytes of this struct: its fields in order, each under
    /// its prelude, closed by one "None" sentinel.
    #[verifier::opaque]
    pub open spec fn enc(self) -> Seq<u8>
        decreases self, 5int,
    {
        enc_plain_field("Name"@, "StrProperty"@, self.name.enc())
            + enc_struct_field("Timestamp"@, "DateTime"@, self.timestamp.enc())
            + enc_plain_field("Level"@, "NameProperty"@, self.level.enc())
            + enc_plain_field("Players"@, "ArrayProperty"@, self.players.enc())
            + crate::enc_none()
    }

    pub fn struct_name() -> (r: &'static str)
        ensures
            r@ == "SaveSlotInfo"@,
    {
        "SaveSlotInfo"
    }

    /// The names this struct's encoder writes all fit on the wire.
    proof fn names_fit()
        ensures
            str_fits("None"@),
            str_fits("Name"@),
            str_fits("StrProperty"@),
            str_fits("Timestamp"@),
            str_fits("StructProperty"@),
            str_fits("DateTime"@),
            str_fits("Level"@),
            str_fits("NameProperty"@),
            str_fits("Players"@),
            str_fits("ArrayProperty"@),
    {
        reveal_strlit("None");
        assert(is_ascii_chars("None"@));
        is_ascii_chars_encode_utf8("None"@);
        reveal_strlit("Name");
        assert(is_ascii_chars("Name"@));
        is_ascii_chars_encode_utf8("Name"@);
        reveal_strlit("StrProperty");
        assert(is_ascii_chars("StrProperty"@));
        is_ascii_chars_encode_utf8("StrProperty"@);
        reveal_strlit("Timestamp");
        assert(is_ascii_chars("Timestamp"@));
        is_ascii_chars_encode_utf8("Timestamp"@);
        reveal_strlit("StructProperty");
        assert(is_ascii_chars("StructProperty"@));
        is_ascii_chars_encode_utf8("StructProperty"@);
        reveal_strlit("DateTime");
        assert(is_ascii_chars("DateTime"@));
        is_ascii_chars_encode_utf8("DateTime"@);
        reveal_strlit("Level");
        assert(is_ascii_chars("Level"@));
        is_ascii_chars_encode_utf8("Level"@);
        reveal_strlit("NameProperty");
        assert(is_ascii_chars("NameProperty"@));
        is_ascii_chars_encode_utf8("NameProperty"@);
        reveal_strlit("Players");
        assert(is_ascii_chars("Players"@));
        is_ascii_chars_encode_utf8("Players"@);
        reveal_strlit("ArrayProperty");
        assert(is_ascii_chars("ArrayProperty"@));
        is_ascii_chars_encode_utf8("ArrayProperty"@);
    }

    /// Decodes this struct's field list at `pos`, checking every field
    /// prelude and the closing sentinel.
    #[verifier::rlimit(100)]
    pub fn decode(data: &Vec<u8>, pos: usize)
        -> (r: Result<(SaveSlotInfoStruct, usize), DecodeError>)
        ensures
            r matches Ok(p) ==> {
                &&& p.0.wf()
                &&& encoded_at(data@, pos as int, p.0.enc())
                &&& pos < p.1 <= data@.len()
                &&& p.1 == pos + p.0.enc().len()
            },
        decreases data@.len() - pos, 2int,
    {
        let dlen = data.len();
        proof {
            reveal(SaveSlotInfoStruct::wf);
            reveal(SaveSlotInfoStruct::enc);
        }
        let m0 = match read_field_prelude(data, pos, "Name", "StrProperty") {
            Ok(x) => x,
            Err(e) => { return Err(e); },
        };
        let (name, e0) = match StrProperty::decode(data, m0) {
            Ok(p) => p,
            Err(e) => { return Err(e); },
        };
        proof {
            crate::common::lemma_subrange_join(data@, pos as int, m0 as int, e0 as int);
            assert(enc_plain_field("Name"@, "StrProperty"@, name.enc())
                == data@.subrange(pos as int, e0 as int));
        }
        let m1 = match read_field_prelude(data, e0, "Timestamp", "StructProperty") {
            Ok(x) => x,
            Err(e) => { return Err(e); },
        };
        let (sz1, b1) = match read_struct_prelude(data, m1, "DateTime") {
            Ok(p) => p,
            Err(e) => { return Err(e); },
        };
        let (timestamp, e1) = match DateTimeStruct::decode(data, b1) {
            Ok(p) => p,
            Err(e) => { return Err(e); },
        };
        if (sz1 as u64) != ((e1 - b1) as u64) {
            return Err(DecodeError::LengthMismatch);
        }
        proof {
            crate::common::lemma_subrange_join(data@, e0 as int, m1 as int, b1 as int);
            crate::common::lemma_subrange_join(data@, e0 as int, b1 as int, e1 as int);
            assert(enc_struct_field("Timestamp"@, "DateTime"@, timestamp.enc())
                == data@.subrange(e0 as int, e1 as int));
        }
        let m2 = match read_field_prelude(data, e1, "Level", "NameProperty") {
            Ok(x) => x,
            Err(e) => { return Err(e); },
        };
        let (level, e2) = match NameProperty::decode(data, m2) {
            Ok(p) => p,
            Err(e) => { return Err(e); },
        };
        proof {
            crate::common::lemma_subrange_join(data@, e1 as int, m2 as int, e2 as int);
            assert(enc_plain_field("Level"@, "NameProperty"@, level.enc())
                == data@.subrange(e1 as int, e2 as int));
        }
        let m3 = match read_field_prelude(data, e2, "Players", "ArrayProperty") {
            Ok(x) => x,
            Err(e) => { return Err(e); },
        };
        let (players, e3) = match ArrayProperty::decode(data, m3) {
            Ok(p) => p,
            Err(e) => { return Err(e); },
        };
        proof {
            crate::common::lemma_subrange_join(data@, e2 as int, m3 as int, e3 as int);
            assert(enc_plain_field("Players"@, "ArrayProperty"@, players.enc())
                == data@.subrange(e2 as int, e3 as int));
        }
        let fin = match read_none_field(data, e3) {
            Ok(x) => x,
            Err(e) => { return Err(e); },
        };
        let v = SaveSlotInfoStruct { name, timestamp, level, players };
        proof {
            crate::common::lemma_subrange_join(data@, pos as int, e0 as int, e1 as int);
            crate::common::lemma_subrange_join(data@, pos as int, e1 as int, e2 as int);
            crate::common::lemma_subrange_join(data@, pos as int, e2 as int, e3 as int);
            crate::common::lemma_subrange_join(data@, pos as int, e3 as int, fin as int);
            assert(v.enc() == data@.subrange(pos as int, fin as int));
        }
        Ok((v, fin))
    }

    /// Appends the wire form of this struct, synthesizing the closing
    /// sentinel.
    #[verifier::rlimit(100)]
    pub fn encode(&self, out: &mut Vec<u8>)
        requires
            self.wf(),
        ensures
            final(out)@ == old(out)@ + self.enc(),
        decreases *self, 2int,
    {
        proof {
            reveal(SaveSlotInfoStruct::wf);
            reveal(SaveSlotInfoStruct::enc);
            Self::names_fit();
        }
        let ghost prev_out0: Seq<u8> = out@;
        write_field_prelude(out, "Name", "StrProperty");
        self.name.encode(out);
        proof {
            crate::common::lemma_add_assoc(prev_out0, enc_field_prelude("Name"@, "StrProperty"@), self.name.enc());
            assert(out@ == prev_out0 + enc_plain_field("Name"@, "StrProperty"@, self.name.enc()));
        }
        let ghost prev_out1: Seq<u8> = out@;
        write_field_prelude(out, "Timestamp", "StructProperty");
        let mut tmp1: Vec<u8> = Vec::new();
        self.timestamp.encode(&mut tmp1);
        let sz1: u32 = tmp1.len() as u32;
        write_struct_prelude(out, sz1, "DateTime");
        crate::common::write_bytes(out, &tmp1);
        proof {
            crate::common::lemma_add_assoc(prev_out1, enc_field_prelude("Timestamp"@, "StructProperty"@), enc_struct_prelude(sz1, "DateTime"@));
            crate::common::lemma_add_assoc(prev_out1, enc_field_prelude("Timestamp"@, "StructProperty"@) + enc_struct_prelude(sz1, "DateTime"@), self.timestamp.enc());
            assert(out@ == prev_out1 + enc_struct_field("Timestamp"@, "DateTime"@, self.timestamp.enc()));
        }
        let ghost prev_out2: Seq<u8> = out@;
        write_field_prelude(out, "Level", "NameProperty");
        self.level.encode(out);
        proof {
            crate::common::lemma_add_assoc(prev_out2, enc_field_prelude("Level"@, "NameProperty"@), self.level.enc());
            assert(out@ == prev_out2 + enc_plain_field("Level"@, "NameProperty"@, self.level.enc()));
        }
        let ghost prev_out3: Seq<u8> = out@;
        write_field_prelude(out, "Players", "ArrayProperty");
        self.players.encode(out);
        proof {
            crate::common::lemma_add_assoc(prev_out3, enc_field_prelude("Players"@, "ArrayProperty"@), self.players.enc());
            assert(out@ == prev_out3 + enc_plain_field("Players"@, "ArrayProperty"@, self.players.enc()));
        }
        write_none_field(out);
        proof {
            crate::common::lemma_add_assoc(old(out)@, enc_plain_field("Name"@, "StrProperty"@, self.name.enc()),
                enc_struct_field("Timestamp"@, "DateTime"@, self.timestamp.enc()));
            crate::common::lemma_add_assoc(old(out)@, enc_plain_field("Name"@, "StrProperty"@, self.name.enc()) + enc_struct_field("Timestamp"@, "DateTime"@, self.timestamp.enc()),
                enc_plain_field("Level"@, "NameProperty"@, self.level.enc()));
            crate::common::lemma_add_assoc(old(out)@, enc_plain_field("Name"@, "StrProperty"@, self.name.enc()) + enc_struct_field("Timestamp"@, "DateTime"@, self.timestamp.enc()) + enc_plain_field("Level"@, "NameProperty"@, self.level.enc()),
                enc_plain_field("Players"@, "ArrayProperty"@, self.players.enc()));
            crate::common::lemma_add_assoc(old(out)@, enc_plain_field("Name"@, "StrProperty"@, self.name.enc()) + enc_struct_field("Timestamp"@, "DateTime"@, self.timestamp.enc()) + enc_plain_field("Level"@, "NameProperty"@, self.level.enc()) + enc_plain_field("Players"@, "ArrayProperty"@, self.players.enc()),
                crate::enc_none());
            assert(out@ == old(out)@ + self.enc());
        }
    }
}

} // verus!

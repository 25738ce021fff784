use vstd::prelude::*;

verus! {

use vstd::bytes::{spec_u32_to_le_bytes, lemma_auto_spec_u32_to_from_le_bytes};
use crate::DecodeError;
use crate::common::{str_fits, zero_bytes, encoded_at, lemma_encoded_slice, enc_string,
    string_encoded_at, read_u32, write_u32, read_zeros, write_zeros, read_string_with_length,
    write_string_with_length, size_of_string_with_length};

/// An enumeration property: the enumeration's type name followed by the
/// chosen variant, both as strings.
///
/// Wire form: a `u32` byte-size field covering the value string, four zero
/// padding bytes, the length-prefixed enumeration type name, one zero
/// padding byte, then the length-prefixed value.
#[derive(Debug)]
pub struct EnumProperty {
    pub enum_type: String,
    pub value: String,
}

impl EnumProperty {
    /// Both strings' length fields must fit in a `u32`.
    pub open spec fn wf(self) -> bool {
        str_fits(self.enum_type@) && str_fits(self.value@)
    }

    /// The wire bytes of this property.
    pub open spec fn enc(self) -> Seq<u8> {
        spec_u32_to_le_bytes(enc_string(self.value@).len() as u32) + zero_bytes(4)
            + enc_string(self.enum_type@) + zero_bytes(1) + enc_string(self.value@)
    }

    pub fn tag_name() -> (r: &'static str)
        ensures
            r@ == "EnumProperty"@,
    {
        "EnumProperty"
    }

    pub fn size_in_bytes(&self) -> (r: u64)
        requires
            self.wf(),
        ensures
            r == self.enc().len(),
    {
        proof {
            lemma_auto_spec_u32_to_from_le_bytes();
        }
        9 + size_of_string_with_length(self.enum_type.as_str()) as u64
            + size_of_string_with_length(self.value.as_str()) as u64
    }

    /// Decodes an enumeration property at `pos`.  Succeeds exactly when one
    /// is encoded there; the consumed bytes are the wire form of the result.
    pub fn decode(data: &Vec<u8>, pos: usize) -> (r: Result<(EnumProperty, usize), DecodeError>)
        ensures
            match r {
                Ok(p) => {
                    &&& p.0.wf()
                    &&& encoded_at(data@, pos as int, p.0.enc())
                    &&& pos < p.1 <= data@.len()
                    &&& p.1 == pos + p.0.enc().len()
                },
                Err(e) => forall|v: EnumProperty| v.wf()
                    ==> !encoded_at(data@, pos as int, v.enc()),
            },
    {
        proof {
            lemma_auto_spec_u32_to_from_le_bytes();
        }
        let dlen = data.len();
        let size = match read_u32(data, pos) {
            Ok(x) => x,
            Err(e) => {
                return Err(e);
            },
        };
        match read_zeros(data, pos + 4, 4) {
            Ok(_) => {},
            Err(e) => {
                proof {
                    assert forall|v: EnumProperty| v.wf()
                        implies !encoded_at(data@, pos as int, v.enc()) by {
                        if encoded_at(data@, pos as int, v.enc()) {
                            lemma_encoded_slice(data@, pos as int, v.enc(), 4, 8);
                            assert(v.enc().subrange(4, 8) =~= zero_bytes(4));
                        }
                    }
                }
                return Err(e);
            },
        }
        // An encoded property puts its type-name string at `pos + 8`.
        proof {
            assert forall|v: EnumProperty| v.wf() && encoded_at(data@, pos as int, v.enc())
                implies string_encoded_at(data@, pos + 8, v.enum_type@) by {
                let m = enc_string(v.enum_type@).len() as int;
                lemma_encoded_slice(data@, pos as int, v.enc(), 8, 8 + m);
                assert(v.enc().subrange(8, 8 + m) =~= enc_string(v.enum_type@));
            }
        }
        let (enum_type, mid) = match read_string_with_length(data, pos + 8) {
            Ok(p) => p,
            Err(e) => {
                return Err(e);
            },
        };
        match read_zeros(data, mid, 1) {
            Ok(_) => {},
            Err(e) => {
                proof {
                    assert forall|v: EnumProperty| v.wf()
                        implies !encoded_at(data@, pos as int, v.enc()) by {
                        if encoded_at(data@, pos as int, v.enc()) {
                            assert(v.enum_type@ == enum_type@);
                            let m = enc_string(v.enum_type@).len() as int;
                            lemma_encoded_slice(data@, pos as int, v.enc(), 8 + m, 9 + m);
                            assert(v.enc().subrange(8 + m, 9 + m) =~= zero_bytes(1));
                        }
                    }
                }
                return Err(e);
            },
        }
        // An encoded property puts its value string right after that pad.
        proof {
            assert forall|v: EnumProperty| v.wf() && encoded_at(data@, pos as int, v.enc())
                implies string_encoded_at(data@, mid + 1, v.value@) by {
                assert(v.enum_type@ == enum_type@);
                let m = enc_string(v.enum_type@).len() as int;
                let k = enc_string(v.value@).len() as int;
                lemma_encoded_slice(data@, pos as int, v.enc(), 9 + m, 9 + m + k);
                assert(v.enc().subrange(9 + m, 9 + m + k) =~= enc_string(v.value@));
            }
        }
        let (value, end) = match read_string_with_length(data, mid + 1) {
            Ok(p) => p,
            Err(e) => {
                return Err(e);
            },
        };
        if size as usize != end - (mid + 1) {
            proof {
                assert forall|v: EnumProperty| v.wf()
                    implies !encoded_at(data@, pos as int, v.enc()) by {
                    if encoded_at(data@, pos as int, v.enc()) {
                        assert(v.value@ == value@);
                        lemma_encoded_slice(data@, pos as int, v.enc(), 0, 4);
                        assert(v.enc().subrange(0, 4)
                            =~= spec_u32_to_le_bytes(enc_string(v.value@).len() as u32));
                    }
                }
            }
            return Err(DecodeError::LengthMismatch);
        }
        let v = EnumProperty { enum_type, value };
        proof {
            assert(size == enc_string(v.value@).len());
            assert(v.enc() =~= data@.subrange(pos as int, end as int));
        }
        Ok((v, end))
    }

    /// Appends the wire form of this property.
    pub fn encode(&self, out: &mut Vec<u8>)
        requires
            self.wf(),
        ensures
            final(out)@ == old(out)@ + self.enc(),
    {
        let size = size_of_string_with_length(self.value.as_str());
        write_u32(out, size);
        write_zeros(out, 4);
        write_string_with_length(out, self.enum_type.as_str());
        write_zeros(out, 1);
        write_string_with_length(out, self.value.as_str());
        proof {
            assert(out@ =~= old(out)@ + self.enc());
        }
    }
}

} // verus!

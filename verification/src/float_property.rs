use vstd::prelude::*;

verus! {

use vstd::bytes::{spec_u32_to_le_bytes, lemma_auto_spec_u32_to_from_le_bytes};
use crate::DecodeError;
use crate::common::{zero_bytes, encoded_at, lemma_encoded_slice, read_u32, write_u32, read_zeros,
    write_zeros};

/// A 32-bit floating point property.
///
/// The library carries the value as its raw IEEE-754 bit pattern, which is
/// what actually stands on the wire; callers that need the number convert
/// with `f32::from_bits`.
///
/// Wire form: a `u32` byte-size field that is always `4`, five zero padding
/// bytes, then the four little-endian payload bytes.
#[derive(Debug, PartialEq, Eq, Structural)]
pub struct FloatProperty {
    pub bits: u32,
}

impl FloatProperty {
    /// The wire bytes of this property.
    pub open spec fn enc(self) -> Seq<u8> {
        spec_u32_to_le_bytes(4) + zero_bytes(5) + spec_u32_to_le_bytes(self.bits)
    }

    pub fn tag_name() -> (r: &'static str)
        ensures
            r@ == "FloatProperty"@,
    {
        "FloatProperty"
    }

    pub fn size_in_bytes(&self) -> (r: u32)
        ensures
            r == self.enc().len(),
    {
        proof {
            lemma_auto_spec_u32_to_from_le_bytes();
        }
        4 + 5 + 4
    }

    /// Decodes a float property at `pos`.  Succeeds exactly when one is
    /// encoded there; the consumed bytes are the wire form of the result.
    pub fn decode(data: &Vec<u8>, pos: usize) -> (r: Result<(FloatProperty, usize), DecodeError>)
        ensures
            match r {
                Ok(p) => {
                    &&& encoded_at(data@, pos as int, p.0.enc())
                    &&& pos < p.1 <= data@.len()
                    &&& p.1 == pos + p.0.enc().len()
                },
                Err(e) => forall|v: FloatProperty| !encoded_at(data@, pos as int, v.enc()),
            },
    {
        proof {
            lemma_auto_spec_u32_to_from_le_bytes();
        }
        let dlen = data.len();
        let size = match read_u32(data, pos) {
            Ok(x) => x,
            Err(e) => {
                return Err(e);
            },
        };
        if size != 4 {
            proof {
                assert forall|v: FloatProperty| !encoded_at(data@, pos as int, v.enc()) by {
                    if encoded_at(data@, pos as int, v.enc()) {
                        lemma_encoded_slice(data@, pos as int, v.enc(), 0, 4);
                        assert(v.enc().subrange(0, 4) =~= spec_u32_to_le_bytes(4));
                    }
                }
            }
            return Err(DecodeError::LengthMismatch);
        }
        match read_zeros(data, pos + 4, 5) {
            Ok(_) => {},
            Err(e) => {
                proof {
                    assert forall|v: FloatProperty| !encoded_at(data@, pos as int, v.enc()) by {
                        if encoded_at(data@, pos as int, v.enc()) {
                            lemma_encoded_slice(data@, pos as int, v.enc(), 4, 9);
                            assert(v.enc().subrange(4, 9) =~= zero_bytes(5));
                        }
                    }
                }
                return Err(e);
            },
        }
        let bits = match read_u32(data, pos + 9) {
            Ok(x) => x,
            Err(e) => {
                return Err(e);
            },
        };
        let v = FloatProperty { bits };
        proof {
            assert(v.enc() =~= data@.subrange(pos as int, pos + 13));
        }
        Ok((v, pos + 13))
    }

    /// Appends the wire form of this property.
    pub fn encode(&self, out: &mut Vec<u8>)
        ensures
            final(out)@ == old(out)@ + self.enc(),
    {
        write_u32(out, 4);
        write_zeros(out, 5);
        write_u32(out, self.bits);
        proof {
            assert(out@ =~= old(out)@ + self.enc());
        }
    }
}

} // verus!

use vstd::prelude::*;

verus! {

use vstd::bytes::{spec_u32_to_le_bytes, lemma_auto_spec_u32_to_from_le_bytes};
use crate::DecodeError;
use crate::common::{zero_bytes, encoded_at, lemma_encoded_slice, read_u32, write_u32, read_zeros,
    write_zeros};

/// A 32-bit unsigned integer property.
///
/// Wire form: a `u32` byte-size field that is always `4`, five zero padding
/// bytes, then the little-endian value.
#[derive(Debug, PartialEq, Eq, Structural)]
pub struct IntProperty {
    pub value: u32,
}

impl IntProperty {
    /// The wire bytes of this property.
    pub open spec fn enc(self) -> Seq<u8> {
        spec_u32_to_le_bytes(4) + zero_bytes(5) + spec_u32_to_le_bytes(self.value)
    }

    pub fn tag_name() -> (r: &'static str)
        ensures
            r@ == "IntProperty"@,
    {
        "IntProperty"
    }

    pub fn size_in_bytes(&self) -> (r: u32)
        ensures
            r == self.enc().len(),
    {
        proof {
            lemma_auto_spec_u32_to_from_le_bytes();
        }
        4 + 5 + 4
    }

    /// Decodes an integer property at `pos`.  Succeeds exactly when one is
    /// encoded there; the consumed bytes are the wire form of the result.
    pub fn decode(data: &Vec<u8>, pos: usize) -> (r: Result<(IntProperty, usize), DecodeError>)
        ensures
            match r {
                Ok(p) => {
                    &&& encoded_at(data@, pos as int, p.0.enc())
                    &&& pos < p.1 <= data@.len()
                    &&& p.1 == pos + p.0.enc().len()
                },
                Err(e) => forall|v: IntProperty| !encoded_at(data@, pos as int, v.enc()),
            },
    {
        proof {
            lemma_auto_spec_u32_to_from_le_bytes();
        }
        let dlen = data.len();
        let size = match read_u32(data, pos) {
            Ok(x) => x,
            Err(e) => {
                return Err(e);
            },
        };
        if size != 4 {
            proof {
                assert forall|v: IntProperty| !encoded_at(data@, pos as int, v.enc()) by {
                    if encoded_at(data@, pos as int, v.enc()) {
                        lemma_encoded_slice(data@, pos as int, v.enc(), 0, 4);
                        assert(v.enc().subrange(0, 4) =~= spec_u32_to_le_bytes(4));
                    }
                }
            }
            return Err(DecodeError::LengthMismatch);
        }
        match read_zeros(data, pos + 4, 5) {
            Ok(_) => {},
            Err(e) => {
                proof {
                    assert forall|v: IntProperty| !encoded_at(data@, pos as int, v.enc()) by {
                        if encoded_at(data@, pos as int, v.enc()) {
                            lemma_encoded_slice(data@, pos as int, v.enc(), 4, 9);
                            assert(v.enc().subrange(4, 9) =~= zero_bytes(5));
                        }
                    }
                }
                return Err(e);
            },
        }
        let value = match read_u32(data, pos + 9) {
            Ok(x) => x,
            Err(e) => {
                return Err(e);
            },
        };
        let v = IntProperty { value };
        proof {
            assert(v.enc() =~= data@.subrange(pos as int, pos + 13));
        }
        Ok((v, pos + 13))
    }

    /// Appends the wire form of this property.
    pub fn encode(&self, out: &mut Vec<u8>)
        ensures
            final(out)@ == old(out)@ + self.enc(),
    {
        write_u32(out, 4);
        write_zeros(out, 5);
        write_u32(out, self.value);
        proof {
            assert(out@ =~= old(out)@ + self.enc());
        }
    }
}

} // verus!

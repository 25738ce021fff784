use vstd::prelude::*;

verus! {

use crate::DecodeError;
use crate::common::{zero_bytes, encoded_at, lemma_encoded_slice, read_u8, read_zeros, write_zeros};

/// A boolean property.
///
/// Wire form: eight zero padding bytes, one value byte that is `1` for
/// `true` and `0` for `false`, then one zero padding byte.  The decoder
/// rejects any other value byte rather than reading it as `false`.
#[derive(Debug, PartialEq, Eq, Structural)]
pub struct BoolProperty {
    pub value: bool,
}

impl BoolProperty {
    /// The wire bytes of this property.
    pub open spec fn enc(self) -> Seq<u8> {
        zero_bytes(8) + seq![if self.value { 1u8 } else { 0u8 }] + seq![0u8]
    }

    pub fn tag_name() -> (r: &'static str)
        ensures
            r@ == "BoolProperty"@,
    {
        "BoolProperty"
    }

    pub fn size_in_bytes(&self) -> (r: u32)
        ensures
            r == self.enc().len(),
    {
        10
    }

    /// Decodes a boolean property at `pos`.  Succeeds exactly when one is
    /// encoded there; the consumed bytes are the wire form of the result.
    pub fn decode(data: &Vec<u8>, pos: usize) -> (r: Result<(BoolProperty, usize), DecodeError>)
        ensures
            match r {
                Ok(p) => {
                    &&& encoded_at(data@, pos as int, p.0.enc())
                    &&& pos < p.1 <= data@.len()
                    &&& p.1 == pos + p.0.enc().len()
                },
                Err(e) => forall|v: BoolProperty| !encoded_at(data@, pos as int, v.enc()),
            },
    {
        let dlen = data.len();
        match read_zeros(data, pos, 8) {
            Ok(_) => {},
            Err(e) => {
                proof {
                    assert forall|v: BoolProperty| !encoded_at(data@, pos as int, v.enc()) by {
                        if encoded_at(data@, pos as int, v.enc()) {
                            lemma_encoded_slice(data@, pos as int, v.enc(), 0, 8);
                            assert(v.enc().subrange(0, 8) =~= zero_bytes(8));
                        }
                    }
                }
                return Err(e);
            },
        }
        let b = match read_u8(data, pos + 8) {
            Ok(x) => x,
            Err(e) => {
                return Err(e);
            },
        };
        if b > 1 {
            proof {
                assert forall|v: BoolProperty| !encoded_at(data@, pos as int, v.enc()) by {
                    if encoded_at(data@, pos as int, v.enc()) {
                        assert(v.enc()[8] == data@.subrange(pos as int, pos + 10)[8]);
                    }
                }
            }
            return Err(DecodeError::InvalidValue);
        }
        match read_zeros(data, pos + 9, 1) {
            Ok(_) => {},
            Err(e) => {
                proof {
                    assert forall|v: BoolProperty| !encoded_at(data@, pos as int, v.enc()) by {
                        if encoded_at(data@, pos as int, v.enc()) {
                            lemma_encoded_slice(data@, pos as int, v.enc(), 9, 10);
                            assert(v.enc().subrange(9, 10) =~= zero_bytes(1));
                        }
                    }
                }
                return Err(e);
            },
        }
        let v = BoolProperty { value: b == 1 };
        proof {
            assert forall|i: int| 0 <= i < 8 implies #[trigger] data@[pos + i] == 0u8 by {
                assert(data@.subrange(pos as int, pos + 8)[i] == 0u8);
            }
            assert(data@[pos + 9] == 0u8) by {
                assert(data@.subrange(pos + 9, pos + 10)[0] == 0u8);
            }
            assert(v.enc() =~= data@.subrange(pos as int, pos + 10));
        }
        Ok((v, pos + 10))
    }

    /// Appends the wire form of this property.
    pub fn encode(&self, out: &mut Vec<u8>)
        ensures
            final(out)@ == old(out)@ + self.enc(),
    {
        write_zeros(out, 8);
        out.push(crate::common::write_bool_as(&self.value));
        out.push(0);
        proof {
            assert(out@ =~= old(out)@ + self.enc());
        }
    }
}

} // verus!

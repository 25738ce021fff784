use vstd::prelude::*;

verus! {

use vstd::bytes::{spec_u32_to_le_bytes, lemma_auto_spec_u32_to_from_le_bytes};
use crate::DecodeError;
use crate::common::{encoded_at, read_u32, write_u32};

/// A globally unique identifier: four 32-bit components, stored on the wire
/// as sixteen little-endian bytes with no prelude of their own.
#[derive(Debug, PartialEq, Eq, Structural)]
pub struct Guid {
    pub a: u32,
    pub b: u32,
    pub c: u32,
    pub d: u32,
}

impl Guid {
    /// The wire bytes of this identifier: always exactly 16 of them.
    pub open spec fn enc(self) -> Seq<u8> {
        spec_u32_to_le_bytes(self.a) + spec_u32_to_le_bytes(self.b) + spec_u32_to_le_bytes(self.c)
            + spec_u32_to_le_bytes(self.d)
    }

    pub fn tag_name() -> (r: &'static str)
        ensures
            r@ == "StructProperty"@,
    {
        "StructProperty"
    }

    pub fn struct_name() -> (r: &'static str)
        ensures
            r@ == "Guid"@,
    {
        "Guid"
    }

    pub fn size_in_bytes(&self) -> (r: u32)
        ensures
            r == self.enc().len(),
    {
        proof {
            lemma_auto_spec_u32_to_from_le_bytes();
        }
        16
    }

    /// Decodes an identifier at `pos`.  Succeeds exactly when 16 bytes are
    /// available there; the consumed bytes are the wire form of the result.
    pub fn decode(data: &Vec<u8>, pos: usize) -> (r: Result<(Guid, usize), DecodeError>)
        ensures
            match r {
                Ok(p) => {
                    &&& encoded_at(data@, pos as int, p.0.enc())
                    &&& pos < p.1 <= data@.len()
                    &&& p.1 == pos + p.0.enc().len()
                },
                Err(e) => forall|v: Guid| !encoded_at(data@, pos as int, v.enc()),
            },
    {
        proof {
            lemma_auto_spec_u32_to_from_le_bytes();
        }
        let dlen = data.len();
        if dlen < 16 || pos > dlen - 16 {
            return Err(DecodeError::TruncatedBuffer);
        }
        let a = match read_u32(data, pos) {
            Ok(x) => x,
            Err(e) => { return Err(e); },
        };
        let b = match read_u32(data, pos + 4) {
            Ok(x) => x,
            Err(e) => { return Err(e); },
        };
        let c = match read_u32(data, pos + 8) {
            Ok(x) => x,
            Err(e) => { return Err(e); },
        };
        let d = match read_u32(data, pos + 12) {
            Ok(x) => x,
            Err(e) => { return Err(e); },
        };
        let v = Guid { a, b, c, d };
        proof {
            assert(v.enc() =~= data@.subrange(pos as int, pos + 16));
        }
        Ok((v, pos + 16))
    }

    /// Appends the wire form of this identifier.
    pub fn encode(&self, out: &mut Vec<u8>)
        ensures
            final(out)@ == old(out)@ + self.enc(),
    {
        write_u32(out, self.a);
        write_u32(out, self.b);
        write_u32(out, self.c);
        write_u32(out, self.d);
        proof {
            assert(out@ =~= old(out)@ + self.enc());
        }
    }
}

} // verus!

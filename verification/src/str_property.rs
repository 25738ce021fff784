use vstd::prelude::*;

verus! {

use crate::DecodeError;
use crate::common::{str_fits, encoded_at, enc_sized_string, read_sized_string, write_sized_string,
    size_of_string_with_length};

/// A string property.
///
/// Wire form: a `u32` byte-size field covering the string region, five zero
/// padding bytes, then the length-prefixed string.
#[derive(Debug)]
pub struct StrProperty {
    pub value: String,
}

impl StrProperty {
    /// The value's length field must fit in a `u32`.
    pub open spec fn wf(self) -> bool {
        str_fits(self.value@)
    }

    /// The wire bytes of this property.
    pub open spec fn enc(self) -> Seq<u8> {
        enc_sized_string(self.value@)
    }

    pub fn tag_name() -> (r: &'static str)
        ensures
            r@ == "StrProperty"@,
    {
        "StrProperty"
    }

    pub fn size_in_bytes(&self) -> (r: u64)
        requires
            self.wf(),
        ensures
            r == self.enc().len(),
    {
        proof {
            vstd::bytes::lemma_auto_spec_u32_to_from_le_bytes();
        }
        9 + size_of_string_with_length(self.value.as_str()) as u64
    }

    /// Decodes a string property at `pos`.  Succeeds exactly when one is
    /// encoded there; the consumed bytes are the wire form of the result.
    pub fn decode(data: &Vec<u8>, pos: usize) -> (r: Result<(StrProperty, usize), DecodeError>)
        ensures
            match r {
                Ok(p) => {
                    &&& p.0.wf()
                    &&& encoded_at(data@, pos as int, p.0.enc())
                    &&& pos < p.1 <= data@.len()
                    &&& p.1 == pos + p.0.enc().len()
                },
                Err(e) => forall|v: StrProperty| v.wf()
                    ==> !encoded_at(data@, pos as int, v.enc()),
            },
    {
        match read_sized_string(data, pos) {
            Ok((s, end)) => Ok((StrProperty { value: s }, end)),
            Err(e) => Err(e),
        }
    }

    /// Appends the wire form of this property.
    pub fn encode(&self, out: &mut Vec<u8>)
        requires
            self.wf(),
        ensures
            final(out)@ == old(out)@ + self.enc(),
    {
        write_sized_string(out, self.value.as_str());
    }
}

} // verus!

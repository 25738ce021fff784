use vstd::prelude::*;

verus! {

use vstd::bytes::{spec_u32_to_le_bytes, spec_u32_from_le_bytes, lemma_auto_spec_u32_to_from_le_bytes,
    u32_from_le_bytes, u32_to_le_bytes,
    spec_u64_to_le_bytes, lemma_auto_spec_u64_to_from_le_bytes,
    u64_from_le_bytes, u64_to_le_bytes};
use vstd::utf8::{encode_utf8, valid_utf8, encode_utf8_valid_utf8, encode_utf8_decode_utf8};
use vstd::slice::slice_subrange;
use crate::DecodeError;

/// A run of `n` zero bytes, as the format's padding regions hold.
pub open spec fn zero_bytes(n: int) -> Seq<u8> {
    Seq::new(n as nat, |i: int| 0u8)
}

/// Wire form of a length-prefixed string: a little-endian `u32` length that
/// counts the trailing NUL (or `0` for the empty string, which carries no
/// payload and no NUL), then the UTF-8 payload, then one NUL byte.
pub open spec fn enc_string(s: Seq<char>) -> Seq<u8> {
    if s.len() == 0 {
        spec_u32_to_le_bytes(0)
    } else {
        spec_u32_to_le_bytes((encode_utf8(s).len() + 1) as u32) + encode_utf8(s) + seq![0u8]
    }
}

/// A string fits on the wire: its length field must fit in a `u32`.
pub open spec fn str_fits(s: Seq<char>) -> bool {
    encode_utf8(s).len() + 5 <= u32::MAX
}

/// True when the bytes of `data` starting at `pos` are exactly `enc_string(t)`.
pub open spec fn string_encoded_at(data: Seq<u8>, pos: int, t: Seq<char>) -> bool {
    &&& str_fits(t)
    &&& 0 <= pos
    &&& pos + enc_string(t).len() <= data.len()
    &&& enc_string(t) == data.subrange(pos, pos + enc_string(t).len() as int)
}

/// True when `bytes` stand verbatim in `data` at offset `pos`.
pub open spec fn encoded_at(data: Seq<u8>, pos: int, bytes: Seq<u8>) -> bool {
    &&& 0 <= pos
    &&& pos + bytes.len() <= data.len()
    &&& bytes == data.subrange(pos, pos + bytes.len() as int)
}

/// A slice of an encoded region is the matching slice of the buffer.
pub proof fn lemma_encoded_slice(data: Seq<u8>, pos: int, bytes: Seq<u8>, a: int, b: int)
    requires
        encoded_at(data, pos, bytes),
        0 <= a <= b <= bytes.len(),
    ensures
        data.subrange(pos + a, pos + b) == bytes.subrange(a, b),
{
    assert(data.subrange(pos + a, pos + b) =~= bytes.subrange(a, b));
}

pub proof fn lemma_add_assoc(a: Seq<u8>, b: Seq<u8>, c: Seq<u8>)
    ensures
        a + (b + c) == (a + b) + c,
{
    assert(a + (b + c) =~= (a + b) + c);
}

pub proof fn lemma_subrange_join(s: Seq<u8>, a: int, b: int, c: int)
    requires
        0 <= a <= b <= c <= s.len(),
    ensures
        s.subrange(a, b) + s.subrange(b, c) == s.subrange(a, c),
{
    assert(s.subrange(a, b) + s.subrange(b, c) =~= s.subrange(a, c));
}

/// A non-empty character sequence never encodes to an empty UTF-8 byte string.
pub proof fn lemma_encode_utf8_len(s: Seq<char>)
    ensures
        s.len() == 0 <==> encode_utf8(s).len() == 0,
{
    if s.len() > 0 {
        vstd::utf8::char_is_scalar(s[0]);
        assert(encode_utf8(s).len() >= vstd::utf8::encode_scalar(s[0] as u32).len());
    }
}

/// `true` exactly when the wire byte means `true`: the format stores booleans
/// as a single byte that is `1` for `true` and `0` for `false`.  Any other
/// byte value is rejected by the decoders rather than read as `false`.
pub fn read_bool_from(x: u8) -> (r: bool)
    ensures
        r == (x == 1),
{
    x == 1
}

/// The single wire byte for a boolean.
pub fn write_bool_as(x: &bool) -> (r: u8)
    ensures
        r == (if *x { 1u8 } else { 0u8 }),
{
    if *x { 1 } else { 0 }
}

pub(crate) fn read_u32(data: &Vec<u8>, pos: usize) -> (r: Result<u32, DecodeError>)
    ensures
        match r {
            Ok(x) => pos + 4 <= data@.len()
                && data@.subrange(pos as int, pos as int + 4) == spec_u32_to_le_bytes(x),
            Err(e) => e == DecodeError::TruncatedBuffer && pos + 4 > data@.len(),
        },
{
    if data.len() < 4 || pos > data.len() - 4 {
        return Err(DecodeError::TruncatedBuffer);
    }
    let s = slice_subrange(data.as_slice(), pos, pos + 4);
    let x = u32_from_le_bytes(s);
    proof {
        lemma_auto_spec_u32_to_from_le_bytes();
    }
    Ok(x)
}

pub(crate) fn read_u8(data: &Vec<u8>, pos: usize) -> (r: Result<u8, DecodeError>)
    ensures
        match r {
            Ok(b) => pos + 1 <= data@.len() && b == data@[pos as int],
            Err(e) => e == DecodeError::TruncatedBuffer && pos + 1 > data@.len(),
        },
{
    if pos >= data.len() {
        return Err(DecodeError::TruncatedBuffer);
    }
    Ok(data[pos])
}

pub(crate) fn write_u32(out: &mut Vec<u8>, x: u32)
    ensures
        final(out)@ == old(out)@ + spec_u32_to_le_bytes(x),
{
    let mut bytes = u32_to_le_bytes(x);
    out.append(&mut bytes);
}

pub(crate) fn read_u64(data: &Vec<u8>, pos: usize) -> (r: Result<u64, DecodeError>)
    ensures
        match r {
            Ok(x) => pos + 8 <= data@.len()
                && data@.subrange(pos as int, pos as int + 8) == spec_u64_to_le_bytes(x),
            Err(e) => e == DecodeError::TruncatedBuffer && pos + 8 > data@.len(),
        },
{
    if data.len() < 8 || pos > data.len() - 8 {
        return Err(DecodeError::TruncatedBuffer);
    }
    let s = slice_subrange(data.as_slice(), pos, pos + 8);
    let x = u64_from_le_bytes(s);
    proof {
        lemma_auto_spec_u64_to_from_le_bytes();
    }
    Ok(x)
}

pub(crate) fn write_u64(out: &mut Vec<u8>, x: u64)
    ensures
        final(out)@ == old(out)@ + spec_u64_to_le_bytes(x),
{
    let mut bytes = u64_to_le_bytes(x);
    out.append(&mut bytes);
}

/// Checks that the `n` bytes at `pos` are all zero, as the format's fixed
/// padding regions must be.
pub(crate) fn read_zeros(data: &Vec<u8>, pos: usize, n: usize) -> (r: Result<(), DecodeError>)
    ensures
        match r {
            Ok(_) => pos + n <= data@.len()
                && data@.subrange(pos as int, pos as int + n) == zero_bytes(n as int),
            Err(e) => (e == DecodeError::TruncatedBuffer && pos + n > data@.len())
                || (e == DecodeError::InvalidValue && pos + n <= data@.len()
                    && data@.subrange(pos as int, pos as int + n) != zero_bytes(n as int)),
        },
{
    if n > data.len() || pos > data.len() - n {
        return Err(DecodeError::TruncatedBuffer);
    }
    let mut i: usize = 0;
    while i < n
        invariant
            0 <= i <= n,
            pos + n <= data@.len() <= usize::MAX,
            forall|j: int| 0 <= j < i ==> #[trigger] data@[pos + j] == 0u8,
        decreases n - i,
    {
        if data[pos + i] != 0 {
            proof {
                assert(data@.subrange(pos as int, pos as int + n)[i as int] != 0u8);
                assert(zero_bytes(n as int)[i as int] == 0u8);
            }
            return Err(DecodeError::InvalidValue);
        }
        i = i + 1;
    }
    proof {
        assert forall|k: int| 0 <= k < n
            implies data@.subrange(pos as int, pos as int + n)[k] == zero_bytes(n as int)[k] by {
            assert(data@[pos + k] == 0u8);
        }
        assert(data@.subrange(pos as int, pos as int + n) =~= zero_bytes(n as int));
    }
    Ok(())
}

pub(crate) fn write_zeros(out: &mut Vec<u8>, n: usize)
    ensures
        final(out)@ == old(out)@ + zero_bytes(n as int),
{
    let mut i: usize = 0;
    while i < n
        invariant
            0 <= i <= n,
            out@ == old(out)@ + zero_bytes(i as int),
        decreases n - i,
    {
        out.push(0);
        proof {
            assert(old(out)@ + zero_bytes(i as int) + seq![0u8]
                =~= old(out)@ + zero_bytes(i + 1));
        }
        i = i + 1;
    }
}

/// Copies the `n` bytes at `pos` out of the buffer.
pub(crate) fn read_bytes(data: &Vec<u8>, pos: usize, n: usize) -> (r: Result<Vec<u8>, DecodeError>)
    ensures
        match r {
            Ok(v) => pos + n <= data@.len() && v@ == data@.subrange(pos as int, pos as int + n),
            Err(e) => e == DecodeError::TruncatedBuffer && pos + n > data@.len(),
        },
{
    if n > data.len() || pos > data.len() - n {
        return Err(DecodeError::TruncatedBuffer);
    }
    let mut v: Vec<u8> = Vec::new();
    let mut i: usize = 0;
    while i < n
        invariant
            0 <= i <= n,
            pos + n <= data@.len() <= usize::MAX,
            v@ =~= data@.subrange(pos as int, pos as int + i),
        decreases n - i,
    {
        v.push(data[pos + i]);
        proof {
            assert(v@ =~= data@.subrange(pos as int, pos as int + i + 1));
        }
        i = i + 1;
    }
    proof {
        assert(v@ =~= data@.subrange(pos as int, pos as int + n));
    }
    Ok(v)
}

/// Appends the given bytes verbatim.
pub(crate) fn write_bytes(out: &mut Vec<u8>, bytes: &Vec<u8>)
    ensures
        final(out)@ == old(out)@ + bytes@,
{
    let n = bytes.len();
    let mut i: usize = 0;
    while i < n
        invariant
            0 <= i <= n,
            n == bytes@.len(),
            out@ =~= old(out)@ + bytes@.subrange(0, i as int),
        decreases n - i,
    {
        out.push(bytes[i]);
        proof {
            assert(out@ =~= old(out)@ + bytes@.subrange(0, i + 1));
        }
        i = i + 1;
    }
    proof {
        assert(bytes@.subrange(0, n as int) =~= bytes@);
    }
}

/// Relies on `String::from_utf8`: it succeeds exactly on valid UTF-8 input,
/// and the returned string wraps the given bytes unchanged.
#[verifier::external_body]
pub(crate) fn bytes_to_string(b: Vec<u8>) -> (r: Option<String>)
    ensures
        r is Some <==> valid_utf8(b@),
        r matches Some(s) ==> encode_utf8(s@) == b@,
{
    String::from_utf8(b).ok()
}

/// String equality, decided byte for byte on the UTF-8 forms.
pub fn str_eq(a: &str, b: &str) -> (r: bool)
    ensures
        r == (a@ == b@),
{
    let ab = a.as_bytes();
    let bb = b.as_bytes();
    if ab.len() != bb.len() {
        proof {
            if a@ == b@ {
                assert(encode_utf8(a@) == encode_utf8(b@));
            }
        }
        return false;
    }
    let n = ab.len();
    let mut i: usize = 0;
    while i < n
        invariant
            0 <= i <= n,
            n == ab@.len() == bb@.len(),
            ab@ == encode_utf8(a@),
            bb@ == encode_utf8(b@),
            forall|j: int| 0 <= j < i ==> ab@[j] == bb@[j],
        decreases n - i,
    {
        if ab[i] != bb[i] {
            proof {
                if a@ == b@ {
                    assert(encode_utf8(a@) == encode_utf8(b@));
                }
            }
            return false;
        }
        i = i + 1;
    }
    proof {
        assert(encode_utf8(a@) =~= encode_utf8(b@));
        encode_utf8_decode_utf8(a@);
        encode_utf8_decode_utf8(b@);
    }
    true
}

/// The number of wire bytes of a length-prefixed string: the 4-byte length
/// field, the UTF-8 payload, and the NUL terminator on non-empty strings.
pub fn size_of_string_with_length(s: &str) -> (r: u32)
    requires
        str_fits(s@),
    ensures
        r == enc_string(s@).len(),
{
    proof {
        lemma_auto_spec_u32_to_from_le_bytes();
        lemma_encode_utf8_len(s@);
    }
    if s.is_empty() {
        4
    } else {
        (s.len() as u32) + 5
    }
}

/// The string codec is injective: two strings with the same wire form are
/// the same string.  With the decoder's contract this gives the string
/// round trip: decoding what the encoder wrote yields the original string.
pub proof fn lemma_enc_string_injective(s1: Seq<char>, s2: Seq<char>)
    requires
        str_fits(s1),
        str_fits(s2),
        enc_string(s1) == enc_string(s2),
    ensures
        s1 == s2,
{
    lemma_auto_spec_u32_to_from_le_bytes();
    lemma_encode_utf8_len(s1);
    lemma_encode_utf8_len(s2);
    if s1.len() == 0 && s2.len() == 0 {
        assert(s1 =~= s2);
    } else if s1.len() != 0 && s2.len() != 0 {
        assert(spec_u32_to_le_bytes((encode_utf8(s1).len() + 1) as u32)
            =~= enc_string(s1).subrange(0, 4));
        assert(spec_u32_to_le_bytes((encode_utf8(s2).len() + 1) as u32)
            =~= enc_string(s2).subrange(0, 4));
        assert(encode_utf8(s1).len() == encode_utf8(s2).len());
        assert(encode_utf8(s1) =~= enc_string(s1).subrange(4, 4 + encode_utf8(s1).len() as int));
        assert(encode_utf8(s2) =~= enc_string(s2).subrange(4, 4 + encode_utf8(s2).len() as int));
        encode_utf8_decode_utf8(s1);
        encode_utf8_decode_utf8(s2);
    } else {
        // One empty, one not: their wire forms have different lengths.
        let a = if s1.len() == 0 { s1 } else { s2 };
        let b = if s1.len() == 0 { s2 } else { s1 };
        assert(enc_string(a).len() == 4);
        assert(enc_string(b).len() == 4 + encode_utf8(b).len() + 1);
        assert(false);
    }
}

/// Decodes a length-prefixed string at `pos`.  On success the returned
/// offset is the first byte after the string, and the consumed bytes are
/// exactly the wire form of the result; no other string has that wire form
/// there.  On failure no string at all is encoded at `pos`.
///
/// The decode accepts only what the encoder writes, which is what makes
/// re-encoding byte-exact: a length field of `1` (an empty string spelled
/// with a terminator instead of as a bare zero length) and a final byte
/// other than NUL are both rejected as malformed.
pub fn read_string_with_length(data: &Vec<u8>, pos: usize) -> (r: Result<(String, usize), DecodeError>)
    ensures
        match r {
            Ok(p) => {
                &&& string_encoded_at(data@, pos as int, p.0@)
                &&& pos < p.1 <= data@.len()
                &&& p.1 == pos + enc_string(p.0@).len()
                &&& str_fits(p.0@)
                &&& forall|t: Seq<char>| string_encoded_at(data@, pos as int, t) ==> t == p.0@
            },
            Err(e) => forall|t: Seq<char>| !string_encoded_at(data@, pos as int, t),
        },
{
    proof {
        lemma_auto_spec_u32_to_from_le_bytes();
    }
    let dlen = data.len();
    let len32 = match read_u32(data, pos) {
        Ok(x) => x,
        Err(e) => {
            proof {
                assert forall|t: Seq<char>| !string_encoded_at(data@, pos as int, t) by {
                    lemma_encode_utf8_len(t);
                }
            }
            return Err(e);
        },
    };
    if len32 == 0 {
        let s = String::new();
        proof {
            assert(enc_string(s@) == spec_u32_to_le_bytes(0));
            assert forall|t: Seq<char>| string_encoded_at(data@, pos as int, t) implies t == s@ by {
                lemma_encode_utf8_len(t);
                if t.len() != 0 {
                    assert(enc_string(t).subrange(0, 4)
                        =~= spec_u32_to_le_bytes((encode_utf8(t).len() + 1) as u32));
                    assert(data@.subrange(pos as int, pos as int + 4)
                        =~= enc_string(t).subrange(0, 4));
                }
            }
        }
        return Ok((s, pos + 4));
    }
    // Any string encoded here would have to declare the same length field.
    proof {
        assert forall|t: Seq<char>| string_encoded_at(data@, pos as int, t)
            implies encode_utf8(t).len() + 1 == len32 && t.len() > 0 by {
            lemma_encode_utf8_len(t);
            if t.len() == 0 {
                assert(data@.subrange(pos as int, pos as int + 4) =~= enc_string(t));
            } else {
                assert(data@.subrange(pos as int, pos as int + 4)
                    =~= enc_string(t).subrange(0, 4));
                assert(enc_string(t).subrange(0, 4)
                    =~= spec_u32_to_le_bytes((encode_utf8(t).len() + 1) as u32));
                // The length field pins the payload length.
                assert(spec_u32_from_le_bytes(spec_u32_to_le_bytes((encode_utf8(t).len() + 1) as u32))
                    == (encode_utf8(t).len() + 1) as u32);
                assert(encode_utf8(t).len() + 5 <= u32::MAX + 4);
            }
        }
    }
    if len32 == 1 {
        // The encoder never writes a length of 1: the empty string is
        // written as a bare zero length.
        return Err(DecodeError::MalformedString);
    }
    if len32 > u32::MAX - 4 {
        // The length field and the leading 4 size bytes together must fit
        // in a u32, or the string could never have been written.
        return Err(DecodeError::MalformedString);
    }
    let len = len32 as usize;
    if dlen - pos - 4 < len {
        return Err(DecodeError::TruncatedBuffer);
    }
    let payload_len = len - 1;
    let mut payload: Vec<u8> = Vec::new();
    let mut i: usize = 0;
    while i < payload_len
        invariant
            0 <= i <= payload_len,
            dlen == data@.len(),
            pos + 4 + payload_len < dlen,
            payload@ =~= data@.subrange(pos + 4, pos + 4 + i),
        decreases payload_len - i,
    {
        payload.push(data[pos + 4 + i]);
        proof {
            assert(payload@ =~= data@.subrange(pos + 4, pos + 4 + i + 1));
        }
        i = i + 1;
    }
    if data[pos + 4 + payload_len] != 0 {
        proof {
            assert forall|t: Seq<char>| !string_encoded_at(data@, pos as int, t) by {
                if string_encoded_at(data@, pos as int, t) {
                    assert(t.len() > 0 && encode_utf8(t).len() + 1 == len32);
                    assert(enc_string(t)[4 + encode_utf8(t).len() as int] == 0u8);
                    assert(data@.subrange(pos as int, pos + 4 + len as int)[4 + encode_utf8(t).len() as int]
                        == data@[pos + 4 + payload_len]);
                }
            }
        }
        return Err(DecodeError::MalformedString);
    }
    let ghost payload_seq = data@.subrange(pos + 4, pos + 4 + payload_len);
    // A string encoded here would carry exactly these payload bytes.
    proof {
        assert forall|t: Seq<char>| string_encoded_at(data@, pos as int, t)
            implies encode_utf8(t) == payload_seq by {
            assert(t.len() > 0 && encode_utf8(t).len() + 1 == len32);
            assert(enc_string(t).subrange(4, 4 + encode_utf8(t).len() as int) =~= encode_utf8(t));
            assert(data@.subrange(pos as int, pos + 4 + len as int)
                .subrange(4, 4 + encode_utf8(t).len() as int)
                =~= data@.subrange(pos + 4, pos + 4 + payload_len));
        }
    }
    match bytes_to_string(payload) {
        Some(s) => {
            proof {
                lemma_encode_utf8_len(s@);
                assert(s@.len() > 0);
                assert(enc_string(s@)
                    =~= data@.subrange(pos as int, pos + 4 + len as int)) by {
                    assert(enc_string(s@) == spec_u32_to_le_bytes(len32) + payload_seq + seq![0u8]);
                    assert(data@.subrange(pos as int, pos + 4 + len as int)[4 + payload_len]
                        == data@[pos + 4 + payload_len]);
                }
                assert forall|t: Seq<char>| string_encoded_at(data@, pos as int, t)
                    implies t == s@ by {
                    encode_utf8_decode_utf8(t);
                    encode_utf8_decode_utf8(s@);
                }
            }
            Ok((s, pos + 4 + len))
        },
        None => {
            proof {
                assert forall|t: Seq<char>| !string_encoded_at(data@, pos as int, t) by {
                    if string_encoded_at(data@, pos as int, t) {
                        encode_utf8_valid_utf8(t);
                    }
                }
            }
            Err(DecodeError::MalformedString)
        },
    }
}

/// Wire form shared by the string and name properties: a `u32` holding the
/// byte count of the string region, five zero padding bytes, then the
/// length-prefixed string itself.
pub open spec fn enc_sized_string(s: Seq<char>) -> Seq<u8> {
    spec_u32_to_le_bytes(enc_string(s).len() as u32) + zero_bytes(5) + enc_string(s)
}

/// Decodes a size-prefixed string region at `pos`, checking that the
/// declared size matches the string actually read.  Succeeds exactly when
/// such a region is encoded there.
pub fn read_sized_string(data: &Vec<u8>, pos: usize) -> (r: Result<(String, usize), DecodeError>)
    ensures
        match r {
            Ok(p) => {
                &&& str_fits(p.0@)
                &&& encoded_at(data@, pos as int, enc_sized_string(p.0@))
                &&& pos < p.1 <= data@.len()
                &&& p.1 == pos + enc_sized_string(p.0@).len()
                &&& forall|t: Seq<char>| str_fits(t)
                    && encoded_at(data@, pos as int, enc_sized_string(t)) ==> t == p.0@
            },
            Err(e) => forall|t: Seq<char>| str_fits(t)
                ==> !encoded_at(data@, pos as int, enc_sized_string(t)),
        },
{
    proof {
        lemma_auto_spec_u32_to_from_le_bytes();
    }
    let dlen = data.len();
    let size = match read_u32(data, pos) {
        Ok(x) => x,
        Err(e) => {
            return Err(e);
        },
    };
    match read_zeros(data, pos + 4, 5) {
        Ok(_) => {},
        Err(e) => {
            proof {
                assert forall|t: Seq<char>| str_fits(t)
                    implies !encoded_at(data@, pos as int, enc_sized_string(t)) by {
                    if encoded_at(data@, pos as int, enc_sized_string(t)) {
                        lemma_encoded_slice(data@, pos as int, enc_sized_string(t), 4, 9);
                        assert(enc_sized_string(t).subrange(4, 9) =~= zero_bytes(5));
                    }
                }
            }
            return Err(e);
        },
    }
    // Any sized string encoded here puts its string region at `pos + 9`.
    proof {
        assert forall|t: Seq<char>| str_fits(t)
            && encoded_at(data@, pos as int, enc_sized_string(t))
            implies string_encoded_at(data@, pos + 9, t) by {
            let m = enc_string(t).len() as int;
            lemma_encoded_slice(data@, pos as int, enc_sized_string(t), 9, 9 + m);
            assert(enc_sized_string(t).subrange(9, 9 + m) =~= enc_string(t));
        }
    }
    let (s, end) = match read_string_with_length(data, pos + 9) {
        Ok(p) => p,
        Err(e) => {
            return Err(e);
        },
    };
    if size as usize != end - (pos + 9) {
        proof {
            assert forall|t: Seq<char>| str_fits(t)
                implies !encoded_at(data@, pos as int, enc_sized_string(t)) by {
                if encoded_at(data@, pos as int, enc_sized_string(t)) {
                    assert(t == s@);
                    lemma_encoded_slice(data@, pos as int, enc_sized_string(t), 0, 4);
                    assert(enc_sized_string(t).subrange(0, 4)
                        =~= spec_u32_to_le_bytes(enc_string(t).len() as u32));
                }
            }
        }
        return Err(DecodeError::LengthMismatch);
    }
    proof {
        assert(size == enc_string(s@).len());
        assert(enc_sized_string(s@) =~= data@.subrange(pos as int, end as int));
    }
    Ok((s, end))
}

/// Encodes a size-prefixed string region.
pub fn write_sized_string(out: &mut Vec<u8>, s: &str)
    requires
        str_fits(s@),
    ensures
        final(out)@ == old(out)@ + enc_sized_string(s@),
{
    let size = size_of_string_with_length(s);
    write_u32(out, size);
    write_zeros(out, 5);
    write_string_with_length(out, s);
    proof {
        assert(out@ =~= old(out)@ + enc_sized_string(s@));
    }
}

/// Encodes a string in the wire's length-prefixed form.
pub fn write_string_with_length(out: &mut Vec<u8>, s: &str)
    requires
        str_fits(s@),
    ensures
        final(out)@ == old(out)@ + enc_string(s@),
{
    proof {
        lemma_encode_utf8_len(s@);
    }
    if s.is_empty() {
        write_u32(out, 0);
        return;
    }
    let bytes = s.as_bytes();
    let n = bytes.len();
    write_u32(out, (n as u32) + 1);
    let ghost mid = out@;
    let mut i: usize = 0;
    while i < n
        invariant
            0 <= i <= n,
            n == bytes@.len(),
            bytes@ == encode_utf8(s@),
            out@ =~= mid + bytes@.subrange(0, i as int),
        decreases n - i,
    {
        out.push(*vstd::slice::slice_index_get(bytes, i));
        proof {
            assert(out@ =~= mid + bytes@.subrange(0, i + 1));
        }
        i = i + 1;
    }
    out.push(0);
    proof {
        assert(bytes@.subrange(0, n as int) =~= bytes@);
        assert(out@ =~= old(out)@ + enc_string(s@));
    }
}

} // verus!

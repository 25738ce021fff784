use vstd::prelude::*;

verus! {

use vstd::bytes::{lemma_auto_spec_u32_to_from_le_bytes};
use crate::DecodeError;
use crate::common::{encoded_at, read_u32, read_u64, read_u8, read_zeros, read_bytes, write_bytes};
use crate::TaggedSerialization;

/// What inflating a zlib stream yields.  Decompression is a pure function
/// of the compressed bytes, so the result only gets a name here; nothing
/// more is assumed of it.
pub uninterp spec fn zlib_inflate(data: Seq<u8>) -> Seq<u8>;

/// Relies on flate2's `ZlibDecoder` (through `std::io::Read::read_to_end`):
/// inflating a byte buffer is a pure function of those bytes, and a
/// malformed stream is reported as an error rather than read partially.
#[verifier::external_body]
fn inflate_zlib(data: &Vec<u8>) -> (r: Option<Vec<u8>>)
    ensures
        r matches Some(v) ==> v@ == zlib_inflate(data@),
{
    let mut d = flate2::bufread::ZlibDecoder::new(data.as_slice());
    let mut out: Vec<u8> = Vec::new();
    match std::io::Read::read_to_end(&mut d, &mut out) {
        Ok(_) => Some(out),
        Err(_) => None,
    }
}

/// The magic number that opens every compressed block.
pub open spec fn block_magic() -> u32 {
    0x9e2a83c1
}

/// One block of the outer compression envelope: a magic number, a flag
/// byte, four declared sizes, and a zlib stream.  `data` holds the
/// inflated bytes; the envelope is decoded once and never re-encoded, so
/// the compressed form is not kept.
#[derive(Debug)]
pub struct CompressedBlock {
    pub unk: u8,
    pub a_compresed_size: u64,
    pub a_uncompresed_size: u64,
    pub b_compresed_size: u64,
    pub b_uncompresed_size: u64,
    pub data: Vec<u8>,
}

impl CompressedBlock {
    /// Decodes one block at `pos`: the header is checked, the zlib stream
    /// is inflated, and the result is clipped to the declared uncompressed
    /// size.  The returned offset is the first byte after the block.
    pub fn decode(data: &Vec<u8>, pos: usize)
        -> (r: Result<(CompressedBlock, usize), DecodeError>)
        ensures
            r matches Ok(p) ==> {
                &&& pos < p.1 <= data@.len()
                &&& p.1 == pos + 48 + p.0.a_compresed_size
                &&& {
                    let full = zlib_inflate(data@.subrange(pos + 48, p.1 as int));
                    p.0.data@ == if full.len() > p.0.a_uncompresed_size {
                        full.subrange(0, p.0.a_uncompresed_size as int)
                    } else {
                        full
                    }
                }
            },
    {
        proof {
            lemma_auto_spec_u32_to_from_le_bytes();
        }
        let dlen = data.len();
        let magic = match read_u32(data, pos) {
            Ok(x) => x,
            Err(e) => {
                return Err(e);
            },
        };
        if magic != 0x9e2a83c1 {
            return Err(DecodeError::InvalidValue);
        }
        match read_zeros(data, pos + 4, 6) {
            Ok(_) => {},
            Err(e) => {
                return Err(e);
            },
        }
        let unk = match read_u8(data, pos + 10) {
            Ok(x) => x,
            Err(e) => {
                return Err(e);
            },
        };
        match read_zeros(data, pos + 11, 5) {
            Ok(_) => {},
            Err(e) => {
                return Err(e);
            },
        }
        let a_compresed_size = match read_u64(data, pos + 16) {
            Ok(x) => x,
            Err(e) => {
                return Err(e);
            },
        };
        let a_uncompresed_size = match read_u64(data, pos + 24) {
            Ok(x) => x,
            Err(e) => {
                return Err(e);
            },
        };
        let b_compresed_size = match read_u64(data, pos + 32) {
            Ok(x) => x,
            Err(e) => {
                return Err(e);
            },
        };
        let b_uncompresed_size = match read_u64(data, pos + 40) {
            Ok(x) => x,
            Err(e) => {
                return Err(e);
            },
        };
        if a_compresed_size > (dlen - (pos + 48)) as u64 {
            return Err(DecodeError::TruncatedBuffer);
        }
        let clen = a_compresed_size as usize;
        let compressed = match read_bytes(data, pos + 48, clen) {
            Ok(v) => v,
            Err(e) => {
                return Err(e);
            },
        };
        let mut inflated = match inflate_zlib(&compressed) {
            Some(v) => v,
            None => {
                return Err(DecodeError::MalformedString);
            },
        };
        if (inflated.len() as u64) > a_uncompresed_size {
            inflated.truncate(a_uncompresed_size as usize);
        }
        let b = CompressedBlock {
            unk,
            a_compresed_size,
            a_uncompresed_size,
            b_compresed_size,
            b_uncompresed_size,
            data: inflated,
        };
        Ok((b, pos + 48 + clen))
    }
}

/// A whole save file: its compression envelope, and the serialized region
/// the inflated blocks hold.
#[derive(Debug)]
pub struct CompressedSaveFile {
    pub blocks: Vec<CompressedBlock>,
    pub value: TaggedSerialization,
}

/// The inflated payloads of the blocks, joined in order.
pub open spec fn joined_blocks(s: Seq<CompressedBlock>) -> Seq<u8>
    decreases s,
{
    if s.len() == 0 {
        Seq::<u8>::empty()
    } else {
        joined_blocks(s.drop_last()) + s.last().data@
    }
}

pub proof fn lemma_joined_blocks_push(s: Seq<CompressedBlock>, b: CompressedBlock)
    ensures
        joined_blocks(s.push(b)) == joined_blocks(s) + b.data@,
{
    assert(s.push(b).drop_last() =~= s);
    assert(s.push(b).last() == b);
}

impl CompressedSaveFile {
    /// Decodes a save file: every envelope block is read and inflated, the
    /// inflated bytes are joined, and the serialized region inside them is
    /// decoded.  On success the region is well formed and its wire form
    /// stands verbatim at the start of the joined inflated bytes, so
    /// re-encoding the region reproduces those bytes.
    pub fn decode(data: &Vec<u8>) -> (r: Result<CompressedSaveFile, DecodeError>)
        ensures
            r matches Ok(c) ==> {
                &&& c.value.wf()
                &&& encoded_at(joined_blocks(c.blocks@), 0, c.value.enc())
            },
    {
        let dlen = data.len();
        let mut blocks: Vec<CompressedBlock> = Vec::new();
        let mut combined: Vec<u8> = Vec::new();
        let mut pos: usize = 0;
        while pos < dlen
            invariant
                0 <= pos <= dlen,
                dlen == data@.len(),
                combined@ == joined_blocks(blocks@),
            decreases dlen - pos,
        {
            let (b, nxt) = match CompressedBlock::decode(data, pos) {
                Ok(p) => p,
                Err(e) => {
                    return Err(e);
                },
            };
            proof {
                lemma_joined_blocks_push(blocks@, b);
            }
            write_bytes(&mut combined, &b.data);
            blocks.push(b);
            pos = nxt;
        }
        let (value, _end) = match TaggedSerialization::decode(&combined, 0) {
            Ok(p) => p,
            Err(e) => {
                return Err(e);
            },
        };
        Ok(CompressedSaveFile { blocks, value })
    }
}

} // verus!

use vstd::prelude::*;

use crate::err::BomError;
use crate::reader::{be32, lemma_be32_bounds, read_u32};

verus! {

/// One descriptor of the blocks index: the byte range a block occupies.
///
/// A block is identified by its position in the index. Zero length is legal
/// and classifies as an empty block.
#[derive(Clone, Copy, Debug, PartialEq, Eq, Structural)]
pub struct RawBlockEntry {
    /// Start offset of the block's bytes, relative to the start of the file.
    pub file_offset: u32,
    /// Length in bytes of the block.
    pub length: u32,
}

/// The flat table of block descriptors every other structure indexes into.
#[derive(Clone, Debug, PartialEq, Eq)]
pub struct BlocksIndex {
    /// The entry count the index declares.
    pub count: u32,
    /// The descriptors, in index order.
    pub entries: Vec<RawBlockEntry>,
}

/// Whether a blocks index region `[off, off + len)` lies inside the buffer
/// and can hold the entry count it declares.
pub open spec fn blocks_region_well_formed(s: Seq<u8>, off: int, len: int) -> bool {
    &&& off + len <= s.len()
    &&& len >= 4
    &&& 4 + 8 * be32(s, off) <= len
}

/// The `i`-th descriptor of the blocks index region at `off`.
pub open spec fn spec_block_entry(s: Seq<u8>, off: int, i: int) -> RawBlockEntry {
    RawBlockEntry {
        file_offset: be32(s, off + 4 + 8 * i) as u32,
        length: be32(s, off + 8 + 8 * i) as u32,
    }
}

/// What a decoded blocks index holds, byte for byte, for the region at
/// `off`.
pub open spec fn blocks_index_pins(s: Seq<u8>, off: int, ix: BlocksIndex) -> bool {
    &&& ix.count as int == be32(s, off)
    &&& ix.entries@.len() == ix.count
    &&& forall|i: int| 0 <= i < ix.count ==> ix.entries@[i] == spec_block_entry(s, off, i)
}

/// Decodes the blocks index from its declared region. Fails with
/// `CorruptIndex` exactly when the region lies outside the buffer or cannot
/// hold the count it declares.
pub fn parse_blocks_index(data: &Vec<u8>, off: u32, len: u32) -> (r: Result<
    BlocksIndex,
    BomError,
>)
    ensures
        r is Ok <==> blocks_region_well_formed(data@, off as int, len as int),
        r is Err ==> r->Err_0 == BomError::CorruptIndex,
        r is Ok ==> blocks_index_pins(data@, off as int, r->Ok_0),
{
    let o = off as usize;
    let l = len as usize;
    if l > data.len() || o > data.len() - l {
        return Err(BomError::CorruptIndex);
    }
    let end = o + l;
    let count = match read_u32(data, o, end) {
        Ok(c) => c,
        Err(_) => {
            return Err(BomError::CorruptIndex);
        },
    };
    proof {
        lemma_be32_bounds(data@, off as int);
    }
    let n = count as usize;
    if (n as u64) * 8 > (l as u64) - 4 {
        return Err(BomError::CorruptIndex);
    }
    let mut entries: Vec<RawBlockEntry> = Vec::new();
    let mut i: usize = 0;
    while i < n
        invariant
            o == off as usize,
            end == o + l,
            end <= data@.len(),
            n as int == be32(data@, o as int),
            4 + 8 * n <= l,
            i <= n,
            entries@.len() == i,
            forall|j: int| 0 <= j < i ==> entries@[j] == spec_block_entry(data@, o as int, j),
        decreases n - i,
    {
        let pos = o + 4 + 8 * i;
        let file_offset = match read_u32(data, pos, end) {
            Ok(v) => v,
            Err(_) => {
                return Err(BomError::CorruptIndex);
            },
        };
        let length = match read_u32(data, pos + 4, end) {
            Ok(v) => v,
            Err(_) => {
                return Err(BomError::CorruptIndex);
            },
        };
        proof {
            lemma_be32_bounds(data@, pos as int);
            lemma_be32_bounds(data@, pos + 4);
        }
        entries.push(RawBlockEntry { file_offset, length });
        i = i + 1;
    }
    Ok(BlocksIndex { count, entries })
}

} // verus!

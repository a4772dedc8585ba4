use vstd::prelude::*;

use crate::err::BomError;
use crate::reader::{be32, read_bytes, read_u32};

verus! {

/// The fixed five-field file header at the start of a BOM container.
///
/// The magic is recorded but never validated: an unexpected magic is a soft
/// signal and downstream decoding still proceeds best-effort.
#[derive(Clone, Debug, PartialEq, Eq)]
pub struct BomHeader {
    /// The first eight bytes of the file (`BOMStore` in well-formed files).
    pub magic: Vec<u8>,
    /// File format version number.
    pub version: u32,
    /// Number of blocks the header declares.
    pub number_of_blocks: u32,
    /// Offset of the blocks index region, relative to the start of the file.
    pub blocks_index_offset: u32,
    /// Length in bytes of the blocks index region.
    pub blocks_index_length: u32,
    /// Offset of the variables index region.
    pub vars_index_offset: u32,
    /// Length in bytes of the variables index region.
    pub vars_index_length: u32,
}

/// The number of bytes the fixed header occupies.
pub open spec fn header_len() -> int {
    32
}

/// What a decoded header holds, byte for byte.
pub open spec fn header_pins(s: Seq<u8>, h: BomHeader) -> bool {
    &&& h.magic@ == s.subrange(0, 8)
    &&& h.version as int == be32(s, 8)
    &&& h.number_of_blocks as int == be32(s, 12)
    &&& h.blocks_index_offset as int == be32(s, 16)
    &&& h.blocks_index_length as int == be32(s, 20)
    &&& h.vars_index_offset as int == be32(s, 24)
    &&& h.vars_index_length as int == be32(s, 28)
}

/// Decodes the fixed file header. Fails with `Truncated` exactly when the
/// buffer cannot hold the 32 header bytes.
pub fn parse_header(data: &Vec<u8>) -> (r: Result<BomHeader, BomError>)
    ensures
        r is Ok <==> data@.len() >= header_len(),
        r is Err ==> r->Err_0 == BomError::Truncated,
        r is Ok ==> header_pins(data@, r->Ok_0),
{
    if data.len() < 32 {
        return Err(BomError::Truncated);
    }
    let end = data.len();
    let magic = match read_bytes(data, 0, 8, end) {
        Ok(m) => m,
        Err(_) => {
            return Err(BomError::Truncated);
        },
    };
    let version = match read_u32(data, 8, end) {
        Ok(v) => v,
        Err(_) => {
            return Err(BomError::Truncated);
        },
    };
    let number_of_blocks = match read_u32(data, 12, end) {
        Ok(v) => v,
        Err(_) => {
            return Err(BomError::Truncated);
        },
    };
    let blocks_index_offset = match read_u32(data, 16, end) {
        Ok(v) => v,
        Err(_) => {
            return Err(BomError::Truncated);
        },
    };
    let blocks_index_length = match read_u32(data, 20, end) {
        Ok(v) => v,
        Err(_) => {
            return Err(BomError::Truncated);
        },
    };
    let vars_index_offset = match read_u32(data, 24, end) {
        Ok(v) => v,
        Err(_) => {
            return Err(BomError::Truncated);
        },
    };
    let vars_index_length = match read_u32(data, 28, end) {
        Ok(v) => v,
        Err(_) => {
            return Err(BomError::Truncated);
        },
    };
    Ok(BomHeader {
        magic,
        version,
        number_of_blocks,
        blocks_index_offset,
        blocks_index_length,
        vars_index_offset,
        vars_index_length,
    })
}

} // verus!

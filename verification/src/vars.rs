use vstd::prelude::*;

use crate::err::BomError;
use crate::reader::{be32, lemma_be32_bounds, read_bytes, read_u32, read_u8};

verus! {

/// One record of the variables index: a name bound to a block index.
///
/// Names need not be unique; resolution takes the first match in index
/// order. The name is kept as the raw bytes the record stores.
#[derive(Clone, Debug, PartialEq, Eq)]
pub struct NamedVariable {
    /// Index of the block holding this variable's data.
    pub block_index: u32,
    /// The stored length of the name.
    pub name_length: u8,
    /// The name bytes, exactly `name_length` of them.
    pub name: Vec<u8>,
}

/// The format's symbol table: every named variable, in index order.
#[derive(Clone, Debug, PartialEq, Eq)]
pub struct VarsIndex {
    /// The record count the index declares.
    pub count: u32,
    /// The records, in index order.
    pub vars: Vec<NamedVariable>,
}

/// Offset of the `i`-th variable record inside the buffer, given the region
/// offset: records are laid out back to back, each occupying 5 bytes plus
/// its stored name length.
pub open spec fn spec_var_pos(s: Seq<u8>, off: int, i: int) -> int
    decreases i,
{
    if i <= 0 {
        off + 4
    } else {
        spec_var_pos(s, off, i - 1) + 5 + s[spec_var_pos(s, off, i - 1) + 4]
    }
}

/// End offset of the `i`-th variable record.
pub open spec fn spec_var_end(s: Seq<u8>, off: int, i: int) -> int {
    spec_var_pos(s, off, i) + 5 + s[spec_var_pos(s, off, i) + 4]
}

/// Whether a variables index region `[off, off + len)` lies inside the
/// buffer and every record it declares fits inside the region: each record's
/// five fixed bytes and then its name bytes.
pub open spec fn vars_region_well_formed(s: Seq<u8>, off: int, len: int) -> bool {
    &&& off + len <= s.len()
    &&& len >= 4
    &&& forall|i: int|
        0 <= i < be32(s, off) ==> (#[trigger] spec_var_pos(s, off, i)) + 5 <= off + len
            && spec_var_end(s, off, i) <= off + len
}

/// What a decoded variables index holds, byte for byte, for the region at
/// `off`.
pub open spec fn vars_index_pins(s: Seq<u8>, off: int, ix: VarsIndex) -> bool {
    &&& ix.count as int == be32(s, off)
    &&& ix.vars@.len() == ix.count
    &&& forall|i: int|
        0 <= i < ix.count ==> {
            let pos = #[trigger] spec_var_pos(s, off, i);
            &&& ix.vars@[i].block_index as int == be32(s, pos)
            &&& ix.vars@[i].name_length == s[pos + 4]
            &&& ix.vars@[i].name@ == s.subrange(pos + 5, pos + 5 + s[pos + 4])
        }
}

/// Decodes the variables index from its declared region. Fails with
/// `CorruptIndex` exactly when the region lies outside the buffer or a
/// declared record does not fit inside the region.
pub fn parse_vars_index(data: &Vec<u8>, off: u32, len: u32) -> (r: Result<VarsIndex, BomError>)
    ensures
        r is Ok <==> vars_region_well_formed(data@, off as int, len as int),
        r is Err ==> r->Err_0 == BomError::CorruptIndex,
        r is Ok ==> vars_index_pins(data@, off as int, r->Ok_0),
{
    let o = off as usize;
    let l = len as usize;
    if l > data.len() || o > data.len() - l {
        return Err(BomError::CorruptIndex);
    }
    let end = o + l;
    let count = match read_u32(data, o, end) {
        Ok(c) => c,
        Err(_) => {
            return Err(BomError::CorruptIndex);
        },
    };
    proof {
        lemma_be32_bounds(data@, off as int);
    }
    let n = count as usize;
    let mut vars: Vec<NamedVariable> = Vec::new();
    let mut pos: usize = o + 4;
    let mut i: usize = 0;
    while i < n
        invariant
            o == off as usize,
            l == len as usize,
            end == o + l,
            end <= data@.len(),
            l >= 4,
            n as int == be32(data@, o as int),
            i <= n,
            pos as int == spec_var_pos(data@, off as int, i as int),
            pos <= end,
            vars@.len() == i,
            forall|j: int|
                0 <= j < i ==> (#[trigger] spec_var_pos(data@, off as int, j)) + 5 <= end
                    && spec_var_end(data@, off as int, j) <= end,
            forall|j: int|
                0 <= j < i ==> {
                    let p = #[trigger] spec_var_pos(data@, off as int, j);
                    &&& vars@[j].block_index as int == be32(data@, p)
                    &&& vars@[j].name_length == data@[p + 4]
                    &&& vars@[j].name@ == data@.subrange(p + 5, p + 5 + data@[p + 4])
                },
        decreases n - i,
    {
        if end - pos < 5 {
            proof {
                assert(spec_var_pos(data@, off as int, i as int) + 5 > off + len);
                assert(!vars_region_well_formed(data@, off as int, len as int));
            }
            return Err(BomError::CorruptIndex);
        }
        let block_index = match read_u32(data, pos, end) {
            Ok(v) => v,
            Err(_) => {
                return Err(BomError::CorruptIndex);
            },
        };
        let name_length = match read_u8(data, pos + 4, end) {
            Ok(v) => v,
            Err(_) => {
                return Err(BomError::CorruptIndex);
            },
        };
        let name = match read_bytes(data, pos + 5, name_length as usize, end) {
            Ok(v) => v,
            Err(_) => {
                proof {
                    assert(spec_var_end(data@, off as int, i as int) > off + len);
                    assert(!vars_region_well_formed(data@, off as int, len as int));
                }
                return Err(BomError::CorruptIndex);
            },
        };
        proof {
            lemma_be32_bounds(data@, pos as int);
        }
        vars.push(NamedVariable { block_index, name_length, name });
        pos = pos + 5 + name_length as usize;
        i = i + 1;
    }
    Ok(VarsIndex { count, vars })
}

} // verus!

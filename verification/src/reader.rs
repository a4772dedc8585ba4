use vstd::prelude::*;

use crate::err::BomError;

verus! {

/// The big-endian 16-bit value held at `off` in `s`.
pub open spec fn be16(s: Seq<u8>, off: int) -> int {
    s[off] * 0x100 + s[off + 1]
}

/// The big-endian 32-bit value held at `off` in `s`.
pub open spec fn be32(s: Seq<u8>, off: int) -> int {
    s[off] * 0x1000000 + s[off + 1] * 0x10000 + s[off + 2] * 0x100 + s[off + 3]
}

/// The value of a big-endian 16-bit field always fits in `u16`.
pub proof fn lemma_be16_bounds(s: Seq<u8>, off: int)
    ensures
        0 <= be16(s, off) < 0x10000,
{
}

/// The value of a big-endian 32-bit field always fits in `u32`.
pub proof fn lemma_be32_bounds(s: Seq<u8>, off: int)
    ensures
        0 <= be32(s, off) < 0x100000000,
{
}

/// Reads the byte at `off`, bounded by `end` (a limit at or before the end
/// of the buffer, so that a read confined to a declared region cannot stray
/// past it).
pub fn read_u8(data: &Vec<u8>, off: usize, end: usize) -> (r: Result<u8, BomError>)
    ensures
        r is Ok <==> off + 1 <= end && end <= data@.len(),
        r is Ok ==> r->Ok_0 == data@[off as int],
        r is Err ==> r->Err_0 == BomError::OutOfBounds,
{
    if off < end && end <= data.len() {
        Ok(data[off])
    } else {
        Err(BomError::OutOfBounds)
    }
}

/// Reads the big-endian 16-bit integer at `off`, bounded by `end`.
pub fn read_u16(data: &Vec<u8>, off: usize, end: usize) -> (r: Result<u16, BomError>)
    ensures
        r is Ok <==> off + 2 <= end && end <= data@.len(),
        r is Ok ==> r->Ok_0 == be16(data@, off as int),
        r is Err ==> r->Err_0 == BomError::OutOfBounds,
{
    if end <= data.len() && off < end && end - off >= 2 {
        let b0 = data[off];
        let b1 = data[off + 1];
        Ok((b0 as u16) * 0x100 + (b1 as u16))
    } else {
        Err(BomError::OutOfBounds)
    }
}

/// Reads the big-endian 32-bit integer at `off`, bounded by `end`.
pub fn read_u32(data: &Vec<u8>, off: usize, end: usize) -> (r: Result<u32, BomError>)
    ensures
        r is Ok <==> off + 4 <= end && end <= data@.len(),
        r is Ok ==> r->Ok_0 == be32(data@, off as int),
        r is Err ==> r->Err_0 == BomError::OutOfBounds,
{
    if end <= data.len() && off < end && end - off >= 4 {
        let b0 = data[off];
        let b1 = data[off + 1];
        let b2 = data[off + 2];
        let b3 = data[off + 3];
        Ok((b0 as u32) * 0x1000000 + (b1 as u32) * 0x10000 + (b2 as u32) * 0x100 + (b3 as u32))
    } else {
        Err(BomError::OutOfBounds)
    }
}

/// Copies the `len` bytes starting at `off`, bounded by `end`.
pub fn read_bytes(data: &Vec<u8>, off: usize, len: usize, end: usize) -> (r: Result<
    Vec<u8>,
    BomError,
>)
    ensures
        r is Ok <==> off + len <= end && end <= data@.len(),
        r is Ok ==> r->Ok_0@ == data@.subrange(off as int, off + len),
        r is Err ==> r->Err_0 == BomError::OutOfBounds,
{
    if off <= end && end <= data.len() && len <= end - off {
        let mut out: Vec<u8> = Vec::new();
        let mut i: usize = 0;
        while i < len
            invariant
                off + len <= end,
                end <= data@.len(),
                i <= len,
                out@ == data@.subrange(off as int, off + i),
            decreases len - i,
        {
            out.push(data[off + i]);
            assert(out@ =~= data@.subrange(off as int, off + i + 1));
            i = i + 1;
        }
        Ok(out)
    } else {
        Err(BomError::OutOfBounds)
    }
}

/// Whether the bytes of `s` in `[start, end)` form a NUL-terminated string:
/// non-empty, ending in a NUL byte that appears nowhere earlier in the range.
pub open spec fn is_cstring_range(s: Seq<u8>, start: int, end: int) -> bool {
    &&& start < end <= s.len()
    &&& s[end - 1] == 0u8
    &&& forall|j: int| start <= j < end - 1 ==> s[j] != 0u8
}

/// Reads the NUL-terminated string occupying all of `[off, end)`: the final
/// byte must be NUL and no earlier byte may be. Returns the bytes without
/// the terminator.
pub fn read_cstring(data: &Vec<u8>, off: usize, end: usize) -> (r: Result<Vec<u8>, BomError>)
    requires
        end <= data@.len(),
    ensures
        r is Ok <==> is_cstring_range(data@, off as int, end as int),
        r is Ok ==> r->Ok_0@ == data@.subrange(off as int, end - 1),
        r is Err ==> r->Err_0 == BomError::BadString,
{
    if off >= end {
        return Err(BomError::BadString);
    }
    if data[end - 1] != 0 {
        return Err(BomError::BadString);
    }
    let mut out: Vec<u8> = Vec::new();
    let mut i: usize = off;
    while i < end - 1
        invariant
            off <= i <= end - 1,
            end <= data@.len(),
            out@ == data@.subrange(off as int, i as int),
            forall|j: int| off <= j < i ==> data@[j] != 0u8,
        decreases end - i,
    {
        let b = data[i];
        if b == 0 {
            return Err(BomError::BadString);
        }
        out.push(b);
        assert(out@ =~= data@.subrange(off as int, i + 1));
        i = i + 1;
    }
    Ok(out)
}

} // verus!

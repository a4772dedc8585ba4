use vstd::prelude::*;

use crate::block::{
    bominfo_full, bominfo_pins, file_full, file_pins, parse_bominfo, parse_file, parse_pathinfo,
    parse_paths, parse_pointer, parse_record, parse_tree, parse_vindex, pathinfo_full,
    pathinfo_pins, paths_full, paths_pins, pointer_full, record_fault, record_full, record_pins,
    tree_hdr_full, tree_pins, vindex_full, vindex_pins, Block, BlockPaths, BlockPathRecordPointer,
    BlockTreePointer, CandidateFail,
};
use crate::blocks::RawBlockEntry;
use crate::err::BomError;
use crate::reader::{be16, be32};

verus! {

/// Start offset of the block entry `i` describes.
pub open spec fn blk_bo(es: Seq<RawBlockEntry>, i: int) -> int {
    es[i].file_offset as int
}

/// End offset of the block entry `i` describes.
pub open spec fn blk_bend(es: Seq<RawBlockEntry>, i: int) -> int {
    es[i].file_offset + es[i].length
}

/// A block reference that can be followed: the index exists and the block's
/// bytes lie inside the buffer.
pub open spec fn ref_ok(s: Seq<u8>, es: Seq<RawBlockEntry>, i: int) -> bool {
    0 <= i < es.len() && blk_bend(es, i) <= s.len()
}

/// A block reference whose entry exists but reaches past the buffer: the
/// fatal fault case of following a reference.
pub open spec fn ref_fault(s: Seq<u8>, es: Seq<RawBlockEntry>, i: int) -> bool {
    0 <= i < es.len() && blk_bend(es, i) > s.len()
}

/// Resolves a block index to the byte range of its block. An absent index
/// fails soft; a range past the buffer is a fault.
pub(crate) fn ref_block(data: &Vec<u8>, entries: &Vec<RawBlockEntry>, idx: u32) -> (r: Result<
    (usize, usize),
    CandidateFail,
>)
    ensures
        r is Ok <==> ref_ok(data@, entries@, idx as int),
        r is Ok ==> {
            &&& r->Ok_0.0 as int == blk_bo(entries@, idx as int)
            &&& r->Ok_0.1 as int == blk_bend(entries@, idx as int)
            &&& r->Ok_0.0 <= r->Ok_0.1 <= data@.len()
        },
        r is Err ==> (r->Err_0 is Fault <==> ref_fault(data@, entries@, idx as int)),
        r is Err && r->Err_0 is Fault ==> r->Err_0->Fault_0 == BomError::OutOfBounds,
        r matches Err(CandidateFail::Soft(e)) ==> e == BomError::BadIndex,
{
    let i = idx as usize;
    if i >= entries.len() {
        return Err(CandidateFail::Soft(BomError::BadIndex));
    }
    let e = entries[i];
    let bo = e.file_offset as usize;
    let l = e.length as usize;
    if l > data.len() || bo > data.len() - l {
        return Err(CandidateFail::Fault(BomError::OutOfBounds));
    }
    Ok((bo, bo + l))
}

/// A tree candidate: a well-shaped tree header whose referenced paths block
/// exists and is itself well shaped.
pub open spec fn tree_cand_full(s: Seq<u8>, es: Seq<RawBlockEntry>, bo: int, bend: int) -> bool {
    &&& tree_hdr_full(s, bo, bend)
    &&& ref_ok(s, es, be32(s, bo + 8))
    &&& paths_full(s, blk_bo(es, be32(s, bo + 8)), blk_bend(es, be32(s, bo + 8)))
}

/// The fault case of a tree candidate: its referenced paths block reaches
/// past the buffer.
pub open spec fn tree_cand_fault(s: Seq<u8>, es: Seq<RawBlockEntry>, bo: int, bend: int) -> bool {
    &&& tree_hdr_full(s, bo, bend)
    &&& ref_fault(s, es, be32(s, bo + 8))
}

fn try_tree(data: &Vec<u8>, entries: &Vec<RawBlockEntry>, bo: usize, bend: usize) -> (r: Result<
    crate::block::BlockTree,
    CandidateFail,
>)
    requires
        bo <= bend <= data@.len(),
        bend - bo >= 4,
    ensures
        r is Ok <==> tree_cand_full(data@, entries@, bo as int, bend as int),
        r is Ok ==> tree_pins(data@, bo as int, r->Ok_0),
        r is Err ==> (r->Err_0 is Fault <==> tree_cand_fault(data@, entries@, bo as int, bend as int)),
        r is Err && r->Err_0 is Fault ==> r->Err_0->Fault_0 == BomError::OutOfBounds,
{
    let t = match parse_tree(data, bo, bend) {
        Ok(t) => t,
        Err(_) => {
            return Err(CandidateFail::Soft(BomError::UnknownBlockType));
        },
    };
    let (ro, rend) = match ref_block(data, entries, t.block_paths_index) {
        Ok(p) => p,
        Err(f) => {
            return Err(f);
        },
    };
    match parse_paths(data, ro, rend) {
        Ok(_) => Ok(t),
        Err(e) => Err(CandidateFail::Soft(e)),
    }
}

/// A vindex candidate: a well-shaped vindex block whose referenced tree
/// block exists and carries a well-shaped tree header.
pub open spec fn vindex_cand_full(s: Seq<u8>, es: Seq<RawBlockEntry>, bo: int, bend: int) -> bool {
    &&& vindex_full(s, bo, bend)
    &&& ref_ok(s, es, be32(s, bo + 4))
    &&& tree_hdr_full(s, blk_bo(es, be32(s, bo + 4)), blk_bend(es, be32(s, bo + 4)))
}

/// The fault cases of a vindex candidate: the referenced tree reaches past
/// the buffer, or is too short to hold the magic bytes its decoder inspects.
pub open spec fn vindex_cand_fault(s: Seq<u8>, es: Seq<RawBlockEntry>, bo: int, bend: int) -> bool {
    &&& vindex_full(s, bo, bend)
    &&& {
        ||| ref_fault(s, es, be32(s, bo + 4))
        ||| (ref_ok(s, es, be32(s, bo + 4)) && blk_bend(es, be32(s, bo + 4)) - blk_bo(
            es,
            be32(s, bo + 4),
        ) < 4)
    }
}

fn try_vindex(data: &Vec<u8>, entries: &Vec<RawBlockEntry>, bo: usize, bend: usize) -> (r: Result<
    crate::block::BlockVIndex,
    CandidateFail,
>)
    requires
        bo <= bend <= data@.len(),
    ensures
        r is Ok <==> vindex_cand_full(data@, entries@, bo as int, bend as int),
        r is Ok ==> vindex_pins(data@, bo as int, r->Ok_0),
        r is Err ==> (r->Err_0 is Fault <==> vindex_cand_fault(
            data@,
            entries@,
            bo as int,
            bend as int,
        )),
        r is Err && r->Err_0 is Fault ==> r->Err_0->Fault_0 == BomError::OutOfBounds,
{
    let v = match parse_vindex(data, bo, bend) {
        Ok(v) => v,
        Err(e) => {
            return Err(CandidateFail::Soft(e));
        },
    };
    let (ro, rend) = match ref_block(data, entries, v.tree_block_index) {
        Ok(p) => p,
        Err(f) => {
            return Err(f);
        },
    };
    match parse_tree(data, ro, rend) {
        Ok(_) => Ok(v),
        Err(f) => Err(f),
    }
}

/// A path info candidate: a well-shaped path info block whose referenced
/// path record exists and decodes.
pub open spec fn pathinfo_cand_full(s: Seq<u8>, es: Seq<RawBlockEntry>, bo: int, bend: int) -> bool {
    &&& pathinfo_full(s, bo, bend)
    &&& ref_ok(s, es, be32(s, bo + 4))
    &&& record_full(s, blk_bo(es, be32(s, bo + 4)), blk_bend(es, be32(s, bo + 4)))
}

/// The fault cases of a path info candidate.
pub open spec fn pathinfo_cand_fault(
    s: Seq<u8>,
    es: Seq<RawBlockEntry>,
    bo: int,
    bend: int,
) -> bool {
    &&& pathinfo_full(s, bo, bend)
    &&& {
        ||| ref_fault(s, es, be32(s, bo + 4))
        ||| (ref_ok(s, es, be32(s, bo + 4)) && record_fault(
            s,
            blk_bo(es, be32(s, bo + 4)),
            blk_bend(es, be32(s, bo + 4)),
        ))
    }
}

fn try_pathinfo(data: &Vec<u8>, entries: &Vec<RawBlockEntry>, bo: usize, bend: usize) -> (r:
    Result<crate::block::BlockPathInfoIndex, CandidateFail>)
    requires
        bo <= bend <= data@.len(),
    ensures
        r is Ok <==> pathinfo_cand_full(data@, entries@, bo as int, bend as int),
        r is Ok ==> pathinfo_pins(data@, bo as int, r->Ok_0),
        r is Err ==> (r->Err_0 is Fault <==> pathinfo_cand_fault(
            data@,
            entries@,
            bo as int,
            bend as int,
        )),
        r is Err && r->Err_0 is Fault ==> r->Err_0->Fault_0 == BomError::OutOfBounds,
{
    let v = match parse_pathinfo(data, bo, bend) {
        Ok(v) => v,
        Err(e) => {
            return Err(CandidateFail::Soft(e));
        },
    };
    let (ro, rend) = match ref_block(data, entries, v.path_record_index) {
        Ok(p) => p,
        Err(f) => {
            return Err(f);
        },
    };
    match parse_record(data, ro, rend) {
        Ok(_) => Ok(v),
        Err(f) => Err(f),
    }
}

/// A record pointer candidate: the pointed-at record exists and decodes.
pub open spec fn recptr_cand_full(s: Seq<u8>, es: Seq<RawBlockEntry>, bo: int, bend: int) -> bool {
    &&& pointer_full(s, bo, bend)
    &&& ref_ok(s, es, be32(s, bo))
    &&& record_full(s, blk_bo(es, be32(s, bo)), blk_bend(es, be32(s, bo)))
}

/// The fault cases of a record pointer candidate.
pub open spec fn recptr_cand_fault(s: Seq<u8>, es: Seq<RawBlockEntry>, bo: int, bend: int) -> bool {
    &&& pointer_full(s, bo, bend)
    &&& {
        ||| ref_fault(s, es, be32(s, bo))
        ||| (ref_ok(s, es, be32(s, bo)) && record_fault(
            s,
            blk_bo(es, be32(s, bo)),
            blk_bend(es, be32(s, bo)),
        ))
    }
}

fn try_recptr(data: &Vec<u8>, entries: &Vec<RawBlockEntry>, bo: usize, bend: usize) -> (r: Result<
    BlockPathRecordPointer,
    CandidateFail,
>)
    requires
        bo <= bend <= data@.len(),
    ensures
        r is Ok <==> recptr_cand_full(data@, entries@, bo as int, bend as int),
        r is Ok ==> r->Ok_0.block_path_record_index as int == be32(data@, bo as int),
        r is Err ==> (r->Err_0 is Fault <==> recptr_cand_fault(
            data@,
            entries@,
            bo as int,
            bend as int,
        )),
        r is Err && r->Err_0 is Fault ==> r->Err_0->Fault_0 == BomError::OutOfBounds,
{
    let v = match parse_pointer(data, bo, bend) {
        Ok(v) => v,
        Err(e) => {
            return Err(CandidateFail::Soft(e));
        },
    };
    let (ro, rend) = match ref_block(data, entries, v) {
        Ok(p) => p,
        Err(f) => {
            return Err(f);
        },
    };
    match parse_record(data, ro, rend) {
        Ok(_) => Ok(BlockPathRecordPointer { block_path_record_index: v }),
        Err(f) => Err(f),
    }
}

/// A tree pointer candidate: the pointed-at tree exists and carries a
/// well-shaped tree header.
pub open spec fn treeptr_cand_full(s: Seq<u8>, es: Seq<RawBlockEntry>, bo: int, bend: int) -> bool {
    &&& pointer_full(s, bo, bend)
    &&& ref_ok(s, es, be32(s, bo))
    &&& tree_hdr_full(s, blk_bo(es, be32(s, bo)), blk_bend(es, be32(s, bo)))
}

/// The fault cases of a tree pointer candidate.
pub open spec fn treeptr_cand_fault(s: Seq<u8>, es: Seq<RawBlockEntry>, bo: int, bend: int) -> bool {
    &&& pointer_full(s, bo, bend)
    &&& {
        ||| ref_fault(s, es, be32(s, bo))
        ||| (ref_ok(s, es, be32(s, bo)) && blk_bend(es, be32(s, bo)) - blk_bo(es, be32(s, bo)) < 4)
    }
}

fn try_treeptr(data: &Vec<u8>, entries: &Vec<RawBlockEntry>, bo: usize, bend: usize) -> (r: Result<
    BlockTreePointer,
    CandidateFail,
>)
    requires
        bo <= bend <= data@.len(),
    ensures
        r is Ok <==> treeptr_cand_full(data@, entries@, bo as int, bend as int),
        r is Ok ==> r->Ok_0.block_tree_index as int == be32(data@, bo as int),
        r is Err ==> (r->Err_0 is Fault <==> treeptr_cand_fault(
            data@,
            entries@,
            bo as int,
            bend as int,
        )),
        r is Err && r->Err_0 is Fault ==> r->Err_0->Fault_0 == BomError::OutOfBounds,
{
    let v = match parse_pointer(data, bo, bend) {
        Ok(v) => v,
        Err(e) => {
            return Err(CandidateFail::Soft(e));
        },
    };
    let (ro, rend) = match ref_block(data, entries, v) {
        Ok(p) => p,
        Err(f) => {
            return Err(f);
        },
    };
    match parse_tree(data, ro, rend) {
        Ok(_) => Ok(BlockTreePointer { block_tree_index: v }),
        Err(f) => Err(f),
    }
}

/// The block index a paths member `j` stores.
pub open spec fn pmember_block(s: Seq<u8>, bo: int, j: int) -> int {
    be32(s, bo + 12 + 8 * j)
}

/// The file block index a paths member `j` stores.
pub open spec fn pmember_file(s: Seq<u8>, bo: int, j: int) -> int {
    be32(s, bo + 16 + 8 * j)
}

/// The record index stored by the path info block at block index `bi`.
pub open spec fn pmember_record(s: Seq<u8>, es: Seq<RawBlockEntry>, bi: int) -> int {
    be32(s, blk_bo(es, bi) + 4)
}

/// One paths member resolves completely: its path info, file, and record
/// blocks all exist and decode.
pub open spec fn pentry_full(s: Seq<u8>, es: Seq<RawBlockEntry>, bi: int, fi: int) -> bool {
    &&& ref_ok(s, es, bi)
    &&& pathinfo_full(s, blk_bo(es, bi), blk_bend(es, bi))
    &&& ref_ok(s, es, fi)
    &&& file_full(s, blk_bo(es, fi), blk_bend(es, fi))
    &&& ref_ok(s, es, pmember_record(s, es, bi))
    &&& record_full(
        s,
        blk_bo(es, pmember_record(s, es, bi)),
        blk_bend(es, pmember_record(s, es, bi)),
    )
}

/// The fault cases of resolving one paths member, in the order resolution
/// follows the references.
pub open spec fn pentry_fault(s: Seq<u8>, es: Seq<RawBlockEntry>, bi: int, fi: int) -> bool {
    ||| ref_fault(s, es, bi)
    ||| (ref_ok(s, es, bi) && pathinfo_full(s, blk_bo(es, bi), blk_bend(es, bi)) && {
        ||| ref_fault(s, es, fi)
        ||| (ref_ok(s, es, fi) && file_full(s, blk_bo(es, fi), blk_bend(es, fi)) && {
            ||| ref_fault(s, es, pmember_record(s, es, bi))
            ||| (ref_ok(s, es, pmember_record(s, es, bi)) && record_fault(
                s,
                blk_bo(es, pmember_record(s, es, bi)),
                blk_bend(es, pmember_record(s, es, bi)),
            ))
        })
    })
}

fn check_pentry(data: &Vec<u8>, entries: &Vec<RawBlockEntry>, bi: u32, fi: u32) -> (r: Result<
    (),
    CandidateFail,
>)
    ensures
        r is Ok <==> pentry_full(data@, entries@, bi as int, fi as int),
        r is Err ==> (r->Err_0 is Fault <==> pentry_fault(data@, entries@, bi as int, fi as int)),
        r is Err && r->Err_0 is Fault ==> r->Err_0->Fault_0 == BomError::OutOfBounds,
{
    let (io, iend) = match ref_block(data, entries, bi) {
        Ok(p) => p,
        Err(f) => {
            return Err(f);
        },
    };
    let info = match parse_pathinfo(data, io, iend) {
        Ok(v) => v,
        Err(e) => {
            return Err(CandidateFail::Soft(e));
        },
    };
    let (fo, fend) = match ref_block(data, entries, fi) {
        Ok(p) => p,
        Err(f) => {
            return Err(f);
        },
    };
    match parse_file(data, fo, fend) {
        Ok(_) => (),
        Err(e) => {
            return Err(CandidateFail::Soft(e));
        },
    };
    let (ro, rend) = match ref_block(data, entries, info.path_record_index) {
        Ok(p) => p,
        Err(f) => {
            return Err(f);
        },
    };
    match parse_record(data, ro, rend) {
        Ok(_) => Ok(()),
        Err(f) => Err(f),
    }
}

/// A paths candidate: a well-shaped paths block all of whose members
/// resolve completely.
pub open spec fn paths_cand_full(s: Seq<u8>, es: Seq<RawBlockEntry>, bo: int, bend: int) -> bool {
    &&& paths_full(s, bo, bend)
    &&& forall|j: int|
        0 <= j < be16(s, bo + 2) ==> pentry_full(
            s,
            es,
            #[trigger] pmember_block(s, bo, j),
            pmember_file(s, bo, j),
        )
}

/// The fault case of a paths candidate: members resolve completely up to
/// some member whose resolution faults.
pub open spec fn paths_cand_fault(s: Seq<u8>, es: Seq<RawBlockEntry>, bo: int, bend: int) -> bool {
    &&& paths_full(s, bo, bend)
    &&& exists|j: int|
        0 <= j < be16(s, bo + 2) && (forall|k: int|
            0 <= k < j ==> pentry_full(
                s,
                es,
                #[trigger] pmember_block(s, bo, k),
                pmember_file(s, bo, k),
            )) && pentry_fault(s, es, #[trigger] pmember_block(s, bo, j), pmember_file(s, bo, j))
}

fn try_paths(data: &Vec<u8>, entries: &Vec<RawBlockEntry>, bo: usize, bend: usize) -> (r: Result<
    BlockPaths,
    CandidateFail,
>)
    requires
        bo <= bend <= data@.len(),
    ensures
        r is Ok <==> paths_cand_full(data@, entries@, bo as int, bend as int),
        r is Ok ==> paths_pins(data@, bo as int, r->Ok_0),
        r is Err ==> (r->Err_0 is Fault <==> paths_cand_fault(
            data@,
            entries@,
            bo as int,
            bend as int,
        )),
        r is Err && r->Err_0 is Fault ==> r->Err_0->Fault_0 == BomError::OutOfBounds,
{
    let p = match parse_paths(data, bo, bend) {
        Ok(v) => v,
        Err(e) => {
            return Err(CandidateFail::Soft(e));
        },
    };
    let n = p.paths.len();
    let mut j: usize = 0;
    while j < n
        invariant
            bo <= bend <= data@.len(),
            n == p.paths@.len(),
            paths_full(data@, bo as int, bend as int),
            paths_pins(data@, bo as int, p),
            j <= n,
            forall|k: int|
                0 <= k < j ==> pentry_full(
                    data@,
                    entries@,
                    #[trigger] pmember_block(data@, bo as int, k),
                    pmember_file(data@, bo as int, k),
                ),
        decreases n - j,
    {
        let m = p.paths[j];
        match check_pentry(data, entries, m.block_index, m.file_index) {
            Ok(_) => {},
            Err(CandidateFail::Fault(e)) => {
                proof {
                    assert(pentry_fault(
                        data@,
                        entries@,
                        pmember_block(data@, bo as int, j as int),
                        pmember_file(data@, bo as int, j as int),
                    ));
                }
                return Err(CandidateFail::Fault(e));
            },
            Err(CandidateFail::Soft(e)) => {
                proof {
                    assert(!pentry_full(
                        data@,
                        entries@,
                        pmember_block(data@, bo as int, j as int),
                        pmember_file(data@, bo as int, j as int),
                    ));
                    assert(!pentry_fault(
                        data@,
                        entries@,
                        pmember_block(data@, bo as int, j as int),
                        pmember_file(data@, bo as int, j as int),
                    ));
                }
                return Err(CandidateFail::Soft(e));
            },
        }
        j = j + 1;
    }
    Ok(p)
}

/// Whether block entry `e`'s byte range lies inside the buffer.
pub open spec fn entry_in_buffer(s: Seq<u8>, e: RawBlockEntry) -> bool {
    e.file_offset + e.length <= s.len()
}

/// The whole story of classifying one block, given the buffer, the blocks
/// index entries, and the block index: which kind is returned under which
/// shape of the bytes, in the order candidates are tried.
pub open spec fn classify_post(s: Seq<u8>, es: Seq<RawBlockEntry>, index: int, b: Block) -> bool {
    if !(0 <= index < es.len()) {
        b == Block::Unknown(BomError::BadIndex)
    } else {
        let e = es[index];
        let bo = blk_bo(es, index);
        let bend = blk_bend(es, index);
        let c1 = index == 1 && bominfo_full(s, bo, bend);
        let tf = tree_cand_full(s, es, bo, bend);
        let tl = tree_cand_fault(s, es, bo, bend);
        let pf = paths_cand_full(s, es, bo, bend);
        let pl = paths_cand_fault(s, es, bo, bend);
        let vf = vindex_cand_full(s, es, bo, bend);
        let vl = vindex_cand_fault(s, es, bo, bend);
        let nf = pathinfo_cand_full(s, es, bo, bend);
        let nl = pathinfo_cand_fault(s, es, bo, bend);
        let rf = record_full(s, bo, bend);
        let rl = record_fault(s, bo, bend);
        let ff = file_full(s, bo, bend);
        let qf = recptr_cand_full(s, es, bo, bend);
        let ql = recptr_cand_fault(s, es, bo, bend);
        let uf = treeptr_cand_full(s, es, bo, bend);
        let ul = treeptr_cand_fault(s, es, bo, bend);
        let bf = bominfo_full(s, bo, bend);
        &&& (e.length == 0 <==> b == Block::Empty)
        &&& (0 < e.length < 4 ==> b == Block::Unknown(BomError::TooSmall))
        &&& (e.length >= 4 && !entry_in_buffer(s, e) ==> b == Block::Unknown(BomError::OutOfBounds))
        &&& (e.length >= 4 && entry_in_buffer(s, e) ==> {
            // what each returned kind is made of
            &&& (b matches Block::BomInfo(v) ==> bf && bominfo_pins(s, bo, v))
            &&& (b matches Block::Tree(v) ==> tf && tree_pins(s, bo, v))
            &&& (b matches Block::Paths(v) ==> pf && paths_pins(s, bo, v))
            &&& (b matches Block::VIndex(v) ==> vf && vindex_pins(s, bo, v))
            &&& (b matches Block::PathInfoIndex(v) ==> nf && pathinfo_pins(s, bo, v))
            &&& (b matches Block::PathRecord(v) ==> rf && record_pins(s, bo, v))
            &&& (b matches Block::File(v) ==> ff && file_pins(s, bo, bend, v))
            &&& (b matches Block::PathRecordPointer(v) ==> qf && v.block_path_record_index as int
                == be32(s, bo))
            &&& (b matches Block::TreePointer(v) ==> uf && v.block_tree_index as int == be32(s, bo))
            // which kind wins, in candidate order
            &&& (c1 ==> b is BomInfo)
            &&& (!c1 && tf ==> b is Tree)
            &&& (!c1 && !tf && tl ==> b == Block::Unknown(BomError::OutOfBounds))
            &&& (!c1 && !tf && !tl && pf ==> b is Paths)
            &&& (!c1 && !tf && !tl && !pf && pl ==> b == Block::Unknown(BomError::OutOfBounds))
            &&& (!c1 && !tf && !tl && !pf && !pl && vf ==> b is VIndex)
            &&& (!c1 && !tf && !tl && !pf && !pl && !vf && vl ==> b == Block::Unknown(
                BomError::OutOfBounds,
            ))
            &&& (!c1 && !tf && !tl && !pf && !pl && !vf && !vl && nf ==> b is PathInfoIndex)
            &&& (!c1 && !tf && !tl && !pf && !pl && !vf && !vl && !nf && nl ==> b == Block::Unknown(
                BomError::OutOfBounds,
            ))
            &&& (!c1 && !tf && !tl && !pf && !pl && !vf && !vl && !nf && !nl && rf
                ==> b is PathRecord)
            &&& (!c1 && !tf && !tl && !pf && !pl && !vf && !vl && !nf && !nl && !rf && rl ==> b
                == Block::Unknown(BomError::OutOfBounds))
            &&& (!c1 && !tf && !tl && !pf && !pl && !vf && !vl && !nf && !nl && !rf && !rl && ff
                ==> b is File)
            &&& (!c1 && !tf && !tl && !pf && !pl && !vf && !vl && !nf && !nl && !rf && !rl && !ff
                && qf ==> b is PathRecordPointer)
            &&& (!c1 && !tf && !tl && !pf && !pl && !vf && !vl && !nf && !nl && !rf && !rl && !ff
                && !qf && ql ==> b == Block::Unknown(BomError::OutOfBounds))
            &&& (!c1 && !tf && !tl && !pf && !pl && !vf && !vl && !nf && !nl && !rf && !rl && !ff
                && !qf && !ql && uf ==> b is TreePointer)
            &&& (!c1 && !tf && !tl && !pf && !pl && !vf && !vl && !nf && !nl && !rf && !rl && !ff
                && !qf && !ql && !uf && ul ==> b == Block::Unknown(BomError::OutOfBounds))
            &&& (!c1 && !tf && !tl && !pf && !pl && !vf && !vl && !nf && !nl && !rf && !rl && !ff
                && !qf && !ql && !uf && !ul && bf ==> b is BomInfo)
            &&& (!c1 && !tf && !tl && !pf && !pl && !vf && !vl && !nf && !nl && !rf && !rl && !ff
                && !qf && !ql && !uf && !ul && !bf ==> b == Block::Unknown(
                BomError::UnknownBlockType,
            ))
        })
    }
}

/// Classifies and decodes the block at `index`: total, never failing.
/// Every block of four bytes or more inside the buffer is inspected by each
/// known kind's decoder in a fixed order; the first kind that decodes
/// completely wins, an internal fault is caught here and reported as
/// `Unknown` with its diagnostic, and bytes no kind accepts degrade to
/// `Unknown` as well.
pub fn classify_block(data: &Vec<u8>, entries: &Vec<RawBlockEntry>, index: usize) -> (b: Block)
    ensures
        classify_post(data@, entries@, index as int, b),
{
    if index >= entries.len() {
        return Block::Unknown(BomError::BadIndex);
    }
    let e = entries[index];
    if e.length == 0 {
        return Block::Empty;
    }
    if e.length < 4 {
        return Block::Unknown(BomError::TooSmall);
    }
    let bo = e.file_offset as usize;
    let l = e.length as usize;
    if l > data.len() || bo > data.len() - l {
        return Block::Unknown(BomError::OutOfBounds);
    }
    let bend = bo + l;
    if index == 1 {
        match parse_bominfo(data, bo, bend) {
            Ok(v) => {
                return Block::BomInfo(v);
            },
            Err(_) => {},
        }
    }
    match try_tree(data, entries, bo, bend) {
        Ok(v) => {
            return Block::Tree(v);
        },
        Err(CandidateFail::Fault(err)) => {
            return Block::Unknown(err);
        },
        Err(CandidateFail::Soft(_)) => {},
    }
    match try_paths(data, entries, bo, bend) {
        Ok(v) => {
            return Block::Paths(v);
        },
        Err(CandidateFail::Fault(err)) => {
            return Block::Unknown(err);
        },
        Err(CandidateFail::Soft(_)) => {},
    }
    match try_vindex(data, entries, bo, bend) {
        Ok(v) => {
            return Block::VIndex(v);
        },
        Err(CandidateFail::Fault(err)) => {
            return Block::Unknown(err);
        },
        Err(CandidateFail::Soft(_)) => {},
    }
    match try_pathinfo(data, entries, bo, bend) {
        Ok(v) => {
            return Block::PathInfoIndex(v);
        },
        Err(CandidateFail::Fault(err)) => {
            return Block::Unknown(err);
        },
        Err(CandidateFail::Soft(_)) => {},
    }
    match parse_record(data, bo, bend) {
        Ok(v) => {
            return Block::PathRecord(v);
        },
        Err(CandidateFail::Fault(err)) => {
            return Block::Unknown(err);
        },
        Err(CandidateFail::Soft(_)) => {},
    }
    match parse_file(data, bo, bend) {
        Ok(v) => {
            return Block::File(v);
        },
        Err(_) => {},
    }
    match try_recptr(data, entries, bo, bend) {
        Ok(v) => {
            return Block::PathRecordPointer(v);
        },
        Err(CandidateFail::Fault(err)) => {
            return Block::Unknown(err);
        },
        Err(CandidateFail::Soft(_)) => {},
    }
    match try_treeptr(data, entries, bo, bend) {
        Ok(v) => {
            return Block::TreePointer(v);
        },
        Err(CandidateFail::Fault(err)) => {
            return Block::Unknown(err);
        },
        Err(CandidateFail::Soft(_)) => {},
    }
    match parse_bominfo(data, bo, bend) {
        Ok(v) => {
            return Block::BomInfo(v);
        },
        Err(_) => {},
    }
    Block::Unknown(BomError::UnknownBlockType)
}

} // verus!

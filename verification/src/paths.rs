use vstd::prelude::*;

use crate::block::{
    bominfo_full, bominfo_pins, file_full, parse_bominfo, parse_file, parse_pathinfo, parse_paths,
    parse_record, parse_tree, parse_vindex, pathinfo_full, paths_full, paths_pins,
    record_link_applies, record_fault, record_full, tree_hdr_full, tree_soft_err, vindex_full,
    BlockBomInfo, BlockPaths, CandidateFail,
};
use crate::blocks::RawBlockEntry;
use crate::bompath::{copy_bytes, join_path, path_consistent, spec_path_type, BomPath};
use crate::classify::{blk_bend, blk_bo, ref_block, ref_ok};
use crate::err::BomError;
use crate::reader::{be16, be32, lemma_be16_bounds, lemma_be32_bounds};
use crate::textenc::rfc3339_utc_of;
use crate::vars::NamedVariable;

verus! {

/// The five named top-level sections of a document.
#[derive(Clone, Copy, Debug, PartialEq, Eq, Structural)]
pub enum Section {
    BomInfo,
    Paths,
    HlIndex,
    Size64,
    VIndex,
}

/// The variable name that locates a section.
pub open spec fn section_name(sec: Section) -> Seq<u8> {
    match sec {
        Section::BomInfo => seq![0x42u8, 0x6f, 0x6d, 0x49, 0x6e, 0x66, 0x6f],
        Section::Paths => seq![0x50u8, 0x61, 0x74, 0x68, 0x73],
        Section::HlIndex => seq![0x48u8, 0x4c, 0x49, 0x6e, 0x64, 0x65, 0x78],
        Section::Size64 => seq![0x53u8, 0x69, 0x7a, 0x65, 0x36, 0x34],
        Section::VIndex => seq![0x56u8, 0x49, 0x6e, 0x64, 0x65, 0x78],
    }
}

/// Builds the name bytes of a section's variable.
pub fn section_name_bytes(sec: Section) -> (r: Vec<u8>)
    ensures
        r@ == section_name(sec),
{
    let mut v: Vec<u8> = Vec::new();
    match sec {
        Section::BomInfo => {
            v.push(0x42);
            v.push(0x6f);
            v.push(0x6d);
            v.push(0x49);
            v.push(0x6e);
            v.push(0x66);
            v.push(0x6f);
        },
        Section::Paths => {
            v.push(0x50);
            v.push(0x61);
            v.push(0x74);
            v.push(0x68);
            v.push(0x73);
        },
        Section::HlIndex => {
            v.push(0x48);
            v.push(0x4c);
            v.push(0x49);
            v.push(0x6e);
            v.push(0x64);
            v.push(0x65);
            v.push(0x78);
        },
        Section::Size64 => {
            v.push(0x53);
            v.push(0x69);
            v.push(0x7a);
            v.push(0x65);
            v.push(0x36);
            v.push(0x34);
        },
        Section::VIndex => {
            v.push(0x56);
            v.push(0x49);
            v.push(0x6e);
            v.push(0x64);
            v.push(0x65);
            v.push(0x78);
        },
    }
    assert(v@ =~= section_name(sec));
    v
}

/// Whether two byte vectors hold the same bytes.
pub fn bytes_eq(a: &Vec<u8>, b: &Vec<u8>) -> (r: bool)
    ensures
        r == (a@ == b@),
{
    if a.len() != b.len() {
        return false;
    }
    let mut i: usize = 0;
    while i < a.len()
        invariant
            a@.len() == b@.len(),
            i <= a@.len(),
            forall|j: int| 0 <= j < i ==> a@[j] == b@[j],
        decreases a@.len() - i,
    {
        if a[i] != b[i] {
            return false;
        }
        i = i + 1;
    }
    assert(a@ =~= b@);
    true
}

/// The block index bound to the first variable of the given name, in index
/// order; `None` when no variable carries the name.
pub open spec fn spec_find_var(vars: Seq<NamedVariable>, name: Seq<u8>) -> Option<u32>
    decreases vars.len(),
{
    if vars.len() == 0 {
        None
    } else if vars[0].name@ == name {
        Some(vars[0].block_index)
    } else {
        spec_find_var(vars.skip(1), name)
    }
}

/// Looks a name up in the variables list: first match in index order wins.
pub fn find_variable(vars: &Vec<NamedVariable>, name: &Vec<u8>) -> (r: Option<u32>)
    ensures
        r == spec_find_var(vars@, name@),
{
    let mut i: usize = 0;
    proof {
        assert(vars@.skip(0) =~= vars@);
    }
    while i < vars.len()
        invariant
            i <= vars@.len(),
            spec_find_var(vars@.skip(i as int), name@) == spec_find_var(vars@, name@),
        decreases vars@.len() - i,
    {
        if bytes_eq(&vars[i].name, name) {
            assert(vars@.skip(i as int)[0] == vars@[i as int]);
            return Some(vars[i].block_index);
        }
        assert(vars@.skip(i as int).skip(1) =~= vars@.skip(i + 1));
        i = i + 1;
    }
    assert(vars@.skip(vars@.len() as int) =~= Seq::<NamedVariable>::empty());
    None
}

/// Maps a reference failure to the error recorded against a section.
fn ref_err(f: CandidateFail) -> (r: BomError)
    ensures
        r != BomError::MissingVariable,
        f is Soft ==> r == f->Soft_0 || r == BomError::BadIndex,
        f is Fault ==> r == f->Fault_0 || r == BomError::OutOfBounds,
        f matches CandidateFail::Soft(e) ==> (e != BomError::MissingVariable ==> r == e),
        f matches CandidateFail::Fault(e) ==> (e != BomError::MissingVariable ==> r == e),
{
    match f {
        CandidateFail::Soft(BomError::MissingVariable) => BomError::BadIndex,
        CandidateFail::Soft(e) => e,
        CandidateFail::Fault(BomError::MissingVariable) => BomError::OutOfBounds,
        CandidateFail::Fault(e) => e,
    }
}

// === The spec-level mirror of path resolution ===

/// The fields of one resolved path, exactly as the bytes give them.
pub struct SpecPath {
    pub path: Seq<u8>,
    pub path_type_raw: u8,
    pub mode: u16,
    pub user: u32,
    pub group: u32,
    pub mtime: u32,
    pub size: u32,
    pub checksum_or_type: u32,
    pub link_name: Option<Seq<u8>>,
}

/// Whether an executable path entry carries exactly the fields of the
/// spec-level one.
pub open spec fn path_matches(p: BomPath, q: SpecPath) -> bool {
    &&& p.path@ == q.path
    &&& p.path_type == spec_path_type(q.path_type_raw)
    &&& p.path_type_raw == q.path_type_raw
    &&& p.file_mode == q.mode
    &&& p.user_id == q.user
    &&& p.group_id == q.group
    &&& p.mtime == q.mtime
    &&& p.mtime_iso8601@ == rfc3339_utc_of(q.mtime)
    &&& p.size == q.size
    &&& p.crc32 == (if q.path_type_raw == 1 || q.path_type_raw == 3 {
        Some(q.checksum_or_type)
    } else {
        Option::<u32>::None
    })
    &&& (p.link_name is Some <==> q.link_name is Some)
    &&& (p.link_name matches Some(n) ==> q.link_name matches Some(m) && n@ == m)
}

/// Whether a list of executable path entries matches a spec-level list,
/// entry for entry.
pub open spec fn paths_match(ps: Seq<BomPath>, qs: Seq<SpecPath>) -> bool {
    &&& ps.len() == qs.len()
    &&& forall|i: int| 0 <= i < ps.len() ==> path_matches(#[trigger] ps[i], qs[i])
}

/// The spec path read from the record at `bo`, under the given full path.
pub open spec fn spec_path_of_record(s: Seq<u8>, bo: int, path: Seq<u8>) -> SpecPath {
    SpecPath {
        path,
        path_type_raw: s[bo],
        mode: be16(s, bo + 4) as u16,
        user: be32(s, bo + 6) as u32,
        group: be32(s, bo + 10) as u32,
        mtime: be32(s, bo + 14) as u32,
        size: be32(s, bo + 18) as u32,
        checksum_or_type: be32(s, bo + 23) as u32,
        link_name: if record_link_applies(s, bo) {
            Some(s.subrange(bo + 31, bo + 31 + be32(s, bo + 27) - 1))
        } else {
            None
        },
    }
}

/// Following a block reference: an absent index, a range past the buffer,
/// or the block's byte range.
pub open spec fn spec_ref(s: Seq<u8>, es: Seq<RawBlockEntry>, i: int) -> Result<
    (int, int),
    BomError,
> {
    if !(0 <= i < es.len()) {
        Err(BomError::BadIndex)
    } else if blk_bend(es, i) > s.len() {
        Err(BomError::OutOfBounds)
    } else {
        Ok((blk_bo(es, i), blk_bend(es, i)))
    }
}

/// The file-block records seen so far: path id, leaf name, parent path id.
pub open spec fn files_view(v: Seq<(u32, Vec<u8>, u32)>) -> Seq<(u32, Seq<u8>, u32)> {
    v.map_values(|t: (u32, Vec<u8>, u32)| (t.0, t.1@, t.2))
}

/// The most recently recorded file with the given path id: a later record
/// shadows an earlier one with the same id.
pub open spec fn spec_lookup(files: Seq<(u32, Seq<u8>, u32)>, id: u32) -> Option<(Seq<u8>, u32)>
    decreases files.len(),
{
    if files.len() == 0 {
        None
    } else if files.last().0 == id {
        Some((files.last().1, files.last().2))
    } else {
        spec_lookup(files.drop_last(), id)
    }
}

/// The full path of a leaf: its name behind the chain of parent names,
/// resolved through the recorded files, `/`-separated, with a fuel bound
/// against cyclic parent chains.
pub open spec fn spec_resolve_name(
    files: Seq<(u32, Seq<u8>, u32)>,
    name: Seq<u8>,
    parent: u32,
    fuel: nat,
) -> Result<Seq<u8>, BomError>
    decreases fuel,
{
    if parent == 0 {
        Ok(name)
    } else if fuel == 0 {
        Err(BomError::CycleDetected)
    } else {
        match spec_lookup(files, parent) {
            None => Err(BomError::BadIndex),
            Some(t) => spec_resolve_name(files, t.0 + seq![0x2fu8] + name, t.1, (fuel - 1) as nat),
        }
    }
}

/// Resolving one member of a paths collection: its path info block, its
/// file block, its path record, and the full path through the parents. On
/// success, the resolved path and the file record to remember.
pub open spec fn spec_member(
    s: Seq<u8>,
    es: Seq<RawBlockEntry>,
    bi: int,
    fi: int,
    files: Seq<(u32, Seq<u8>, u32)>,
) -> Result<(SpecPath, (u32, Seq<u8>, u32)), BomError> {
    match spec_ref(s, es, bi) {
        Err(e) => Err(e),
        Ok(ir) => if !pathinfo_full(s, ir.0, ir.1) {
            Err(BomError::OutOfBounds)
        } else {
            match spec_ref(s, es, fi) {
                Err(e) => Err(e),
                Ok(fr) => if !file_full(s, fr.0, fr.1) {
                    Err(
                        if fr.1 - fr.0 < 4 {
                            BomError::OutOfBounds
                        } else {
                            BomError::BadString
                        },
                    )
                } else {
                    match spec_ref(s, es, be32(s, ir.0 + 4)) {
                        Err(e) => Err(e),
                        Ok(rr) => if !record_full(s, rr.0, rr.1) {
                            Err(
                                if rr.1 - rr.0 < 31 || record_fault(s, rr.0, rr.1) {
                                    BomError::OutOfBounds
                                } else {
                                    BomError::BadString
                                },
                            )
                        } else {
                            match spec_resolve_name(
                                files,
                                s.subrange(fr.0 + 4, fr.1 - 1),
                                be32(s, fr.0) as u32,
                                files.len(),
                            ) {
                                Err(e) => Err(e),
                                Ok(full) => Ok(
                                    (
                                        spec_path_of_record(s, rr.0, full),
                                        (
                                            be32(s, ir.0) as u32,
                                            s.subrange(fr.0 + 4, fr.1 - 1),
                                            be32(s, fr.0) as u32,
                                        ),
                                    ),
                                ),
                            }
                        },
                    }
                },
            }
        },
    }
}

/// The paths produced from member `j` onward of the collection at
/// `[pbo, pbend)` and then from the rest of the forward chain, with a fuel
/// bound against cyclic chains.
pub open spec fn spec_chain_from(
    s: Seq<u8>,
    es: Seq<RawBlockEntry>,
    pbo: int,
    pbend: int,
    j: int,
    files: Seq<(u32, Seq<u8>, u32)>,
    fuel: nat,
) -> Result<Seq<SpecPath>, BomError>
    decreases fuel, be16(s, pbo + 2) - j,
{
    if j < be16(s, pbo + 2) {
        match spec_member(s, es, be32(s, pbo + 12 + 8 * j), be32(s, pbo + 16 + 8 * j), files) {
            Err(e) => Err(e),
            Ok(m) => match spec_chain_from(s, es, pbo, pbend, j + 1, files.push(m.1), fuel) {
                Err(e) => Err(e),
                Ok(rest) => Ok(seq![m.0] + rest),
            },
        }
    } else if be32(s, pbo + 4) == 0 {
        Ok(Seq::empty())
    } else if fuel == 0 {
        Err(BomError::CycleDetected)
    } else {
        match spec_ref(s, es, be32(s, pbo + 4)) {
            Err(e) => Err(e),
            Ok(nr) => if !paths_full(s, nr.0, nr.1) {
                Err(BomError::OutOfBounds)
            } else {
                spec_chain_from(s, es, nr.0, nr.1, 0, files, (fuel - 1) as nat)
            },
        }
    }
}

/// Descending from a tree's collection to the leaf collection whose
/// members carry path info, with a fuel bound against cyclic descent.
pub open spec fn spec_descend_at(
    s: Seq<u8>,
    es: Seq<RawBlockEntry>,
    pbo: int,
    pbend: int,
    fuel: nat,
) -> Result<(int, int), BomError>
    decreases fuel,
{
    if !paths_full(s, pbo, pbend) {
        Err(BomError::OutOfBounds)
    } else if be16(s, pbo) != 0 {
        Ok((pbo, pbend))
    } else if fuel == 0 {
        Err(BomError::CycleDetected)
    } else if be16(s, pbo + 2) == 0 {
        Err(BomError::BadIndex)
    } else {
        match spec_ref(s, es, be32(s, pbo + 12)) {
            Err(e) => Err(e),
            Ok(nr) => spec_descend_at(s, es, nr.0, nr.1, (fuel - 1) as nat),
        }
    }
}

/// Everything the tree at block index `tree_idx` resolves to: the error
/// when any step of the walk fails, or every resolved path in order.
pub open spec fn spec_tree_paths(s: Seq<u8>, es: Seq<RawBlockEntry>, tree_idx: int) -> Result<
    Seq<SpecPath>,
    BomError,
> {
    match spec_ref(s, es, tree_idx) {
        Err(e) => Err(e),
        Ok(tr) => if !tree_hdr_full(s, tr.0, tr.1) {
            Err(tree_soft_err(s, tr.0, tr.1))
        } else {
            match spec_ref(s, es, be32(s, tr.0 + 8)) {
                Err(e) => Err(e),
                Ok(pr) => match spec_descend_at(s, es, pr.0, pr.1, es.len() as nat) {
                    Err(e) => Err(e),
                    Ok(leaf) => spec_chain_from(
                        s,
                        es,
                        leaf.0,
                        leaf.1,
                        0,
                        Seq::empty(),
                        es.len() as nat,
                    ),
                },
            }
        },
    }
}

/// A list prefix carried through the chain walk: the suffix still to come,
/// or the error that ends it.
pub open spec fn chain_then(prefix: Seq<SpecPath>, r: Result<Seq<SpecPath>, BomError>) -> Result<
    Seq<SpecPath>,
    BomError,
> {
    match r {
        Ok(rest) => Ok(prefix + rest),
        Err(e) => Err(e),
    }
}

/// What a section's variable resolves to: absent, or the tree walk from
/// its block — for the vindex section through its data block's tree field.
pub open spec fn spec_section_paths(
    s: Seq<u8>,
    es: Seq<RawBlockEntry>,
    vars: Seq<NamedVariable>,
    sec: Section,
) -> Result<Seq<SpecPath>, BomError> {
    match spec_find_var(vars, section_name(sec)) {
        None => Err(BomError::MissingVariable),
        Some(idx) => if sec is VIndex {
            match spec_ref(s, es, idx as int) {
                Err(e) => Err(e),
                Ok(vr) => if !vindex_full(s, vr.0, vr.1) {
                    Err(BomError::OutOfBounds)
                } else {
                    spec_tree_paths(s, es, be32(s, vr.0 + 4))
                },
            }
        } else {
            spec_tree_paths(s, es, idx as int)
        },
    }
}

// === Executable resolution ===

/// Resolves the information section: the block bound to the section's
/// variable, decoded as an information block. Fails with `MissingVariable`
/// exactly when the variable is absent; an absent block index fails with
/// `BadIndex` and any other failure of the bound block with `OutOfBounds`.
pub fn resolve_bom_info(data: &Vec<u8>, entries: &Vec<RawBlockEntry>, vars: &Vec<NamedVariable>) -> (r:
    Result<BlockBomInfo, BomError>)
    ensures
        r == Err::<BlockBomInfo, BomError>(BomError::MissingVariable) <==> spec_find_var(
            vars@,
            section_name(Section::BomInfo),
        ) is None,
        spec_find_var(vars@, section_name(Section::BomInfo)) matches Some(idx) ==> (r is Ok <==> (
        ref_ok(data@, entries@, idx as int) && bominfo_full(
            data@,
            blk_bo(entries@, idx as int),
            blk_bend(entries@, idx as int),
        ))),
        spec_find_var(vars@, section_name(Section::BomInfo)) matches Some(idx) ==> (r matches Err(
            e,
        ) ==> e == (if idx as int >= entries@.len() {
            BomError::BadIndex
        } else {
            BomError::OutOfBounds
        })),
        r is Ok ==> (spec_find_var(vars@, section_name(Section::BomInfo)) matches Some(idx)
            && bominfo_pins(data@, blk_bo(entries@, idx as int), r->Ok_0)),
{
    let name = section_name_bytes(Section::BomInfo);
    let idx = match find_variable(vars, &name) {
        Some(i) => i,
        None => {
            return Err(BomError::MissingVariable);
        },
    };
    let (bo, bend) = match ref_block(data, entries, idx) {
        Ok(p) => p,
        Err(f) => {
            return Err(ref_err(f));
        },
    };
    match parse_bominfo(data, bo, bend) {
        Ok(v) => Ok(v),
        Err(e) => Err(e),
    }
}

/// Finds the most recently recorded file with the given path id.
fn lookup_file(files: &Vec<(u32, Vec<u8>, u32)>, id: u32) -> (r: Option<usize>)
    ensures
        r is Some <==> spec_lookup(files_view(files@), id) is Some,
        r matches Some(k) ==> 0 <= k < files@.len() && files@[k as int].0 == id && spec_lookup(
            files_view(files@),
            id,
        ) == Some((files@[k as int].1@, files@[k as int].2)),
{
    let mut i: usize = files.len();
    proof {
        assert(files_view(files@).take(files@.len() as int) =~= files_view(files@));
    }
    while i > 0
        invariant
            i <= files@.len(),
            spec_lookup(files_view(files@).take(i as int), id) == spec_lookup(
                files_view(files@),
                id,
            ),
        decreases i,
    {
        i = i - 1;
        proof {
            assert(files_view(files@).take(i + 1).last() == files_view(files@)[i as int]);
            assert(files_view(files@)[i as int] == (
                files@[i as int].0,
                files@[i as int].1@,
                files@[i as int].2,
            ));
            assert(files_view(files@).take(i + 1).drop_last() =~= files_view(files@).take(
                i as int,
            ));
        }
        if files[i].0 == id {
            return Some(i);
        }
    }
    proof {
        assert(files_view(files@).take(0) =~= Seq::<(u32, Seq<u8>, u32)>::empty());
    }
    None
}

/// Resolves one member of a leaf collection against the files seen so far:
/// its path info, file and record blocks, and the full path through the
/// parents. Returns the resolved path and the file record to remember.
fn resolve_member(
    data: &Vec<u8>,
    entries: &Vec<RawBlockEntry>,
    files: &Vec<(u32, Vec<u8>, u32)>,
    bi: u32,
    fi: u32,
) -> (r: Result<(BomPath, (u32, Vec<u8>, u32)), BomError>)
    ensures
        r is Ok <==> spec_member(data@, entries@, bi as int, fi as int, files_view(files@)) is Ok,
        r matches Err(e) ==> spec_member(data@, entries@, bi as int, fi as int, files_view(files@))
            == Err::<(SpecPath, (u32, Seq<u8>, u32)), BomError>(e),
        r matches Err(e) ==> e != BomError::MissingVariable,
        r matches Ok(t) ==> ({
            let m = spec_member(data@, entries@, bi as int, fi as int, files_view(files@))->Ok_0;
            &&& path_matches(t.0, m.0)
            &&& (t.1.0, t.1.1@, t.1.2) == m.1
        }),
{
    let (io, iend) = match ref_block(data, entries, bi) {
        Ok(q) => q,
        Err(f) => {
            return Err(ref_err(f));
        },
    };
    proof {
        assert(spec_ref(data@, entries@, bi as int) == Ok::<(int, int), BomError>((
            io as int,
            iend as int,
        )));
    }
    let info = match parse_pathinfo(data, io, iend) {
        Ok(v) => v,
        Err(e) => {
            return Err(e);
        },
    };
    let (fo, fend) = match ref_block(data, entries, fi) {
        Ok(q) => q,
        Err(f) => {
            return Err(ref_err(f));
        },
    };
    proof {
        assert(spec_ref(data@, entries@, fi as int) == Ok::<(int, int), BomError>((
            fo as int,
            fend as int,
        )));
    }
    let file = match parse_file(data, fo, fend) {
        Ok(v) => v,
        Err(e) => {
            return Err(e);
        },
    };
    proof {
        lemma_be32_bounds(data@, fo as int);
        assert(file.parent_path_id == be32(data@, fo as int) as u32);
        assert(file.name@ == data@.subrange(fo + 4, fend - 1));
    }
    let (ro, rend) = match ref_block(data, entries, info.path_record_index) {
        Ok(q) => q,
        Err(f) => {
            return Err(ref_err(f));
        },
    };
    proof {
        assert(info.path_record_index as int == be32(data@, io + 4));
        assert(spec_ref(data@, entries@, be32(data@, io + 4)) == Ok::<(int, int), BomError>((
            ro as int,
            rend as int,
        )));
    }
    let record = match parse_record(data, ro, rend) {
        Ok(v) => v,
        Err(f) => {
            return Err(ref_err(f));
        },
    };
    proof {
        lemma_be32_bounds(data@, io as int);
        assert(info.path_id == be32(data@, io as int) as u32);
        lemma_be16_bounds(data@, ro + 2);
        lemma_be16_bounds(data@, ro + 4);
        lemma_be32_bounds(data@, ro + 6);
        lemma_be32_bounds(data@, ro + 10);
        lemma_be32_bounds(data@, ro + 14);
        lemma_be32_bounds(data@, ro + 18);
        lemma_be32_bounds(data@, ro + 23);
        lemma_be32_bounds(data@, ro + 27);
    }
    // The full path: the leaf name behind its chain of parents, resolved
    // through the file blocks seen so far.
    let ghost rn_target = spec_resolve_name(
        files_view(files@),
        file.name@,
        file.parent_path_id,
        files@.len() as nat,
    );
    let mut name = copy_bytes(&file.name);
    let mut parent = file.parent_path_id;
    let mut psteps: usize = 0;
    let flen = files.len();
    while parent != 0
        invariant
            psteps <= flen,
            flen == files@.len(),
            spec_resolve_name(files_view(files@), name@, parent, (flen - psteps) as nat)
                == rn_target,
            spec_member(data@, entries@, bi as int, fi as int, files_view(files@)) == (
            match rn_target {
                Err(e) => Err::<(SpecPath, (u32, Seq<u8>, u32)), BomError>(e),
                Ok(full) => Ok(
                    (
                        spec_path_of_record(data@, ro as int, full),
                        (info.path_id, file.name@, file.parent_path_id),
                    ),
                ),
            }),
        decreases flen - psteps,
    {
        if psteps >= flen {
            return Err(BomError::CycleDetected);
        }
        match lookup_file(files, parent) {
            Some(k) => {
                let joined = join_path(&files[k].1, &name);
                let pparent = files[k].2;
                name = joined;
                parent = pparent;
            },
            None => {
                return Err(BomError::BadIndex);
            },
        }
        psteps = psteps + 1;
    }
    proof {
        assert(rn_target == Ok::<Seq<u8>, BomError>(name@));
        assert(spec_member(data@, entries@, bi as int, fi as int, files_view(files@)) == Ok::<
            (SpecPath, (u32, Seq<u8>, u32)),
            BomError,
        >((
            spec_path_of_record(data@, ro as int, name@),
            (info.path_id, file.name@, file.parent_path_id),
        )));
    }
    let ghost full_name = name@;
    let bp = crate::bompath::BomPath::from_record(name, &record);
    proof {
        assert(path_matches(bp, spec_path_of_record(data@, ro as int, full_name)));
    }
    Ok((bp, (info.path_id, file.name, file.parent_path_id)))
}

/// Resolves every path entry reachable from the tree block at `tree_idx`:
/// descends to the leaf paths collection, then follows the forward chain,
/// resolving each member into a full path. The result — every resolved
/// path in order, or the error of the step that failed, cyclic chains
/// included — is exactly the spec-level walk of the same bytes.
#[verifier::spinoff_prover]
#[verifier::rlimit(100)]
pub fn tree_paths_from_index(data: &Vec<u8>, entries: &Vec<RawBlockEntry>, tree_idx: u32) -> (r:
    Result<Vec<BomPath>, BomError>)
    ensures
        r is Ok <==> spec_tree_paths(data@, entries@, tree_idx as int) is Ok,
        r matches Err(e) ==> spec_tree_paths(data@, entries@, tree_idx as int) == Err::<
            Seq<SpecPath>,
            BomError,
        >(e),
        r matches Ok(ps) ==> paths_match(ps@, spec_tree_paths(data@, entries@, tree_idx as int)->Ok_0),
        r is Err ==> r->Err_0 != BomError::MissingVariable,
        r matches Ok(ps) ==> forall|i: int|
            0 <= i < ps@.len() ==> path_consistent(#[trigger] ps@[i]),
{
    let ghost target = spec_tree_paths(data@, entries@, tree_idx as int);
    let (to, tend) = match ref_block(data, entries, tree_idx) {
        Ok(p) => p,
        Err(f) => {
            return Err(ref_err(f));
        },
    };
    let tree = match parse_tree(data, to, tend) {
        Ok(t) => t,
        Err(CandidateFail::Soft(e)) => {
            return Err(e);
        },
        Err(CandidateFail::Fault(_)) => {
            return Err(BomError::OutOfBounds);
        },
    };
    let cap = entries.len();
    let (p0, p0end) = match ref_block(data, entries, tree.block_paths_index) {
        Ok(q) => q,
        Err(f) => {
            return Err(ref_err(f));
        },
    };
    let mut cur_bo: usize = p0;
    let mut cur_bend: usize = p0end;
    let mut p: BlockPaths = match parse_paths(data, cur_bo, cur_bend) {
        Ok(v) => v,
        Err(e) => {
            return Err(e);
        },
    };
    let ghost dtarget = spec_descend_at(data@, entries@, cur_bo as int, cur_bend as int, cap as nat);
    proof {
        assert(target == (match dtarget {
            Err(e) => Err::<Seq<SpecPath>, BomError>(e),
            Ok(leaf) => spec_chain_from(
                data@,
                entries@,
                leaf.0,
                leaf.1,
                0,
                Seq::empty(),
                cap as nat,
            ),
        }));
    }
    let mut steps: usize = 0;
    while p.is_path_info == 0
        invariant
            cap == entries@.len(),
            steps <= cap,
            cur_bo <= cur_bend <= data@.len(),
            paths_full(data@, cur_bo as int, cur_bend as int),
            paths_pins(data@, cur_bo as int, p),
            target == spec_tree_paths(data@, entries@, tree_idx as int),
            spec_descend_at(data@, entries@, cur_bo as int, cur_bend as int, (cap - steps) as nat)
                == dtarget,
            target == (match dtarget {
                Err(e) => Err::<Seq<SpecPath>, BomError>(e),
                Ok(leaf) => spec_chain_from(
                    data@,
                    entries@,
                    leaf.0,
                    leaf.1,
                    0,
                    Seq::empty(),
                    cap as nat,
                ),
            }),
        decreases cap - steps,
    {
        if steps >= cap {
            return Err(BomError::CycleDetected);
        }
        if p.paths.len() == 0 {
            return Err(BomError::BadIndex);
        }
        let head = p.paths[0];
        let (po, pend) = match ref_block(data, entries, head.block_index) {
            Ok(q) => q,
            Err(f) => {
                return Err(ref_err(f));
            },
        };
        p = match parse_paths(data, po, pend) {
            Ok(v) => v,
            Err(e) => {
                proof {
                    assert(spec_descend_at(
                        data@,
                        entries@,
                        po as int,
                        pend as int,
                        ((cap - steps) as nat - 1) as nat,
                    ) == Err::<(int, int), BomError>(BomError::OutOfBounds));
                    assert(dtarget == Err::<(int, int), BomError>(BomError::OutOfBounds));
                }
                return Err(e);
            },
        };
        cur_bo = po;
        cur_bend = pend;
        steps = steps + 1;
    }
    proof {
        assert(dtarget == Ok::<(int, int), BomError>((cur_bo as int, cur_bend as int)));
    }
    let mut out: Vec<BomPath> = Vec::new();
    let mut files: Vec<(u32, Vec<u8>, u32)> = Vec::new();
    let ghost mut prefix: Seq<SpecPath> = Seq::empty();
    let mut chain_steps: usize = 0;
    proof {
        assert(out@ =~= Seq::<BomPath>::empty());
        assert(files_view(files@) =~= Seq::<(u32, Seq<u8>, u32)>::empty());
        let cf0 = spec_chain_from(
            data@,
            entries@,
            cur_bo as int,
            cur_bend as int,
            0,
            files_view(files@),
            cap as nat,
        );
        match cf0 {
            Ok(rest) => {
                assert(Seq::<SpecPath>::empty() + rest =~= rest);
            },
            Err(_) => {},
        }
        assert(chain_then(prefix, cf0) == target);
    }
    loop
        invariant_except_break
            cap == entries@.len(),
            chain_steps <= cap,
            cur_bo <= cur_bend <= data@.len(),
            paths_full(data@, cur_bo as int, cur_bend as int),
            paths_pins(data@, cur_bo as int, p),
            paths_match(out@, prefix),
            target == spec_tree_paths(data@, entries@, tree_idx as int),
            chain_then(
                prefix,
                spec_chain_from(
                    data@,
                    entries@,
                    cur_bo as int,
                    cur_bend as int,
                    0,
                    files_view(files@),
                    (cap - chain_steps) as nat,
                ),
            ) == target,
        ensures
            paths_match(out@, prefix),
            target == spec_tree_paths(data@, entries@, tree_idx as int),
            target == Ok::<Seq<SpecPath>, BomError>(prefix),
        decreases cap - chain_steps,
    {
        let n = p.paths.len();
        let mut j: usize = 0;
        while j < n
            invariant
                cap == entries@.len(),
                chain_steps <= cap,
                cur_bo <= cur_bend <= data@.len(),
                paths_full(data@, cur_bo as int, cur_bend as int),
                paths_pins(data@, cur_bo as int, p),
                n == p.paths@.len(),
                j <= n,
                paths_match(out@, prefix),
                target == spec_tree_paths(data@, entries@, tree_idx as int),
                chain_then(
                    prefix,
                    spec_chain_from(
                        data@,
                        entries@,
                        cur_bo as int,
                        cur_bend as int,
                        j as int,
                        files_view(files@),
                        (cap - chain_steps) as nat,
                    ),
                ) == target,
            decreases n - j,
        {
            let m = p.paths[j];
            proof {
                assert(p.paths@[j as int].block_index as int == be32(
                    data@,
                    cur_bo + 12 + 8 * (j as int),
                ));
                assert(p.paths@[j as int].file_index as int == be32(
                    data@,
                    cur_bo + 16 + 8 * (j as int),
                ));
            }
            let ghost old_files = files_view(files@);
            let ghost old_prefix = prefix;
            let ghost fuelv = (cap - chain_steps) as nat;
            let ghost sm = spec_member(
                data@,
                entries@,
                m.block_index as int,
                m.file_index as int,
                files_view(files@),
            );
            match resolve_member(data, entries, &files, m.block_index, m.file_index) {
                Ok(t) => {
                    let (bp, frec) = t;
                    let ghost old_out = out@;
                    out.push(bp);
                    files.push(frec);
                    proof {
                        prefix = old_prefix + seq![sm->Ok_0.0];
                        assert(files_view(files@) =~= old_files.push(sm->Ok_0.1));
                        assert forall|i: int| 0 <= i < out@.len() implies path_matches(
                            #[trigger] out@[i],
                            prefix[i],
                        ) by {
                            if i < out@.len() - 1 {
                                assert(out@[i] == old_out[i]);
                                assert(path_matches(old_out[i], old_prefix[i]));
                            }
                        }
                        let cfn = spec_chain_from(
                            data@,
                            entries@,
                            cur_bo as int,
                            cur_bend as int,
                            j + 1,
                            files_view(files@),
                            fuelv,
                        );
                        match cfn {
                            Ok(rest) => {
                                assert((old_prefix + seq![sm->Ok_0.0]) + rest =~= old_prefix + (
                                seq![sm->Ok_0.0] + rest));
                            },
                            Err(_) => {},
                        }
                        assert(chain_then(prefix, cfn) == target);
                    }
                },
                Err(e) => {
                    return Err(e);
                },
            }
            j = j + 1;
        }
        if p.next_paths_block_index != 0 {
            if chain_steps >= cap {
                return Err(BomError::CycleDetected);
            }
            let (po, pend) = match ref_block(data, entries, p.next_paths_block_index) {
                Ok(q) => q,
                Err(f) => {
                    return Err(ref_err(f));
                },
            };
            p = match parse_paths(data, po, pend) {
                Ok(v) => v,
                Err(e) => {
                    return Err(e);
                },
            };
            cur_bo = po;
            cur_bend = pend;
            chain_steps = chain_steps + 1;
        } else {
            proof {
                assert(prefix + Seq::<SpecPath>::empty() =~= prefix);
                assert(target == Ok::<Seq<SpecPath>, BomError>(prefix));
            }
            break;
        }
    }
    proof {
        assert forall|i: int| 0 <= i < out@.len() implies path_consistent(#[trigger] out@[i]) by {
            assert(path_matches(out@[i], prefix[i]));
        }
    }
    Ok(out)
}

/// Resolves one of the four path-list sections. The vindex section goes
/// through its data block to find its tree; the others bind their variable
/// straight to a tree block. The result is exactly the spec-level section
/// walk: `MissingVariable` exactly when the variable is absent, the walk's
/// error when a step fails, and the full list when all succeed.
pub fn resolve_path_section(
    data: &Vec<u8>,
    entries: &Vec<RawBlockEntry>,
    vars: &Vec<NamedVariable>,
    sec: Section,
) -> (r: Result<Vec<BomPath>, BomError>)
    requires
        sec != Section::BomInfo,
    ensures
        r is Ok <==> spec_section_paths(data@, entries@, vars@, sec) is Ok,
        r matches Err(e) ==> spec_section_paths(data@, entries@, vars@, sec) == Err::<
            Seq<SpecPath>,
            BomError,
        >(e),
        r matches Ok(ps) ==> paths_match(ps@, spec_section_paths(data@, entries@, vars@, sec)->Ok_0),
        r == Err::<Vec<BomPath>, BomError>(BomError::MissingVariable) <==> spec_find_var(
            vars@,
            section_name(sec),
        ) is None,
        r matches Ok(ps) ==> forall|i: int|
            0 <= i < ps@.len() ==> path_consistent(#[trigger] ps@[i]),
{
    let name = section_name_bytes(sec);
    let idx = match find_variable(vars, &name) {
        Some(i) => i,
        None => {
            return Err(BomError::MissingVariable);
        },
    };
    let tree_idx = if matches!(sec, Section::VIndex) {
        let (vo, vend) = match ref_block(data, entries, idx) {
            Ok(p) => p,
            Err(f) => {
                return Err(ref_err(f));
            },
        };
        let v = match parse_vindex(data, vo, vend) {
            Ok(v) => v,
            Err(e) => {
                return Err(e);
            },
        };
        v.tree_block_index
    } else {
        idx
    };
    tree_paths_from_index(data, entries, tree_idx)
}

} // verus!

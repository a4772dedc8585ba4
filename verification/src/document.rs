use vstd::prelude::*;

use crate::block::{bominfo_full, bominfo_pins, Block, BlockBomInfo};
use crate::blocks::{
    blocks_index_pins, blocks_region_well_formed, parse_blocks_index, BlocksIndex, RawBlockEntry,
};
use crate::bompath::{path_consistent, BomPath};
use crate::classify::{blk_bend, blk_bo, classify_block, classify_post, entry_in_buffer, ref_ok};
use crate::err::BomError;
use crate::header::{header_len, header_pins, parse_header, BomHeader};
use crate::paths::{
    paths_match, resolve_bom_info, resolve_path_section, section_name, spec_find_var,
    spec_section_paths, Section, SpecPath,
};
use crate::reader::{be32, read_bytes};
use crate::textenc::{hex_encode, is_hex_of};
use crate::vars::{parse_vars_index, vars_index_pins, vars_region_well_formed, VarsIndex};

verus! {

/// A soft failure recorded against one named section.
#[derive(Clone, Copy, Debug, PartialEq, Eq, Structural)]
pub struct SectionError {
    pub section: Section,
    pub error: BomError,
}

/// Whether an error is recorded against the given section.
pub open spec fn has_section_error(errs: Seq<SectionError>, sec: Section) -> bool {
    exists|i: int| 0 <= i < errs.len() && (#[trigger] errs[i]).section == sec
}

/// One row of the full per-block dump.
#[derive(Clone, Debug, PartialEq, Eq)]
pub struct BlockDumpEntry {
    /// The block's index in the blocks index.
    pub index: usize,
    pub file_offset: u32,
    pub length: u32,
    /// The classified and decoded block; `Unknown` carries the diagnostic.
    pub block: Block,
    /// The block's raw bytes in lowercase hex, when requested and in range.
    pub raw_hex: Option<String>,
}

/// The decoded document: header, indices, the resolved named sections, the
/// optional full block dump, and the soft failures recorded by section.
/// Every section is either present, absent because its variable is absent,
/// or absent with an error recorded against it — never silently dropped.
#[derive(Clone, Debug, PartialEq, Eq)]
pub struct BomDocument {
    /// Length in bytes of the decoded buffer.
    pub byte_length: usize,
    /// An identifier for where the bytes came from, carried verbatim.
    pub source: Option<String>,
    pub header: BomHeader,
    pub blocks_index: BlocksIndex,
    pub vars_index: VarsIndex,
    pub bom_info: Option<BlockBomInfo>,
    pub paths: Option<Vec<BomPath>>,
    pub hl_index: Option<Vec<BomPath>>,
    pub size64: Option<Vec<BomPath>>,
    pub vindex: Option<Vec<BomPath>>,
    /// The full per-block dump, when requested.
    pub blocks: Option<Vec<BlockDumpEntry>>,
    /// Soft failures, one per failed section, in resolution order. Empty
    /// when every attempted section succeeded or was absent.
    pub parse_errors: Vec<SectionError>,
}

impl BomDocument {
    /// The format tag of every document this decoder produces.
    pub fn format_tag(&self) -> (r: String)
        ensures
            r@ == "apple-bom"@,
    {
        "apple-bom".to_string()
    }
}

/// What a path-list section resolved to, and how it is recorded: an absent
/// variable gives nothing with no error; a present variable gives exactly
/// the spec-level walk's list on success, and otherwise nothing plus an
/// error entry carrying exactly the walk's error.
pub open spec fn section_outcome(
    s: Seq<u8>,
    es: Seq<RawBlockEntry>,
    vars: Seq<crate::vars::NamedVariable>,
    errs: Seq<SectionError>,
    sec: Section,
    value: Option<Vec<BomPath>>,
) -> bool {
    &&& (spec_find_var(vars, section_name(sec)) is None ==> value is None && !has_section_error(
        errs,
        sec,
    ))
    &&& (spec_find_var(vars, section_name(sec)) is Some ==> {
        &&& (value is Some <==> spec_section_paths(s, es, vars, sec) is Ok)
        &&& (value is None <==> has_section_error(errs, sec))
        &&& (value matches Some(ps) ==> paths_match(ps@, spec_section_paths(s, es, vars, sec)->Ok_0))
        &&& (forall|i: int|
            0 <= i < errs.len() && (#[trigger] errs[i]).section == sec ==> errs[i].error
                == spec_section_paths(s, es, vars, sec)->Err_0)
    })
    &&& (value matches Some(ps) ==> forall|i: int|
        0 <= i < ps@.len() ==> path_consistent(#[trigger] ps@[i]))
}

/// The error entry a failing path-list section contributes to the record
/// of soft failures: nothing when its variable is absent or the walk
/// succeeds.
pub open spec fn section_err_entries(
    s: Seq<u8>,
    es: Seq<RawBlockEntry>,
    vars: Seq<crate::vars::NamedVariable>,
    sec: Section,
) -> Seq<SectionError> {
    match spec_find_var(vars, section_name(sec)) {
        None => Seq::empty(),
        Some(_) => match spec_section_paths(s, es, vars, sec) {
            Ok(_) => Seq::empty(),
            Err(e) => seq![SectionError { section: sec, error: e }],
        },
    }
}

/// The error entry the information section contributes.
pub open spec fn bominfo_err_entries(
    s: Seq<u8>,
    es: Seq<RawBlockEntry>,
    vars: Seq<crate::vars::NamedVariable>,
) -> Seq<SectionError> {
    match spec_find_var(vars, section_name(Section::BomInfo)) {
        None => Seq::empty(),
        Some(idx) => if ref_ok(s, es, idx as int) && bominfo_full(
            s,
            blk_bo(es, idx as int),
            blk_bend(es, idx as int),
        ) {
            Seq::empty()
        } else {
            seq![
                SectionError {
                    section: Section::BomInfo,
                    error: if idx as int >= es.len() {
                        BomError::BadIndex
                    } else {
                        BomError::OutOfBounds
                    },
                },
            ]
        },
    }
}

/// Every soft failure a decode records, in resolution order: the
/// information section first, then the four path-list sections.
pub open spec fn spec_parse_errors(
    s: Seq<u8>,
    es: Seq<RawBlockEntry>,
    vars: Seq<crate::vars::NamedVariable>,
) -> Seq<SectionError> {
    bominfo_err_entries(s, es, vars) + section_err_entries(s, es, vars, Section::Paths)
        + section_err_entries(s, es, vars, Section::HlIndex) + section_err_entries(
        s,
        es,
        vars,
        Section::Size64,
    ) + section_err_entries(s, es, vars, Section::VIndex)
}

/// Decodes a whole buffer into a document.
///
/// Fails only on the load-bearing structures: a truncated header, or a
/// blocks or variables index region that is corrupt or out of its declared
/// bounds. Every other failure is recorded in the document: section errors
/// by name, block failures as that block's `Unknown` diagnostic.
#[verifier::spinoff_prover]
#[verifier::rlimit(100)]
pub fn decode_bom(
    data: &Vec<u8>,
    source: Option<String>,
    include_blocks: bool,
    include_raw_block_bytes: bool,
) -> (r: Result<BomDocument, BomError>)
    ensures
        r is Ok <==> (data@.len() >= header_len() && blocks_region_well_formed(
            data@,
            be32(data@, 16),
            be32(data@, 20),
        ) && vars_region_well_formed(data@, be32(data@, 24), be32(data@, 28))),
        data@.len() < header_len() ==> r == Err::<BomDocument, BomError>(BomError::Truncated),
        r is Err && data@.len() >= header_len() ==> r == Err::<BomDocument, BomError>(
            BomError::CorruptIndex,
        ),
        r matches Ok(d) ==> ({
            let s = data@;
            let bio = be32(s, 16);
            let vio = be32(s, 24);
            let es = d.blocks_index.entries@;
            let vs = d.vars_index.vars@;
            // root facts
            &&& d.byte_length == s.len()
            &&& d.source == source
            // header and the two indices, byte for byte
            &&& header_pins(s, d.header)
            &&& blocks_index_pins(s, bio, d.blocks_index)
            &&& vars_index_pins(s, vio, d.vars_index)
            // information section
            &&& (spec_find_var(vs, section_name(Section::BomInfo)) is None ==> d.bom_info is None
                && !has_section_error(d.parse_errors@, Section::BomInfo))
            &&& (spec_find_var(vs, section_name(Section::BomInfo)) matches Some(idx) ==> {
                &&& (d.bom_info is Some <==> (ref_ok(s, es, idx as int) && bominfo_full(
                    s,
                    blk_bo(es, idx as int),
                    blk_bend(es, idx as int),
                )))
                &&& (d.bom_info matches Some(v) ==> bominfo_pins(s, blk_bo(es, idx as int), v))
                &&& (d.bom_info is None <==> has_section_error(d.parse_errors@, Section::BomInfo))
                &&& (forall|i: int|
                    0 <= i < d.parse_errors@.len() && (#[trigger] d.parse_errors@[i]).section
                        == Section::BomInfo ==> d.parse_errors@[i].error == (
                    if idx as int >= es.len() {
                        BomError::BadIndex
                    } else {
                        BomError::OutOfBounds
                    }))
            })
            // the record of soft failures, content and order
            &&& d.parse_errors@ == spec_parse_errors(s, es, vs)
            // path-list sections
            &&& section_outcome(s, es, vs, d.parse_errors@, Section::Paths, d.paths)
            &&& section_outcome(s, es, vs, d.parse_errors@, Section::HlIndex, d.hl_index)
            &&& section_outcome(s, es, vs, d.parse_errors@, Section::Size64, d.size64)
            &&& section_outcome(s, es, vs, d.parse_errors@, Section::VIndex, d.vindex)
            // the full block dump
            &&& (!include_blocks ==> d.blocks is None)
            &&& (include_blocks ==> (d.blocks matches Some(bl) && bl@.len() == es.len() && (forall|
                i: int,
            |
                0 <= i < es.len() ==> {
                    let row = #[trigger] bl@[i];
                    &&& row.index == i
                    &&& row.file_offset == es[i].file_offset
                    &&& row.length == es[i].length
                    &&& classify_post(s, es, i, row.block)
                    &&& (include_raw_block_bytes && entry_in_buffer(s, es[i]) ==> (
                    row.raw_hex matches Some(h) && is_hex_of(
                        s.subrange(blk_bo(es, i), blk_bend(es, i)),
                        h@,
                    )))
                    &&& (!(include_raw_block_bytes && entry_in_buffer(s, es[i]))
                        ==> row.raw_hex is None)
                })))
        }),
{
    let header = match parse_header(data) {
        Ok(h) => h,
        Err(e) => {
            return Err(e);
        },
    };
    let blocks_index = match parse_blocks_index(
        data,
        header.blocks_index_offset,
        header.blocks_index_length,
    ) {
        Ok(ix) => ix,
        Err(e) => {
            return Err(e);
        },
    };
    let vars_index = match parse_vars_index(
        data,
        header.vars_index_offset,
        header.vars_index_length,
    ) {
        Ok(ix) => ix,
        Err(e) => {
            return Err(e);
        },
    };
    let mut parse_errors: Vec<SectionError> = Vec::new();
    let bom_info: Option<BlockBomInfo> = match resolve_bom_info(
        data,
        &blocks_index.entries,
        &vars_index.vars,
    ) {
        Ok(v) => Some(v),
        Err(BomError::MissingVariable) => None,
        Err(e) => {
            parse_errors.push(SectionError { section: Section::BomInfo, error: e });
            proof {
                assert(parse_errors@[0].section == Section::BomInfo);
                assert(has_section_error(parse_errors@, Section::BomInfo));
                assert forall|sc: Section| sc != Section::BomInfo implies !has_section_error(
                    parse_errors@,
                    sc,
                ) by {
                    assert(parse_errors@.len() == 1);
                }
            }
            None
        },
    };
    let paths = resolve_section_entry(
        data,
        &blocks_index.entries,
        &vars_index.vars,
        Section::Paths,
        &mut parse_errors,
    );
    let hl_index = resolve_section_entry(
        data,
        &blocks_index.entries,
        &vars_index.vars,
        Section::HlIndex,
        &mut parse_errors,
    );
    let size64 = resolve_section_entry(
        data,
        &blocks_index.entries,
        &vars_index.vars,
        Section::Size64,
        &mut parse_errors,
    );
    let vindex = resolve_section_entry(
        data,
        &blocks_index.entries,
        &vars_index.vars,
        Section::VIndex,
        &mut parse_errors,
    );
    let blocks: Option<Vec<BlockDumpEntry>> = if include_blocks {
        let n = blocks_index.entries.len();
        let mut bl: Vec<BlockDumpEntry> = Vec::new();
        let mut i: usize = 0;
        while i < n
            invariant
                n == blocks_index.entries@.len(),
                i <= n,
                bl@.len() == i,
                forall|k: int|
                    0 <= k < i ==> {
                        let row = #[trigger] bl@[k];
                        &&& row.index == k
                        &&& row.file_offset == blocks_index.entries@[k].file_offset
                        &&& row.length == blocks_index.entries@[k].length
                        &&& classify_post(data@, blocks_index.entries@, k, row.block)
                        &&& (include_raw_block_bytes && entry_in_buffer(
                            data@,
                            blocks_index.entries@[k],
                        ) ==> (row.raw_hex matches Some(h) && is_hex_of(
                            data@.subrange(
                                blk_bo(blocks_index.entries@, k),
                                blk_bend(blocks_index.entries@, k),
                            ),
                            h@,
                        )))
                        &&& (!(include_raw_block_bytes && entry_in_buffer(
                            data@,
                            blocks_index.entries@[k],
                        )) ==> row.raw_hex is None)
                    },
            decreases n - i,
        {
            let e = blocks_index.entries[i];
            let block = classify_block(data, &blocks_index.entries, i);
            let raw_hex: Option<String> = if include_raw_block_bytes {
                let bo = e.file_offset as usize;
                let l = e.length as usize;
                if l <= data.len() && bo <= data.len() - l {
                    match read_bytes(data, bo, l, data.len()) {
                        Ok(raw) => Some(hex_encode(&raw)),
                        Err(_) => None,
                    }
                } else {
                    None
                }
            } else {
                None
            };
            bl.push(
                BlockDumpEntry {
                    index: i,
                    file_offset: e.file_offset,
                    length: e.length,
                    block,
                    raw_hex,
                },
            );
            i = i + 1;
        }
        Some(bl)
    } else {
        None
    };
    proof {
        assert(parse_errors@ =~= spec_parse_errors(data@, blocks_index.entries@, vars_index.vars@));
    }
    Ok(
        BomDocument {
            byte_length: data.len(),
            source,
            header,
            blocks_index,
            vars_index,
            bom_info,
            paths,
            hl_index,
            size64,
            vindex,
            blocks,
            parse_errors,
        },
    )
}

/// Resolves one path-list section and records its outcome: the value on
/// success, nothing for an absent variable, and a named error entry for any
/// other failure.
#[verifier::spinoff_prover]
#[verifier::rlimit(50)]
fn resolve_section_entry(
    data: &Vec<u8>,
    entries: &Vec<RawBlockEntry>,
    vars: &Vec<crate::vars::NamedVariable>,
    sec: Section,
    errs: &mut Vec<SectionError>,
) -> (r: Option<Vec<BomPath>>)
    requires
        sec != Section::BomInfo,
    ensures
        spec_find_var(vars@, section_name(sec)) is None ==> r is None && final(errs)@ == old(
            errs,
        )@,
        r is Some <==> (spec_find_var(vars@, section_name(sec)) is Some && spec_section_paths(
            data@,
            entries@,
            vars@,
            sec,
        ) is Ok),
        r is Some ==> final(errs)@ == old(errs)@,
        r matches Some(ps) ==> paths_match(ps@, spec_section_paths(data@, entries@, vars@, sec)->Ok_0),
        spec_find_var(vars@, section_name(sec)) is Some && r is None ==> final(errs)@ == old(
            errs,
        )@.push(
            SectionError {
                section: sec,
                error: spec_section_paths(data@, entries@, vars@, sec)->Err_0,
            },
        ),
        r matches Some(ps) ==> forall|i: int|
            0 <= i < ps@.len() ==> path_consistent(#[trigger] ps@[i]),
        forall|sc: Section|
            has_section_error(final(errs)@, sc) == (has_section_error(old(errs)@, sc) || (sc == sec
                && spec_find_var(vars@, section_name(sec)) is Some && r is None)),
{
    match resolve_path_section(data, entries, vars, sec) {
        Ok(v) => {
            proof {
                assert(errs@ =~= old(errs)@);
            }
            Some(v)
        },
        Err(BomError::MissingVariable) => {
            proof {
                assert(errs@ =~= old(errs)@);
            }
            None
        },
        Err(e) => {
            let entry = SectionError { section: sec, error: e };
            errs.push(entry);
            proof {
                assert(errs@ == old(errs)@.push(entry));
                assert forall|sc: Section|
                    has_section_error(errs@, sc) == (has_section_error(old(errs)@, sc) || sc
                        == sec) by {
                    lemma_section_error_push(old(errs)@, entry);
                    assert(has_section_error(old(errs)@.push(entry), sc) == (has_section_error(
                        old(errs)@,
                        sc,
                    ) || entry.section == sc));
                }
            }
            None
        },
    }
}

/// Recording one more section error keeps every recorded section and adds
/// exactly the new one.
proof fn lemma_section_error_push(errs: Seq<SectionError>, e: SectionError)
    ensures
        forall|sc: Section|
            (#[trigger] has_section_error(errs.push(e), sc)) == (has_section_error(errs, sc)
                || e.section == sc),
{
    assert forall|sc: Section|
        has_section_error(errs.push(e), sc) == (has_section_error(errs, sc) || e.section
            == sc) by {
        if has_section_error(errs, sc) {
            let i = choose|i: int| 0 <= i < errs.len() && (#[trigger] errs[i]).section == sc;
            assert(errs.push(e)[i] == errs[i]);
        }
        if e.section == sc {
            assert(errs.push(e)[errs.len() as int] == e);
        }
        if has_section_error(errs.push(e), sc) {
            let i = choose|i: int|
                0 <= i < errs.push(e).len() && (#[trigger] errs.push(e)[i]).section == sc;
            if i < errs.len() {
                assert(errs[i] == errs.push(e)[i]);
            }
        }
    }
}

} // verus!

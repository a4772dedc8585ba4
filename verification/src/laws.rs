use vstd::prelude::*;

use crate::block::Block;
use crate::bompath::BomPath;
use crate::paths::{path_matches, paths_match, SpecPath};
use crate::blocks::{
    blocks_index_pins, blocks_region_well_formed, spec_block_entry, BlocksIndex, RawBlockEntry,
};
use crate::classify::classify_post;
use crate::document::BomDocument;
use crate::header::{header_pins, BomHeader};
use crate::reader::{be32, lemma_be32_bounds};
use crate::vars::{vars_index_pins, vars_region_well_formed, VarsIndex};

verus! {

/// A valid container: the header fits, both index regions are well formed,
/// the blocks index declares exactly the header's block count, and every
/// declared block lies inside the buffer.
pub open spec fn spec_valid_bom(s: Seq<u8>) -> bool {
    &&& s.len() >= 32
    &&& blocks_region_well_formed(s, be32(s, 16), be32(s, 20))
    &&& vars_region_well_formed(s, be32(s, 24), be32(s, 28))
    &&& be32(s, be32(s, 16)) == be32(s, 12)
    &&& forall|i: int|
        0 <= i < be32(s, 12) ==> (#[trigger] spec_block_entry(s, be32(s, 16), i)).file_offset
            + spec_block_entry(s, be32(s, 16), i).length <= s.len()
}

/// On a valid container, the decoded blocks index holds exactly
/// `number_of_blocks` entries, and every entry's byte range ends within the
/// buffer. The premises on the document are what `decode_bom` guarantees of
/// every document it returns.
pub proof fn lemma_valid_input_blocks_index(s: Seq<u8>, d: BomDocument)
    requires
        spec_valid_bom(s),
        header_pins(s, d.header),
        blocks_index_pins(s, be32(s, 16), d.blocks_index),
        d.byte_length == s.len(),
    ensures
        d.blocks_index.entries@.len() == d.header.number_of_blocks,
        forall|i: int|
            0 <= i < d.blocks_index.entries@.len() ==> (#[trigger] d.blocks_index.entries@[i]).file_offset
                + d.blocks_index.entries@[i].length <= d.byte_length,
{
    lemma_be32_bounds(s, 12);
    lemma_be32_bounds(s, be32(s, 16));
    assert forall|i: int| 0 <= i < d.blocks_index.entries@.len() implies (
    #[trigger] d.blocks_index.entries@[i]).file_offset + d.blocks_index.entries@[i].length
        <= d.byte_length by {
        assert(d.blocks_index.entries@[i] == spec_block_entry(s, be32(s, 16), i));
    }
}

/// Decoding is deterministic on the header: two headers decoded from the
/// same bytes are equal in every field, the magic compared by its bytes.
pub proof fn lemma_header_deterministic(s: Seq<u8>, h1: BomHeader, h2: BomHeader)
    requires
        header_pins(s, h1),
        header_pins(s, h2),
    ensures
        h1.magic@ == h2.magic@,
        h1.version == h2.version,
        h1.number_of_blocks == h2.number_of_blocks,
        h1.blocks_index_offset == h2.blocks_index_offset,
        h1.blocks_index_length == h2.blocks_index_length,
        h1.vars_index_offset == h2.vars_index_offset,
        h1.vars_index_length == h2.vars_index_length,
{
}

/// Decoding is deterministic on the blocks index: two blocks indices
/// decoded from the same bytes hold the same count and the same entries.
pub proof fn lemma_blocks_index_deterministic(
    s: Seq<u8>,
    off: int,
    ix1: BlocksIndex,
    ix2: BlocksIndex,
)
    requires
        blocks_index_pins(s, off, ix1),
        blocks_index_pins(s, off, ix2),
    ensures
        ix1.count == ix2.count,
        ix1.entries@ == ix2.entries@,
{
    assert forall|i: int| 0 <= i < ix1.entries@.len() implies ix1.entries@[i]
        == ix2.entries@[i] by {
        assert(ix1.entries@[i] == spec_block_entry(s, off, i));
        assert(ix2.entries@[i] == spec_block_entry(s, off, i));
    }
    assert(ix1.entries@ =~= ix2.entries@);
}

/// Decoding is deterministic on the variables index: two variables indices
/// decoded from the same bytes hold the same records, field by field, the
/// name compared by its bytes.
pub proof fn lemma_vars_index_deterministic(s: Seq<u8>, off: int, ix1: VarsIndex, ix2: VarsIndex)
    requires
        vars_index_pins(s, off, ix1),
        vars_index_pins(s, off, ix2),
    ensures
        ix1.count == ix2.count,
        ix1.vars@.len() == ix2.vars@.len(),
        forall|i: int|
            0 <= i < ix1.vars@.len() ==> {
                &&& (#[trigger] ix1.vars@[i]).block_index == ix2.vars@[i].block_index
                &&& ix1.vars@[i].name_length == ix2.vars@[i].name_length
                &&& ix1.vars@[i].name@ == ix2.vars@[i].name@
            },
{
    assert forall|i: int| 0 <= i < ix1.vars@.len() implies {
        &&& (#[trigger] ix1.vars@[i]).block_index == ix2.vars@[i].block_index
        &&& ix1.vars@[i].name_length == ix2.vars@[i].name_length
        &&& ix1.vars@[i].name@ == ix2.vars@[i].name@
    } by {
        let pos = crate::vars::spec_var_pos(s, off, i);
        assert(ix1.vars@[i].block_index as int == be32(s, pos));
        assert(ix2.vars@[i].block_index as int == be32(s, pos));
    }
}

/// Two blocks agree: the same kind, every field equal, byte content
/// compared by view.
pub open spec fn same_block(b1: Block, b2: Block) -> bool {
    ||| (b1 is Empty && b2 is Empty)
    ||| (b1 matches Block::BomInfo(v1) && b2 matches Block::BomInfo(v2) && v1.version
        == v2.version && v1.number_of_paths == v2.number_of_paths && v1.number_of_info_entries
        == v2.number_of_info_entries && v1.entries@ == v2.entries@)
    ||| (b1 matches Block::File(v1) && b2 matches Block::File(v2) && v1.parent_path_id
        == v2.parent_path_id && v1.name@ == v2.name@)
    ||| (b1 matches Block::PathInfoIndex(v1) && b2 matches Block::PathInfoIndex(v2) && v1 == v2)
    ||| (b1 matches Block::PathRecord(v1) && b2 matches Block::PathRecord(v2) && v1.path_type
        == v2.path_type && v1.a == v2.a && v1.architecture == v2.architecture && v1.mode
        == v2.mode && v1.user == v2.user && v1.group == v2.group && v1.mtime == v2.mtime
        && v1.size == v2.size && v1.b == v2.b && v1.checksum_or_type == v2.checksum_or_type
        && v1.link_name_length == v2.link_name_length && (v1.link_name is None <==> v2.link_name
        is None) && (v1.link_name is Some ==> v1.link_name->0@ == v2.link_name->0@))
    ||| (b1 matches Block::PathRecordPointer(v1) && b2 matches Block::PathRecordPointer(v2) && v1
        == v2)
    ||| (b1 matches Block::Paths(v1) && b2 matches Block::Paths(v2) && v1.is_path_info
        == v2.is_path_info && v1.count == v2.count && v1.next_paths_block_index
        == v2.next_paths_block_index && v1.previous_paths_block_index
        == v2.previous_paths_block_index && v1.paths@ == v2.paths@)
    ||| (b1 matches Block::Tree(v1) && b2 matches Block::Tree(v2) && v1.tree@ == v2.tree@
        && v1.version == v2.version && v1.block_paths_index == v2.block_paths_index
        && v1.block_size == v2.block_size && v1.path_count == v2.path_count && v1.a == v2.a)
    ||| (b1 matches Block::TreePointer(v1) && b2 matches Block::TreePointer(v2) && v1 == v2)
    ||| (b1 matches Block::VIndex(v1) && b2 matches Block::VIndex(v2) && v1 == v2)
    ||| (b1 matches Block::Unknown(e1) && b2 matches Block::Unknown(e2) && e1 == e2)
}

/// Classification is deterministic: any two classifications of the same
/// block of the same buffer agree in kind and in every field.
#[verifier::spinoff_prover]
#[verifier::rlimit(100)]
pub proof fn lemma_classify_deterministic(
    s: Seq<u8>,
    es: Seq<RawBlockEntry>,
    index: int,
    b1: Block,
    b2: Block,
)
    requires
        classify_post(s, es, index, b1),
        classify_post(s, es, index, b2),
    ensures
        same_block(b1, b2),
{
    match (b1, b2) {
        (Block::BomInfo(v1), Block::BomInfo(v2)) => {
            assert forall|j: int| 0 <= j < v1.entries@.len() implies v1.entries@[j]
                == v2.entries@[j] by {
                assert(v1.entries@[j].a == v2.entries@[j].a);
            }
            assert(v1.entries@ =~= v2.entries@);
        },
        (Block::Paths(v1), Block::Paths(v2)) => {
            assert forall|j: int| 0 <= j < v1.paths@.len() implies v1.paths@[j]
                == v2.paths@[j] by {
                assert(v1.paths@[j].block_index == v2.paths@[j].block_index);
            }
            assert(v1.paths@ =~= v2.paths@);
        },
        _ => {},
    }
}

/// Resolution of a path-list section is deterministic: two lists matching
/// the same spec-level walk are equal in every field, byte content compared
/// by view.
pub proof fn lemma_paths_deterministic(ps1: Seq<BomPath>, ps2: Seq<BomPath>, qs: Seq<SpecPath>)
    requires
        paths_match(ps1, qs),
        paths_match(ps2, qs),
    ensures
        ps1.len() == ps2.len(),
        forall|i: int|
            0 <= i < ps1.len() ==> {
                &&& (#[trigger] ps1[i]).path@ == ps2[i].path@
                &&& ps1[i].path_type == ps2[i].path_type
                &&& ps1[i].path_type_raw == ps2[i].path_type_raw
                &&& ps1[i].file_mode == ps2[i].file_mode
                &&& ps1[i].user_id == ps2[i].user_id
                &&& ps1[i].group_id == ps2[i].group_id
                &&& ps1[i].mtime == ps2[i].mtime
                &&& ps1[i].mtime_iso8601@ == ps2[i].mtime_iso8601@
                &&& ps1[i].size == ps2[i].size
                &&& ps1[i].crc32 == ps2[i].crc32
                &&& (ps1[i].link_name is Some <==> ps2[i].link_name is Some)
            },
{
    assert forall|i: int| 0 <= i < ps1.len() implies {
        &&& (#[trigger] ps1[i]).path@ == ps2[i].path@
        &&& ps1[i].path_type == ps2[i].path_type
        &&& ps1[i].path_type_raw == ps2[i].path_type_raw
        &&& ps1[i].file_mode == ps2[i].file_mode
        &&& ps1[i].user_id == ps2[i].user_id
        &&& ps1[i].group_id == ps2[i].group_id
        &&& ps1[i].mtime == ps2[i].mtime
        &&& ps1[i].mtime_iso8601@ == ps2[i].mtime_iso8601@
        &&& ps1[i].size == ps2[i].size
        &&& ps1[i].crc32 == ps2[i].crc32
        &&& (ps1[i].link_name is Some <==> ps2[i].link_name is Some)
    } by {
        assert(path_matches(ps1[i], qs[i]));
        assert(path_matches(ps2[i], qs[i]));
    }
}

} // verus!

use bomdoc::block::Block;
use bomdoc::bompath::BomPathType;
use bomdoc::document::decode_bom;
use bomdoc::err::BomError;
use bomdoc::paths::Section;

// === buffer builders ===

fn build_bom_with(
    magic: &[u8; 8],
    version: u32,
    number_of_blocks: u32,
    blocks: &[Vec<u8>],
    vars: &[(&str, u32)],
) -> Vec<u8> {
    let mut offsets = Vec::new();
    let mut pos = 32usize;
    for b in blocks {
        offsets.push(pos as u32);
        pos += b.len();
    }
    let bio = pos;
    let bil = 4 + 8 * blocks.len();
    let vio = bio + bil;
    let vil = 4 + vars.iter().map(|(n, _)| 5 + n.len()).sum::<usize>();
    let mut data = Vec::new();
    data.extend_from_slice(magic);
    data.extend_from_slice(&version.to_be_bytes());
    data.extend_from_slice(&number_of_blocks.to_be_bytes());
    data.extend_from_slice(&(bio as u32).to_be_bytes());
    data.extend_from_slice(&(bil as u32).to_be_bytes());
    data.extend_from_slice(&(vio as u32).to_be_bytes());
    data.extend_from_slice(&(vil as u32).to_be_bytes());
    for b in blocks {
        data.extend_from_slice(b);
    }
    data.extend_from_slice(&(blocks.len() as u32).to_be_bytes());
    for (i, b) in blocks.iter().enumerate() {
        data.extend_from_slice(&offsets[i].to_be_bytes());
        data.extend_from_slice(&(b.len() as u32).to_be_bytes());
    }
    data.extend_from_slice(&(vars.len() as u32).to_be_bytes());
    for (n, idx) in vars {
        data.extend_from_slice(&idx.to_be_bytes());
        data.push(n.len() as u8);
        data.extend_from_slice(n.as_bytes());
    }
    data
}

fn build_bom(blocks: &[Vec<u8>], vars: &[(&str, u32)]) -> Vec<u8> {
    build_bom_with(b"BOMStore", 1, blocks.len() as u32, blocks, vars)
}

fn tree_block(paths_idx: u32, path_count: u32) -> Vec<u8> {
    let mut b = Vec::new();
    b.extend_from_slice(b"tree");
    b.extend_from_slice(&1u32.to_be_bytes());
    b.extend_from_slice(&paths_idx.to_be_bytes());
    b.extend_from_slice(&4096u32.to_be_bytes());
    b.extend_from_slice(&path_count.to_be_bytes());
    b.push(0);
    b
}

fn paths_block(is_info: u16, next: u32, prev: u32, members: &[(u32, u32)]) -> Vec<u8> {
    let mut b = Vec::new();
    b.extend_from_slice(&is_info.to_be_bytes());
    b.extend_from_slice(&(members.len() as u16).to_be_bytes());
    b.extend_from_slice(&next.to_be_bytes());
    b.extend_from_slice(&prev.to_be_bytes());
    for (bi, fi) in members {
        b.extend_from_slice(&bi.to_be_bytes());
        b.extend_from_slice(&fi.to_be_bytes());
    }
    b
}

fn pathinfo_block(path_id: u32, record_idx: u32) -> Vec<u8> {
    let mut b = Vec::new();
    b.extend_from_slice(&path_id.to_be_bytes());
    b.extend_from_slice(&record_idx.to_be_bytes());
    b
}

fn file_block(parent: u32, name: &str) -> Vec<u8> {
    let mut b = Vec::new();
    b.extend_from_slice(&parent.to_be_bytes());
    b.extend_from_slice(name.as_bytes());
    b.push(0);
    b
}

#[allow(clippy::too_many_arguments)]
fn record_block(
    path_type: u8,
    architecture: u16,
    mode: u16,
    user: u32,
    group: u32,
    mtime: u32,
    size: u32,
    crc: u32,
    link: Option<&str>,
) -> Vec<u8> {
    let mut b = Vec::new();
    b.push(path_type);
    b.push(0);
    b.extend_from_slice(&architecture.to_be_bytes());
    b.extend_from_slice(&mode.to_be_bytes());
    b.extend_from_slice(&user.to_be_bytes());
    b.extend_from_slice(&group.to_be_bytes());
    b.extend_from_slice(&mtime.to_be_bytes());
    b.extend_from_slice(&size.to_be_bytes());
    b.push(0);
    b.extend_from_slice(&crc.to_be_bytes());
    match link {
        Some(l) => {
            b.extend_from_slice(&((l.len() + 1) as u32).to_be_bytes());
            b.extend_from_slice(l.as_bytes());
            b.push(0);
        }
        None => {
            b.extend_from_slice(&0u32.to_be_bytes());
        }
    }
    b
}

fn bominfo_block(version: u32, npaths: u32, entries: &[(u32, u32, u32, u32)]) -> Vec<u8> {
    let mut b = Vec::new();
    b.extend_from_slice(&version.to_be_bytes());
    b.extend_from_slice(&npaths.to_be_bytes());
    b.extend_from_slice(&(entries.len() as u32).to_be_bytes());
    for (a, bb, c, d) in entries {
        b.extend_from_slice(&a.to_be_bytes());
        b.extend_from_slice(&bb.to_be_bytes());
        b.extend_from_slice(&c.to_be_bytes());
        b.extend_from_slice(&d.to_be_bytes());
    }
    b
}

/// A buffer holding one tree (index 1) resolving to a single root
/// directory `/`, mode 0o755, uid 0, gid 0.
fn single_root_dir_bom() -> Vec<u8> {
    let blocks = vec![
        Vec::new(),                                        // 0: null block
        tree_block(2, 1),                                  // 1: the Paths tree
        paths_block(1, 0, 0, &[(3, 4)]),                   // 2: leaf paths collection
        pathinfo_block(1, 5),                              // 3: path info
        file_block(0, "/"),                                // 4: file block
        record_block(2, 0, 0o755, 0, 0, 0, 0, 0, None),    // 5: path record
    ];
    build_bom(&blocks, &[("Paths", 1)])
}

// === scenarios ===

#[test]
fn scenario_a_empty_document() {
    let data = build_bom(&[], &[]);
    let doc = decode_bom(&data, None, true, false).unwrap();
    assert_eq!(doc.header.number_of_blocks, 0);
    assert_eq!(doc.blocks_index.count, 0);
    assert!(doc.blocks_index.entries.is_empty());
    assert!(doc.vars_index.vars.is_empty());
    assert!(doc.bom_info.is_none());
    assert!(doc.paths.is_none());
    assert!(doc.hl_index.is_none());
    assert!(doc.size64.is_none());
    assert!(doc.vindex.is_none());
    assert!(doc.parse_errors.is_empty());
    assert_eq!(doc.blocks.as_ref().unwrap().len(), 0);
    assert_eq!(doc.byte_length, data.len());
}

#[test]
fn scenario_b_single_root_directory() {
    let data = single_root_dir_bom();
    let doc = decode_bom(&data, None, true, false).unwrap();
    assert!(doc.parse_errors.is_empty());
    let paths = doc.paths.as_ref().unwrap();
    assert_eq!(paths.len(), 1);
    let p = &paths[0];
    assert_eq!(p.path, b"/".to_vec());
    assert_eq!(p.path_string(), "/");
    assert!(matches!(p.path_type, BomPathType::Directory));
    assert_eq!(p.file_mode, 0o755);
    assert_eq!(p.user_id, 0);
    assert_eq!(p.group_id, 0);
    assert_eq!(p.size, 0);
    assert_eq!(p.crc32, None);
    assert_eq!(p.link_name, None);
    assert_eq!(p.symbolic_mode(), "drwxr-xr-x");
}

#[test]
fn scenario_c_bominfo_out_of_range() {
    // A BomInfo variable pointing at block 9 while only 5 blocks exist:
    // the section is absent AND an error is recorded, since the variable
    // itself was present.
    let blocks = vec![Vec::new(), Vec::new(), Vec::new(), Vec::new(), Vec::new()];
    let data = build_bom(&blocks, &[("BomInfo", 9)]);
    let doc = decode_bom(&data, None, true, false).unwrap();
    assert_eq!(doc.blocks_index.entries.len(), 5);
    assert!(doc.bom_info.is_none());
    assert_eq!(doc.parse_errors.len(), 1);
    assert_eq!(doc.parse_errors[0].section, Section::BomInfo);
    assert_eq!(doc.parse_errors[0].error, BomError::BadIndex);
    assert!(doc.parse_errors[0].error.message().contains("index"));
}

#[test]
fn scenario_d_small_and_empty_blocks() {
    let blocks = vec![vec![0xAA, 0xBB], Vec::new()];
    let data = build_bom(&blocks, &[]);
    let doc = decode_bom(&data, None, true, false).unwrap();
    let dump = doc.blocks.as_ref().unwrap();
    assert_eq!(dump.len(), 2);
    assert_eq!(dump[0].block, Block::Unknown(BomError::TooSmall));
    assert!(BomError::TooSmall.message().contains("too small"));
    assert_eq!(dump[1].block, Block::Empty);
}

// === single properties ===

#[test]
fn length_zero_is_always_empty() {
    // Even a zero-length block whose offset lies far outside the buffer is
    // Empty, never Unknown.
    let data = build_bom(&[Vec::new()], &[]);
    let mut patched = data.clone();
    // The single index entry sits right after the count: patch its offset.
    let bio = u32::from_be_bytes([data[16], data[17], data[18], data[19]]) as usize;
    patched[bio + 4..bio + 8].copy_from_slice(&u32::MAX.to_be_bytes());
    let doc = decode_bom(&patched, None, true, false).unwrap();
    assert_eq!(doc.blocks.as_ref().unwrap()[0].block, Block::Empty);
}

#[test]
fn lengths_one_to_three_are_too_small() {
    for len in 1..4usize {
        let blocks = vec![vec![0x55u8; len]];
        let data = build_bom(&blocks, &[]);
        let doc = decode_bom(&data, None, true, false).unwrap();
        assert_eq!(
            doc.blocks.as_ref().unwrap()[0].block,
            Block::Unknown(BomError::TooSmall),
            "length {len}"
        );
    }
}

#[test]
fn redecoding_identical_bytes_is_deterministic() {
    let data = single_root_dir_bom();
    let d1 = decode_bom(&data, Some("x".to_string()), true, true).unwrap();
    let d2 = decode_bom(&data, Some("x".to_string()), true, true).unwrap();
    assert_eq!(d1, d2);
}

#[test]
fn truncating_one_block_changes_only_that_block() {
    // Two standalone blocks; the second buffer declares a longer length for
    // block 0 than the buffer holds, as if its bytes were cut off.
    let blocks = vec![vec![0x11u8; 6], vec![0x22u8; 6]];
    let data = build_bom(&blocks, &[]);
    let mut cut = data.clone();
    let bio = u32::from_be_bytes([data[16], data[17], data[18], data[19]]) as usize;
    // block 0's length field sits 8 bytes into the index
    cut[bio + 8..bio + 12].copy_from_slice(&0x0100_0000u32.to_be_bytes());
    let d1 = decode_bom(&data, None, true, false).unwrap();
    let d2 = decode_bom(&cut, None, true, false).unwrap();
    let b1 = d1.blocks.as_ref().unwrap();
    let b2 = d2.blocks.as_ref().unwrap();
    assert_ne!(b1[0].block, b2[0].block);
    assert_eq!(b2[0].block, Block::Unknown(BomError::OutOfBounds));
    assert_eq!(b1[1].block, b2[1].block);
    assert_eq!(d1.paths, d2.paths);
    assert_eq!(d1.parse_errors, d2.parse_errors);
}

#[test]
fn absent_variable_is_not_present_without_error() {
    let data = single_root_dir_bom();
    let doc = decode_bom(&data, None, true, false).unwrap();
    assert!(doc.paths.is_some());
    assert!(doc.size64.is_none());
    assert!(doc.hl_index.is_none());
    assert!(doc.vindex.is_none());
    assert!(doc.bom_info.is_none());
    assert!(doc.parse_errors.is_empty());
}

// === fatal errors ===

#[test]
fn truncated_header_is_fatal() {
    let data = vec![0u8; 10];
    assert_eq!(decode_bom(&data, None, true, false), Err(BomError::Truncated));
    assert!(BomError::Truncated.message().contains("header"));
}

#[test]
fn corrupt_blocks_index_is_fatal() {
    let mut data = build_bom(&[], &[]);
    // point the blocks index past the end of the buffer
    data[16..20].copy_from_slice(&0xFFFF_0000u32.to_be_bytes());
    assert_eq!(decode_bom(&data, None, true, false), Err(BomError::CorruptIndex));
}

#[test]
fn corrupt_vars_index_is_fatal() {
    let mut data = build_bom(&[], &[]);
    data[24..28].copy_from_slice(&0xFFFF_0000u32.to_be_bytes());
    assert_eq!(decode_bom(&data, None, true, false), Err(BomError::CorruptIndex));
}

// === dump details ===

#[test]
fn raw_hex_renders_block_bytes() {
    let blocks = vec![vec![0x00, 0xAB, 0xCD, 0xEF, 0x01]];
    let data = build_bom(&blocks, &[]);
    let doc = decode_bom(&data, None, true, true).unwrap();
    let dump = doc.blocks.as_ref().unwrap();
    assert_eq!(dump[0].raw_hex.as_deref(), Some("00abcdef01"));
    let plain = decode_bom(&data, None, true, false).unwrap();
    assert_eq!(plain.blocks.as_ref().unwrap()[0].raw_hex, None);
}

#[test]
fn rfc3339_renders_epoch_zero() {
    let data = single_root_dir_bom();
    let doc = decode_bom(&data, None, false, false).unwrap();
    assert!(doc.blocks.is_none());
    let paths = doc.paths.as_ref().unwrap();
    assert_eq!(paths[0].mtime, 0);
    assert_eq!(paths[0].mtime_iso8601, "1970-01-01T00:00:00+00:00");
}

#[test]
fn bominfo_block_resolves_with_entries() {
    let blocks = vec![
        Vec::new(),
        bominfo_block(1, 7, &[(1, 2, 3, 4)]),
    ];
    let data = build_bom(&blocks, &[("BomInfo", 1)]);
    let doc = decode_bom(&data, None, true, false).unwrap();
    let info = doc.bom_info.as_ref().unwrap();
    assert_eq!(info.version, 1);
    assert_eq!(info.number_of_paths, 7);
    assert_eq!(info.number_of_info_entries, 1);
    assert_eq!(info.entries.len(), 1);
    assert_eq!(info.entries[0].a, 1);
    assert_eq!(info.entries[0].d, 4);
    // the dump classifies block 1 as an information block too
    let dump = doc.blocks.as_ref().unwrap();
    assert!(matches!(dump[1].block, Block::BomInfo(_)));
}

#[test]
fn dump_classifies_the_structural_kinds() {
    let data = single_root_dir_bom();
    let doc = decode_bom(&data, None, true, false).unwrap();
    let dump = doc.blocks.as_ref().unwrap();
    assert_eq!(dump.len(), 6);
    assert_eq!(dump[0].block, Block::Empty);
    assert!(matches!(dump[1].block, Block::Tree(_)));
    assert!(matches!(dump[2].block, Block::Paths(_)));
    assert!(matches!(dump[3].block, Block::PathInfoIndex(_)));
    assert!(matches!(dump[4].block, Block::File(_)));
    if let Block::Tree(t) = &dump[1].block {
        assert_eq!(t.tree, b"tree".to_vec());
        assert_eq!(t.block_paths_index, 2);
        assert_eq!(t.path_count, 1);
    }
    if let Block::File(f) = &dump[4].block {
        assert_eq!(f.parent_path_id, 0);
        assert_eq!(f.name, b"/".to_vec());
    }
}

#[test]
fn record_with_link_name_classifies_as_record() {
    // a symlink record whose architecture word defeats the paths candidate
    let rec = record_block(3, 0xFFFF, 0o777, 1, 2, 3, 4, 0xDEAD_BEEF, Some("target"));
    let blocks = vec![Vec::new(), Vec::new(), rec];
    let data = build_bom(&blocks, &[]);
    let doc = decode_bom(&data, None, true, false).unwrap();
    let dump = doc.blocks.as_ref().unwrap();
    if let Block::PathRecord(r) = &dump[2].block {
        assert_eq!(r.path_type, 3);
        assert_eq!(r.mode, 0o777);
        assert_eq!(r.checksum_or_type, 0xDEAD_BEEF);
        assert_eq!(r.link_name_length, 7);
        assert_eq!(r.link_name.as_ref().unwrap(), &b"target".to_vec());
    } else {
        panic!("expected a path record, got {:?}", dump[2].block);
    }
}

#[test]
fn unknown_block_type_diagnostic() {
    let blocks = vec![vec![0xFFu8; 5]];
    let data = build_bom(&blocks, &[]);
    let doc = decode_bom(&data, None, true, false).unwrap();
    assert_eq!(
        doc.blocks.as_ref().unwrap()[0].block,
        Block::Unknown(BomError::UnknownBlockType)
    );
}

#[test]
fn duplicate_variable_first_match_wins() {
    let blocks = vec![Vec::new(), bominfo_block(2, 0, &[])];
    let data = build_bom(&blocks, &[("BomInfo", 1), ("BomInfo", 9)]);
    let doc = decode_bom(&data, None, false, false).unwrap();
    assert_eq!(doc.bom_info.as_ref().unwrap().version, 2);
    assert!(doc.parse_errors.is_empty());
}

#[test]
fn symlink_path_resolves_with_link_and_crc() {
    let blocks = vec![
        Vec::new(),
        tree_block(2, 1),
        paths_block(1, 0, 0, &[(3, 4)]),
        pathinfo_block(1, 5),
        file_block(0, "ln"),
        record_block(3, 0, 0o777, 5, 6, 100, 9, 0x1234, Some("t")),
    ];
    let data = build_bom(&blocks, &[("Paths", 1)]);
    let doc = decode_bom(&data, None, false, false).unwrap();
    let p = &doc.paths.as_ref().unwrap()[0];
    assert!(matches!(p.path_type, BomPathType::Link));
    assert_eq!(p.crc32, Some(0x1234));
    assert_eq!(p.link_name.as_ref().unwrap(), &b"t".to_vec());
    assert_eq!(p.user_id, 5);
    assert_eq!(p.group_id, 6);
    assert_eq!(p.size, 9);
}

#[test]
fn nested_path_builds_full_name() {
    // two members: a root directory "a" (id 1) and a child file "b" with
    // parent id 1, giving the full path "a/b"
    let blocks = vec![
        Vec::new(),
        tree_block(2, 2),
        paths_block(1, 0, 0, &[(3, 4), (6, 7)]),
        pathinfo_block(1, 5),
        file_block(0, "a"),
        record_block(2, 0, 0o755, 0, 0, 0, 0, 0, None),
        pathinfo_block(2, 8),
        file_block(1, "b"),
        record_block(1, 0, 0o644, 0, 0, 0, 3, 0xABCD, None),
    ];
    let data = build_bom(&blocks, &[("Paths", 1)]);
    let doc = decode_bom(&data, None, false, false).unwrap();
    let paths = doc.paths.as_ref().unwrap();
    assert_eq!(paths.len(), 2);
    assert_eq!(paths[0].path, b"a".to_vec());
    assert_eq!(paths[1].path, b"a/b".to_vec());
    assert!(matches!(paths[1].path_type, BomPathType::File));
    assert_eq!(paths[1].crc32, Some(0xABCD));
}

#[test]
fn cyclic_paths_chain_is_a_soft_error() {
    // the leaf collection points at itself as the next collection
    let blocks = vec![
        Vec::new(),
        tree_block(2, 1),
        paths_block(1, 2, 0, &[(3, 4)]),
        pathinfo_block(1, 5),
        file_block(0, "/"),
        record_block(2, 0, 0o755, 0, 0, 0, 0, 0, None),
    ];
    let data = build_bom(&blocks, &[("Paths", 1)]);
    let doc = decode_bom(&data, None, false, false).unwrap();
    assert!(doc.paths.is_none());
    assert_eq!(doc.parse_errors.len(), 1);
    assert_eq!(doc.parse_errors[0].section, Section::Paths);
    assert_eq!(doc.parse_errors[0].error, BomError::CycleDetected);
}

#[test]
fn cross_check_with_reference_parser() {
    let data = single_root_dir_bom();
    let doc = decode_bom(&data, None, true, false).unwrap();
    let reference = apple_bom::format::ParsedBom::parse(&data).unwrap();
    assert_eq!(doc.header.version, reference.header.version);
    assert_eq!(doc.header.number_of_blocks, reference.header.number_of_blocks);
    assert_eq!(doc.blocks_index.count, reference.blocks.count);
    assert_eq!(doc.vars_index.vars.len(), reference.vars.vars.len());
    assert_eq!(
        doc.vars_index.vars[0].name,
        reference.vars.vars[0].name.as_bytes().to_vec()
    );
    let mine = doc.paths.as_ref().unwrap();
    let theirs = reference.paths().unwrap();
    assert_eq!(mine.len(), theirs.len());
    assert_eq!(mine[0].path_string(), theirs[0].path());
    assert_eq!(mine[0].file_mode, theirs[0].file_mode());
    assert_eq!(mine[0].symbolic_mode(), theirs[0].symbolic_mode());
    assert_eq!(mine[0].mtime_iso8601, theirs[0].modified_time().to_rfc3339());
}

use vstd::prelude::*;

use crate::err::BomError;
use crate::reader::{
    be16, be32, is_cstring_range, lemma_be16_bounds, lemma_be32_bounds, read_bytes, read_cstring,
    read_u16, read_u32, read_u8,
};

verus! {

/// One fixed-width record inside an information block.
#[derive(Clone, Copy, Debug, PartialEq, Eq, Structural)]
pub struct BomInfoEntry {
    pub a: u32,
    pub b: u32,
    pub c: u32,
    pub d: u32,
}

/// High-level information about the whole container: version, total path
/// count, and a list of fixed-width records.
#[derive(Clone, Debug, PartialEq, Eq)]
pub struct BlockBomInfo {
    pub version: u32,
    pub number_of_paths: u32,
    pub number_of_info_entries: u32,
    pub entries: Vec<BomInfoEntry>,
}

/// A named file or directory: the parent's path identifier and the leaf name.
#[derive(Clone, Debug, PartialEq, Eq)]
pub struct BlockFile {
    /// Path identifier of the parent; zero means the entry sits at the root.
    pub parent_path_id: u32,
    /// Leaf name bytes, without the NUL terminator.
    pub name: Vec<u8>,
}

/// Binds a path identifier to the block index of its path record.
#[derive(Clone, Copy, Debug, PartialEq, Eq, Structural)]
pub struct BlockPathInfoIndex {
    pub path_id: u32,
    pub path_record_index: u32,
}

/// The low-level metadata of one path: type, mode, owner, times, size and
/// checksum, plus the link target for symlinks.
#[derive(Clone, Debug, PartialEq, Eq)]
pub struct BlockPathRecord {
    pub path_type: u8,
    pub a: u8,
    pub architecture: u16,
    pub mode: u16,
    pub user: u32,
    pub group: u32,
    pub mtime: u32,
    pub size: u32,
    pub b: u8,
    pub checksum_or_type: u32,
    /// Stored length of the link name, NUL terminator included.
    pub link_name_length: u32,
    /// Link target bytes without the terminator; present only for symlinks
    /// with a nonzero stored length.
    pub link_name: Option<Vec<u8>>,
}

/// A pointer to the block index of a path record.
#[derive(Clone, Copy, Debug, PartialEq, Eq, Structural)]
pub struct BlockPathRecordPointer {
    pub block_path_record_index: u32,
}

/// One member of a paths collection: a block index and the block index of
/// the member's file block.
#[derive(Clone, Copy, Debug, PartialEq, Eq, Structural)]
pub struct PathsEntry {
    pub block_index: u32,
    pub file_index: u32,
}

/// A collection of paths, chained to neighbouring collections by block
/// index.
#[derive(Clone, Debug, PartialEq, Eq)]
pub struct BlockPaths {
    /// Nonzero when members point at path info blocks; zero when they point
    /// at further paths collections.
    pub is_path_info: u16,
    pub count: u16,
    pub next_paths_block_index: u32,
    pub previous_paths_block_index: u32,
    pub paths: Vec<PathsEntry>,
}

/// The root record of an index-structured path collection.
#[derive(Clone, Debug, PartialEq, Eq)]
pub struct BlockTree {
    /// The four magic bytes (`tree` in well-formed blocks).
    pub tree: Vec<u8>,
    pub version: u32,
    pub block_paths_index: u32,
    pub block_size: u32,
    pub path_count: u32,
    pub a: u8,
}

/// A pointer to the block index of a tree.
#[derive(Clone, Copy, Debug, PartialEq, Eq, Structural)]
pub struct BlockTreePointer {
    pub block_tree_index: u32,
}

/// The data block of the vindex section.
#[derive(Clone, Copy, Debug, PartialEq, Eq, Structural)]
pub struct BlockVIndex {
    pub a: u32,
    pub tree_block_index: u32,
    pub b: u32,
    pub c: u8,
}

/// A decoded block: one of the ten known kinds, or `Unknown` carrying the
/// diagnostic that defeated classification. Classification is total: every
/// block yields exactly one of these.
#[derive(Clone, Debug, PartialEq, Eq)]
pub enum Block {
    Empty,
    BomInfo(BlockBomInfo),
    File(BlockFile),
    PathInfoIndex(BlockPathInfoIndex),
    PathRecord(BlockPathRecord),
    PathRecordPointer(BlockPathRecordPointer),
    Paths(BlockPaths),
    Tree(BlockTree),
    TreePointer(BlockTreePointer),
    VIndex(BlockVIndex),
    Unknown(BomError),
}

/// How a candidate decode of one block kind fails: `Soft` lets
/// classification move to the next candidate; `Fault` defeats the whole
/// classification, as an internal fatal fault caught at the block boundary.
#[derive(Clone, Copy, Debug, PartialEq, Eq, Structural)]
pub enum CandidateFail {
    Soft(BomError),
    Fault(BomError),
}

// === Shape predicates: whether the bytes `[bo, bend)` can hold each kind ===

/// An information block: fixed 12-byte header plus its declared records.
pub open spec fn bominfo_full(s: Seq<u8>, bo: int, bend: int) -> bool {
    &&& bend - bo >= 12
    &&& 12 + 16 * be32(s, bo + 8) <= bend - bo
}

/// A tree block: the `tree` magic and a 21-byte header.
pub open spec fn tree_hdr_full(s: Seq<u8>, bo: int, bend: int) -> bool {
    &&& bend - bo >= 21
    &&& s[bo] == 0x74u8
    &&& s[bo + 1] == 0x72u8
    &&& s[bo + 2] == 0x65u8
    &&& s[bo + 3] == 0x65u8
}

/// A paths block: fixed 12-byte header plus its declared members.
pub open spec fn paths_full(s: Seq<u8>, bo: int, bend: int) -> bool {
    &&& bend - bo >= 12
    &&& 12 + 8 * be16(s, bo + 2) <= bend - bo
}

/// A path info block: two 32-bit fields.
pub open spec fn pathinfo_full(s: Seq<u8>, bo: int, bend: int) -> bool {
    bend - bo >= 8
}

/// A vindex block: three 32-bit fields and one byte.
pub open spec fn vindex_full(s: Seq<u8>, bo: int, bend: int) -> bool {
    bend - bo >= 13
}

/// A pointer block: one 32-bit field.
pub open spec fn pointer_full(s: Seq<u8>, bo: int, bend: int) -> bool {
    bend - bo >= 4
}

/// Whether a path record's trailing link name applies: symlink type with a
/// nonzero stored length.
pub open spec fn record_link_applies(s: Seq<u8>, bo: int) -> bool {
    s[bo] == 3u8 && be32(s, bo + 27) > 0
}

/// A path record block: the 31 fixed bytes, and, when a link name applies,
/// its NUL-terminated bytes inside the block.
pub open spec fn record_full(s: Seq<u8>, bo: int, bend: int) -> bool {
    &&& bend - bo >= 31
    &&& record_link_applies(s, bo) ==> {
        &&& 31 + be32(s, bo + 27) <= bend - bo
        &&& is_cstring_range(s, bo + 31, bo + 31 + be32(s, bo + 27))
    }
}

/// A path record whose stored link length reaches past the block: the fatal
/// fault case of record decoding.
pub open spec fn record_fault(s: Seq<u8>, bo: int, bend: int) -> bool {
    &&& bend - bo >= 31
    &&& record_link_applies(s, bo)
    &&& 31 + be32(s, bo + 27) > bend - bo
}

/// A file block: the parent field and a NUL-terminated name filling the
/// rest of the block exactly.
pub open spec fn file_full(s: Seq<u8>, bo: int, bend: int) -> bool {
    &&& bend - bo >= 4
    &&& is_cstring_range(s, bo + 4, bend)
}

// === Field pinning: what each decoded kind holds, byte for byte ===

pub open spec fn bominfo_pins(s: Seq<u8>, bo: int, v: BlockBomInfo) -> bool {
    &&& v.version as int == be32(s, bo)
    &&& v.number_of_paths as int == be32(s, bo + 4)
    &&& v.number_of_info_entries as int == be32(s, bo + 8)
    &&& v.entries@.len() == v.number_of_info_entries
    &&& forall|j: int|
        0 <= j < v.entries@.len() ==> {
            &&& (#[trigger] v.entries@[j]).a as int == be32(s, bo + 12 + 16 * j)
            &&& v.entries@[j].b as int == be32(s, bo + 16 + 16 * j)
            &&& v.entries@[j].c as int == be32(s, bo + 20 + 16 * j)
            &&& v.entries@[j].d as int == be32(s, bo + 24 + 16 * j)
        }
}

pub open spec fn tree_pins(s: Seq<u8>, bo: int, v: BlockTree) -> bool {
    &&& v.tree@ == s.subrange(bo, bo + 4)
    &&& v.version as int == be32(s, bo + 4)
    &&& v.block_paths_index as int == be32(s, bo + 8)
    &&& v.block_size as int == be32(s, bo + 12)
    &&& v.path_count as int == be32(s, bo + 16)
    &&& v.a == s[bo + 20]
}

pub open spec fn paths_pins(s: Seq<u8>, bo: int, v: BlockPaths) -> bool {
    &&& v.is_path_info as int == be16(s, bo)
    &&& v.count as int == be16(s, bo + 2)
    &&& v.next_paths_block_index as int == be32(s, bo + 4)
    &&& v.previous_paths_block_index as int == be32(s, bo + 8)
    &&& v.paths@.len() == v.count
    &&& forall|j: int|
        0 <= j < v.paths@.len() ==> {
            &&& (#[trigger] v.paths@[j]).block_index as int == be32(s, bo + 12 + 8 * j)
            &&& v.paths@[j].file_index as int == be32(s, bo + 16 + 8 * j)
        }
}

pub open spec fn pathinfo_pins(s: Seq<u8>, bo: int, v: BlockPathInfoIndex) -> bool {
    &&& v.path_id as int == be32(s, bo)
    &&& v.path_record_index as int == be32(s, bo + 4)
}

pub open spec fn vindex_pins(s: Seq<u8>, bo: int, v: BlockVIndex) -> bool {
    &&& v.a as int == be32(s, bo)
    &&& v.tree_block_index as int == be32(s, bo + 4)
    &&& v.b as int == be32(s, bo + 8)
    &&& v.c == s[bo + 12]
}

pub open spec fn record_pins(s: Seq<u8>, bo: int, v: BlockPathRecord) -> bool {
    &&& v.path_type == s[bo]
    &&& v.a == s[bo + 1]
    &&& v.architecture as int == be16(s, bo + 2)
    &&& v.mode as int == be16(s, bo + 4)
    &&& v.user as int == be32(s, bo + 6)
    &&& v.group as int == be32(s, bo + 10)
    &&& v.mtime as int == be32(s, bo + 14)
    &&& v.size as int == be32(s, bo + 18)
    &&& v.b == s[bo + 22]
    &&& v.checksum_or_type as int == be32(s, bo + 23)
    &&& v.link_name_length as int == be32(s, bo + 27)
    &&& if record_link_applies(s, bo) {
        v.link_name matches Some(n) && n@ == s.subrange(bo + 31, bo + 31 + be32(s, bo + 27) - 1)
    } else {
        v.link_name is None
    }
}

pub open spec fn file_pins(s: Seq<u8>, bo: int, bend: int, v: BlockFile) -> bool {
    &&& v.parent_path_id as int == be32(s, bo)
    &&& v.name@ == s.subrange(bo + 4, bend - 1)
}

// === Executable decoders, one per kind ===

/// Decodes an information block.
pub(crate) fn parse_bominfo(data: &Vec<u8>, bo: usize, bend: usize) -> (r: Result<
    BlockBomInfo,
    BomError,
>)
    requires
        bo <= bend <= data@.len(),
    ensures
        r is Ok <==> bominfo_full(data@, bo as int, bend as int),
        r is Ok ==> bominfo_pins(data@, bo as int, r->Ok_0),
        r is Err ==> r->Err_0 == BomError::OutOfBounds,
{
    if bend - bo < 12 {
        return Err(BomError::OutOfBounds);
    }
    let version = match read_u32(data, bo, bend) { Ok(v) => v, Err(_) => 0 };
    let number_of_paths = match read_u32(data, bo + 4, bend) { Ok(v) => v, Err(_) => 0 };
    let number_of_info_entries = match read_u32(data, bo + 8, bend) {
        Ok(v) => v,
        Err(e) => {
            return Err(e);
        },
    };
    proof {
        lemma_be32_bounds(data@, bo as int);
        lemma_be32_bounds(data@, bo + 4);
        lemma_be32_bounds(data@, bo + 8);
    }
    let n = number_of_info_entries as usize;
    if (n as u64) * 16 > (bend - bo) as u64 - 12 {
        return Err(BomError::OutOfBounds);
    }
    let mut entries: Vec<BomInfoEntry> = Vec::new();
    let mut j: usize = 0;
    while j < n
        invariant
            bo <= bend <= data@.len(),
            12 + 16 * n <= bend - bo,
            j <= n,
            entries@.len() == j,
            forall|k: int|
                0 <= k < j ==> {
                    &&& (#[trigger] entries@[k]).a as int == be32(data@, bo + 12 + 16 * k)
                    &&& entries@[k].b as int == be32(data@, bo + 16 + 16 * k)
                    &&& entries@[k].c as int == be32(data@, bo + 20 + 16 * k)
                    &&& entries@[k].d as int == be32(data@, bo + 24 + 16 * k)
                },
        decreases n - j,
    {
        let p = bo + 12 + 16 * j;
        let a = match read_u32(data, p, bend) { Ok(v) => v, Err(_) => 0 };
        let b = match read_u32(data, p + 4, bend) { Ok(v) => v, Err(_) => 0 };
        let c = match read_u32(data, p + 8, bend) { Ok(v) => v, Err(_) => 0 };
        let d = match read_u32(data, p + 12, bend) { Ok(v) => v, Err(_) => 0 };
        proof {
            lemma_be32_bounds(data@, p as int);
            lemma_be32_bounds(data@, p + 4);
            lemma_be32_bounds(data@, p + 8);
            lemma_be32_bounds(data@, p + 12);
        }
        entries.push(BomInfoEntry { a, b, c, d });
        j = j + 1;
    }
    Ok(BlockBomInfo { version, number_of_paths, number_of_info_entries, entries })
}

/// The error a failing tree decode reports: a header that does not fit, or
/// bytes that are not the tree magic.
pub open spec fn tree_soft_err(s: Seq<u8>, bo: int, bend: int) -> BomError {
    if bend - bo < 21 {
        BomError::OutOfBounds
    } else {
        BomError::UnknownBlockType
    }
}

/// Decodes a tree block header. The fault case arises only for referenced
/// blocks shorter than the magic itself.
pub(crate) fn parse_tree(data: &Vec<u8>, bo: usize, bend: usize) -> (r: Result<
    BlockTree,
    CandidateFail,
>)
    requires
        bo <= bend <= data@.len(),
    ensures
        r is Ok <==> tree_hdr_full(data@, bo as int, bend as int),
        r is Ok ==> tree_pins(data@, bo as int, r->Ok_0),
        r is Err ==> (r->Err_0 is Fault <==> bend - bo < 4),
        r is Err && r->Err_0 is Fault ==> r->Err_0->Fault_0 == BomError::OutOfBounds,
        r matches Err(CandidateFail::Soft(e)) ==> e == tree_soft_err(data@, bo as int, bend as int),
{
    if bend - bo < 4 {
        return Err(CandidateFail::Fault(BomError::OutOfBounds));
    }
    if bend - bo < 21 {
        return Err(CandidateFail::Soft(BomError::OutOfBounds));
    }
    if !(data[bo] == 0x74 && data[bo + 1] == 0x72 && data[bo + 2] == 0x65 && data[bo + 3]
        == 0x65) {
        return Err(CandidateFail::Soft(BomError::UnknownBlockType));
    }
    let tree = match read_bytes(data, bo, 4, bend) {
        Ok(v) => v,
        Err(_) => {
            return Err(CandidateFail::Soft(BomError::OutOfBounds));
        },
    };
    let version = match read_u32(data, bo + 4, bend) { Ok(v) => v, Err(_) => 0 };
    let block_paths_index = match read_u32(data, bo + 8, bend) { Ok(v) => v, Err(_) => 0 };
    let block_size = match read_u32(data, bo + 12, bend) { Ok(v) => v, Err(_) => 0 };
    let path_count = match read_u32(data, bo + 16, bend) { Ok(v) => v, Err(_) => 0 };
    let a = match read_u8(data, bo + 20, bend) { Ok(v) => v, Err(_) => 0 };
    proof {
        lemma_be32_bounds(data@, bo + 4);
        lemma_be32_bounds(data@, bo + 8);
        lemma_be32_bounds(data@, bo + 12);
        lemma_be32_bounds(data@, bo + 16);
    }
    Ok(BlockTree { tree, version, block_paths_index, block_size, path_count, a })
}

/// Decodes a paths block: header and member list, without resolving the
/// members.
pub(crate) fn parse_paths(data: &Vec<u8>, bo: usize, bend: usize) -> (r: Result<
    BlockPaths,
    BomError,
>)
    requires
        bo <= bend <= data@.len(),
    ensures
        r is Ok <==> paths_full(data@, bo as int, bend as int),
        r is Ok ==> paths_pins(data@, bo as int, r->Ok_0),
        r is Err ==> r->Err_0 == BomError::OutOfBounds,
{
    if bend - bo < 12 {
        return Err(BomError::OutOfBounds);
    }
    let is_path_info = match read_u16(data, bo, bend) { Ok(v) => v, Err(_) => 0 };
    let count = match read_u16(data, bo + 2, bend) {
        Ok(v) => v,
        Err(e) => {
            return Err(e);
        },
    };
    let next_paths_block_index = match read_u32(data, bo + 4, bend) { Ok(v) => v, Err(_) => 0 };
    let previous_paths_block_index = match read_u32(data, bo + 8, bend) { Ok(v) => v, Err(_) => 0 };
    proof {
        lemma_be16_bounds(data@, bo as int);
        lemma_be16_bounds(data@, bo + 2);
        lemma_be32_bounds(data@, bo + 4);
        lemma_be32_bounds(data@, bo + 8);
    }
    let n = count as usize;
    if (n as u64) * 8 > (bend - bo) as u64 - 12 {
        return Err(BomError::OutOfBounds);
    }
    let mut paths: Vec<PathsEntry> = Vec::new();
    let mut j: usize = 0;
    while j < n
        invariant
            bo <= bend <= data@.len(),
            12 + 8 * n <= bend - bo,
            j <= n,
            paths@.len() == j,
            forall|k: int|
                0 <= k < j ==> {
                    &&& (#[trigger] paths@[k]).block_index as int == be32(data@, bo + 12 + 8 * k)
                    &&& paths@[k].file_index as int == be32(data@, bo + 16 + 8 * k)
                },
        decreases n - j,
    {
        let p = bo + 12 + 8 * j;
        let block_index = match read_u32(data, p, bend) { Ok(v) => v, Err(_) => 0 };
        let file_index = match read_u32(data, p + 4, bend) { Ok(v) => v, Err(_) => 0 };
        proof {
            lemma_be32_bounds(data@, p as int);
            lemma_be32_bounds(data@, p + 4);
        }
        paths.push(PathsEntry { block_index, file_index });
        j = j + 1;
    }
    Ok(BlockPaths { is_path_info, count, next_paths_block_index, previous_paths_block_index, paths })
}

/// Decodes a path info block.
pub(crate) fn parse_pathinfo(data: &Vec<u8>, bo: usize, bend: usize) -> (r: Result<
    BlockPathInfoIndex,
    BomError,
>)
    requires
        bo <= bend <= data@.len(),
    ensures
        r is Ok <==> pathinfo_full(data@, bo as int, bend as int),
        r is Ok ==> pathinfo_pins(data@, bo as int, r->Ok_0),
        r is Err ==> r->Err_0 == BomError::OutOfBounds,
{
    if bend - bo < 8 {
        return Err(BomError::OutOfBounds);
    }
    let path_id = match read_u32(data, bo, bend) { Ok(v) => v, Err(_) => 0 };
    let path_record_index = match read_u32(data, bo + 4, bend) { Ok(v) => v, Err(_) => 0 };
    proof {
        lemma_be32_bounds(data@, bo as int);
        lemma_be32_bounds(data@, bo + 4);
    }
    Ok(BlockPathInfoIndex { path_id, path_record_index })
}

/// Decodes a vindex block.
pub(crate) fn parse_vindex(data: &Vec<u8>, bo: usize, bend: usize) -> (r: Result<
    BlockVIndex,
    BomError,
>)
    requires
        bo <= bend <= data@.len(),
    ensures
        r is Ok <==> vindex_full(data@, bo as int, bend as int),
        r is Ok ==> vindex_pins(data@, bo as int, r->Ok_0),
        r is Err ==> r->Err_0 == BomError::OutOfBounds,
{
    if bend - bo < 13 {
        return Err(BomError::OutOfBounds);
    }
    let a = match read_u32(data, bo, bend) { Ok(v) => v, Err(_) => 0 };
    let tree_block_index = match read_u32(data, bo + 4, bend) { Ok(v) => v, Err(_) => 0 };
    let b = match read_u32(data, bo + 8, bend) { Ok(v) => v, Err(_) => 0 };
    let c = match read_u8(data, bo + 12, bend) { Ok(v) => v, Err(_) => 0 };
    proof {
        lemma_be32_bounds(data@, bo as int);
        lemma_be32_bounds(data@, bo + 4);
        lemma_be32_bounds(data@, bo + 8);
    }
    Ok(BlockVIndex { a, tree_block_index, b, c })
}

/// Decodes a pointer block: its single block index field.
pub(crate) fn parse_pointer(data: &Vec<u8>, bo: usize, bend: usize) -> (r: Result<u32, BomError>)
    requires
        bo <= bend <= data@.len(),
    ensures
        r is Ok <==> pointer_full(data@, bo as int, bend as int),
        r is Ok ==> r->Ok_0 as int == be32(data@, bo as int),
        r is Err ==> r->Err_0 == BomError::OutOfBounds,
{
    if bend - bo < 4 {
        return Err(BomError::OutOfBounds);
    }
    let v = match read_u32(data, bo, bend) { Ok(v) => v, Err(_) => 0 };
    proof {
        lemma_be32_bounds(data@, bo as int);
    }
    Ok(v)
}

/// Decodes a path record block: the fixed fields and, for symlinks, the
/// trailing link name. A stored link length reaching past the block is the
/// fault case.
pub(crate) fn parse_record(data: &Vec<u8>, bo: usize, bend: usize) -> (r: Result<
    BlockPathRecord,
    CandidateFail,
>)
    requires
        bo <= bend <= data@.len(),
    ensures
        r is Ok <==> record_full(data@, bo as int, bend as int),
        r is Ok ==> record_pins(data@, bo as int, r->Ok_0),
        r is Err ==> (r->Err_0 is Fault <==> record_fault(data@, bo as int, bend as int)),
        r is Err && r->Err_0 is Fault ==> r->Err_0->Fault_0 == BomError::OutOfBounds,
        r matches Err(CandidateFail::Soft(e)) ==> e == (if bend - bo < 31 {
            BomError::OutOfBounds
        } else {
            BomError::BadString
        }),
{
    if bend - bo < 31 {
        return Err(CandidateFail::Soft(BomError::OutOfBounds));
    }
    let path_type = match read_u8(data, bo, bend) { Ok(v) => v, Err(_) => 0 };
    let a = match read_u8(data, bo + 1, bend) { Ok(v) => v, Err(_) => 0 };
    let architecture = match read_u16(data, bo + 2, bend) { Ok(v) => v, Err(_) => 0 };
    let mode = match read_u16(data, bo + 4, bend) { Ok(v) => v, Err(_) => 0 };
    let user = match read_u32(data, bo + 6, bend) { Ok(v) => v, Err(_) => 0 };
    let group = match read_u32(data, bo + 10, bend) { Ok(v) => v, Err(_) => 0 };
    let mtime = match read_u32(data, bo + 14, bend) { Ok(v) => v, Err(_) => 0 };
    let size = match read_u32(data, bo + 18, bend) { Ok(v) => v, Err(_) => 0 };
    let b = match read_u8(data, bo + 22, bend) { Ok(v) => v, Err(_) => 0 };
    let checksum_or_type = match read_u32(data, bo + 23, bend) { Ok(v) => v, Err(_) => 0 };
    let link_name_length = match read_u32(data, bo + 27, bend) { Ok(v) => v, Err(_) => 0 };
    proof {
        lemma_be16_bounds(data@, bo + 2);
        lemma_be16_bounds(data@, bo + 4);
        lemma_be32_bounds(data@, bo + 6);
        lemma_be32_bounds(data@, bo + 10);
        lemma_be32_bounds(data@, bo + 14);
        lemma_be32_bounds(data@, bo + 18);
        lemma_be32_bounds(data@, bo + 23);
        lemma_be32_bounds(data@, bo + 27);
    }
    let link_name: Option<Vec<u8>> = if path_type == 3 && link_name_length > 0 {
        let lnl = link_name_length as usize;
        if (lnl as u64) > (bend - bo) as u64 - 31 {
            return Err(CandidateFail::Fault(BomError::OutOfBounds));
        }
        match read_cstring(data, bo + 31, bo + 31 + lnl) {
            Ok(n) => Some(n),
            Err(e) => {
                return Err(CandidateFail::Soft(e));
            },
        }
    } else {
        None
    };
    Ok(BlockPathRecord {
        path_type,
        a,
        architecture,
        mode,
        user,
        group,
        mtime,
        size,
        b,
        checksum_or_type,
        link_name_length,
        link_name,
    })
}

/// Decodes a file block: the parent field and the NUL-terminated leaf name
/// filling the rest of the block.
pub(crate) fn parse_file(data: &Vec<u8>, bo: usize, bend: usize) -> (r: Result<
    BlockFile,
    BomError,
>)
    requires
        bo <= bend <= data@.len(),
    ensures
        r is Ok <==> file_full(data@, bo as int, bend as int),
        r is Ok ==> file_pins(data@, bo as int, bend as int, r->Ok_0),
        r is Err ==> r->Err_0 == (if bend - bo < 4 {
            BomError::OutOfBounds
        } else {
            BomError::BadString
        }),
{
    if bend - bo < 4 {
        return Err(BomError::OutOfBounds);
    }
    let parent_path_id = match read_u32(data, bo, bend) { Ok(v) => v, Err(_) => 0 };
    proof {
        lemma_be32_bounds(data@, bo as int);
    }
    let name = match read_cstring(data, bo + 4, bend) {
        Ok(n) => n,
        Err(e) => {
            return Err(e);
        },
    };
    Ok(BlockFile { parent_path_id, name })
}

} // verus!

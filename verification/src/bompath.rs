use vstd::prelude::*;

use crate::block::BlockPathRecord;
use crate::textenc::{bytes_to_string_lossy, lossy_utf8_of, rfc3339_utc, rfc3339_utc_of};
use vstd::string::StringExecFns;

verus! {

/// The type of a resolved path.
#[derive(Clone, Copy, Debug, PartialEq, Eq, Structural)]
pub enum BomPathType {
    File,
    Directory,
    Link,
    Dev,
    Other(u8),
}

/// The path type a raw type byte denotes.
pub open spec fn spec_path_type(v: u8) -> BomPathType {
    if v == 1 {
        BomPathType::File
    } else if v == 2 {
        BomPathType::Directory
    } else if v == 3 {
        BomPathType::Link
    } else if v == 4 {
        BomPathType::Dev
    } else {
        BomPathType::Other(v)
    }
}

/// Maps a raw type byte to the path type it denotes.
pub fn path_type_from_raw(v: u8) -> (r: BomPathType)
    ensures
        r == spec_path_type(v),
{
    match v {
        1 => BomPathType::File,
        2 => BomPathType::Directory,
        3 => BomPathType::Link,
        4 => BomPathType::Dev,
        _ => BomPathType::Other(v),
    }
}

/// The lowercase label of a path type.
pub fn path_type_name(t: BomPathType) -> (r: String)
    ensures
        t is File ==> r@ == "file"@,
        t is Directory ==> r@ == "directory"@,
        t is Link ==> r@ == "link"@,
        t is Dev ==> r@ == "device"@,
        t is Other ==> r@ == "other"@,
{
    match t {
        BomPathType::File => "file".to_string(),
        BomPathType::Directory => "directory".to_string(),
        BomPathType::Link => "link".to_string(),
        BomPathType::Dev => "device".to_string(),
        BomPathType::Other(_) => "other".to_string(),
    }
}

/// The leading character of a symbolic mode string.
pub open spec fn type_char(t: BomPathType) -> char {
    match t {
        BomPathType::Directory => 'd',
        BomPathType::File => '-',
        BomPathType::Link => 'l',
        BomPathType::Dev => '?',
        BomPathType::Other(_) => '?',
    }
}

/// A permission character, or `-` when the bit is clear.
pub open spec fn flag_char(on: bool, c: char) -> char {
    if on {
        c
    } else {
        '-'
    }
}

/// The ten-character symbolic mode: type, then read/write/execute for
/// owner, group and others.
pub open spec fn spec_symbolic_mode(t: BomPathType, m: u16) -> Seq<char> {
    seq![
        type_char(t),
        flag_char(m & 0x100 != 0, 'r'),
        flag_char(m & 0x80 != 0, 'w'),
        flag_char(m & 0x40 != 0, 'x'),
        flag_char(m & 0x20 != 0, 'r'),
        flag_char(m & 0x10 != 0, 'w'),
        flag_char(m & 0x8 != 0, 'x'),
        flag_char(m & 0x4 != 0, 'r'),
        flag_char(m & 0x2 != 0, 'w'),
        flag_char(m & 0x1 != 0, 'x'),
    ]
}

/// A path entry that is internally consistent: the type tag matches the
/// raw byte, the rendered time matches the epoch seconds, and a checksum is
/// carried exactly for files and links.
pub open spec fn path_consistent(p: BomPath) -> bool {
    &&& p.path_type == spec_path_type(p.path_type_raw)
    &&& p.mtime_iso8601@ == rfc3339_utc_of(p.mtime)
    &&& (p.crc32 is Some <==> (p.path_type_raw == 1 || p.path_type_raw == 3))
}

/// A resolved filesystem entry: the full path and the metadata its path
/// record carries, all verbatim from the record.
#[derive(Clone, Debug, PartialEq, Eq)]
pub struct BomPath {
    /// The full path bytes, components joined by `/`.
    pub path: Vec<u8>,
    pub path_type: BomPathType,
    /// The raw type byte the record stores.
    pub path_type_raw: u8,
    pub file_mode: u16,
    pub user_id: u32,
    pub group_id: u32,
    /// Modified time, in seconds since the epoch.
    pub mtime: u32,
    /// The modified time rendered as an RFC 3339 timestamp in UTC.
    pub mtime_iso8601: String,
    pub size: u32,
    /// The stored checksum; carried only for files and links, never
    /// recomputed.
    pub crc32: Option<u32>,
    /// Link target bytes, for symlinks that store one.
    pub link_name: Option<Vec<u8>>,
}

/// Copies a byte vector.
pub fn copy_bytes(v: &Vec<u8>) -> (r: Vec<u8>)
    ensures
        r@ == v@,
{
    let mut out: Vec<u8> = Vec::new();
    let mut i: usize = 0;
    while i < v.len()
        invariant
            i <= v@.len(),
            out@ == v@.subrange(0, i as int),
        decreases v@.len() - i,
    {
        out.push(v[i]);
        assert(out@ =~= v@.subrange(0, i + 1));
        i = i + 1;
    }
    assert(out@ =~= v@);
    out
}

/// Joins a parent path and a child name with a `/` separator.
pub fn join_path(parent: &Vec<u8>, child: &Vec<u8>) -> (r: Vec<u8>)
    ensures
        r@ == parent@ + seq![0x2fu8] + child@,
{
    let mut out = copy_bytes(parent);
    out.push(0x2f);
    let mut i: usize = 0;
    while i < child.len()
        invariant
            i <= child@.len(),
            out@ == parent@ + seq![0x2fu8] + child@.subrange(0, i as int),
        decreases child@.len() - i,
    {
        out.push(child[i]);
        assert(out@ =~= parent@ + seq![0x2fu8] + child@.subrange(0, i + 1));
        i = i + 1;
    }
    assert(out@ =~= parent@ + seq![0x2fu8] + child@);
    out
}

/// Three permission characters: read, write and execute, each replaced by
/// `-` when its bit is clear.
fn rwx_triplet(r_on: bool, w_on: bool, x_on: bool) -> (s: String)
    ensures
        s@ == seq![flag_char(r_on, 'r'), flag_char(w_on, 'w'), flag_char(x_on, 'x')],
{
    proof {
        reveal_strlit("-");
        reveal_strlit("r");
        reveal_strlit("w");
        reveal_strlit("x");
    }
    let mut s = String::new();
    if r_on {
        s.append("r");
    } else {
        s.append("-");
    }
    if w_on {
        s.append("w");
    } else {
        s.append("-");
    }
    if x_on {
        s.append("x");
    } else {
        s.append("-");
    }
    assert(s@ =~= seq![flag_char(r_on, 'r'), flag_char(w_on, 'w'), flag_char(x_on, 'x')]);
    s
}

impl BomPath {
    /// Builds a resolved path entry from its full path and its decoded path
    /// record, carrying every field verbatim. The checksum is kept only for
    /// files and links; the modified time is also rendered as RFC 3339.
    pub fn from_record(path: Vec<u8>, r: &BlockPathRecord) -> (p: BomPath)
        ensures
            p.path == path,
            p.path_type == spec_path_type(r.path_type),
            p.path_type_raw == r.path_type,
            p.file_mode == r.mode,
            p.user_id == r.user,
            p.group_id == r.group,
            p.mtime == r.mtime,
            p.mtime_iso8601@ == rfc3339_utc_of(r.mtime),
            p.size == r.size,
            p.crc32 == (if r.path_type == 1 || r.path_type == 3 {
                Some(r.checksum_or_type)
            } else {
                Option::<u32>::None
            }),
            r.link_name matches Some(m) ==> (p.link_name matches Some(n) && n@ == m@),
            r.link_name is None ==> p.link_name is None,
            path_consistent(p),
    {
        let path_type = path_type_from_raw(r.path_type);
        let crc32 = if r.path_type == 1 || r.path_type == 3 {
            Some(r.checksum_or_type)
        } else {
            None
        };
        let link_name = match &r.link_name {
            Some(n) => Some(copy_bytes(n)),
            None => None,
        };
        BomPath {
            path,
            path_type,
            path_type_raw: r.path_type,
            file_mode: r.mode,
            user_id: r.user,
            group_id: r.group,
            mtime: r.mtime,
            mtime_iso8601: rfc3339_utc(r.mtime),
            size: r.size,
            crc32,
            link_name,
        }
    }

    /// The ten-character symbolic mode of this path, such as `drwxr-xr-x`.
    pub fn symbolic_mode(&self) -> (r: String)
        ensures
            r@ == spec_symbolic_mode(self.path_type, self.file_mode),
    {
        proof {
            reveal_strlit("d");
            reveal_strlit("-");
            reveal_strlit("l");
            reveal_strlit("?");
        }
        let mut s = String::new();
        match self.path_type {
            BomPathType::Directory => s.append("d"),
            BomPathType::File => s.append("-"),
            BomPathType::Link => s.append("l"),
            BomPathType::Dev => s.append("?"),
            BomPathType::Other(_) => s.append("?"),
        };
        let m = self.file_mode;
        let owner = rwx_triplet(m & 0x100 != 0, m & 0x80 != 0, m & 0x40 != 0);
        let group = rwx_triplet(m & 0x20 != 0, m & 0x10 != 0, m & 0x8 != 0);
        let other = rwx_triplet(m & 0x4 != 0, m & 0x2 != 0, m & 0x1 != 0);
        s.append(owner.as_str());
        s.append(group.as_str());
        s.append(other.as_str());
        assert(s@ =~= spec_symbolic_mode(self.path_type, self.file_mode));
        s
    }

    /// The full path as text, invalid UTF-8 rendered lossily.
    pub fn path_string(&self) -> (r: String)
        ensures
            r@ == lossy_utf8_of(self.path@),
    {
        bytes_to_string_lossy(&self.path)
    }
}

} // verus!

//! SFTP file metadata: the caller-visible entry shape and the exact
//! rendering of permission bits, timestamps and ownership.

use vstd::prelude::*;
use crate::text::{after_last_slash, dec_str_of, strip_trailing_slashes, u64_to_string};

verus! {

/// One directory entry or stat result as the caller sees it.
#[derive(Debug)]
pub struct FileEntry {
    /// File or directory name.
    pub name: String,
    /// Full path.
    pub path: String,
    /// Whether this is a directory.
    pub is_dir: bool,
    /// File size in bytes.
    pub size: u64,
    /// Last modified time, rendered for display.
    pub modified: String,
    /// Permission string of nine symbolic characters.
    pub permissions: String,
    /// Owner, rendered as the numeric user identifier.
    pub owner: String,
    /// Group, rendered as the numeric group identifier.
    pub group: String,
}

impl FileEntry {
    /// A copy of the entry, field for field.
    pub fn duplicate(&self) -> (r: FileEntry)
        ensures
            r == *self,
    {
        FileEntry {
            name: self.name.clone(),
            path: self.path.clone(),
            is_dir: self.is_dir,
            size: self.size,
            modified: self.modified.clone(),
            permissions: self.permissions.clone(),
            owner: self.owner.clone(),
            group: self.group.clone(),
        }
    }
}

/// Kind of a remote file-system object.
#[derive(Clone, Copy, Debug, PartialEq, Eq, Structural)]
pub enum FileType {
    File,
    Directory,
    Symlink,
    Other,
}

/// The metadata the remote peer reports for one object, reduced to plain
/// values; absent fields stay absent.
#[derive(Debug)]
pub struct RawFileAttr {
    /// Whether the object is a directory.
    pub is_dir: bool,
    /// Size in bytes, when reported.
    pub size: Option<u64>,
    /// Modification time in seconds since the epoch, when reported.
    pub mtime: Option<u32>,
    /// Unix permission bits, when reported.
    pub permissions: Option<u32>,
    /// Owning user identifier, when reported.
    pub uid: Option<u32>,
    /// Owning group identifier, when reported.
    pub gid: Option<u32>,
}

/// One symbolic permission character: the symbol when the bit is set, a
/// dash when it is not.
pub open spec fn perm_char(set: bool, sym: char) -> char {
    if set {
        sym
    } else {
        '-'
    }
}

/// The nine-character symbolic rendering of Unix permission bits, owner
/// then group then others, read-write-execute each; missing permission data
/// renders as all dashes.
pub open spec fn permissions_text(mode: Option<u32>) -> Seq<char> {
    match mode {
        Some(m) => seq![
            perm_char(m & 0o400 != 0, 'r'),
            perm_char(m & 0o200 != 0, 'w'),
            perm_char(m & 0o100 != 0, 'x'),
            perm_char(m & 0o040 != 0, 'r'),
            perm_char(m & 0o020 != 0, 'w'),
            perm_char(m & 0o010 != 0, 'x'),
            perm_char(m & 0o004 != 0, 'r'),
            perm_char(m & 0o002 != 0, 'w'),
            perm_char(m & 0o001 != 0, 'x'),
        ],
        None => seq!['-', '-', '-', '-', '-', '-', '-', '-', '-'],
    }
}

fn perm_sym(set: bool, sym: &'static str) -> (r: &'static str)
    requires
        sym@.len() == 1,
    ensures
        r@ == seq![perm_char(set, sym@[0])],
{
    proof {
        reveal_strlit("-");
    }
    if set {
        proof {
            assert(sym@ =~= seq![sym@[0]]);
        }
        sym
    } else {
        let r = "-";
        assert(r@ =~= seq![perm_char(set, sym@[0])]);
        r
    }
}

/// Render Unix permission bits as the nine-character symbolic string.
pub fn format_permissions(mode: Option<u32>) -> (r: String)
    ensures
        r@ == permissions_text(mode),
{
    proof {
        reveal_strlit("r");
        reveal_strlit("w");
        reveal_strlit("x");
        reveal_strlit("-");
        reveal_strlit("---------");
    }
    match mode {
        Some(m) => {
            let mut s = String::new();
            s.append(perm_sym(m & 0o400 != 0, "r"));
            s.append(perm_sym(m & 0o200 != 0, "w"));
            s.append(perm_sym(m & 0o100 != 0, "x"));
            s.append(perm_sym(m & 0o040 != 0, "r"));
            s.append(perm_sym(m & 0o020 != 0, "w"));
            s.append(perm_sym(m & 0o010 != 0, "x"));
            s.append(perm_sym(m & 0o004 != 0, "r"));
            s.append(perm_sym(m & 0o002 != 0, "w"));
            s.append(perm_sym(m & 0o001 != 0, "x"));
            proof {
                assert(s@ =~= permissions_text(mode));
            }
            s
        },
        None => {
            let r = String::from_str("---------");
            proof {
                assert(r@ =~= permissions_text(mode));
            }
            r
        },
    }
}

/// What the fixed `%Y-%m-%d %H:%M` UTC rendering of an epoch timestamp is:
/// a function of the timestamp alone.
pub uninterp spec fn ts_text_of(ts: u32) -> Seq<char>;

/// Relies on `chrono::DateTime::<Utc>::from_timestamp` and `format` with
/// the fixed `%Y-%m-%d %H:%M` pattern: every unsigned 32-bit timestamp is
/// within chrono's representable range, and the UTC rendering is a function
/// of the timestamp alone.
#[verifier::external_body]
fn format_utc_minute(ts: u32) -> (r: String)
    ensures
        r@ == ts_text_of(ts),
{
    match chrono::DateTime::<chrono::Utc>::from_timestamp(ts as i64, 0) {
        Some(d) => d.format("%Y-%m-%d %H:%M").to_string(),
        None => String::from("-"),
    }
}

/// The display rendering of an optional modification time: the fixed
/// minute-precision UTC format, or a single dash placeholder when the
/// remote peer reported none.
pub open spec fn timestamp_text(mtime: Option<u32>) -> Seq<char> {
    match mtime {
        Some(t) => ts_text_of(t),
        None => "-"@,
    }
}

/// Render an optional modification time for display.
pub fn format_timestamp(mtime: Option<u32>) -> (r: String)
    ensures
        r@ == timestamp_text(mtime),
{
    match mtime {
        Some(t) => format_utc_minute(t),
        None => String::from_str("-"),
    }
}

/// The rendering of an optional numeric identifier: its decimal digits, or
/// empty when the remote peer reported none.
pub open spec fn id_text(id: Option<u32>) -> Seq<char> {
    match id {
        Some(u) => dec_str_of(u as nat),
        None => Seq::empty(),
    }
}

/// Render an optional owner or group identifier.
pub fn format_id(id: Option<u32>) -> (r: String)
    ensures
        r@ == id_text(id),
{
    match id {
        Some(u) => u64_to_string(u as u64),
        None => String::new(),
    }
}

/// The full path of a directory entry: the directory with trailing slashes
/// trimmed, a slash, and the entry name.
pub open spec fn entry_path(dir: Seq<char>, name: Seq<char>) -> Seq<char> {
    strip_trailing_slashes(dir) + "/"@ + name
}

/// Build the caller-visible entry for one object listed in a directory.
pub fn build_file_entry(dir_path: &str, name: &str, attr: &RawFileAttr) -> (e: FileEntry)
    ensures
        e.name@ == name@,
        e.path@ == entry_path(dir_path@, name@),
        e.is_dir == attr.is_dir,
        e.size == (match attr.size {
            Some(s) => s,
            None => 0u64,
        }),
        e.modified@ == timestamp_text(attr.mtime),
        e.permissions@ == permissions_text(attr.permissions),
        e.owner@ == id_text(attr.uid),
        e.group@ == id_text(attr.gid),
{
    let trimmed = crate::text::strip_trailing_slashes_str(dir_path);
    let mut path = String::from_str(trimmed);
    path.append("/");
    path.append(name);
    FileEntry {
        name: String::from_str(name),
        path,
        is_dir: attr.is_dir,
        size: match attr.size {
            Some(s) => s,
            None => 0,
        },
        modified: format_timestamp(attr.mtime),
        permissions: format_permissions(attr.permissions),
        owner: format_id(attr.uid),
        group: format_id(attr.gid),
    }
}

/// The display name of a stat result: the last path component, or the path
/// itself when it has none.
pub open spec fn stat_name_of(path: Seq<char>) -> Seq<char> {
    let c = after_last_slash(strip_trailing_slashes(path));
    if c.len() == 0 {
        path
    } else {
        c
    }
}

/// Build the caller-visible entry for one stat result: the path is kept as
/// given and the name is its last component.
pub fn build_stat_entry(path: &str, attr: &RawFileAttr) -> (e: FileEntry)
    ensures
        e.name@ == stat_name_of(path@),
        e.path@ == path@,
        e.is_dir == attr.is_dir,
        e.size == (match attr.size {
            Some(s) => s,
            None => 0u64,
        }),
        e.modified@ == timestamp_text(attr.mtime),
        e.permissions@ == permissions_text(attr.permissions),
        e.owner@ == id_text(attr.uid),
        e.group@ == id_text(attr.gid),
{
    let trimmed = crate::text::strip_trailing_slashes_str(path);
    let c = crate::text::after_last_slash_str(trimmed);
    let name = if c.unicode_len() == 0 {
        String::from_str(path)
    } else {
        c
    };
    FileEntry {
        name,
        path: String::from_str(path),
        is_dir: attr.is_dir,
        size: match attr.size {
            Some(s) => s,
            None => 0,
        },
        modified: format_timestamp(attr.mtime),
        permissions: format_permissions(attr.permissions),
        owner: format_id(attr.uid),
        group: format_id(attr.gid),
    }
}

/// The remote size an upload resumes against: the stat result's size for a
/// plain file, and zero when the object is absent or a directory.
pub fn remote_size_of_stat(stat: &Option<FileEntry>) -> (r: u64)
    ensures
        match stat {
            Some(e) => r == (if e.is_dir {
                0u64
            } else {
                e.size
            }),
            None => r == 0,
        },
{
    match stat {
        Some(e) => if e.is_dir {
            0
        } else {
            e.size
        },
        None => 0,
    }
}

} // verus!

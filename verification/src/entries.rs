//! The in-memory model of a directory snapshot: relative paths with file
//! bytes, and the path-traversal guard that every archive entry must pass
//! before it may be materialized under a destination directory.
use vstd::prelude::*;

verus! {

/// One entry of a directory snapshot: a relative, '/'-separated path, whether
/// the file carries the owner-executable permission bit, and the file's
/// bytes. A path that ends in '/' denotes a directory and carries no bytes,
/// so the shape of a tree with empty directories round-trips exactly.
pub struct PackEntry {
    pub path: String,
    pub executable: bool,
    pub data: Vec<u8>,
}

impl View for PackEntry {
    type V = (Seq<char>, bool, Seq<u8>);

    open spec fn view(&self) -> (Seq<char>, bool, Seq<u8>) {
        (self.path@, self.executable, self.data@)
    }
}

/// The mathematical model of a snapshot: each entry as (path, executable
/// bit, bytes).
pub open spec fn entry_models(s: Seq<PackEntry>) -> Seq<(Seq<char>, bool, Seq<u8>)> {
    s.map_values(|e: PackEntry| e@)
}

/// The model of the raw (path, entry-type byte, executable bit, bytes)
/// entries a tarball holds.
pub open spec fn raw_models(s: Seq<(String, u8, bool, Vec<u8>)>) -> Seq<
    (Seq<char>, u8, bool, Seq<u8>),
> {
    s.map_values(|t: (String, u8, bool, Vec<u8>)| (t.0@, t.1, t.2, t.3@))
}

/// A path that names a directory entry (zip convention: trailing '/').
pub open spec fn is_dir_path(p: Seq<char>) -> bool {
    p.len() > 0 && p[p.len() - 1] == '/'
}

/// A `..` path segment starts at position `i` (segments separated by '/').
pub open spec fn dotdot_at(p: Seq<char>, i: int) -> bool {
    &&& 0 <= i
    &&& i + 2 <= p.len()
    &&& p[i] == '.'
    &&& p[i + 1] == '.'
    &&& (i == 0 || p[i - 1] == '/')
    &&& (i + 2 == p.len() || p[i + 2] == '/')
}

/// A relative path that cannot escape the directory it is joined under:
/// non-empty, not absolute, free of Windows separators and drive colons, and
/// free of `..` segments. Archive entries are untrusted input, so extraction
/// rejects every entry whose path fails this guard.
pub open spec fn safe_path(p: Seq<char>) -> bool {
    &&& p.len() > 0
    &&& p[0] != '/'
    &&& forall|i: int| 0 <= i < p.len() ==> p[i] != '\\' && #[trigger] p[i] != ':'
    &&& forall|i: int| !dotdot_at(p, i)
}

/// Every path of the snapshot passes the traversal guard.
pub open spec fn entries_safe(ms: Seq<(Seq<char>, bool, Seq<u8>)>) -> bool {
    forall|i: int| 0 <= i < ms.len() ==> safe_path((#[trigger] ms[i]).0)
}

/// No two entries share a path.
pub open spec fn distinct_paths(ms: Seq<(Seq<char>, bool, Seq<u8>)>) -> bool {
    forall|i: int, j: int|
        0 <= i < j < ms.len() ==> (#[trigger] ms[i]).0 != (#[trigger] ms[j]).0
}

/// A snapshot that can be packed and later unpacked verbatim: every path is
/// safe and unique, and directory entries carry no bytes and keep the
/// executable bit directories are stored with.
pub open spec fn valid_tree(ms: Seq<(Seq<char>, bool, Seq<u8>)>) -> bool {
    &&& distinct_paths(ms)
    &&& entries_safe(ms)
    &&& forall|i: int|
        0 <= i < ms.len() ==> is_dir_path((#[trigger] ms[i]).0) ==> (ms[i].2.len() == 0 && ms[i].1)
}

/// A `..` segment anywhere in a path makes it unsafe: such an entry is always
/// rejected, whatever else the path holds.
pub proof fn lemma_dotdot_never_safe(p: Seq<char>, i: int)
    requires
        dotdot_at(p, i),
    ensures
        !safe_path(p),
{
}

/// Runs the traversal guard over one path.
pub fn check_path_safe(path: &str) -> (r: bool)
    ensures
        r == safe_path(path@),
{
    let n = path.unicode_len();
    if n == 0 {
        return false;
    }
    if path.get_char(0) == '/' {
        return false;
    }
    let mut i: usize = 0;
    while i < n
        invariant
            n == path@.len(),
            0 < n,
            path@[0] != '/',
            i <= n,
            forall|j: int| 0 <= j < i ==> path@[j] != '\\' && #[trigger] path@[j] != ':',
            forall|j: int| 0 <= j < i ==> !dotdot_at(path@, j),
        decreases n - i,
    {
        let c = path.get_char(i);
        if c == '\\' || c == ':' {
            return false;
        }
        if c == '.' && n - i >= 2 {
            if path.get_char(i + 1) == '.' {
                let prev_ok = i == 0 || path.get_char(i - 1) == '/';
                let next_ok = n - i == 2 || path.get_char(i + 2) == '/';
                if prev_ok && next_ok {
                    proof {
                        assert(dotdot_at(path@, i as int));
                    }
                    return false;
                }
            }
        }
        proof {
            assert(!dotdot_at(path@, i as int));
        }
        i += 1;
    }
    proof {
        assert forall|j: int| !dotdot_at(path@, j) by {
            if 0 <= j && j + 2 <= path@.len() {
                assert(!dotdot_at(path@, j));
            }
        }
    }
    true
}

/// Whether the path denotes a directory entry.
pub fn check_dir_path(path: &str) -> (r: bool)
    ensures
        r == is_dir_path(path@),
{
    let n = path.unicode_len();
    if n == 0 {
        false
    } else {
        path.get_char(n - 1) == '/'
    }
}

} // verus!

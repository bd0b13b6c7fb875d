//! Verified path-name rules used by output resolution: base names,
//! extensions, replacing an extension with `avif`, and joining a file name
//! under a directory. Paths are plain character strings; a path's base name
//! is what follows the last separator, and no base name exists when that
//! part is empty, `.`, or `..`.

use vstd::prelude::*;
use vstd::string::StrSliceExecFns;
use vstd::string::StringExecFns;
use crate::text::str_eq;

verus! {

/// Index of the last occurrence of `c` in `s`, or `-1` when absent.
pub open spec fn last_index_of_spec(s: Seq<char>, c: char) -> int
    decreases s.len(),
{
    if s.len() == 0 {
        -1
    } else if s.last() == c {
        s.len() - 1
    } else {
        last_index_of_spec(s.drop_last(), c)
    }
}

/// Finds the last occurrence of a character.
pub fn last_index_of(s: &str, c: char) -> (r: Option<usize>)
    ensures
        match r {
            Some(i) => i < s@.len() && last_index_of_spec(s@, c) == i,
            None => last_index_of_spec(s@, c) == -1,
        },
{
    let n: usize = s.unicode_len();
    proof {
        assert(s@.subrange(0, n as int) =~= s@);
    }
    let mut i: usize = n;
    while i > 0
        invariant
            i <= n,
            n == s@.len(),
            last_index_of_spec(s@, c) == last_index_of_spec(s@.subrange(0, i as int), c),
        decreases i,
    {
        let ch = s.get_char(i - 1);
        proof {
            assert(s@.subrange(0, i as int).last() == s@[i - 1]);
            assert(s@.subrange(0, i as int).drop_last() =~= s@.subrange(0, i as int - 1));
        }
        if ch == c {
            return Some(i - 1);
        }
        i = i - 1;
    }
    proof {
        assert(s@.subrange(0, 0).len() == 0);
    }
    None
}

/// Index where a path's final component begins: right after the last
/// separator, or zero when the path has none.
pub open spec fn name_start(p: Seq<char>) -> int {
    last_index_of_spec(p, '/') + 1
}

/// The path's final component, possibly empty.
pub open spec fn base_name_of(p: Seq<char>) -> Seq<char> {
    p.subrange(name_start(p), p.len() as int)
}

/// Whether the path names a file at all: its final component is non-empty
/// and is neither `.` nor `..`.
pub open spec fn has_base_name(p: Seq<char>) -> bool {
    &&& base_name_of(p).len() > 0
    &&& base_name_of(p) != "."@
    &&& base_name_of(p) != ".."@
}

/// Index of the dot introducing the path's extension, or `-1` when the path
/// has no extension. A dot that starts the base name introduces none.
pub open spec fn ext_dot_index(p: Seq<char>) -> int {
    if !has_base_name(p) {
        -1
    } else {
        let d = last_index_of_spec(base_name_of(p), '.');
        if d <= 0 {
            -1
        } else {
            name_start(p) + d
        }
    }
}

/// The path's extension, without its dot.
pub open spec fn extension_of(p: Seq<char>) -> Option<Seq<char>> {
    if ext_dot_index(p) < 0 {
        None
    } else {
        Some(p.subrange(ext_dot_index(p) + 1, p.len() as int))
    }
}

/// Whether the path already carries the `avif` extension.
pub open spec fn is_avif_path(p: Seq<char>) -> bool {
    extension_of(p) == Some("avif"@)
}

/// The path with its extension replaced by `avif` (appended when it has
/// none); a path without a base name is left unchanged.
pub open spec fn with_avif_extension(p: Seq<char>) -> Seq<char> {
    if !has_base_name(p) {
        p
    } else if ext_dot_index(p) < 0 {
        p + ".avif"@
    } else {
        p.subrange(0, ext_dot_index(p)) + ".avif"@
    }
}

/// A file name placed under a directory, inserting a separator unless the
/// directory part is empty or already ends with one.
pub open spec fn joined(dir: Seq<char>, name: Seq<char>) -> Seq<char> {
    if dir.len() == 0 {
        name
    } else if dir.last() == '/' {
        dir + name
    } else {
        dir + "/"@ + name
    }
}

/// The path's base name, when it has one.
pub fn base_name(p: &str) -> (r: Option<String>)
    ensures
        match r {
            Some(b) => has_base_name(p@) && b@ == base_name_of(p@),
            None => !has_base_name(p@),
        },
{
    let n: usize = p.unicode_len();
    let start: usize = match last_index_of(p, '/') {
        Some(i) => i + 1,
        None => 0,
    };
    let b = p.substring_char(start, n);
    if b.unicode_len() == 0 || str_eq(b, ".") || str_eq(b, "..") {
        None
    } else {
        Some(String::from_str(b))
    }
}

/// The path with its extension replaced by `avif`.
pub fn replace_extension_with_avif(p: &str) -> (r: String)
    ensures
        r@ == with_avif_extension(p@),
{
    let n: usize = p.unicode_len();
    let start: usize = match last_index_of(p, '/') {
        Some(i) => i + 1,
        None => 0,
    };
    let name = p.substring_char(start, n);
    if name.unicode_len() == 0 || str_eq(name, ".") || str_eq(name, "..") {
        return String::from_str(p);
    }
    match last_index_of(name, '.') {
        Some(d) if d > 0 => String::from_str(p.substring_char(0, start + d)).concat(".avif"),
        _ => String::from_str(p).concat(".avif"),
    }
}

/// Whether the path already carries the `avif` extension.
pub fn has_avif_extension(p: &str) -> (r: bool)
    ensures
        r == is_avif_path(p@),
{
    let n: usize = p.unicode_len();
    let start: usize = match last_index_of(p, '/') {
        Some(i) => i + 1,
        None => 0,
    };
    let name = p.substring_char(start, n);
    let m: usize = name.unicode_len();
    if m == 0 || str_eq(name, ".") || str_eq(name, "..") {
        return false;
    }
    match last_index_of(name, '.') {
        Some(d) if d > 0 => {
            let ext = name.substring_char(d + 1, m);
            proof {
                assert(ext@ =~= p@.subrange(ext_dot_index(p@) + 1, p@.len() as int));
            }
            str_eq(ext, "avif")
        },
        _ => false,
    }
}

/// Joins a file name under a directory path.
pub fn join_under_directory(dir: &str, name: &str) -> (r: String)
    ensures
        r@ == joined(dir@, name@),
{
    let n: usize = dir.unicode_len();
    if n == 0 {
        String::from_str(name)
    } else if dir.get_char(n - 1) == '/' {
        String::from_str(dir).concat(name)
    } else {
        let r = String::from_str(dir).concat("/").concat(name);
        proof {
            assert(r@ =~= dir@ + "/"@ + name@);
        }
        r
    }
}

} // verus!

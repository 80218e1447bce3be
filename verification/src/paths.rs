//! Filesystem paths, modelled as Unix-style strings.
//!
//! A path is absolute when it starts with the root separator `/`. Joining a
//! relative path onto a base appends it after a separator; joining an absolute
//! path replaces the base, as `PathBuf::join` does on Unix.

use vstd::prelude::*;

verus! {

/// The path separator.
pub open spec fn separator() -> char {
    '/'
}

/// A path is absolute when it starts with the root separator.
pub open spec fn spec_is_absolute(p: Seq<char>) -> bool {
    p.len() > 0 && p[0] == separator()
}

/// `base` joined with `rel`: `rel` itself when it is absolute or `base` is
/// empty, otherwise `base`, a separator unless `base` already ends with one,
/// and `rel`.
pub open spec fn spec_join(base: Seq<char>, rel: Seq<char>) -> Seq<char> {
    if spec_is_absolute(rel) || base.len() == 0 {
        rel
    } else if base.last() == separator() {
        base + rel
    } else {
        base + seq![separator()] + rel
    }
}

/// Whether `path` is absolute.
pub fn is_absolute(path: &str) -> (res: bool)
    ensures
        res == spec_is_absolute(path@),
{
    let n: usize = path.unicode_len();
    n > 0 && path.get_char(0) == '/'
}

/// `base` joined with `rel`.
pub fn join(base: &str, rel: &str) -> (res: String)
    ensures
        res@ == spec_join(base@, rel@),
{
    let n: usize = base.unicode_len();
    if is_absolute(rel) || n == 0 {
        String::from_str(rel)
    } else if base.get_char(n - 1) == '/' {
        let mut s = String::from_str(base);
        s.append(rel);
        s
    } else {
        let mut s = String::from_str(base);
        let sep = "/";
        proof {
            reveal_strlit("/");
        }
        s.append(sep);
        s.append(rel);
        s
    }
}

} // verus!

//! Traversal safety of declared file paths. A declared path must stay
//! inside the build directory: it may not be absolute (neither by a
//! leading separator nor by a drive prefix), may not contain a
//! parent-directory component and may not start with a home
//! component. Both `'/'` and `'\'` count as separators, so the
//! checks hold on every platform; they are purely textual,
//! independent of what exists on disk.

use vstd::prelude::*;

use crate::error::BuildError;

verus! {

/// A path separator, in either spelling.
pub open spec fn is_sep(c: char) -> bool {
    c == '/' || c == '\\'
}

/// An ASCII letter, as a drive prefix starts with one.
pub open spec fn is_ascii_letter(c: char) -> bool {
    ('a' <= c && c <= 'z') || ('A' <= c && c <= 'Z')
}

/// Some `..` stands as a whole component of `s`.
pub open spec fn has_parent_component(s: Seq<char>) -> bool {
    exists|i: int|
        0 <= i && i + 2 <= s.len() && #[trigger] s[i] == '.' && s[i + 1] == '.' && (i == 0 || is_sep(
            s[i - 1],
        )) && (i + 2 == s.len() || is_sep(s[i + 2]))
}

/// The first component of `s` is `~`.
pub open spec fn has_leading_home(s: Seq<char>) -> bool {
    s.len() >= 1 && s[0] == '~' && (s.len() == 1 || is_sep(s[1]))
}

/// `s` names an absolute root: it starts with a separator, or with a
/// drive prefix.
pub open spec fn is_absolute(s: Seq<char>) -> bool {
    (s.len() >= 1 && is_sep(s[0])) || (s.len() >= 2 && is_ascii_letter(s[0]) && s[1] == ':')
}

/// A declared path is safe when it is relative and contains no parent
/// or home component.
pub open spec fn path_is_safe(s: Seq<char>) -> bool {
    !is_absolute(s) && !has_parent_component(s) && !has_leading_home(s)
}

/// Decide [`path_is_safe`] for one path.
pub fn check_path_safe(s: &str) -> (r: bool)
    ensures
        r == path_is_safe(s@),
{
    let n = s.unicode_len();
    if n >= 1 && (s.get_char(0) == '/' || s.get_char(0) == '\\') {
        return false;
    }
    if n >= 2 && s.get_char(1) == ':' {
        let c0 = s.get_char(0);
        if ('a' <= c0 && c0 <= 'z') || ('A' <= c0 && c0 <= 'Z') {
            return false;
        }
    }
    if n >= 1 && s.get_char(0) == '~' && (n == 1 || s.get_char(1) == '/' || s.get_char(1)
        == '\\') {
        return false;
    }
    if n < 2 {
        proof {
            if has_parent_component(s@) {
                let i = choose|i: int|
                    0 <= i && i + 2 <= s@.len() && #[trigger] s@[i] == '.' && s@[i + 1] == '.' && (
                    i == 0 || is_sep(s@[i - 1])) && (i + 2 == s@.len() || is_sep(s@[i + 2]));
                assert(false);
            }
        }
        return true;
    }
    let mut i: usize = 0;
    while i <= n - 2
        invariant
            n == s@.len(),
            n >= 2,
            i <= n - 1,
            forall|j: int|
                0 <= j < i ==> !(j + 2 <= s@.len() && #[trigger] s@[j] == '.' && s@[j + 1] == '.'
                    && (j == 0 || is_sep(s@[j - 1])) && (j + 2 == s@.len() || is_sep(s@[j + 2]))),
        decreases n - i,
    {
        let c0 = s.get_char(i) == '.';
        let c1 = s.get_char(i + 1) == '.';
        let before = i == 0 || s.get_char(i - 1) == '/' || s.get_char(i - 1) == '\\';
        let after = i + 2 == n || s.get_char(i + 2) == '/' || s.get_char(i + 2) == '\\';
        if c0 && c1 && before && after {
            return false;
        }
        i = i + 1;
    }
    proof {
        if has_parent_component(s@) {
            let j = choose|j: int|
                0 <= j && j + 2 <= s@.len() && #[trigger] s@[j] == '.' && s@[j + 1] == '.' && (j
                    == 0 || is_sep(s@[j - 1])) && (j + 2 == s@.len() || is_sep(s@[j + 2]));
            assert(j < i);
            assert(false);
        }
    }
    true
}

/// Whether every path in `files` is safe; the error names the first
/// unsafe one.
pub fn validate_path_references(files: &Vec<String>) -> (r: Result<(), BuildError>)
    ensures
        r is Ok <==> (forall|k: int| 0 <= k < files@.len() ==> path_is_safe(#[trigger] files@[k]@)),
        r matches Err(e) ==> exists|k: int|
            0 <= k < files@.len() && !path_is_safe(#[trigger] files@[k]@) && (forall|j: int|
                0 <= j < k ==> path_is_safe(#[trigger] files@[j]@)) && e == (
            BuildError::PathTraversalRejected { path: files@[k] }),
{
    let mut k: usize = 0;
    while k < files.len()
        invariant
            forall|j: int| 0 <= j < k ==> path_is_safe(#[trigger] files@[j]@),
            k <= files@.len(),
        decreases files@.len() - k,
    {
        if !check_path_safe(files[k].as_str()) {
            return Result::Err(BuildError::PathTraversalRejected { path: files[k].clone() });
        }
        k = k + 1;
    }
    Result::Ok(())
}

} // verus!

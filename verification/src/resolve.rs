use vstd::prelude::*;

use crate::errors::AppError;

verus! {

// ---------------------------------------------------------------------------
// Path containment
// ---------------------------------------------------------------------------

/// A usable library root: a nonempty absolute path without a trailing
/// separator, as filesystem canonicalization produces for any directory
/// other than the filesystem root itself.
pub open spec fn valid_root(root: Seq<char>) -> bool {
    &&& root.len() >= 1
    &&& root[0] == '/'
    &&& root[root.len() - 1] != '/'
}

/// `p` lies strictly inside `root`: it extends `root` by a separator and at
/// least one further character.  Comparing up to the separator defeats
/// sibling-prefix confusion (`/lib` does not contain `/library2/x`).
pub open spec fn strict_descendant(root: Seq<char>, p: Seq<char>) -> bool {
    &&& p.len() > root.len() + 1
    &&& p.take(root.len() as int) == root
    &&& p[root.len() as int] == '/'
}

/// `p` sits at least one directory level below `root`: another separator
/// follows the one right after the root prefix.  Entries directly at the
/// root — the metadata store among them — are therefore never reachable.
pub open spec fn below_first_level(root: Seq<char>, p: Seq<char>) -> bool {
    exists|i: int| root.len() + 1 < i < p.len() && p[i] == '/'
}

/// What the resolver accepts: a strict descendant of the root, at least one
/// directory level deep.
pub open spec fn path_within_library(root: Seq<char>, p: Seq<char>) -> bool {
    strict_descendant(root, p) && below_first_level(root, p)
}

/// Whether a string is a usable library root.
pub fn is_valid_root(root: &str) -> (r: bool)
    ensures
        r == valid_root(root@),
{
    let len = root.unicode_len();
    if len == 0 {
        return false;
    }
    if root.get_char(0) != '/' {
        return false;
    }
    root.get_char(len - 1) != '/'
}

/// Whether `p` lies strictly inside `root`.
pub fn is_strict_descendant(root: &str, p: &str) -> (r: bool)
    ensures
        r == strict_descendant(root@, p@),
{
    let lr = root.unicode_len();
    let lp = p.unicode_len();
    if lp <= lr {
        return false;
    }
    if lp - lr <= 1 {
        return false;
    }
    let mut i: usize = 0;
    while i < lr
        invariant
            i <= lr,
            lr == root@.len(),
            lp == p@.len(),
            lp > lr + 1,
            forall|j: int| 0 <= j < i ==> p@[j] == root@[j],
        decreases lr - i,
    {
        if p.get_char(i) != root.get_char(i) {
            proof {
                assert(p@.take(lr as int)[i as int] != root@[i as int]);
            }
            return false;
        }
        i += 1;
    }
    proof {
        assert(p@.take(lr as int) =~= root@);
    }
    p.get_char(lr) == '/'
}

/// Whether another separator follows the one right after the root prefix.
pub fn is_below_first_level(root: &str, p: &str) -> (r: bool)
    ensures
        r == below_first_level(root@, p@),
{
    let lr = root.unicode_len();
    let lp = p.unicode_len();
    if lp <= lr {
        return false;
    }
    if lp - lr <= 2 {
        proof {
            assert(!below_first_level(root@, p@));
        }
        return false;
    }
    let mut i: usize = lr + 2;
    while i < lp
        invariant
            lr + 2 <= i <= lp,
            lr == root@.len(),
            lp == p@.len(),
            forall|j: int| lr + 1 < j < i ==> p@[j] != '/',
        decreases lp - i,
    {
        if p.get_char(i) == '/' {
            return true;
        }
        i += 1;
    }
    false
}

// ---------------------------------------------------------------------------
// The resolver decision
// ---------------------------------------------------------------------------

/// Decides one content request, given the canonical real path the request
/// resolved to on disk and whether that path is a directory.
///
/// The request is accepted exactly when the real path is a strict
/// descendant of the library root, lies at least one directory level below
/// it, and is not a directory.  Every rejected request — escaped root,
/// root-level entry, directory — yields the same `FileNotFound`, so a
/// caller cannot distinguish "exists but forbidden" from "does not exist".
pub fn resolve_content_path(root: &str, real_path: &str, is_dir: bool) -> (r: Result<
    String,
    AppError,
>)
    ensures
        r matches Ok(p) ==> p@ == real_path@ && path_within_library(root@, real_path@) && !is_dir,
        r matches Err(e) ==> e == AppError::FileNotFound && !(path_within_library(
            root@,
            real_path@,
        ) && !is_dir),
        (path_within_library(root@, real_path@) && !is_dir) <==> (r matches Ok(p) && p@
            == real_path@),
{
    if !is_strict_descendant(root, real_path) {
        return Err(AppError::file_not_found());
    }
    if !is_below_first_level(root, real_path) {
        return Err(AppError::file_not_found());
    }
    if is_dir {
        return Err(AppError::file_not_found());
    }
    Ok(real_path.to_owned())
}

} // verus!

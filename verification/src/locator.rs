//! Relativizing a target path against the repository root.
//!
//! Both paths arrive canonical and absolute, with forward-slash
//! separators and no trailing separator.  The root must be the target
//! itself or an ancestor directory of it; the relative path is what
//! follows the root, and is empty when the target is the root.

use vstd::prelude::*;

verus! {

/// The path relative to the repository root: empty when the target is
/// the root itself, the remainder after the root and its separator
/// when the root is an ancestor, and nothing otherwise.
pub open spec fn spec_relative(root: Seq<char>, target: Seq<char>) -> Option<Seq<char>> {
    if target == root {
        Some(Seq::empty())
    } else if target.len() > root.len() && target.take(root.len() as int) == root && target[
        root.len() as int
    ] == '/' {
        Some(target.skip(root.len() as int + 1))
    } else {
        None
    }
}

/// Make the target path relative to the repository root, or report
/// that the root is not an ancestor of the target.
pub fn relative_to_root(root: &str, target: &str) -> (r: Option<String>)
    ensures
        (match spec_relative(root@, target@) {
            Some(rel) => r matches Some(out) && out@ == rel,
            None => r is None,
        }),
{
    let root_len = root.unicode_len();
    let target_len = target.unicode_len();
    if !crate::text::str_starts_with(target, root) {
        proof {
            if target@ == root@ {
                assert(target@.take(root@.len() as int) =~= root@);
            }
        }
        return None;
    }
    if target_len == root_len {
        assert(target@ =~= root@);
        return Some(String::new());
    }
    if target.get_char(root_len) == '/' {
        let rel = crate::text::str_suffix_from(target, root_len + 1);
        return Some(rel);
    }
    None
}

} // verus!

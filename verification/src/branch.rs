//! Picking the checked-out branch out of a branch listing.
//!
//! The listing is newline-separated text, one branch per line, the
//! checked-out one prefixed with the checkout marker `*` and a space.
//! The first line carrying the marker yields the branch name: the
//! line with its first two characters removed.  A listing with no
//! marked line carries no identifiable branch.

use vstd::prelude::*;

verus! {

/// Failure to identify the checked-out branch.
#[derive(Clone, Copy, Debug, PartialEq, Eq, Structural)]
pub enum BranchError {
    /// No line of the listing carries the checkout marker.
    NotFound,
}

impl BranchError {
    /// The user-facing description of this failure.
    pub fn message(&self) -> (r: String)
        ensures
            r@ == "current branch not found"@,
    {
        String::from_str("current branch not found")
    }
}

/// Position `i` starts a line of `s` that carries the checkout
/// marker: `i` follows a newline (or starts the text) and holds `*`.
pub open spec fn marked_at(s: Seq<char>, i: int) -> bool {
    0 <= i < s.len() && (i == 0 || s[i - 1] == '\n') && s[i] == '*'
}

/// The first marked line start at or after position `p`, if any.
pub open spec fn first_marked_from(s: Seq<char>, p: int) -> Option<int>
    decreases s.len() - p when 0 <= p <= s.len()
{
    if p >= s.len() {
        None
    } else if marked_at(s, p) {
        Some(p)
    } else {
        first_marked_from(s, p + 1)
    }
}

/// Where the line beginning at or containing position `p` ends: the
/// next newline, or the end of the text.
pub open spec fn line_end_from(s: Seq<char>, p: int) -> int
    decreases s.len() - p when 0 <= p <= s.len()
{
    if p >= s.len() {
        s.len() as int
    } else if s[p] == '\n' {
        p
    } else {
        line_end_from(s, p + 1)
    }
}

/// The name on the first marked line of a listing: the line with the
/// two marker characters removed (fewer, if the line is shorter).
pub open spec fn spec_current_branch(s: Seq<char>) -> Option<Seq<char>> {
    match first_marked_from(s, 0) {
        Some(i) => {
            let e = line_end_from(s, i);
            if i + 2 <= e {
                Some(s.subrange(i + 2, e))
            } else {
                Some(Seq::empty())
            }
        },
        None => None,
    }
}

/// Scan a branch listing for the line carrying the checkout marker
/// and yield the branch name written on it; a listing without a
/// marked line identifies no branch.
pub fn get_current_branch_name(branches: &str) -> (r: Result<String, BranchError>)
    ensures
        (match spec_current_branch(branches@) {
            Some(name) => r matches Ok(out) && out@ == name,
            None => r == Err::<String, BranchError>(BranchError::NotFound),
        }),
{
    let len = branches.unicode_len();
    let mut i: usize = 0;
    let mut found: bool = false;
    while !found && i < len
        invariant
            0 <= i <= len,
            len == branches@.len(),
            first_marked_from(branches@, 0) == (if found {
                Some(i as int)
            } else {
                first_marked_from(branches@, i as int)
            }),
            found ==> marked_at(branches@, i as int),
        decreases len - i, (if found { 0int } else { 1int }),
    {
        if (i == 0 || branches.get_char(i - 1) == '\n') && branches.get_char(i) == '*' {
            found = true;
        } else {
            assert(first_marked_from(branches@, i as int) == first_marked_from(
                branches@,
                i + 1,
            ));
            i += 1;
        }
    }
    if !found {
        assert(first_marked_from(branches@, 0) is None);
        return Err(BranchError::NotFound);
    }
    assert(first_marked_from(branches@, 0) == Some(i as int));
    // find where the marked line ends
    let mut e: usize = i;
    while e < len && branches.get_char(e) != '\n'
        invariant
            i <= e <= len,
            len == branches@.len(),
            line_end_from(branches@, i as int) == line_end_from(branches@, e as int),
        decreases len - e,
    {
        assert(line_end_from(branches@, e as int) == line_end_from(branches@, e + 1));
        e += 1;
    }
    assert(line_end_from(branches@, i as int) == e as int);
    // strip the marker and the space that follows it
    let start = if e - i >= 2 {
        i + 2
    } else {
        e
    };
    let name = branches.substring_char(start, e);
    proof {
        if i + 2 <= e {
            assert(name@ =~= branches@.subrange(i as int + 2, e as int));
        } else {
            assert(name@ =~= Seq::<char>::empty());
        }
    }
    Ok(String::from_str(name))
}

} // verus!

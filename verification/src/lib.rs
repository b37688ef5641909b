//! Resolve a location inside a local git working tree into a browsable
//! web URL on a source-hosting provider, optionally anchored to a line
//! or line range and a specific branch.
//!
//! The crate holds the resolution pipeline itself: classifying the
//! remote URL into a hosting-provider identity, relativizing a path
//! against the repository root, picking the branch out of a branch
//! listing, parsing a line selector, and assembling the final URL.
//! Running the repository queries and opening a browser are left to the
//! surrounding program, which hands this crate their raw text output.

pub mod branch;
pub mod domain;
pub mod line;
pub mod locator;
pub mod text;
pub mod urls;

use vstd::prelude::*;

verus! {

/// If the exit status code of a repository query is zero the query
/// succeeded; any other code is reported as the given error message.
pub fn status_2_result(status_code: i32, message: &'static str) -> (r: Result<
    i32,
    &'static str,
>)
    ensures
        status_code == 0 ==> r == Ok::<i32, &'static str>(0),
        status_code != 0 ==> (r matches Err(m) && m@ == message@),
{
    if status_code == 0 {
        Ok(status_code)
    } else {
        Err(message)
    }
}

} // verus!

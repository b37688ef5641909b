//! Assembling the final browsable URL.
//!
//! The pipeline is linear and fail-fast: classify the remote URL,
//! resolve the branch, build the provider base URL, append the
//! branch-and-path segment unless the base alone was asked for, and
//! append the line anchor when a line was requested.  The first
//! failure aborts the pipeline; no partial URL is produced.

use vstd::prelude::*;
use crate::branch::{spec_current_branch, BranchError};
use crate::domain::{spec_parse_domain, Domain, DomainError};
use crate::line::{spec_line_anchor, FormatError};
use crate::locator::spec_relative;

verus! {

/// Where the branch name for the URL comes from: a caller-supplied
/// override taken verbatim, or the raw branch listing of the
/// repository, scanned for the checkout marker.
#[derive(Debug)]
pub enum BranchSource {
    Named(String),
    Listing(String),
}

/// Any failure of the resolution pipeline.
#[derive(Clone, Copy, Debug, PartialEq, Eq, Structural)]
pub enum UrlError {
    Domain(DomainError),
    Format(FormatError),
    Branch(BranchError),
}

impl UrlError {
    /// The user-facing description of this failure.
    pub fn message(&self) -> (r: String)
        ensures
            (match *self {
                UrlError::Domain(DomainError::NotFound) => r@ == "domain not found"@,
                UrlError::Domain(DomainError::MultipleMatches) => r@ == "multiple url matches"@,
                UrlError::Format(FormatError::InvalidLineFormat) => r@
                    == "line number's format is invalid"@,
                UrlError::Branch(BranchError::NotFound) => r@ == "current branch not found"@,
            }),
    {
        match self {
            UrlError::Domain(e) => e.message(),
            UrlError::Format(e) => e.message(),
            UrlError::Branch(e) => e.message(),
        }
    }
}

/// The branch name a source yields: the override as it was given, or
/// the name on the marked line of the listing.
pub open spec fn spec_branch_name(branch: BranchSource) -> Result<Seq<char>, BranchError> {
    match branch {
        BranchSource::Named(name) => Ok(name@),
        BranchSource::Listing(listing) => match spec_current_branch(listing@) {
            Some(name) => Ok(name),
            None => Err(BranchError::NotFound),
        },
    }
}

/// The branch name to embed in the URL: the caller-supplied override
/// verbatim (no existence check), else the checked-out branch of the
/// listing.
pub fn resolve_branch(branch: &BranchSource) -> (r: Result<String, BranchError>)
    ensures
        (match spec_branch_name(*branch) {
            Ok(name) => r matches Ok(out) && out@ == name,
            Err(e) => r matches Err(e2) && e2 == e,
        }),
{
    match branch {
        BranchSource::Named(name) => Ok(name.clone()),
        BranchSource::Listing(listing) => crate::branch::get_current_branch_name(
            listing.as_str(),
        ),
    }
}

/// The browsable base URL of the repository a remote URL points at.
pub open spec fn spec_https_url(url: Seq<char>) -> Result<Seq<char>, DomainError> {
    match spec_parse_domain(url) {
        Ok(dp) => Ok(dp.0.spec_base_url(dp.1)),
        Err(e) => Err(e),
    }
}

/// The SSH form and the HTTPS form of the same repository resolve to
/// the same browsable base URL: both capture the same repository
/// path, and the base URL is built from the captured path alone.
pub proof fn lemma_both_remote_forms_same_url(path: Seq<char>)
    requires
        path.len() > 0,
    ensures
        spec_https_url(crate::domain::ssh_pattern() + path) == spec_https_url(
            crate::domain::https_pattern() + path,
        ),
{
    crate::domain::lemma_template_round_trip(path);
}

/// Convert a remote URL to the browsable base URL of its repository:
/// the provider's web template applied to the captured repository
/// path, with a trailing archive suffix stripped.
pub fn create_https_url(url: &str) -> (r: Result<String, DomainError>)
    ensures
        (match spec_https_url(url@) {
            Ok(u) => r matches Ok(out) && out@ == u,
            Err(e) => r matches Err(e2) && e2 == e,
        }),
{
    match crate::domain::parse_domain(url) {
        Ok((domain, captured)) => Ok(domain.base_url(captured.as_str())),
        Err(e) => Err(e),
    }
}

/// What the whole pipeline returns, stage by stage and fail-fast:
/// remote-URL classification first, then branch resolution (also when
/// only the base URL is asked for), then the line anchor last.  The
/// relative path must exist: the repository root is an ancestor of
/// the target.
pub open spec fn spec_get_url(
    remote_url: Seq<char>,
    root_path: Seq<char>,
    target_path: Seq<char>,
    branch: BranchSource,
    root_only: bool,
    line: Option<&str>,
) -> Result<Seq<char>, UrlError>
    recommends
        spec_relative(root_path, target_path) is Some,
{
    match spec_parse_domain(remote_url) {
        Err(e) => Err(UrlError::Domain(e)),
        Ok(dp) => match spec_branch_name(branch) {
            Err(e) => Err(UrlError::Branch(e)),
            Ok(branch_name) => {
                let base = dp.0.spec_base_url(dp.1);
                let rel = spec_relative(root_path, target_path)->Some_0;
                let source = if root_only || rel.len() == 0 {
                    base
                } else {
                    base + "/tree/"@ + branch_name + "/"@ + rel
                };
                match line {
                    None => Ok(source),
                    Some(l) => match spec_line_anchor(dp.0, l@) {
                        Ok(anchor) => Ok(source + anchor),
                        Err(e) => Err(UrlError::Format(e)),
                    },
                }
            },
        },
    }
}

/// Resolve the final URL from the raw pipeline inputs: the remote URL
/// and repository-root path as the repository queries returned them,
/// the canonical target path, the branch source, whether only the
/// repository-root URL was asked for, and the raw line specifier if
/// one was given.
pub fn get_url(
    remote_url: &str,
    root_path: &str,
    target_path: &str,
    branch: &BranchSource,
    root_only: bool,
    line: Option<&str>,
) -> (r: Result<String, UrlError>)
    requires
        spec_relative(root_path@, target_path@) is Some,
    ensures
        (match spec_get_url(remote_url@, root_path@, target_path@, *branch, root_only, line) {
            Ok(u) => r matches Ok(out) && out@ == u,
            Err(e) => r matches Err(e2) && e2 == e,
        }),
{
    let (domain, captured) = match crate::domain::parse_domain(remote_url) {
        Ok(dp) => dp,
        Err(e) => {
            return Err(UrlError::Domain(e));
        },
    };
    let branch_name = match resolve_branch(branch) {
        Ok(name) => name,
        Err(e) => {
            return Err(UrlError::Branch(e));
        },
    };
    let base = domain.base_url(captured.as_str());
    let rel = match crate::locator::relative_to_root(root_path, target_path) {
        Some(rel) => rel,
        None => {
            return vstd::pervasive::unreached();
        },
    };
    let source = if root_only || rel.as_str().unicode_len() == 0 {
        base
    } else {
        let mut joined = base;
        joined.append("/tree/");
        joined.append(branch_name.as_str());
        joined.append("/");
        joined.append(rel.as_str());
        joined
    };
    match line {
        None => Ok(source),
        Some(l) => match crate::line::line_number_to_string(&domain, l) {
            Ok(anchor) => {
                let mut out = source;
                out.append(anchor.as_str());
                Ok(out)
            },
            Err(e) => Err(UrlError::Format(e)),
        },
    }
}

} // verus!

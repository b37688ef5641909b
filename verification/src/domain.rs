//! Classification of a remote URL into a hosting-provider identity.
//!
//! A remote URL is matched against a table of known URL shapes, one
//! per provider form.  Exactly one entry may match; the captured text
//! after the host-specific prefix identifies the repository on that
//! provider.  Each provider variant owns its URL-template rule (how a
//! browsable base URL is built from the captured text).

use vstd::prelude::*;

verus! {

/// The hosting provider a remote URL belongs to.  A closed set,
/// designed for growth: a new provider adds a variant together with
/// its base-URL rule and its line-anchor rendering rule, and never
/// touches the matching logic.
#[derive(Clone, Copy, Debug, PartialEq, Eq, Structural)]
pub enum Domain {
    Github,
}

/// Failure of remote-URL classification.
#[derive(Clone, Copy, Debug, PartialEq, Eq, Structural)]
pub enum DomainError {
    /// The URL matched no entry of the pattern table.
    NotFound,
    /// The URL matched more than one entry: a structural safety check,
    /// proved unreachable for the shipped table.
    MultipleMatches,
}

impl DomainError {
    /// The user-facing description of this failure.
    pub fn message(&self) -> (r: String)
        ensures
            *self == DomainError::NotFound ==> r@ == "domain not found"@,
            *self == DomainError::MultipleMatches ==> r@ == "multiple url matches"@,
    {
        match self {
            DomainError::NotFound => String::from_str("domain not found"),
            DomainError::MultipleMatches => String::from_str("multiple url matches"),
        }
    }
}

/// The host-specific prefix of the SSH form of a remote URL.
pub open spec fn ssh_pattern() -> Seq<char> {
    "git@github.com:"@
}

/// The host-specific prefix of the HTTPS form of a remote URL.
pub open spec fn https_pattern() -> Seq<char> {
    "https://github.com/"@
}

/// The URL has the SSH shape: the SSH prefix followed by at least one
/// character of repository path.
pub open spec fn matches_ssh(url: Seq<char>) -> bool {
    url.len() > ssh_pattern().len() && url.take(ssh_pattern().len() as int) == ssh_pattern()
}

/// The URL has the HTTPS shape: the HTTPS prefix followed by at least
/// one character of repository path.
pub open spec fn matches_https(url: Seq<char>) -> bool {
    url.len() > https_pattern().len() && url.take(https_pattern().len() as int)
        == https_pattern()
}

/// What classification returns: the pattern table is consulted as a
/// whole, so zero matches and several matches are told apart.
pub open spec fn spec_parse_domain(url: Seq<char>) -> Result<(Domain, Seq<char>), DomainError> {
    if matches_ssh(url) && matches_https(url) {
        Err(DomainError::MultipleMatches)
    } else if matches_ssh(url) {
        Ok((Domain::Github, url.skip(ssh_pattern().len() as int)))
    } else if matches_https(url) {
        Ok((Domain::Github, url.skip(https_pattern().len() as int)))
    } else {
        Err(DomainError::NotFound)
    }
}

/// The shipped pattern table is mutually exclusive: no URL matches
/// both entries, so classification never reports several matches.
pub proof fn lemma_patterns_mutually_exclusive(url: Seq<char>)
    ensures
        !(matches_ssh(url) && matches_https(url)),
        !(spec_parse_domain(url) == Err::<(Domain, Seq<char>), DomainError>(
            DomainError::MultipleMatches,
        )),
{
    reveal_strlit("git@github.com:");
    reveal_strlit("https://github.com/");
    if matches_ssh(url) && matches_https(url) {
        assert(url.take(ssh_pattern().len() as int)[0] == 'g');
        assert(url.take(https_pattern().len() as int)[0] == 'h');
        assert(url[0] == 'g' && url[0] == 'h');
    }
}

/// A remote URL built by applying a table entry's own template to a
/// repository path always matches that entry and no other:
/// classification returns the entry's provider and captures exactly
/// the path the template was applied to.
pub proof fn lemma_template_round_trip(path: Seq<char>)
    requires
        path.len() > 0,
    ensures
        spec_parse_domain(ssh_pattern() + path) == Ok::<(Domain, Seq<char>), DomainError>(
            (Domain::Github, path),
        ),
        spec_parse_domain(https_pattern() + path) == Ok::<(Domain, Seq<char>), DomainError>(
            (Domain::Github, path),
        ),
{
    let ssh_url = ssh_pattern() + path;
    let https_url = https_pattern() + path;
    assert(ssh_url.take(ssh_pattern().len() as int) =~= ssh_pattern());
    assert(ssh_url.skip(ssh_pattern().len() as int) =~= path);
    assert(https_url.take(https_pattern().len() as int) =~= https_pattern());
    assert(https_url.skip(https_pattern().len() as int) =~= path);
    lemma_patterns_mutually_exclusive(ssh_url);
    lemma_patterns_mutually_exclusive(https_url);
}

/// Whether `url` matches the table entry with host prefix `prefix`:
/// the prefix followed by a non-empty remainder.
fn pattern_matches(url: &str, prefix: &str) -> (b: bool)
    ensures
        b <==> (url@.len() > prefix@.len() && url@.take(prefix@.len() as int) == prefix@),
{
    crate::text::str_starts_with(url, prefix) && url.unicode_len() > prefix.unicode_len()
}

/// Classify a remote URL against the pattern table, yielding the
/// provider and the captured repository path that follows the host
/// prefix.  Every entry of the table is consulted: no match and more
/// than one match are distinct failures.
pub fn parse_domain(url: &str) -> (r: Result<(Domain, String), DomainError>)
    ensures
        (match spec_parse_domain(url@) {
            Ok(dp) => r matches Ok(p) && p.0 == dp.0 && p.1@ == dp.1,
            Err(e) => r matches Err(e2) && e2 == e,
        }),
{
    let ssh = pattern_matches(url, "git@github.com:");
    let https = pattern_matches(url, "https://github.com/");
    if ssh && https {
        Err(DomainError::MultipleMatches)
    } else if ssh {
        let captured = crate::text::str_suffix_from(url, "git@github.com:".unicode_len());
        Ok((Domain::Github, captured))
    } else if https {
        let captured = crate::text::str_suffix_from(url, "https://github.com/".unicode_len());
        Ok((Domain::Github, captured))
    } else {
        Err(DomainError::NotFound)
    }
}

impl Domain {
    /// The canonical browsable base URL for a captured repository
    /// path: the provider's web template applied to the path, with a
    /// single trailing repository-archive suffix stripped if present.
    pub open spec fn spec_base_url(self, captured: Seq<char>) -> Seq<char> {
        match self {
            Domain::Github => {
                let full = "https://github.com/"@ + captured;
                if full.len() >= 4 && full.skip(full.len() - 4) == ".git"@ {
                    full.take(full.len() - 4)
                } else {
                    full
                }
            },
        }
    }

    /// Build the browsable base URL from the captured repository path.
    pub fn base_url(&self, captured: &str) -> (r: String)
        ensures
            r@ == self.spec_base_url(captured@),
    {
        match self {
            Domain::Github => {
                let mut full = String::from_str("https://github.com/");
                full.append(captured);
                let len = full.as_str().unicode_len();
                proof {
                    reveal_strlit(".git");
                }
                if len >= 4 && full.as_str().get_char(len - 4) == '.' && full.as_str().get_char(
                    len - 3,
                ) == 'g' && full.as_str().get_char(len - 2) == 'i' && full.as_str().get_char(
                    len - 1,
                ) == 't' {
                    assert(full@.skip(len - 4) =~= ".git"@);
                    let base = full.as_str().substring_char(0, len - 4);
                    assert(base@ =~= full@.take(len - 4));
                    String::from_str(base)
                } else {
                    proof {
                        if full@.len() >= 4 && full@.skip(full@.len() - 4) == ".git"@ {
                            assert(full@.skip(len - 4)[0] == full@[len - 4]);
                            assert(full@.skip(len - 4)[1] == full@[len - 3]);
                            assert(full@.skip(len - 4)[2] == full@[len - 2]);
                            assert(full@.skip(len - 4)[3] == full@[len - 1]);
                        }
                    }
                    full
                }
            },
        }
    }
}

} // verus!

use git_remote_open::branch::BranchError;
use git_remote_open::domain::DomainError;
use git_remote_open::line::FormatError;
use git_remote_open::urls::{get_url, BranchSource, UrlError};

#[test]
fn end_to_end_tracked_file() {
    let url = get_url(
        "https://github.com/acme/widget.git",
        "/tmp/repo",
        "/tmp/repo/src/lib.ext",
        &BranchSource::Listing(String::from("* main\n")),
        false,
        None,
    )
    .unwrap();
    assert_eq!(&url, "https://github.com/acme/widget/tree/main/src/lib.ext");
}

#[test]
fn end_to_end_root_flag() {
    let url = get_url(
        "https://github.com/acme/widget.git",
        "/tmp/repo",
        "/tmp/repo/src/lib.ext",
        &BranchSource::Listing(String::from("* main\n")),
        true,
        None,
    )
    .unwrap();
    assert_eq!(&url, "https://github.com/acme/widget");
}

#[test]
fn end_to_end_line_range() {
    let url = get_url(
        "https://github.com/acme/widget.git",
        "/tmp/repo",
        "/tmp/repo/src/lib.ext",
        &BranchSource::Listing(String::from("* main\n")),
        false,
        Some("10-20"),
    )
    .unwrap();
    assert_eq!(&url, "https://github.com/acme/widget/tree/main/src/lib.ext#L10-L20");
}

#[test]
fn end_to_end_single_line_anchor() {
    let url = get_url(
        "git@github.com:acme/widget.git",
        "/tmp/repo",
        "/tmp/repo/README",
        &BranchSource::Named(String::from("dev")),
        false,
        Some("7"),
    )
    .unwrap();
    assert_eq!(&url, "https://github.com/acme/widget/tree/dev/README#L7");
}

#[test]
fn target_at_root_stays_at_base_url() {
    let url = get_url(
        "https://github.com/acme/widget.git",
        "/tmp/repo",
        "/tmp/repo",
        &BranchSource::Named(String::from("main")),
        false,
        None,
    )
    .unwrap();
    assert_eq!(&url, "https://github.com/acme/widget");
}

#[test]
fn branch_override_is_taken_verbatim() {
    let url = get_url(
        "https://github.com/acme/widget.git",
        "/tmp/repo",
        "/tmp/repo/src/lib.ext",
        &BranchSource::Named(String::from("no-such-branch")),
        false,
        None,
    )
    .unwrap();
    assert_eq!(&url, "https://github.com/acme/widget/tree/no-such-branch/src/lib.ext");
}

#[test]
fn unknown_remote_fails_with_domain_error() {
    let r = get_url(
        "https://example.com/acme/widget.git",
        "/tmp/repo",
        "/tmp/repo/src/lib.ext",
        &BranchSource::Named(String::from("main")),
        false,
        None,
    );
    assert_eq!(r, Err(UrlError::Domain(DomainError::NotFound)));
}

#[test]
fn markerless_listing_fails_with_branch_error() {
    let r = get_url(
        "https://github.com/acme/widget.git",
        "/tmp/repo",
        "/tmp/repo/src/lib.ext",
        &BranchSource::Listing(String::from("  dev\n  main\n")),
        false,
        None,
    );
    assert_eq!(r, Err(UrlError::Branch(BranchError::NotFound)));
}

#[test]
fn branch_failure_precedes_root_flag() {
    // the branch is resolved even when only the base URL is asked for
    let r = get_url(
        "https://github.com/acme/widget.git",
        "/tmp/repo",
        "/tmp/repo/src/lib.ext",
        &BranchSource::Listing(String::from("  dev\n")),
        true,
        None,
    );
    assert_eq!(r, Err(UrlError::Branch(BranchError::NotFound)));
}

#[test]
fn bad_line_specifier_fails_with_format_error() {
    let r = get_url(
        "https://github.com/acme/widget.git",
        "/tmp/repo",
        "/tmp/repo/src/lib.ext",
        &BranchSource::Named(String::from("main")),
        false,
        Some("abc"),
    );
    assert_eq!(r, Err(UrlError::Format(FormatError::InvalidLineFormat)));
}

#[test]
fn url_error_message_texts() {
    assert_eq!(
        &UrlError::Domain(DomainError::NotFound).message(),
        "domain not found"
    );
    assert_eq!(
        &UrlError::Domain(DomainError::MultipleMatches).message(),
        "multiple url matches"
    );
    assert_eq!(
        &UrlError::Format(FormatError::InvalidLineFormat).message(),
        "line number's format is invalid"
    );
    assert_eq!(
        &UrlError::Branch(BranchError::NotFound).message(),
        "current branch not found"
    );
}

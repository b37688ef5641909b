use git_remote_open::branch::{get_current_branch_name, BranchError};

#[test]
fn current_branch_among_several() {
    assert_eq!(&get_current_branch_name("  dev\n* main\n  feature/x").unwrap(), "main");
}

#[test]
fn current_branch_first_line() {
    assert_eq!(&get_current_branch_name("* master\n  other\n").unwrap(), "master");
}

#[test]
fn current_branch_last_line_without_newline() {
    assert_eq!(&get_current_branch_name("  dev\n* topic").unwrap(), "topic");
}

#[test]
fn current_branch_missing_marker() {
    assert_eq!(
        get_current_branch_name("  dev\n  main\n"),
        Err(BranchError::NotFound)
    );
    assert_eq!(get_current_branch_name(""), Err(BranchError::NotFound));
}

#[test]
fn current_branch_detached_head_listing() {
    // a detached-HEAD placeholder line is handed back verbatim
    assert_eq!(
        &get_current_branch_name("* (detached at 1a2b3c)\n  main\n").unwrap(),
        "(detached at 1a2b3c)"
    );
}

#[test]
fn current_branch_short_marker_line() {
    // a marker line shorter than marker plus space yields an empty name
    assert_eq!(&get_current_branch_name("*").unwrap(), "");
    assert_eq!(&get_current_branch_name("*x\n  dev\n").unwrap(), "");
}

#[test]
fn current_branch_marker_not_at_line_start_is_ignored() {
    assert_eq!(
        get_current_branch_name("  a*b\n  dev\n"),
        Err(BranchError::NotFound)
    );
}

#[test]
fn branch_error_message_text() {
    assert_eq!(&BranchError::NotFound.message(), "current branch not found");
}

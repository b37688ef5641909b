use git_remote_open::status_2_result;
use git_remote_open::text::{strip_trailing_newline, str_starts_with};

#[test]
fn zero_status_is_success() {
    assert_eq!(status_2_result(0, "failed to run the repository query"), Ok(0));
}

#[test]
fn nonzero_status_carries_the_message() {
    assert_eq!(
        status_2_result(1, "failed to run the repository query"),
        Err("failed to run the repository query")
    );
    assert_eq!(status_2_result(-1, "boom"), Err("boom"));
    assert_eq!(status_2_result(128, "boom"), Err("boom"));
}

#[test]
fn trailing_newline_is_stripped_once() {
    assert_eq!(&strip_trailing_newline("https://github.com/a/b.git\n"), "https://github.com/a/b.git");
    assert_eq!(&strip_trailing_newline("no newline"), "no newline");
    assert_eq!(&strip_trailing_newline(""), "");
    assert_eq!(&strip_trailing_newline("two\n\n"), "two\n");
}

#[test]
fn prefix_test_by_characters() {
    assert!(str_starts_with("git@github.com:a", "git@github.com:"));
    assert!(!str_starts_with("xgit@github.com:a", "git@github.com:"));
    assert!(!str_starts_with("git", "git@github.com:"));
    assert!(str_starts_with("anything", ""));
}

use aigcw::git_utils::{check_diff, exit_status, is_blank, staged_diff, DiffError};

#[test]
fn blank_is_nothing_but_white_space() {
    assert!(is_blank(""));
    assert!(is_blank(" "));
    assert!(is_blank(" \t\r\n"));
    assert!(is_blank("\u{a0}\u{2003}\u{3000}"));
    assert!(!is_blank("x"));
    assert!(!is_blank("  x  "));
    assert!(!is_blank("\n\n+\n"));
    assert!(!is_blank(" \u{200b}"));
}

#[test]
fn failed_run_is_an_error() {
    assert_eq!(check_diff(false, "diff".to_string()), Err(DiffError::CommandFailed));
    assert_eq!(check_diff(false, String::new()), Err(DiffError::CommandFailed));
    assert_eq!(staged_diff(false, b"diff"), Err(DiffError::CommandFailed));
    assert_eq!(staged_diff(false, b""), Err(DiffError::CommandFailed));
}

#[test]
fn blank_output_means_nothing_is_staged() {
    assert_eq!(check_diff(true, String::new()), Err(DiffError::NoStagedChanges));
    assert_eq!(check_diff(true, " \n\t".to_string()), Err(DiffError::NoStagedChanges));
    assert_eq!(staged_diff(true, b""), Err(DiffError::NoStagedChanges));
    assert_eq!(staged_diff(true, b"\n \n"), Err(DiffError::NoStagedChanges));
}

#[test]
fn diff_is_returned_as_it_stands() {
    assert_eq!(check_diff(true, "\n+a \n".to_string()), Ok("\n+a \n".to_string()));
    assert_eq!(staged_diff(true, b" diff --git\n+x\n"), Ok(" diff --git\n+x\n".to_string()));
    assert_eq!(staged_diff(true, "+修复 ✨\n".as_bytes()), Ok("+修复 ✨\n".to_string()));
}

#[test]
fn ill_formed_bytes_are_replaced() {
    assert_eq!(staged_diff(true, b"+a\xffb"), Ok("+a\u{fffd}b".to_string()));
    assert_eq!(staged_diff(true, b"\xc3"), Ok("\u{fffd}".to_string()));
    assert_eq!(staged_diff(true, b" \xe4\xbf\xae\xf0\x9f"), Ok(" 修\u{fffd}".to_string()));
}

#[test]
fn errors_have_their_messages() {
    assert_eq!(DiffError::CommandFailed.message(), "Git diff command failed");
    assert_eq!(DiffError::NoStagedChanges.message(), "No staged changes detected.");
}

#[test]
fn exit_status_mirrors_the_client() {
    assert_eq!(exit_status(true, Some(0)), 0);
    assert_eq!(exit_status(true, None), 0);
    assert_eq!(exit_status(false, Some(128)), 128);
    assert_eq!(exit_status(false, Some(-1)), -1);
    assert_eq!(exit_status(false, None), 1);
}

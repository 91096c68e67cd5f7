use stash_triage::outcome::{
    classify_looks_applied, classify_stash_show, error, git_stashes_is_empty, has_local_changes,
    ErrorKind, ExecOutcome, PIPE_CLOSED_CODE,
};

#[test]
fn stash_show_zero_exit_means_exists() {
    assert!(matches!(classify_stash_show(&ExecOutcome::Exited(0)), Ok(true)));
}

#[test]
fn stash_show_pipe_closed_sentinel_means_exists() {
    assert_eq!(PIPE_CLOSED_CODE, 141);
    assert!(matches!(classify_stash_show(&ExecOutcome::Exited(141)), Ok(true)));
}

#[test]
fn stash_show_sentinel_classified_like_zero() {
    let by_zero = classify_stash_show(&ExecOutcome::Exited(0)).unwrap();
    let by_sentinel = classify_stash_show(&ExecOutcome::Exited(PIPE_CLOSED_CODE)).unwrap();
    assert_eq!(by_zero, by_sentinel);
}

#[test]
fn stash_show_other_exit_means_end_of_list() {
    assert!(matches!(classify_stash_show(&ExecOutcome::Exited(1)), Ok(false)));
    assert!(matches!(classify_stash_show(&ExecOutcome::Exited(128)), Ok(false)));
    assert!(matches!(classify_stash_show(&ExecOutcome::Exited(-1)), Ok(false)));
}

#[test]
fn stash_show_abnormal_termination_is_an_error() {
    let r = classify_stash_show(&ExecOutcome::Abnormal);
    match r {
        Err(e) => {
            assert!(matches!(e.kind, ErrorKind::Other));
            assert_eq!(e.message, "terminated by signal");
        }
        Ok(_) => panic!("abnormal termination must not classify as an exit code"),
    }
}

#[test]
fn stashes_is_empty_follows_the_existence_check() {
    assert!(matches!(git_stashes_is_empty(&ExecOutcome::Exited(0)), Ok(false)));
    assert!(matches!(git_stashes_is_empty(&ExecOutcome::Exited(1)), Ok(true)));
    assert!(matches!(git_stashes_is_empty(&ExecOutcome::Exited(128)), Ok(true)));
    assert!(matches!(git_stashes_is_empty(&ExecOutcome::Abnormal), Err(_)));
}

#[test]
fn local_changes_iff_status_report_nonempty() {
    assert!(!has_local_changes(&Vec::new()));
    assert!(has_local_changes(&b" M src/main.rs\n".to_vec()));
}

#[test]
fn error_carries_kind_and_message() {
    let e = error("no lines found");
    assert!(matches!(e.kind, ErrorKind::Other));
    assert_eq!(e.message, "no lines found");
}

#[test]
fn looks_applied_only_on_zero_exit() {
    assert!(matches!(classify_looks_applied(&ExecOutcome::Exited(0)), Ok(true)));
    assert!(matches!(classify_looks_applied(&ExecOutcome::Exited(1)), Ok(false)));
    // An unsupported capability fails with a nonzero code: treated as "not applied".
    assert!(matches!(classify_looks_applied(&ExecOutcome::Exited(127)), Ok(false)));
    assert!(matches!(classify_looks_applied(&ExecOutcome::Abnormal), Err(_)));
}

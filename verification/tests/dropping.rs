use stash_triage::dropper::{confirmation_accepts, drop_command, needs_confirmation};
use stash_triage::promote::GitCmd;

#[test]
fn only_an_unapplied_stash_needs_confirmation() {
    assert!(needs_confirmation(false));
    assert!(!needs_confirmation(true));
}

#[test]
fn only_a_plain_y_confirms() {
    assert!(confirmation_accepts("y"));
    assert!(!confirmation_accepts(""));
    assert!(!confirmation_accepts("n"));
    assert!(!confirmation_accepts("Y"));
    assert!(!confirmation_accepts("yes"));
    assert!(!confirmation_accepts(" y"));
}

#[test]
fn declined_drop_issues_no_command() {
    assert!(drop_command(false, false, 0).is_none());
}

#[test]
fn confirmed_drop_targets_the_position() {
    assert!(matches!(drop_command(false, true, 3), Some(GitCmd::DropStash(3))));
    assert!(matches!(drop_command(true, false, 1), Some(GitCmd::DropStash(1))));
}

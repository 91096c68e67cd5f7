use stash_triage::promote::{GitCmd, Phase, PromoteEnd, Promoter};

fn commit_message(lines: &[&str]) -> Vec<String> {
    lines.iter().map(|l| String::from(*l)).collect()
}

#[test]
fn rejected_promotion_issues_no_command() {
    let p = Promoter::new(3, false);
    assert!(matches!(p.phase, Phase::Done(PromoteEnd::Rejected)));
    assert!(p.next_cmd().is_none());
}

#[test]
fn successful_promotion_runs_the_full_plan() {
    let mut p = Promoter::new(2, true);

    assert!(matches!(p.next_cmd(), Some(GitCmd::CreatePlaceholderBranch)));
    p.on_result(true);
    assert!(matches!(p.next_cmd(), Some(GitCmd::ApplyStash(2))));
    p.on_result(true);
    assert!(matches!(p.next_cmd(), Some(GitCmd::StageAll)));
    p.on_result(true);
    assert!(matches!(p.next_cmd(), Some(GitCmd::Commit)));
    p.on_result(true);

    // The commit succeeded: the subject is awaited, nothing is pending.
    assert!(matches!(p.phase, Phase::Subject));
    assert!(p.next_cmd().is_none());
    p.on_commit_message(&commit_message(&["", "# comment", "Fix login bug!! "]));

    match p.next_cmd() {
        Some(GitCmd::RenameBranch(name)) => assert_eq!(name, "stash/fix_login_bug"),
        _ => panic!("expected the rename command"),
    }
    p.on_result(true);
    assert!(matches!(p.next_cmd(), Some(GitCmd::SwitchBack)));
    p.on_result(true);
    assert!(matches!(p.next_cmd(), Some(GitCmd::DropStash(2))));
    p.on_result(true);

    assert!(matches!(p.phase, Phase::Done(PromoteEnd::Promoted)));
    assert!(p.next_cmd().is_none());
}

#[test]
fn failed_commit_rolls_back_in_reverse_order() {
    let mut p = Promoter::new(0, true);
    p.on_result(true); // placeholder branch created
    p.on_result(true); // stash applied
    p.on_result(true); // staged
    assert!(matches!(p.next_cmd(), Some(GitCmd::Commit)));
    p.on_result(false); // the commit failed: compensate everything

    assert!(matches!(p.next_cmd(), Some(GitCmd::Unstage)));
    p.on_result(true);
    assert!(matches!(p.next_cmd(), Some(GitCmd::DiscardTracked)));
    p.on_result(true);
    assert!(matches!(p.next_cmd(), Some(GitCmd::RemoveUntracked)));
    p.on_result(true);
    assert!(matches!(p.next_cmd(), Some(GitCmd::SwitchBack)));
    p.on_result(true);
    assert!(matches!(p.next_cmd(), Some(GitCmd::DeletePlaceholder)));
    p.on_result(true);

    assert!(matches!(p.phase, Phase::Done(PromoteEnd::RolledBack)));
    assert!(p.next_cmd().is_none());
}

#[test]
fn failed_stash_apply_rolls_back_only_the_branch() {
    let mut p = Promoter::new(1, true);
    p.on_result(true); // placeholder branch created
    assert!(matches!(p.next_cmd(), Some(GitCmd::ApplyStash(1))));
    p.on_result(false); // the apply failed

    assert!(matches!(p.next_cmd(), Some(GitCmd::SwitchBack)));
    p.on_result(true);
    assert!(matches!(p.next_cmd(), Some(GitCmd::DeletePlaceholder)));
    p.on_result(true);
    assert!(matches!(p.phase, Phase::Done(PromoteEnd::RolledBack)));
}

#[test]
fn failure_before_any_mutation_needs_no_compensation() {
    let mut p = Promoter::new(0, true);
    assert!(matches!(p.next_cmd(), Some(GitCmd::CreatePlaceholderBranch)));
    p.on_result(false);
    assert!(matches!(p.phase, Phase::Done(PromoteEnd::RolledBack)));
    assert!(p.next_cmd().is_none());
}

#[test]
fn missing_subject_rolls_back_the_whole_promotion() {
    let mut p = Promoter::new(0, true);
    p.on_result(true);
    p.on_result(true);
    p.on_result(true);
    p.on_result(true); // committed
    p.on_commit_message(&commit_message(&["", "# only comments here"]));

    assert!(matches!(p.next_cmd(), Some(GitCmd::Unstage)));
    p.on_result(true);
    assert!(matches!(p.next_cmd(), Some(GitCmd::DiscardTracked)));
    p.on_result(true);
    assert!(matches!(p.next_cmd(), Some(GitCmd::RemoveUntracked)));
    p.on_result(true);
    assert!(matches!(p.next_cmd(), Some(GitCmd::SwitchBack)));
    p.on_result(true);
    assert!(matches!(p.next_cmd(), Some(GitCmd::DeletePlaceholder)));
    p.on_result(true);
    assert!(matches!(p.phase, Phase::Done(PromoteEnd::RolledBack)));
}

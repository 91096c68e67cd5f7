use stash_triage::slug::{derive_branch_name, extract_subject};
use stash_triage::stashref::{placeholder_branch, stash_ref};

#[test]
fn stash_ref_formats_the_position() {
    assert_eq!(stash_ref(0), "stash@{0}");
    assert_eq!(stash_ref(7), "stash@{7}");
    assert_eq!(stash_ref(12), "stash@{12}");
    assert_eq!(stash_ref(409), "stash@{409}");
    assert_eq!(stash_ref(u32::MAX), "stash@{4294967295}");
}

#[test]
fn placeholder_branch_name_is_fixed() {
    assert_eq!(placeholder_branch(), "stash/__TEMP_STASH__");
}

#[test]
fn branch_name_from_subject() {
    assert_eq!(derive_branch_name("Fix login bug!! "), "stash/fix_login_bug");
}

#[test]
fn branch_name_collapses_whitespace_runs() {
    assert_eq!(derive_branch_name("  Hello \t  World  "), "stash/hello_world");
}

#[test]
fn branch_name_strips_non_word_characters() {
    assert_eq!(derive_branch_name("Add: new (stuff)"), "stash/add_new_stuff");
    assert_eq!(derive_branch_name("keep_under_scores"), "stash/keep_under_scores");
}

#[test]
fn branch_name_lower_cases() {
    assert_eq!(derive_branch_name("ABC Def"), "stash/abc_def");
}

#[test]
fn branch_name_of_symbols_only_keeps_the_joiner() {
    // The words "!!!" and "??" are joined before the filter runs, so the
    // underscore between them survives while their characters do not.
    assert_eq!(derive_branch_name("!!! ??"), "stash/_");
    assert_eq!(derive_branch_name(""), "stash/");
}

#[test]
fn branch_name_handles_characters_beyond_ascii() {
    // Unicode letters are alphanumeric and survive; Unicode whitespace splits.
    assert_eq!(
        derive_branch_name("Füße\u{a0}großer Bäume"),
        "stash/füße_großer_bäume"
    );
}

#[test]
fn subject_is_first_eligible_line() {
    let lines = vec![
        String::from(""),
        String::from("# Please enter the commit message"),
        String::from("Fix login bug!!"),
        String::from("Second line"),
    ];
    assert_eq!(extract_subject(&lines), Some(String::from("Fix login bug!!")));
}

#[test]
fn subject_missing_when_all_lines_are_comments_or_empty() {
    let lines = vec![
        String::from(""),
        String::from("# a comment"),
        String::from("# another"),
    ];
    assert_eq!(extract_subject(&lines), None);
    assert_eq!(extract_subject(&Vec::new()), None);
}

#[test]
fn subject_line_may_contain_inner_hash() {
    let lines = vec![String::from("Fix issue #42")];
    assert_eq!(extract_subject(&lines), Some(String::from("Fix issue #42")));
}

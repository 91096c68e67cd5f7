use stash_triage::session::{parse_input, Input, Session, SessionAct};

#[test]
fn inputs_parse_per_the_table() {
    assert!(matches!(parse_input("d"), Input::Drop));
    assert!(matches!(parse_input("b"), Input::Branch));
    assert!(matches!(parse_input("s"), Input::Skip));
    assert!(matches!(parse_input("a"), Input::Apply));
    assert!(matches!(parse_input("q"), Input::Quit));
    assert!(matches!(parse_input("?"), Input::Help));
    assert!(matches!(parse_input(""), Input::Help));
    assert!(matches!(parse_input("x"), Input::Other));
    assert!(matches!(parse_input("dd"), Input::Other));
    assert!(matches!(parse_input("drop"), Input::Other));
}

#[test]
fn no_stashes_prints_the_notice_once_and_ends() {
    let mut s = Session::new();
    assert_eq!(s.pos, 0);
    let notice = s.on_missing();
    assert!(notice);
    assert!(s.done);
}

#[test]
fn notice_is_suppressed_once_a_stash_was_found() {
    let mut s = Session::new();
    s.on_present();
    let act = s.act(Input::Skip);
    assert!(matches!(act, SessionAct::Continue));
    assert_eq!(s.pos, 1);
    let notice = s.on_missing();
    assert!(!notice);
    assert!(s.done);
}

#[test]
fn drop_keeps_the_cursor_in_place() {
    let mut s = Session::new();
    s.on_present();
    let act = s.act(Input::Drop);
    assert!(matches!(act, SessionAct::DoDrop(0)));
    assert_eq!(s.pos, 0);
    assert!(!s.done);
}

#[test]
fn promote_keeps_the_cursor_in_place() {
    let mut s = Session::new();
    s.on_present();
    let act = s.act(Input::Branch);
    assert!(matches!(act, SessionAct::DoPromote(0)));
    assert_eq!(s.pos, 0);
    assert!(!s.done);
}

#[test]
fn skip_advances_the_cursor() {
    let mut s = Session::new();
    s.on_present();
    s.act(Input::Skip);
    s.on_present();
    s.act(Input::Skip);
    assert_eq!(s.pos, 2);
    assert!(!s.done);
}

#[test]
fn apply_ends_the_session() {
    let mut s = Session::new();
    s.on_present();
    s.act(Input::Skip);
    s.on_present();
    let act = s.act(Input::Apply);
    assert!(matches!(act, SessionAct::DoApply(1)));
    assert!(s.done);
}

#[test]
fn quit_ends_the_session() {
    let mut s = Session::new();
    s.on_present();
    let act = s.act(Input::Quit);
    assert!(matches!(act, SessionAct::Continue));
    assert!(s.done);
}

#[test]
fn help_and_unknown_input_change_nothing() {
    let mut s = Session::new();
    s.on_present();
    let act = s.act(Input::Help);
    assert!(matches!(act, SessionAct::ShowHelp));
    assert_eq!(s.pos, 0);
    assert!(!s.done);
    let act = s.act(Input::Other);
    assert!(matches!(act, SessionAct::Continue));
    assert_eq!(s.pos, 0);
    assert!(!s.done);
}

//! The interactive session: a cursor over the stash stack and the
//! read-decide-act dispatcher.
//!
//! The cursor is an ordinal position into the stash stack. Removing the
//! reviewed stash (a drop, or a successful promotion) shifts every later
//! stash down by one, so the cursor must stay put; only an explicit skip
//! advances it. The session ends when no stash remains at the cursor or the
//! operator quits, and the "no stashes" notice is printed only if no stash
//! was ever found during the session.

use vstd::prelude::*;
use crate::repo::{apply_one, lemma_drop_shifts_down, RCmd, Repo};

verus! {

/// One line of operator input, already parsed.
pub enum Input {
    /// `d`: drop the reviewed stash.
    Drop,
    /// `b`: promote the reviewed stash to a branch.
    Branch,
    /// `s`: leave the reviewed stash and move on.
    Skip,
    /// `a`: apply the reviewed stash and stop reviewing.
    Apply,
    /// `q`, or the input stream closing.
    Quit,
    /// `?` or an empty line: print the help text.
    Help,
    /// Anything else: ignored.
    Other,
}

/// What the dispatcher asks its caller to do next.
pub enum SessionAct {
    /// Run the stash dropper on this position.
    DoDrop(u32),
    /// Run the branch promoter on this position.
    DoPromote(u32),
    /// Apply the stash at this position; the session is over.
    DoApply(u32),
    /// Print the help text.
    ShowHelp,
    /// Nothing to perform.
    Continue,
}

/// The session state: the cursor, whether any stash was ever found, and
/// whether the session is over.
pub struct Session {
    pub pos: u32,
    pub found_any: bool,
    pub done: bool,
}

/// The parse of one input line, as `parse_input` computes it.
pub open spec fn spec_input_of(l: Seq<char>) -> Input {
    if l.len() == 0 {
        Input::Help
    } else if l.len() == 1 && l[0] == 'd' {
        Input::Drop
    } else if l.len() == 1 && l[0] == 'b' {
        Input::Branch
    } else if l.len() == 1 && l[0] == 's' {
        Input::Skip
    } else if l.len() == 1 && l[0] == 'a' {
        Input::Apply
    } else if l.len() == 1 && l[0] == 'q' {
        Input::Quit
    } else if l.len() == 1 && l[0] == '?' {
        Input::Help
    } else {
        Input::Other
    }
}

/// Parses one line of operator input. An empty line or `?` asks for help;
/// unknown input is ignored.
pub fn parse_input(line: &str) -> (i: Input)
    ensures
        i == spec_input_of(line@),
{
    let n = line.unicode_len();
    if n == 0 {
        Input::Help
    } else if n == 1 {
        let c = line.get_char(0);
        if c == 'd' { Input::Drop }
        else if c == 'b' { Input::Branch }
        else if c == 's' { Input::Skip }
        else if c == 'a' { Input::Apply }
        else if c == 'q' { Input::Quit }
        else if c == '?' { Input::Help }
        else { Input::Other }
    } else {
        Input::Other
    }
}

/// The session after a stash was found at the cursor.
pub open spec fn spec_on_present(s: Session) -> Session {
    Session { found_any: true, ..s }
}

/// The session after the cursor found no stash, paired with whether the
/// "no stashes" notice is due: the session is over, and the notice is
/// printed exactly when no stash was ever found.
pub open spec fn spec_on_missing(s: Session) -> (Session, bool) {
    (Session { done: true, ..s }, !s.found_any)
}

/// The transition table of the dispatcher: the session after one operator
/// input, paired with the action to perform.
pub open spec fn spec_act(s: Session, i: Input) -> (Session, SessionAct) {
    match i {
        Input::Drop => (s, SessionAct::DoDrop(s.pos)),
        Input::Branch => (s, SessionAct::DoPromote(s.pos)),
        Input::Skip => (Session { pos: (s.pos + 1) as u32, ..s }, SessionAct::Continue),
        Input::Apply => (Session { done: true, ..s }, SessionAct::DoApply(s.pos)),
        Input::Quit => (Session { done: true, ..s }, SessionAct::Continue),
        Input::Help => (s, SessionAct::ShowHelp),
        Input::Other => (s, SessionAct::Continue),
    }
}

impl Session {
    /// The state a session starts in: cursor at the top of the stack,
    /// nothing found yet, not over.
    pub fn new() -> (s: Session)
        ensures
            s.pos == 0,
            !s.found_any,
            !s.done,
    {
        Session { pos: 0, found_any: false, done: false }
    }

    /// Records that a stash exists at the cursor. The cursor does not move.
    pub fn on_present(&mut self)
        requires
            !old(self).done,
        ensures
            *final(self) == spec_on_present(*old(self)),
            final(self).found_any,
            final(self).pos == old(self).pos,
            !final(self).done,
    {
        self.found_any = true;
    }

    /// Records that no stash exists at the cursor: the session is over.
    /// Returns whether the "no stashes" notice is due, which it is exactly
    /// when no stash was ever found this session.
    pub fn on_missing(&mut self) -> (notice: bool)
        requires
            !old(self).done,
        ensures
            (*final(self), notice) == spec_on_missing(*old(self)),
            final(self).done,
            notice == !old(self).found_any,
            final(self).pos == old(self).pos,
            final(self).found_any == old(self).found_any,
    {
        self.done = true;
        !self.found_any
    }

    /// Dispatches one operator input while a stash is under review.
    ///
    /// Dropping or promoting leaves the cursor where it is: if the stash is
    /// removed, the shift-down puts its successor in the same slot. Only an
    /// explicit skip advances the cursor. Applying or quitting ends the
    /// session.
    pub fn act(&mut self, i: Input) -> (a: SessionAct)
        requires
            !old(self).done,
            old(self).pos < u32::MAX,
        ensures
            (*final(self), a) == spec_act(*old(self), i),
            final(self).found_any == old(self).found_any,
            i is Drop ==> a == SessionAct::DoDrop(old(self).pos)
                && final(self).pos == old(self).pos && !final(self).done,
            i is Branch ==> a == SessionAct::DoPromote(old(self).pos)
                && final(self).pos == old(self).pos && !final(self).done,
            i is Skip ==> a is Continue
                && final(self).pos == old(self).pos + 1 && !final(self).done,
            i is Apply ==> a == SessionAct::DoApply(old(self).pos) && final(self).done,
            i is Quit ==> a is Continue && final(self).done,
            i is Help ==> a is ShowHelp
                && final(self).pos == old(self).pos && !final(self).done,
            i is Other ==> a is Continue
                && final(self).pos == old(self).pos && !final(self).done,
    {
        match i {
            Input::Drop => SessionAct::DoDrop(self.pos),
            Input::Branch => SessionAct::DoPromote(self.pos),
            Input::Skip => {
                self.pos = self.pos + 1;
                SessionAct::Continue
            }
            Input::Apply => {
                self.done = true;
                SessionAct::DoApply(self.pos)
            }
            Input::Quit => {
                self.done = true;
                SessionAct::Continue
            }
            Input::Help => SessionAct::ShowHelp,
            Input::Other => SessionAct::Continue,
        }
    }
}

/// One turn of the session loop, as the outside driver sees it: either the
/// existence check at the cursor found no stash, or it found one and an
/// input line was read.
pub ghost enum SessionEvent {
    Absent,
    Present(Input),
}

/// How many "no stashes" notices a whole session run prints, given the
/// events of its successive turns. A turn after the session is over prints
/// nothing, because the loop is never entered again.
pub open spec fn spec_run_notices(s: Session, events: Seq<SessionEvent>) -> nat
    decreases events.len(),
{
    if events.len() == 0 || s.done {
        0
    } else {
        match events[0] {
            SessionEvent::Absent => if spec_on_missing(s).1 { 1 as nat } else { 0 as nat },
            SessionEvent::Present(i) => spec_run_notices(
                spec_on_present_then(s, i),
                events.drop_first(),
            ),
        }
    }
}

/// The session after a turn that found a stash and dispatched input `i`.
pub open spec fn spec_on_present_then(s: Session, i: Input) -> Session {
    spec_act(spec_on_present(s), i).0
}

/// With no stashes present, every existence check comes back absent, so a
/// session prints the "no stashes" notice exactly once — whatever inputs
/// the operator might have typed — and is then over.
pub proof fn lemma_no_stashes_single_notice(s: Session, events: Seq<SessionEvent>)
    requires
        s.pos == 0,
        !s.found_any,
        !s.done,
        events.len() > 0,
        forall|k: int| 0 <= k < events.len() ==> events[k] is Absent,
    ensures
        spec_run_notices(s, events) == 1,
        spec_on_missing(s).0.done,
{
    assert(events[0] is Absent);
}

/// Dropping the stash under review never changes the cursor position; and
/// because removal shifts every later entry down by one, the next existence
/// check at that same position sees the stash that previously stood one
/// below the dropped one — if any.
pub proof fn lemma_drop_keeps_cursor_and_sees_successor(s: Session, r: Repo)
    requires
        !s.done,
        s.pos < r.stashes.len(),
    ensures
        spec_act(spec_on_present(s), Input::Drop).0.pos == s.pos,
        spec_act(spec_on_present(s), Input::Drop).1 == SessionAct::DoDrop(s.pos),
        s.pos + 1 < r.stashes.len()
            ==> apply_one(r, RCmd::DropStash(s.pos as int)).stashes[s.pos as int]
                == r.stashes[s.pos as int + 1],
{
    lemma_drop_shifts_down(r, s.pos as int);
}

/// A session that has ever found a stash never prints the notice: a later
/// absent check ends the session silently, and a finished session prints
/// nothing more.
pub proof fn lemma_found_means_no_notice(s: Session, events: Seq<SessionEvent>)
    requires
        s.found_any,
    ensures
        spec_run_notices(s, events) == 0,
    decreases events.len(),
{
    if events.len() > 0 && !s.done {
        match events[0] {
            SessionEvent::Absent => {}
            SessionEvent::Present(i) => {
                lemma_found_means_no_notice(
                    spec_on_present_then(s, i),
                    events.drop_first(),
                );
            }
        }
    }
}

} // verus!

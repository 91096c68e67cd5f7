//! Dropping a stash, with a confirmation prompt when it may not yet be
//! reconciled into the working tree.
//!
//! Dropping is not a transaction: one command discards the stash. The only
//! decision is whether to ask first — a stash that does not look applied is
//! dropped only on an explicit `y`; any other answer, the empty default
//! included, declines, and nothing changes.

use vstd::prelude::*;
use crate::promote::GitCmd;

verus! {

/// Whether the drop must be confirmed: only a stash that does not look
/// applied needs the operator's explicit consent.
pub fn needs_confirmation(looks_applied: bool) -> (r: bool)
    ensures
        r == !looks_applied,
{
    !looks_applied
}

/// Whether an answer to the confirmation prompt consents to the drop:
/// exactly the single letter `y`. The empty default declines.
pub fn confirmation_accepts(answer: &str) -> (r: bool)
    ensures
        r == (answer@ == seq!['y']),
{
    let n = answer.unicode_len();
    if n == 1 && answer.get_char(0) == 'y' {
        proof {
            assert(answer@ =~= seq!['y']);
        }
        true
    } else {
        proof {
            if answer@ == seq!['y'] {
                assert(answer@.len() == 1);
                assert(answer@[0] == 'y');
            }
        }
        false
    }
}

/// The command a drop request comes to, if any: the stash at `pos` is
/// dropped when it looks applied or when the operator confirmed; a
/// declined confirmation is a no-op, not an error, and leaves the stash
/// stack unchanged.
pub fn drop_command(looks_applied: bool, confirmed: bool, pos: u32) -> (c: Option<GitCmd>)
    ensures
        (looks_applied || confirmed) ==> c == Some(GitCmd::DropStash(pos)),
        !(looks_applied || confirmed) ==> c is None,
{
    if looks_applied || confirmed {
        Some(GitCmd::DropStash(pos))
    } else {
        None
    }
}

} // verus!

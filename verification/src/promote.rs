//! The transactional promotion of a stash to a named branch.
//!
//! A promotion is a fixed sequence of forward steps — create and switch to
//! a placeholder branch, apply the stash, stage everything, commit — whose
//! decision point is the commit. If any forward step fails, the
//! compensations of the steps already completed run in reverse order, so
//! the repository is restored exactly (`crate::repo::lemma_rollback_restores`).
//! After a successful commit the subject of the commit message names the
//! branch; if no usable subject exists the same full rollback runs. The
//! promoter is a state machine: the caller executes one command at a time
//! and reports each result, so every decision stands here while the process
//! execution stays outside.

use vstd::prelude::*;
use crate::repo::{RCmd, Repo, apply_cmds, forward_plan, rollback_plan, finish_plan};
use crate::slug::{spec_first_eligible, spec_branch_name, extract_subject, derive_branch_name};

verus! {

/// One version-control command the caller is asked to run.
pub enum GitCmd {
    /// Create the placeholder branch and switch to it.
    CreatePlaceholderBranch,
    /// Apply the stash at this position onto the working tree.
    ApplyStash(u32),
    /// Stage every change in the working tree.
    StageAll,
    /// Commit the staged changes, without hooks.
    Commit,
    /// Unstage everything.
    Unstage,
    /// Discard modifications of tracked files.
    DiscardTracked,
    /// Remove untracked files.
    RemoveUntracked,
    /// Switch back to the previously checked-out branch.
    SwitchBack,
    /// Delete the placeholder branch.
    DeletePlaceholder,
    /// Rename the created branch to this name.
    RenameBranch(String),
    /// Drop the stash at this position.
    DropStash(u32),
}

/// The model-level reading of a command.
pub open spec fn rcmd_of(c: GitCmd) -> RCmd {
    match c {
        GitCmd::CreatePlaceholderBranch => RCmd::CreatePlaceholder,
        GitCmd::ApplyStash(p) => RCmd::ApplyStash(p as int),
        GitCmd::StageAll => RCmd::StageAll,
        GitCmd::Commit => RCmd::Commit,
        GitCmd::Unstage => RCmd::Unstage,
        GitCmd::DiscardTracked => RCmd::DiscardTracked,
        GitCmd::RemoveUntracked => RCmd::RemoveUntracked,
        GitCmd::SwitchBack => RCmd::SwitchBack,
        GitCmd::DeletePlaceholder => RCmd::DeletePlaceholder,
        GitCmd::RenameBranch(name) => RCmd::RenameBranch(name@),
        GitCmd::DropStash(p) => RCmd::DropStash(p as int),
    }
}

/// How a finished promotion ended.
pub enum PromoteEnd {
    /// Promotion was not permitted: local changes were present at session
    /// start. Nothing was mutated.
    Rejected,
    /// A step failed; every completed step was compensated.
    RolledBack,
    /// The stash now lives on a branch named after the commit subject.
    Promoted,
}

/// Where the promoter stands.
pub enum Phase {
    /// Issuing forward steps; the next one is `fwd`.
    Forward,
    /// A step failed after `fwd` completed steps; issuing the rollback
    /// plan, the next command is at `idx`.
    Rollback,
    /// The commit succeeded; waiting for the commit-message lines.
    Subject,
    /// The subject is known; issuing the closing commands, the next one is
    /// at `idx`.
    Finish,
    /// Nothing remains to do.
    Done(PromoteEnd),
}

/// The promotion state machine for the stash at one position.
pub struct Promoter {
    /// The position of the stash being promoted.
    pub pos: u32,
    /// Where the promoter stands.
    pub phase: Phase,
    /// Completed forward steps, between 0 and 4.
    pub fwd: u32,
    /// Position within the rollback or finish plan.
    pub idx: u32,
    /// The derived branch name, once the subject is known.
    pub name: Option<String>,
    /// The model-level trace of the commands applied so far: the forward
    /// steps that succeeded and every compensation or closing command that
    /// was issued. The laws below judge a finished promotion by this trace.
    pub applied: Ghost<Seq<RCmd>>,
}

impl Promoter {
    /// The promoter is in a meaningful state, and its trace is exactly the
    /// prefix of its plans that its position in them says.
    pub open spec fn wf(self) -> bool {
        &&& self.fwd <= 4
        &&& match self.phase {
            Phase::Forward => self.fwd < 4 && self.name is None
                && self.applied@ == forward_plan(self.pos).take(self.fwd as int),
            Phase::Rollback => self.idx < rollback_plan(self.fwd as int).len()
                && self.applied@ == forward_plan(self.pos).take(self.fwd as int)
                    + rollback_plan(self.fwd as int).take(self.idx as int),
            Phase::Subject => self.fwd == 4 && self.name is None
                && self.applied@ == forward_plan(self.pos).take(4),
            Phase::Finish => self.fwd == 4 && self.idx < 3 && self.name is Some
                && self.applied@ == forward_plan(self.pos).take(4)
                    + finish_plan(self.pos, self.spec_name()).take(self.idx as int),
            Phase::Done(PromoteEnd::Rejected) => self.applied@ == Seq::<RCmd>::empty(),
            Phase::Done(PromoteEnd::RolledBack) => self.applied@
                == forward_plan(self.pos).take(self.fwd as int)
                    + rollback_plan(self.fwd as int),
            Phase::Done(PromoteEnd::Promoted) => self.fwd == 4 && self.name is Some
                && self.applied@ == forward_plan(self.pos).take(4)
                    + finish_plan(self.pos, self.spec_name()),
        }
    }

    /// The name the promoter will give the branch, in the model's terms.
    pub open spec fn spec_name(self) -> Seq<char>
        recommends
            self.name is Some,
    {
        self.name->0@
    }

    /// Starts a promotion of the stash at `pos`.
    ///
    /// When promotion is not permitted — local changes were present at
    /// session start — the promoter is born finished as `Rejected`, so it
    /// never issues a command and nothing is mutated; the caller reports
    /// the error. Otherwise the first forward step is pending.
    pub fn new(pos: u32, promotion_allowed: bool) -> (p: Promoter)
        ensures
            p.wf(),
            p.pos == pos,
            promotion_allowed ==> p.phase == Phase::Forward && p.fwd == 0,
            !promotion_allowed ==> p.phase == Phase::Done(PromoteEnd::Rejected),
    {
        proof {
            assert(forward_plan(pos).take(0) =~= Seq::<RCmd>::empty());
        }
        if promotion_allowed {
            Promoter {
                pos,
                phase: Phase::Forward,
                fwd: 0,
                idx: 0,
                name: None,
                applied: Ghost(Seq::empty()),
            }
        } else {
            Promoter {
                pos,
                phase: Phase::Done(PromoteEnd::Rejected),
                fwd: 0,
                idx: 0,
                name: None,
                applied: Ghost(Seq::empty()),
            }
        }
    }

    /// The command to run now, if one is pending: the next forward step,
    /// the next rollback command, or the next closing command. Nothing is
    /// pending while the commit-message subject is awaited or once the
    /// promoter is done — in particular, a rejected promotion never issues
    /// any command.
    pub fn next_cmd(&self) -> (c: Option<GitCmd>)
        requires
            self.wf(),
        ensures
            match self.phase {
                Phase::Forward => c is Some
                    && rcmd_of(c->0) == forward_plan(self.pos)[self.fwd as int],
                Phase::Rollback => c is Some
                    && rcmd_of(c->0) == rollback_plan(self.fwd as int)[self.idx as int],
                Phase::Finish => c is Some
                    && rcmd_of(c->0) == finish_plan(self.pos, self.spec_name())[self.idx as int],
                Phase::Subject => c is None,
                Phase::Done(_) => c is None,
            },
    {
        match self.phase {
            Phase::Forward => Some(
                if self.fwd == 0 {
                    GitCmd::CreatePlaceholderBranch
                } else if self.fwd == 1 {
                    GitCmd::ApplyStash(self.pos)
                } else if self.fwd == 2 {
                    GitCmd::StageAll
                } else {
                    GitCmd::Commit
                },
            ),
            Phase::Rollback => {
                proof {
                    lemma_rollback_plan_entries(self.fwd as int, self.idx as int);
                }
                Some(rollback_cmd(self.fwd, self.idx))
            }
            Phase::Finish => {
                let name = match &self.name {
                    Some(n) => n.clone(),
                    None => unreached(),
                };
                Some(
                    if self.idx == 0 {
                        GitCmd::RenameBranch(name)
                    } else if self.idx == 1 {
                        GitCmd::SwitchBack
                    } else {
                        GitCmd::DropStash(self.pos)
                    },
                )
            }
            Phase::Subject => None,
            Phase::Done(_) => None,
        }
    }

    /// Records the result of the pending command.
    ///
    /// A forward step that succeeds advances the plan; the successful
    /// commit — the decision point — moves on to reading the commit
    /// subject. A forward step that fails starts the rollback of every
    /// completed step, in reverse order of their execution; with nothing
    /// completed the promotion is already over, rolled back. The results
    /// of rollback and closing commands do not steer the transaction:
    /// compensation is attempted in full either way.
    pub fn on_result(&mut self, ok: bool)
        requires
            old(self).wf(),
            old(self).phase is Forward || old(self).phase is Rollback
                || old(self).phase is Finish,
        ensures
            final(self).wf(),
            final(self).pos == old(self).pos,
            match old(self).phase {
                Phase::Forward => {
                    if ok {
                        if old(self).fwd == 3 {
                            final(self).phase == Phase::Subject && final(self).fwd == 4
                        } else {
                            final(self).phase == Phase::Forward
                                && final(self).fwd == old(self).fwd + 1
                        }
                    } else {
                        final(self).fwd == old(self).fwd
                        && if rollback_plan(old(self).fwd as int).len() == 0 {
                            final(self).phase == Phase::Done(PromoteEnd::RolledBack)
                        } else {
                            final(self).phase == Phase::Rollback && final(self).idx == 0
                        }
                    }
                },
                Phase::Rollback => {
                    final(self).fwd == old(self).fwd
                    && if old(self).idx + 1 == rollback_plan(old(self).fwd as int).len() {
                        final(self).phase == Phase::Done(PromoteEnd::RolledBack)
                    } else {
                        final(self).phase == Phase::Rollback
                            && final(self).idx == old(self).idx + 1
                    }
                },
                Phase::Finish => {
                    final(self).name == old(self).name
                    && if old(self).idx == 2 {
                        final(self).phase == Phase::Done(PromoteEnd::Promoted)
                    } else {
                        final(self).phase == Phase::Finish
                            && final(self).idx == old(self).idx + 1
                    }
                },
                _ => false,
            },
    {
        match self.phase {
            Phase::Forward => {
                if ok {
                    proof {
                        let plan = forward_plan(self.pos);
                        assert(plan.take(self.fwd as int + 1)
                            =~= plan.take(self.fwd as int).push(plan[self.fwd as int]));
                        self.applied@ = self.applied@.push(plan[self.fwd as int]);
                    }
                    if self.fwd == 3 {
                        self.fwd = 4;
                        self.phase = Phase::Subject;
                    } else {
                        self.fwd = self.fwd + 1;
                    }
                } else {
                    proof {
                        lemma_rollback_plan_len(self.fwd as int);
                        if self.fwd == 0 {
                            assert(forward_plan(self.pos).take(0) + rollback_plan(0)
                                =~= Seq::<RCmd>::empty());
                        } else {
                            assert(forward_plan(self.pos).take(self.fwd as int)
                                + rollback_plan(self.fwd as int).take(0)
                                =~= forward_plan(self.pos).take(self.fwd as int));
                        }
                    }
                    if self.fwd == 0 {
                        self.phase = Phase::Done(PromoteEnd::RolledBack);
                    } else {
                        self.phase = Phase::Rollback;
                        self.idx = 0;
                    }
                }
            }
            Phase::Rollback => {
                proof {
                    lemma_rollback_plan_len(self.fwd as int);
                    let fp = forward_plan(self.pos).take(self.fwd as int);
                    let rb = rollback_plan(self.fwd as int);
                    assert(rb.take(self.idx as int + 1)
                        =~= rb.take(self.idx as int).push(rb[self.idx as int]));
                    assert(fp + rb.take(self.idx as int + 1)
                        =~= (fp + rb.take(self.idx as int)).push(rb[self.idx as int]));
                    assert(rb.take(rb.len() as int) =~= rb);
                    self.applied@ = self.applied@.push(rb[self.idx as int]);
                }
                let total: u32 = if self.fwd == 1 { 2 } else if self.fwd == 2 { 4 } else { 5 };
                if self.idx + 1 == total {
                    self.phase = Phase::Done(PromoteEnd::RolledBack);
                } else {
                    self.idx = self.idx + 1;
                }
            }
            Phase::Finish => {
                proof {
                    let fp = forward_plan(self.pos).take(4);
                    let fin = finish_plan(self.pos, self.spec_name());
                    assert(fin.take(self.idx as int + 1)
                        =~= fin.take(self.idx as int).push(fin[self.idx as int]));
                    assert(fp + fin.take(self.idx as int + 1)
                        =~= (fp + fin.take(self.idx as int)).push(fin[self.idx as int]));
                    assert(fin.take(3) =~= fin);
                    self.applied@ = self.applied@.push(fin[self.idx as int]);
                }
                if self.idx == 2 {
                    self.phase = Phase::Done(PromoteEnd::Promoted);
                } else {
                    self.idx = self.idx + 1;
                }
            }
            _ => {}
        }
    }

    /// Takes the lines of the commit-message file after a successful
    /// commit. The first line that is non-empty and does not begin with
    /// `#` is the subject, and the branch name derived from it makes the
    /// closing commands pending. Without any such line the promotion
    /// cannot continue; it is abandoned, and the full rollback — the
    /// compensations of all four completed steps — becomes pending, so no
    /// mutation is left behind.
    pub fn on_commit_message(&mut self, lines: &Vec<String>)
        requires
            old(self).wf(),
            old(self).phase is Subject,
        ensures
            final(self).wf(),
            final(self).pos == old(self).pos,
            final(self).fwd == old(self).fwd,
            match spec_first_eligible(lines.deep_view()) {
                Some(subject) => final(self).phase == Phase::Finish && final(self).idx == 0
                    && final(self).name is Some
                    && final(self).spec_name() == spec_branch_name(subject),
                None => final(self).phase == Phase::Rollback && final(self).idx == 0,
            },
    {
        match extract_subject(lines) {
            Some(subject) => {
                let name = derive_branch_name(subject.as_str());
                self.name = Some(name);
                self.phase = Phase::Finish;
                self.idx = 0;
                proof {
                    assert(forward_plan(self.pos).take(4)
                        + finish_plan(self.pos, self.spec_name()).take(0)
                        =~= forward_plan(self.pos).take(4));
                }
            }
            None => {
                proof {
                    lemma_rollback_plan_len(self.fwd as int);
                    assert(forward_plan(self.pos).take(4) + rollback_plan(4).take(0)
                        =~= forward_plan(self.pos).take(4));
                }
                self.phase = Phase::Rollback;
                self.idx = 0;
            }
        }
    }
}

/// A promotion that was rejected — local changes were present at session
/// start — has applied nothing: its trace is empty, and any repository is
/// left exactly as it was. Zero mutations.
pub proof fn lemma_rejected_promotion_changes_nothing(p: Promoter, r: Repo)
    requires
        p.wf(),
        p.phase == Phase::Done(PromoteEnd::Rejected),
    ensures
        apply_cmds(r, p.applied@) == r,
{
}

/// A promotion that ended rolled back leaves a ready repository in
/// byte-identical state: whatever forward steps had completed before the
/// failure — a failing step, or a commit without a usable subject — the
/// trace the promoter applied restores the state before the call exactly.
pub proof fn lemma_rolled_back_trace_restores(p: Promoter, r: Repo)
    requires
        p.wf(),
        p.phase == Phase::Done(PromoteEnd::RolledBack),
        r.ready(),
    ensures
        apply_cmds(r, p.applied@) == r,
{
    crate::repo::lemma_rollback_restores(r, p.pos, p.fwd as int);
}

/// A promotion that ended promoted leaves the original branch checked out,
/// the stash removed from the stack, and exactly one new branch carrying
/// the commit, named as the promoter derived it from the commit subject.
pub proof fn lemma_promoted_trace(p: Promoter, r: Repo)
    requires
        p.wf(),
        p.phase == Phase::Done(PromoteEnd::Promoted),
        r.ready(),
        p.pos < r.stashes.len(),
    ensures
        apply_cmds(r, p.applied@) == crate::repo::promoted(r, p.pos, p.spec_name()),
{
    assert(forward_plan(p.pos).take(4) =~= forward_plan(p.pos));
    crate::repo::lemma_promotion_success(r, p.pos, p.spec_name());
}

/// The length of the rollback plan for each number of completed steps.
proof fn lemma_rollback_plan_len(completed: int)
    requires
        0 <= completed <= 4,
    ensures
        completed == 0 ==> rollback_plan(completed).len() == 0,
        completed == 1 ==> rollback_plan(completed).len() == 2,
        completed == 2 ==> rollback_plan(completed).len() == 4,
        completed >= 3 ==> rollback_plan(completed).len() == 5,
{
    reveal_with_fuel(rollback_plan, 6);
}

/// The entries of the rollback plan match `rollback_cmd`.
proof fn lemma_rollback_plan_entries(completed: int, idx: int)
    requires
        1 <= completed <= 4,
        0 <= idx < rollback_plan(completed).len(),
    ensures
        rollback_plan(completed)[idx] == rcmd_of(spec_rollback_cmd(completed, idx)),
{
    reveal_with_fuel(rollback_plan, 6);
}

/// The rollback command at `idx` of the plan for `completed` steps: the
/// compensations of the completed steps, most recent step first.
pub open spec fn spec_rollback_cmd(completed: int, idx: int) -> GitCmd {
    if completed >= 3 {
        if idx == 0 { GitCmd::Unstage }
        else if idx == 1 { GitCmd::DiscardTracked }
        else if idx == 2 { GitCmd::RemoveUntracked }
        else if idx == 3 { GitCmd::SwitchBack }
        else { GitCmd::DeletePlaceholder }
    } else if completed == 2 {
        if idx == 0 { GitCmd::DiscardTracked }
        else if idx == 1 { GitCmd::RemoveUntracked }
        else if idx == 2 { GitCmd::SwitchBack }
        else { GitCmd::DeletePlaceholder }
    } else {
        if idx == 0 { GitCmd::SwitchBack }
        else { GitCmd::DeletePlaceholder }
    }
}

fn rollback_cmd(completed: u32, idx: u32) -> (c: GitCmd)
    requires
        1 <= completed <= 4,
    ensures
        c == spec_rollback_cmd(completed as int, idx as int),
{
    if completed >= 3 {
        if idx == 0 { GitCmd::Unstage }
        else if idx == 1 { GitCmd::DiscardTracked }
        else if idx == 2 { GitCmd::RemoveUntracked }
        else if idx == 3 { GitCmd::SwitchBack }
        else { GitCmd::DeletePlaceholder }
    } else if completed == 2 {
        if idx == 0 { GitCmd::DiscardTracked }
        else if idx == 1 { GitCmd::RemoveUntracked }
        else if idx == 2 { GitCmd::SwitchBack }
        else { GitCmd::DeletePlaceholder }
    } else {
        if idx == 0 { GitCmd::SwitchBack }
        else { GitCmd::DeletePlaceholder }
    }
}

} // verus!

//! An abstract model of the repository, and the laws of the promotion
//! transaction and of stash removal.
//!
//! The model tracks exactly what the tool's operations can change: the stash
//! stack, which branch is checked out, the one branch the tool may create,
//! and the uncommitted state of the working tree. The promotion plans below
//! are the command sequences the promoter emits; the laws state that a
//! rolled-back promotion restores the model exactly and that a successful
//! one removes the stash and leaves one new branch behind.

use vstd::prelude::*;
use crate::stashref::spec_placeholder_branch;

verus! {

/// A version-control mutation, at the level the model interprets.
pub ghost enum RCmd {
    /// Create the placeholder branch and switch to it.
    CreatePlaceholder,
    /// Apply the stash at this position onto the working tree.
    ApplyStash(int),
    /// Stage every change in the working tree.
    StageAll,
    /// Commit the staged changes (without hooks).
    Commit,
    /// Unstage everything.
    Unstage,
    /// Discard modifications of tracked files.
    DiscardTracked,
    /// Remove untracked files.
    RemoveUntracked,
    /// Switch back to the previously checked-out branch.
    SwitchBack,
    /// Delete the created branch (and the commit that only it holds).
    DeletePlaceholder,
    /// Rename the created branch.
    RenameBranch(Seq<char>),
    /// Drop the stash at this position; later stashes shift down by one.
    DropStash(int),
}

/// The abstract repository state.
#[verifier::ext_equal]
pub ghost struct Repo {
    /// The stash stack, position 0 first; entries are abstract snapshots.
    pub stashes: Seq<int>,
    /// Whether the checked-out branch is the one the tool created
    /// (otherwise the original branch is checked out).
    pub on_created_branch: bool,
    /// The branch the tool created, with its current name, if it exists.
    pub created_branch: Option<Seq<char>>,
    /// The created branch carries the promoted commit.
    pub commit_on_created: bool,
    /// Tracked files have uncommitted modifications.
    pub tracked_dirty: bool,
    /// Untracked files are present.
    pub untracked_present: bool,
    /// Changes are staged for commit.
    pub staged: bool,
}

impl Repo {
    /// The state a promotion starts from: the original branch checked out,
    /// no branch created by the tool, a clean working tree and nothing
    /// staged. Promotion is only permitted when the session started with no
    /// local changes, so this holds whenever the promoter runs.
    pub open spec fn ready(self) -> bool {
        &&& !self.on_created_branch
        &&& self.created_branch is None
        &&& !self.commit_on_created
        &&& !self.tracked_dirty
        &&& !self.untracked_present
        &&& !self.staged
    }
}

/// The effect of one mutation on the model.
pub open spec fn apply_one(r: Repo, c: RCmd) -> Repo {
    match c {
        RCmd::CreatePlaceholder => Repo {
            on_created_branch: true,
            created_branch: Some(spec_placeholder_branch()),
            ..r
        },
        RCmd::ApplyStash(_) => Repo { tracked_dirty: true, untracked_present: true, ..r },
        RCmd::StageAll => Repo { staged: true, ..r },
        RCmd::Commit => Repo {
            commit_on_created: true,
            staged: false,
            tracked_dirty: false,
            untracked_present: false,
            ..r
        },
        RCmd::Unstage => Repo { staged: false, ..r },
        RCmd::DiscardTracked => Repo { tracked_dirty: false, ..r },
        RCmd::RemoveUntracked => Repo { untracked_present: false, ..r },
        RCmd::SwitchBack => Repo { on_created_branch: false, ..r },
        RCmd::DeletePlaceholder => Repo {
            created_branch: None,
            commit_on_created: false,
            ..r
        },
        RCmd::RenameBranch(name) => Repo {
            created_branch: if r.created_branch is Some { Some(name) } else { None },
            ..r
        },
        RCmd::DropStash(p) => Repo {
            stashes: if 0 <= p < r.stashes.len() { r.stashes.remove(p) } else { r.stashes },
            ..r
        },
    }
}

/// The effect of a command sequence, applied in order.
pub open spec fn apply_cmds(r: Repo, cs: Seq<RCmd>) -> Repo
    decreases cs.len(),
{
    if cs.len() == 0 {
        r
    } else {
        apply_cmds(apply_one(r, cs[0]), cs.drop_first())
    }
}

/// The forward steps of a promotion of the stash at `pos`, in order:
/// create and switch to the placeholder branch, apply the stash, stage
/// everything, commit. The commit is the decision point.
pub open spec fn forward_plan(pos: u32) -> Seq<RCmd> {
    seq![
        RCmd::CreatePlaceholder,
        RCmd::ApplyStash(pos as int),
        RCmd::StageAll,
        RCmd::Commit,
    ]
}

/// The compensation for one forward step, undoing exactly its mutations.
/// The commit itself needs none of its own: deleting the placeholder
/// branch removes the commit with it.
pub open spec fn comps_of(step: int) -> Seq<RCmd> {
    if step == 0 {
        seq![RCmd::SwitchBack, RCmd::DeletePlaceholder]
    } else if step == 1 {
        seq![RCmd::DiscardTracked, RCmd::RemoveUntracked]
    } else if step == 2 {
        seq![RCmd::Unstage]
    } else {
        seq![]
    }
}

/// The rollback after `completed` forward steps: the compensations of the
/// completed steps, most recent first.
pub open spec fn rollback_plan(completed: int) -> Seq<RCmd>
    decreases completed,
{
    if completed <= 0 {
        seq![]
    } else {
        comps_of(completed - 1) + rollback_plan(completed - 1)
    }
}

/// The closing steps of a successful promotion: rename the placeholder
/// branch to the derived name, switch back to the original branch, drop the
/// now-redundant stash.
pub open spec fn finish_plan(pos: u32, name: Seq<char>) -> Seq<RCmd> {
    seq![RCmd::RenameBranch(name), RCmd::SwitchBack, RCmd::DropStash(pos as int)]
}

/// The repository a successful promotion of the stash at `pos` leaves
/// behind: the original branch checked out again, the stash removed from
/// the stack, the working tree clean, and exactly one new branch, named
/// `name`, carrying the promoted commit.
pub open spec fn promoted(r: Repo, pos: u32, name: Seq<char>) -> Repo {
    Repo {
        stashes: r.stashes.remove(pos as int),
        on_created_branch: false,
        created_branch: Some(name),
        commit_on_created: true,
        tracked_dirty: false,
        untracked_present: false,
        staged: false,
    }
}

/// Removing the stash at position `p` leaves every earlier stash where it
/// was and shifts every later one down by one: the entry afterwards at `p`
/// is the one that was at `p + 1`.
pub proof fn lemma_drop_shifts_down(r: Repo, p: int)
    requires
        0 <= p < r.stashes.len(),
    ensures
        apply_one(r, RCmd::DropStash(p)).stashes.len() == r.stashes.len() - 1,
        forall|k: int| 0 <= k < p ==>
            apply_one(r, RCmd::DropStash(p)).stashes[k] == r.stashes[k],
        forall|k: int| p <= k < r.stashes.len() - 1 ==>
            apply_one(r, RCmd::DropStash(p)).stashes[k] == r.stashes[k + 1],
{
}

/// A declined drop changes nothing: when the stash does not look applied
/// and the operator does not confirm, no command is issued, and the stash
/// stack — indeed the whole repository — is left as it was.
pub proof fn lemma_declined_drop_changes_nothing(r: Repo, cs: Seq<RCmd>)
    requires
        cs == Seq::<RCmd>::empty(),
    ensures
        apply_cmds(r, cs) == r,
{
}

/// Applying a concatenation is applying the parts in turn.
pub proof fn lemma_apply_append(r: Repo, a: Seq<RCmd>, b: Seq<RCmd>)
    ensures
        apply_cmds(r, a + b) == apply_cmds(apply_cmds(r, a), b),
    decreases a.len(),
{
    if a.len() == 0 {
        assert(a + b =~= b);
    } else {
        assert((a + b)[0] == a[0]);
        assert((a + b).drop_first() =~= a.drop_first() + b);
        lemma_apply_append(apply_one(r, a[0]), a.drop_first(), b);
    }
}

proof fn lemma_apply1(r: Repo, a: RCmd)
    ensures
        apply_cmds(r, seq![a]) == apply_one(r, a),
{
    reveal_with_fuel(apply_cmds, 2);
    assert(seq![a].drop_first() =~= Seq::<RCmd>::empty());
}

proof fn lemma_apply2(r: Repo, a: RCmd, b: RCmd)
    ensures
        apply_cmds(r, seq![a, b]) == apply_one(apply_one(r, a), b),
{
    assert(seq![a, b].drop_first() =~= seq![b]);
    lemma_apply1(apply_one(r, a), b);
}

proof fn lemma_apply4(r: Repo, a: RCmd, b: RCmd, c: RCmd, d: RCmd)
    ensures
        apply_cmds(r, seq![a, b, c, d])
            == apply_one(apply_one(apply_one(apply_one(r, a), b), c), d),
{
    reveal_with_fuel(apply_cmds, 3);
    assert(seq![a, b, c, d].drop_first() =~= seq![b, c, d]);
    assert(seq![b, c, d].drop_first() =~= seq![c, d]);
    lemma_apply2(apply_one(apply_one(r, a), b), c, d);
}

proof fn lemma_apply5(r: Repo, a: RCmd, b: RCmd, c: RCmd, d: RCmd, e: RCmd)
    ensures
        apply_cmds(r, seq![a, b, c, d, e])
            == apply_one(apply_one(apply_one(apply_one(apply_one(r, a), b), c), d), e),
{
    assert(seq![a, b, c, d, e].drop_first() =~= seq![b, c, d, e]);
    lemma_apply4(apply_one(r, a), b, c, d, e);
}

/// The rollback plan after `completed` forward steps, written out.
proof fn lemma_rollback_plan_concrete(completed: int)
    requires
        0 <= completed <= 4,
    ensures
        completed == 0 ==> rollback_plan(completed) == Seq::<RCmd>::empty(),
        completed == 1 ==> rollback_plan(completed)
            == seq![RCmd::SwitchBack, RCmd::DeletePlaceholder],
        completed == 2 ==> rollback_plan(completed) == seq![
            RCmd::DiscardTracked, RCmd::RemoveUntracked,
            RCmd::SwitchBack, RCmd::DeletePlaceholder,
        ],
        completed >= 3 ==> rollback_plan(completed) == seq![
            RCmd::Unstage,
            RCmd::DiscardTracked, RCmd::RemoveUntracked,
            RCmd::SwitchBack, RCmd::DeletePlaceholder,
        ],
{
    reveal_with_fuel(rollback_plan, 6);
    if completed == 1 {
        assert(rollback_plan(1) =~= seq![RCmd::SwitchBack, RCmd::DeletePlaceholder]);
    } else if completed == 2 {
        assert(rollback_plan(2) =~= seq![
            RCmd::DiscardTracked, RCmd::RemoveUntracked,
            RCmd::SwitchBack, RCmd::DeletePlaceholder,
        ]);
    } else if completed == 3 {
        assert(rollback_plan(3) =~= seq![
            RCmd::Unstage,
            RCmd::DiscardTracked, RCmd::RemoveUntracked,
            RCmd::SwitchBack, RCmd::DeletePlaceholder,
        ]);
    } else if completed == 4 {
        assert(comps_of(3) =~= Seq::<RCmd>::empty());
        assert(rollback_plan(4) =~= rollback_plan(3));
        assert(rollback_plan(3) =~= seq![
            RCmd::Unstage,
            RCmd::DiscardTracked, RCmd::RemoveUntracked,
            RCmd::SwitchBack, RCmd::DeletePlaceholder,
        ]);
    }
}

/// A failed promotion restores the repository exactly: after any number of
/// completed forward steps, running the rollback plan brings the model back
/// to the state before the promotion, byte for byte. `completed == 4`
/// covers the promotion aborted after its commit for want of a usable
/// commit subject.
pub proof fn lemma_rollback_restores(r: Repo, pos: u32, completed: int)
    requires
        r.ready(),
        0 <= completed <= 4,
    ensures
        apply_cmds(r, forward_plan(pos).take(completed) + rollback_plan(completed)) == r,
{
    let fwd = forward_plan(pos).take(completed);
    lemma_apply_append(r, fwd, rollback_plan(completed));
    lemma_rollback_plan_concrete(completed);
    if completed == 0 {
        assert(fwd =~= Seq::<RCmd>::empty());
        assert(apply_cmds(r, fwd) == r);
    } else if completed == 1 {
        assert(fwd =~= seq![RCmd::CreatePlaceholder]);
        lemma_apply1(r, RCmd::CreatePlaceholder);
        let mid = apply_cmds(r, fwd);
        lemma_apply2(mid, RCmd::SwitchBack, RCmd::DeletePlaceholder);
        assert(apply_cmds(mid, rollback_plan(completed)) =~= r);
    } else if completed == 2 {
        assert(fwd =~= seq![RCmd::CreatePlaceholder, RCmd::ApplyStash(pos as int)]);
        lemma_apply2(r, RCmd::CreatePlaceholder, RCmd::ApplyStash(pos as int));
        let mid = apply_cmds(r, fwd);
        lemma_apply4(
            mid,
            RCmd::DiscardTracked, RCmd::RemoveUntracked,
            RCmd::SwitchBack, RCmd::DeletePlaceholder,
        );
        assert(apply_cmds(mid, rollback_plan(completed)) =~= r);
    } else if completed == 3 {
        assert(fwd =~= seq![
            RCmd::CreatePlaceholder, RCmd::ApplyStash(pos as int), RCmd::StageAll,
        ]);
        assert(seq![RCmd::CreatePlaceholder, RCmd::ApplyStash(pos as int), RCmd::StageAll]
            .drop_first() =~= seq![RCmd::ApplyStash(pos as int), RCmd::StageAll]);
        lemma_apply2(
            apply_one(r, RCmd::CreatePlaceholder),
            RCmd::ApplyStash(pos as int),
            RCmd::StageAll,
        );
        let mid = apply_cmds(r, fwd);
        lemma_apply5(
            mid,
            RCmd::Unstage,
            RCmd::DiscardTracked, RCmd::RemoveUntracked,
            RCmd::SwitchBack, RCmd::DeletePlaceholder,
        );
        assert(apply_cmds(mid, rollback_plan(completed)) =~= r);
    } else {
        assert(fwd =~= seq![
            RCmd::CreatePlaceholder, RCmd::ApplyStash(pos as int), RCmd::StageAll,
            RCmd::Commit,
        ]);
        lemma_apply4(
            r,
            RCmd::CreatePlaceholder, RCmd::ApplyStash(pos as int), RCmd::StageAll,
            RCmd::Commit,
        );
        let mid = apply_cmds(r, fwd);
        lemma_apply5(
            mid,
            RCmd::Unstage,
            RCmd::DiscardTracked, RCmd::RemoveUntracked,
            RCmd::SwitchBack, RCmd::DeletePlaceholder,
        );
        assert(apply_cmds(mid, rollback_plan(completed)) =~= r);
    }
}

/// A successful promotion leaves the original branch checked out, the
/// stash removed from the stack, and exactly one new branch carrying the
/// commit, named `name` — which the promoter derives deterministically
/// from the commit subject.
pub proof fn lemma_promotion_success(r: Repo, pos: u32, name: Seq<char>)
    requires
        r.ready(),
        0 <= pos < r.stashes.len(),
    ensures
        apply_cmds(r, forward_plan(pos) + finish_plan(pos, name)) == promoted(r, pos, name),
{
    lemma_apply_append(r, forward_plan(pos), finish_plan(pos, name));
    lemma_apply4(
        r,
        RCmd::CreatePlaceholder, RCmd::ApplyStash(pos as int), RCmd::StageAll,
        RCmd::Commit,
    );
    let mid = apply_cmds(r, forward_plan(pos));
    assert(seq![RCmd::RenameBranch(name), RCmd::SwitchBack, RCmd::DropStash(pos as int)]
        .drop_first() =~= seq![RCmd::SwitchBack, RCmd::DropStash(pos as int)]);
    lemma_apply2(
        apply_one(mid, RCmd::RenameBranch(name)),
        RCmd::SwitchBack,
        RCmd::DropStash(pos as int),
    );
    assert(apply_cmds(mid, finish_plan(pos, name)) =~= promoted(r, pos, name));
}

} // verus!

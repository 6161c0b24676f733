//! System-wide laws of the scheduler and the registry, stated over the
//! spec-level transitions that the executable functions' contracts are
//! written in, and proved once and for all.

use vstd::prelude::*;

use crate::registry::cancel_result;
use crate::registry::CancelError;
use crate::scheduler::elapsed_since;
use crate::scheduler::local_poll_fires;
use crate::scheduler::polling_active;
use crate::scheduler::remote_poll_fires;
use crate::scheduler::spec_set_active_worktree;
use crate::scheduler::spec_set_focused;
use crate::scheduler::spec_tick;
use crate::scheduler::spec_trigger_immediate_poll;
use crate::scheduler::TaskState;
use crate::scheduler::WorktreeModel;
use crate::scheduler::MIN_LOCAL_POLL_DEBOUNCE;
use crate::scheduler::MIN_REMOTE_POLL_INTERVAL;

verus! {

/// A UI-originated mutation of the scheduler's shared state: a focus
/// change observed at some unix time, or a target change.
pub enum UiOp {
    SetFocused(bool, u64),
    SetActiveWorktree(Option<WorktreeModel>),
}

/// The state after one UI-originated call.
pub open spec fn apply_ui_op(t: TaskState, op: UiOp) -> TaskState {
    match op {
        UiOp::SetFocused(focused, now) => spec_set_focused(t, focused, now),
        UiOp::SetActiveWorktree(target) => spec_set_active_worktree(t, target),
    }
}

/// The state after a sequence of UI-originated calls, applied in order.
pub open spec fn apply_ui_ops(t: TaskState, ops: Seq<UiOp>) -> TaskState
    decreases ops.len(),
{
    if ops.len() == 0 {
        t
    } else {
        apply_ui_op(apply_ui_ops(t, ops.drop_last()), ops.last())
    }
}

/// The last target installed by `ops`, or the initial one when no op
/// installs any.
pub open spec fn last_set_target(init: Option<WorktreeModel>, ops: Seq<UiOp>) -> Option<
    WorktreeModel,
> decreases ops.len(),
{
    if ops.len() == 0 {
        init
    } else {
        match ops.last() {
            UiOp::SetActiveWorktree(target) => target,
            UiOp::SetFocused(_, _) => last_set_target(init, ops.drop_last()),
        }
    }
}

/// Law: however focus changes and target changes interleave, the
/// scheduler holds at most one active worktree at any instant — always
/// exactly the last target installed, or the initial one.
pub proof fn lemma_single_active_target(t: TaskState, ops: Seq<UiOp>)
    ensures
        apply_ui_ops(t, ops).active_worktree == last_set_target(t.active_worktree, ops),
    decreases ops.len(),
{
    if ops.len() != 0 {
        lemma_single_active_target(t, ops.drop_last());
    }
}

/// Law (debounce): with a recorded local-poll timestamp `t0` for the
/// active worktree, no local check fires again before `t0` plus the
/// debounce unless the immediate flag was set in between.
pub proof fn lemma_local_debounce(t: TaskState, now: u64, t0: u64)
    requires
        t.active_worktree matches Option::Some(w) && t.last_local_poll_times.contains_key(
            w.worktree_id,
        ) && t.last_local_poll_times[w.worktree_id] == t0,
        !t.immediate_poll,
        now < t0 + MIN_LOCAL_POLL_DEBOUNCE,
    ensures
        !local_poll_fires(t, now),
{
}

/// Law: setting the immediate-poll flag twice leaves the very state
/// that setting it once leaves, so a burst of trigger calls collapses
/// to one flag set.
pub proof fn lemma_trigger_immediate_poll_idempotent(t: TaskState)
    ensures
        spec_trigger_immediate_poll(spec_trigger_immediate_poll(t)) == spec_trigger_immediate_poll(
            t,
        ),
{
}

/// Law (single-shot): the wake that consumes a pending immediate flag
/// polls once and clears the flag; the following wake does not poll
/// again before the debounce has passed since that poll. Together with
/// the idempotence of the trigger, N rapid trigger calls yield exactly
/// one extra poll.
pub proof fn lemma_immediate_flag_single_shot(t: TaskState, now: u64, later: u64)
    requires
        polling_active(t),
        t.immediate_poll,
        later < now + MIN_LOCAL_POLL_DEBOUNCE,
    ensures
        local_poll_fires(t, now),
        !spec_tick(t, now).immediate_poll,
        !local_poll_fires(spec_tick(t, now), later),
{
    let t1 = spec_tick(t, now);
    let w = t.active_worktree->Some_0;
    assert(t1.last_local_poll_times == t.last_local_poll_times.insert(w.worktree_id, now));
    assert(elapsed_since(later, now) < MIN_LOCAL_POLL_DEBOUNCE);
}

/// Law: once a wake runs the local check at `now`, no later wake
/// before `now` plus the debounce runs it again, unless a trigger
/// intervenes — whatever local interval is configured.
pub proof fn lemma_no_local_repoll_within_debounce(t: TaskState, now: u64, later: u64)
    requires
        local_poll_fires(t, now),
        later < now + MIN_LOCAL_POLL_DEBOUNCE,
    ensures
        !local_poll_fires(spec_tick(t, now), later),
{
    let t1 = spec_tick(t, now);
    let w = t.active_worktree->Some_0;
    assert(t1.last_local_poll_times == t.last_local_poll_times.insert(w.worktree_id, now));
    assert(elapsed_since(later, now) < MIN_LOCAL_POLL_DEBOUNCE);
}

/// Law: once a wake runs the remote check at `now`, no later wake
/// before `now` plus the configured remote interval runs it again,
/// unless a trigger intervenes.
pub proof fn lemma_no_remote_repoll_within_interval(t: TaskState, now: u64, later: u64)
    requires
        remote_poll_fires(t, now),
        later < now + t.remote_poll_interval_secs,
        t.remote_poll_interval_secs >= MIN_REMOTE_POLL_INTERVAL,
    ensures
        !remote_poll_fires(spec_tick(t, now), later),
{
    let t1 = spec_tick(t, now);
    let w = t.active_worktree->Some_0;
    assert(t1.last_remote_poll_times == t.last_remote_poll_times.insert(w.worktree_id, now));
    assert(elapsed_since(later, now) < t.remote_poll_interval_secs);
}

/// Law: remote checks never fire for a worktree lacking PR linkage —
/// a PR number and a PR URL — whatever the elapsed time and whatever
/// flags are set.
pub proof fn lemma_no_remote_without_pr(t: TaskState, now: u64)
    requires
        t.active_worktree matches Option::Some(w) && (w.pr_number is None || w.pr_url is None),
    ensures
        !remote_poll_fires(t, now),
{
}

/// Law (idempotence of cancellation): cancelling a tracked session
/// with an ordinary pid reports true and removes the entry, so
/// cancelling it again right away reports false.
pub proof fn lemma_cancel_idempotent(m: Map<Seq<char>, u32>, session_id: Seq<char>)
    requires
        m.contains_key(session_id),
        m[session_id] >= 2,
    ensures
        cancel_result(m, session_id) == Result::<bool, CancelError>::Ok(true),
        cancel_result(m.remove(session_id), session_id) == Result::<bool, CancelError>::Ok(false),
{
}

} // verus!

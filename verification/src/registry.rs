//! Registry of running external processes, keyed by session id.
//!
//! Cancellation does not signal processes itself: it removes the
//! registry entry and returns an ordered plan of OS and UI effects
//! (kill the process tree, kill the process directly, durably mark the
//! run cancelled, emit a cancellation event) for the embedding program
//! to carry out in exactly that order. The plan places the durable
//! run-state update strictly before the event, so a client that
//! refetches state upon the event never sees the session as running.

use vstd::prelude::*;

use crate::string_map::StringMap;

verus! {

/// Payload of the cancellation event shown to UIs.
pub struct CancelledEvent {
    pub session_id: String,
    pub worktree_id: String,
    /// Whether the UI should discard partial output. A cancelled
    /// process was genuinely running and may have produced content
    /// worth keeping, so this is always false here.
    pub undo_send: bool,
}

/// One step of a cancellation plan, to be carried out in plan order.
pub enum CancelAction {
    /// Terminate the whole process tree rooted in the pid.
    KillTree(u32),
    /// Terminate exactly the pid, as a fallback in case the tree kill
    /// only reached children.
    KillDirect(u32),
    /// Durably record the session's run as cancelled.
    MarkRunCancelled(String),
    /// Notify listeners that the session was cancelled.
    EmitCancelled(CancelledEvent),
}

/// Why a cancellation was refused.
#[derive(Debug, PartialEq, Eq)]
pub enum CancelError {
    /// The tracked pid was 0 or 1; signalling either could reach the
    /// host's own process group or the system init process.
    InvalidPid(u32),
}

/// Mathematical model of [`CancelledEvent`].
pub struct CancelledEventModel {
    pub session_id: Seq<char>,
    pub worktree_id: Seq<char>,
    pub undo_send: bool,
}

impl View for CancelledEvent {
    type V = CancelledEventModel;

    open spec fn view(&self) -> CancelledEventModel {
        CancelledEventModel {
            session_id: self.session_id@,
            worktree_id: self.worktree_id@,
            undo_send: self.undo_send,
        }
    }
}

/// Mathematical model of [`CancelAction`].
pub enum CancelActionModel {
    KillTree(u32),
    KillDirect(u32),
    MarkRunCancelled(Seq<char>),
    EmitCancelled(CancelledEventModel),
}

impl View for CancelAction {
    type V = CancelActionModel;

    open spec fn view(&self) -> CancelActionModel {
        match self {
            CancelAction::KillTree(pid) => CancelActionModel::KillTree(*pid),
            CancelAction::KillDirect(pid) => CancelActionModel::KillDirect(*pid),
            CancelAction::MarkRunCancelled(session_id) => CancelActionModel::MarkRunCancelled(
                session_id@,
            ),
            CancelAction::EmitCancelled(event) => CancelActionModel::EmitCancelled(event@),
        }
    }
}

/// The models of a plan's actions, in plan order.
pub open spec fn actions_view(actions: Seq<CancelAction>) -> Seq<CancelActionModel> {
    actions.map_values(|a: CancelAction| a@)
}

/// The views of a session-id list, in list order.
pub open spec fn ids_view(ids: Seq<String>) -> Seq<Seq<char>> {
    ids.map_values(|s: String| s@)
}

/// The effect plan that cancelling one session owes: for a tracked
/// session with an ordinary pid, exactly the tree kill, the direct
/// kill, the durable run-state update and the cancellation event, in
/// that order; for an untracked session or a dangerous pid, nothing.
pub open spec fn cancel_plan(
    m: Map<Seq<char>, u32>,
    session_id: Seq<char>,
    worktree_id: Seq<char>,
) -> Seq<CancelActionModel> {
    if m.contains_key(session_id) && m[session_id] >= 2 {
        seq![
            CancelActionModel::KillTree(m[session_id]),
            CancelActionModel::KillDirect(m[session_id]),
            CancelActionModel::MarkRunCancelled(session_id),
            CancelActionModel::EmitCancelled(
                CancelledEventModel { session_id, worktree_id, undo_send: false },
            ),
        ]
    } else {
        Seq::empty()
    }
}

/// The effect plan that a whole sweep owes: each listed session's
/// [`cancel_plan`] against the registry as it stands at that session's
/// turn, concatenated in list order. A session listed twice is tracked
/// only at its first turn; an empty list owes an empty plan.
pub open spec fn sweep_plan(
    m: Map<Seq<char>, u32>,
    session_ids: Seq<Seq<char>>,
    worktree_id: Seq<char>,
) -> Seq<CancelActionModel>
    decreases session_ids.len(),
{
    if session_ids.len() == 0 {
        Seq::empty()
    } else {
        cancel_plan(m, session_ids[0], worktree_id) + sweep_plan(
            m.remove(session_ids[0]),
            session_ids.drop_first(),
            worktree_id,
        )
    }
}

/// The plan of a concatenation is the concatenation of the plans.
proof fn lemma_actions_view_concat(a: Seq<CancelAction>, b: Seq<CancelAction>)
    ensures
        actions_view(a + b) == actions_view(a) + actions_view(b),
{
    assert(actions_view(a + b) =~= actions_view(a) + actions_view(b));
}

/// What `cancel_process` returns for a given registry content and
/// session: `Ok(false)` when nothing was tracked, an error for a
/// dangerous pid, `Ok(true)` otherwise.
pub open spec fn cancel_result(m: Map<Seq<char>, u32>, session_id: Seq<char>) -> Result<
    bool,
    CancelError,
> {
    if !m.contains_key(session_id) {
        Result::Ok(false)
    } else if m[session_id] == 0 || m[session_id] == 1 {
        Result::Err(CancelError::InvalidPid(m[session_id]))
    } else {
        Result::Ok(true)
    }
}

/// Every cancellation event in `actions` comes strictly after a
/// durable run-state update.
pub open spec fn mark_precedes_emit(actions: Seq<CancelAction>) -> bool {
    forall|j: int|
        0 <= j < actions.len() && #[trigger] actions[j] is EmitCancelled ==> exists|i: int|
            0 <= i < j && #[trigger] actions[i] is MarkRunCancelled
}

/// `actions` signals no process at all.
pub open spec fn no_kill_action(actions: Seq<CancelAction>) -> bool {
    forall|i: int|
        0 <= i < actions.len() ==> !(#[trigger] actions[i] is KillTree) && !(actions[i] is
        KillDirect)
}

/// An order-preserving concatenation keeps every event after a mark.
proof fn lemma_mark_precedes_emit_concat(a: Seq<CancelAction>, b: Seq<CancelAction>)
    requires
        mark_precedes_emit(a),
        mark_precedes_emit(b),
    ensures
        mark_precedes_emit(a + b),
{
    let c = a + b;
    assert forall|j: int| 0 <= j < c.len() && #[trigger] c[j] is EmitCancelled implies exists|
        i: int,
    | 0 <= i < j && #[trigger] c[i] is MarkRunCancelled by {
        if j < a.len() {
            assert(a[j] is EmitCancelled);
            let i = choose|i: int| 0 <= i < j && #[trigger] a[i] is MarkRunCancelled;
            assert(c[i] is MarkRunCancelled);
        } else {
            let jb = j - a.len();
            assert(b[jb] is EmitCancelled);
            let ib = choose|i: int| 0 <= i < jb && #[trigger] b[i] is MarkRunCancelled;
            assert(c[ib + a.len()] is MarkRunCancelled);
        }
    }
}

/// Maps each running session to the OS pid of its external process.
pub struct ProcessRegistry {
    processes: StringMap<u32>,
}

impl View for ProcessRegistry {
    type V = Map<Seq<char>, u32>;

    closed spec fn view(&self) -> Map<Seq<char>, u32> {
        self.processes@
    }
}

impl ProcessRegistry {
    /// Internal invariant of the backing map.
    pub closed spec fn wf(&self) -> bool {
        self.processes.wf()
    }

    /// An empty registry: no session is running.
    pub fn new() -> (r: Self)
        ensures
            r.wf(),
            r@ == Map::<Seq<char>, u32>::empty(),
    {
        ProcessRegistry { processes: StringMap::new() }
    }

    /// Track a running process for a session. Last writer wins: an
    /// existing entry for the session is overwritten.
    pub fn register_process(&mut self, session_id: String, pid: u32)
        requires
            old(self).wf(),
        ensures
            final(self).wf(),
            final(self)@ == old(self)@.insert(session_id@, pid),
    {
        self.processes.insert(session_id, pid);
    }

    /// Stop tracking a session, e.g. after its process exited on its
    /// own; a no-op when the session is not tracked.
    pub fn unregister_process(&mut self, session_id: &str)
        requires
            old(self).wf(),
        ensures
            final(self).wf(),
            old(self)@.contains_key(session_id@) ==> final(self)@ == old(self)@.remove(
                session_id@,
            ),
            !old(self)@.contains_key(session_id@) ==> final(self)@ == old(self)@,
            !final(self)@.contains_key(session_id@),
    {
        let ghost pre = *old(self);
        let _ = self.processes.remove(session_id);
        proof {
            if pre@.contains_key(session_id@) {
                assert(!final(self)@.contains_key(session_id@));
            }
        }
    }

    /// Whether a session currently has a tracked running process.
    pub fn is_process_running(&self, session_id: &str) -> (r: bool)
        requires
            self.wf(),
        ensures
            r == self@.contains_key(session_id@),
    {
        self.processes.contains_key(session_id)
    }

    /// All session ids with a tracked running process: each returned
    /// id is tracked, every tracked id is returned, none twice.
    pub fn get_running_sessions(&self) -> (r: Vec<String>)
        requires
            self.wf(),
        ensures
            forall|i: int| 0 <= i < r@.len() ==> self@.contains_key(#[trigger] r@[i]@),
            forall|k: Seq<char>| self@.contains_key(k) ==> exists|i: int|
                0 <= i < r@.len() && #[trigger] r@[i]@ == k,
            forall|i: int, j: int| 0 <= i < j < r@.len() ==> r@[i]@ != r@[j]@,
    {
        self.processes.keys()
    }

    /// Cancel the session's process, if one is tracked.
    ///
    /// The entry is removed first in every case, so a concurrent
    /// liveness query never observes a cancelled session as running.
    /// Pids 0 and 1 are refused outright and no effect is planned for
    /// them. Otherwise the returned plan kills the process tree, kills
    /// the pid directly as a fallback, durably marks the run cancelled
    /// and only then emits the cancellation event. Cancelling a
    /// session with no tracked process is a benign no-op: `Ok(false)`.
    pub fn cancel_process(&mut self, session_id: &str, worktree_id: &str) -> (r: (
        Result<bool, CancelError>,
        Vec<CancelAction>,
    ))
        requires
            old(self).wf(),
        ensures
            final(self).wf(),
            r.0 == cancel_result(old(self)@, session_id@),
            !final(self)@.contains_key(session_id@),
            old(self)@.contains_key(session_id@) ==> final(self)@ == old(self)@.remove(
                session_id@,
            ),
            !old(self)@.contains_key(session_id@) ==> final(self)@ == old(self)@,
            actions_view(r.1@) == cancel_plan(old(self)@, session_id@, worktree_id@),
            mark_precedes_emit(r.1@),
            r.0 is Err ==> no_kill_action(r.1@),
    {
        let removed = self.processes.remove(session_id);
        let mut actions: Vec<CancelAction> = Vec::new();
        match removed {
            Option::None => {
                proof {
                    assert(actions_view(actions@) =~= cancel_plan(
                        old(self)@,
                        session_id@,
                        worktree_id@,
                    ));
                }
                (Result::Ok(false), actions)
            },
            Option::Some(pid) => {
                if pid == 0 || pid == 1 {
                    proof {
                        assert(actions_view(actions@) =~= cancel_plan(
                            old(self)@,
                            session_id@,
                            worktree_id@,
                        ));
                    }
                    (Result::Err(CancelError::InvalidPid(pid)), actions)
                } else {
                    actions.push(CancelAction::KillTree(pid));
                    actions.push(CancelAction::KillDirect(pid));
                    actions.push(CancelAction::MarkRunCancelled(session_id.to_owned()));
                    let event = CancelledEvent {
                        session_id: session_id.to_owned(),
                        worktree_id: worktree_id.to_owned(),
                        undo_send: false,
                    };
                    actions.push(CancelAction::EmitCancelled(event));
                    proof {
                        assert forall|j: int|
                            0 <= j < actions@.len() && #[trigger] actions@[j] is EmitCancelled
                             implies exists|i: int|
                            0 <= i < j && #[trigger] actions@[i] is MarkRunCancelled by {
                            assert(actions@[2] is MarkRunCancelled);
                        }
                        assert(actions_view(actions@) =~= cancel_plan(
                            old(self)@,
                            session_id@,
                            worktree_id@,
                        ));
                    }
                    (Result::Ok(true), actions)
                }
            },
        }
    }

    /// Cancel every listed session of a worktree, accumulating the
    /// per-session plans in order: the returned plan is exactly the
    /// concatenation, in list order, of each listed session's
    /// [`cancel_plan`] against the registry as it stands at that
    /// session's turn — four steps for a tracked session with an
    /// ordinary pid, nothing for one already finished or refused. A
    /// per-session refusal does not stop the sweep. Each listed
    /// session ends untracked; unlisted sessions are untouched; an
    /// empty list leaves the registry alone and plans nothing. The
    /// embedding program loads the worktree's session list from its
    /// session store; a worktree with no sessions simply passes an
    /// empty list.
    pub fn cancel_processes_for_worktree(&mut self, worktree_id: &str, session_ids: &Vec<
        String,
    >) -> (r: Vec<CancelAction>)
        requires
            old(self).wf(),
        ensures
            final(self).wf(),
            forall|j: int| 0 <= j < session_ids@.len() ==> !final(self)@.contains_key(
                #[trigger] session_ids@[j]@,
            ),
            forall|k: Seq<char>| #[trigger] final(self)@.contains_key(k) ==> old(
                self,
            )@.contains_key(k) && final(self)@[k] == old(self)@[k],
            forall|k: Seq<char>|
                old(self)@.contains_key(k) && (forall|j: int|
                    0 <= j < session_ids@.len() ==> #[trigger] session_ids@[j]@ != k)
                    ==> #[trigger] final(self)@.contains_key(k),
            actions_view(r@) == sweep_plan(old(self)@, ids_view(session_ids@), worktree_id@),
            mark_precedes_emit(r@),
    {
        let ghost whole = sweep_plan(old(self)@, ids_view(session_ids@), worktree_id@);
        let n = session_ids.len();
        let mut actions: Vec<CancelAction> = Vec::new();
        let mut i: usize = 0;
        proof {
            assert(actions_view(actions@) =~= Seq::<CancelActionModel>::empty());
            assert(ids_view(session_ids@).skip(0) =~= ids_view(session_ids@));
            assert(actions_view(actions@) + sweep_plan(
                self@,
                ids_view(session_ids@).skip(0),
                worktree_id@,
            ) =~= whole);
        }
        while i < n
            invariant
                n == session_ids@.len(),
                0 <= i <= n,
                self.wf(),
                forall|j: int| 0 <= j < i ==> !self@.contains_key(
                    #[trigger] session_ids@[j]@,
                ),
                forall|k: Seq<char>| #[trigger] self@.contains_key(k) ==> old(
                    self,
                )@.contains_key(k) && self@[k] == old(self)@[k],
                forall|k: Seq<char>|
                    old(self)@.contains_key(k) && (forall|j: int|
                        0 <= j < i ==> #[trigger] session_ids@[j]@ != k)
                        ==> #[trigger] self@.contains_key(k),
                whole == sweep_plan(old(self)@, ids_view(session_ids@), worktree_id@),
                actions_view(actions@) + sweep_plan(
                    self@,
                    ids_view(session_ids@).skip(i as int),
                    worktree_id@,
                ) == whole,
                mark_precedes_emit(actions@),
            decreases n - i,
        {
            let ghost before = *self;
            let ghost actions_before = actions@;
            let (_, mut block) = self.cancel_process(session_ids[i].as_str(), worktree_id);
            proof {
                lemma_mark_precedes_emit_concat(actions_before, block@);
                let ids = ids_view(session_ids@);
                let sid = session_ids@[i as int]@;
                let todo = ids.skip(i as int);
                assert(ids[i as int] == sid);
                assert(todo[0] == sid);
                assert(todo.len() == n - i);
                assert(todo.drop_first() =~= ids.skip(i + 1));
                // One unfolding of the sweep at this session's turn.
                assert(sweep_plan(before@, todo, worktree_id@) == cancel_plan(
                    before@,
                    sid,
                    worktree_id@,
                ) + sweep_plan(before@.remove(sid), ids.skip(i + 1), worktree_id@));
                // The registry after the call is the sweep's recursion
                // argument, whether or not the session was tracked.
                if before@.contains_key(sid) {
                    assert(self@ == before@.remove(sid));
                } else {
                    assert(before@.remove(sid) =~= before@);
                    assert(self@ == before@.remove(sid));
                }
                lemma_actions_view_concat(actions_before, block@);
                assert((actions_view(actions_before) + actions_view(block@)) + sweep_plan(
                    self@,
                    ids.skip(i + 1),
                    worktree_id@,
                ) =~= actions_view(actions_before) + sweep_plan(before@, todo, worktree_id@));
            }
            actions.append(&mut block);
            i = i + 1;
        }
        proof {
            let ids = ids_view(session_ids@);
            assert(ids.skip(n as int) =~= Seq::<Seq<char>>::empty());
            assert(sweep_plan(self@, ids.skip(n as int), worktree_id@) == Seq::<
                CancelActionModel,
            >::empty());
            assert(actions_view(actions@) + Seq::<CancelActionModel>::empty() =~= actions_view(
                actions@,
            ));
        }
        actions
    }
}

} // verus!

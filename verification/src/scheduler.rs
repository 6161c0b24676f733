//! The dual-rate polling scheduler.
//!
//! One background worker wakes once per second and asks this state
//! machine what to do. Local git checks run against the active
//! worktree under a fixed short debounce; remote pull-request checks
//! run on their own configurable interval and only when the worktree
//! carries PR linkage. Single-shot "immediate" flags force the next
//! wake to poll regardless of the timers.
//!
//! The scheduler never reads the clock and never performs a check
//! itself: callers pass the current unix time in, and `poll_tick`
//! answers with the checks to run now, having already recorded their
//! timestamps so that a slow check cannot cause re-entrant re-polling.

use vstd::prelude::*;

use crate::clamp_u64;
use crate::clamped;
use crate::string_map::StringMap;

verus! {

/// Minimum local polling interval in seconds.
pub const MIN_POLL_INTERVAL: u64 = 10;

/// Maximum local polling interval in seconds.
pub const MAX_POLL_INTERVAL: u64 = 600;

/// Default local polling interval in seconds.
pub const DEFAULT_POLL_INTERVAL: u64 = 60;

/// Minimum seconds between local polls of one worktree (debounce for
/// focus changes); fixed, unlike the configurable intervals.
pub const MIN_LOCAL_POLL_DEBOUNCE: u64 = 10;

/// Minimum remote polling interval in seconds.
pub const MIN_REMOTE_POLL_INTERVAL: u64 = 30;

/// Maximum remote polling interval in seconds.
pub const MAX_REMOTE_POLL_INTERVAL: u64 = 600;

/// Default remote polling interval in seconds.
pub const DEFAULT_REMOTE_POLL_INTERVAL: u64 = 60;

/// The worktree currently eligible for polling.
pub struct ActiveWorktreeInfo {
    pub worktree_id: String,
    pub worktree_path: String,
    pub pr_number: Option<u64>,
    pub pr_url: Option<String>,
}

/// Mathematical model of [`ActiveWorktreeInfo`].
pub struct WorktreeModel {
    pub worktree_id: Seq<char>,
    pub worktree_path: Seq<char>,
    pub pr_number: Option<u64>,
    pub pr_url: Option<Seq<char>>,
}

impl View for ActiveWorktreeInfo {
    type V = WorktreeModel;

    open spec fn view(&self) -> WorktreeModel {
        WorktreeModel {
            worktree_id: self.worktree_id@,
            worktree_path: self.worktree_path@,
            pr_number: self.pr_number,
            pr_url: match self.pr_url {
                Option::Some(u) => Option::Some(u@),
                Option::None => Option::None,
            },
        }
    }
}

impl Clone for ActiveWorktreeInfo {
    fn clone(&self) -> (r: Self)
        ensures
            r@ == self@,
    {
        ActiveWorktreeInfo {
            worktree_id: self.worktree_id.clone(),
            worktree_path: self.worktree_path.clone(),
            pr_number: self.pr_number,
            pr_url: match &self.pr_url {
                Option::Some(u) => Option::Some(u.clone()),
                Option::None => Option::None,
            },
        }
    }
}

/// Everything a remote pull-request status check needs.
pub struct RemotePollRequest {
    pub worktree_id: String,
    pub worktree_path: String,
    pub pr_number: u64,
    pub pr_url: String,
}

/// The checks one wake of the worker should perform now.
pub struct PollPlan {
    /// Run a local git status check against this worktree.
    pub local: Option<ActiveWorktreeInfo>,
    /// Run a remote pull-request status check.
    pub remote: Option<RemotePollRequest>,
}

/// What the worker should do on this wake.
pub enum TickDecision {
    /// The scheduler was stopped; the worker terminates for good.
    Shutdown,
    /// Unfocused or no active worktree: sleep a second and ask again.
    Idle,
    /// Focused with an active worktree: perform the planned checks.
    Run(PollPlan),
}

/// Mathematical model of [`BackgroundTaskManager`].
#[verifier::ext_equal]
pub struct TaskState {
    pub is_focused: bool,
    pub active_worktree: Option<WorktreeModel>,
    pub poll_interval_secs: u64,
    pub remote_poll_interval_secs: u64,
    pub shutdown: bool,
    pub immediate_poll: bool,
    pub immediate_remote_poll: bool,
    pub last_local_poll_times: Map<Seq<char>, u64>,
    pub last_remote_poll_times: Map<Seq<char>, u64>,
}

/// The recorded last-poll time of a worktree; a worktree never seen is
/// treated as last polled at time 0, so a first sight is always due.
pub open spec fn last_time_of(times: Map<Seq<char>, u64>, worktree_id: Seq<char>) -> u64 {
    if times.contains_key(worktree_id) {
        times[worktree_id]
    } else {
        0
    }
}

/// Seconds from `last` to `now`, saturating at zero.
pub open spec fn elapsed_since(now: u64, last: u64) -> u64 {
    if now >= last {
        (now - last) as u64
    } else {
        0
    }
}

/// Whether the worktree carries the PR linkage a remote check needs.
pub open spec fn has_pr(w: WorktreeModel) -> bool {
    w.pr_number is Some && w.pr_url is Some
}

/// Focused, not shut down, and a worktree is active: checks may run.
pub open spec fn polling_active(t: TaskState) -> bool {
    !t.shutdown && t.is_focused && t.active_worktree is Some
}

/// Whether a wake at `now` runs the local check: the single-shot flag,
/// or the fixed debounce has passed since this worktree's last local
/// poll.
pub open spec fn local_poll_fires(t: TaskState, now: u64) -> bool {
    polling_active(t) && (t.immediate_poll || elapsed_since(
        now,
        last_time_of(t.last_local_poll_times, (t.active_worktree->Some_0).worktree_id),
    ) >= MIN_LOCAL_POLL_DEBOUNCE)
}

/// Whether a wake at `now` runs the remote check: only with PR
/// linkage, and then under the single-shot remote flag or the
/// configurable remote interval.
pub open spec fn remote_poll_fires(t: TaskState, now: u64) -> bool {
    polling_active(t) && has_pr(t.active_worktree->Some_0) && (t.immediate_remote_poll
        || elapsed_since(
        now,
        last_time_of(t.last_remote_poll_times, (t.active_worktree->Some_0).worktree_id),
    ) >= t.remote_poll_interval_secs)
}

/// Whether a focus gain at `now` sets the local single-shot flag: only
/// on a false-to-true transition, with an active worktree whose last
/// local poll lies at least the debounce in the past.
pub open spec fn focus_gain_triggers_local(t: TaskState, focused: bool, now: u64) -> bool {
    focused && !t.is_focused && (t.active_worktree matches Option::Some(w) && elapsed_since(
        now,
        last_time_of(t.last_local_poll_times, w.worktree_id),
    ) >= MIN_LOCAL_POLL_DEBOUNCE)
}

/// State transition of [`BackgroundTaskManager::set_focused`].
pub open spec fn spec_set_focused(t: TaskState, focused: bool, now: u64) -> TaskState {
    TaskState {
        is_focused: focused,
        immediate_poll: t.immediate_poll || focus_gain_triggers_local(t, focused, now),
        ..t
    }
}

/// State transition of [`BackgroundTaskManager::set_active_worktree`].
pub open spec fn spec_set_active_worktree(t: TaskState, target: Option<WorktreeModel>)
    -> TaskState {
    TaskState {
        active_worktree: target,
        immediate_poll: t.immediate_poll || target is Some,
        ..t
    }
}

/// State transition of [`BackgroundTaskManager::trigger_immediate_poll`].
pub open spec fn spec_trigger_immediate_poll(t: TaskState) -> TaskState {
    TaskState { immediate_poll: true, ..t }
}

/// State transition of
/// [`BackgroundTaskManager::trigger_immediate_remote_poll`].
pub open spec fn spec_trigger_immediate_remote_poll(t: TaskState) -> TaskState {
    TaskState { immediate_remote_poll: true, ..t }
}

/// State transition of [`BackgroundTaskManager::poll_tick`]: when a
/// check fires, its timestamp is recorded at `now`; consumed
/// single-shot flags are cleared. The remote flag is only consumed
/// when the active worktree carries PR linkage.
pub open spec fn spec_tick(t: TaskState, now: u64) -> TaskState {
    if !polling_active(t) {
        t
    } else {
        let w = t.active_worktree->Some_0;
        let after_local = TaskState {
            immediate_poll: false,
            last_local_poll_times: if local_poll_fires(t, now) {
                t.last_local_poll_times.insert(w.worktree_id, now)
            } else {
                t.last_local_poll_times
            },
            ..t
        };
        if has_pr(w) {
            TaskState {
                immediate_remote_poll: false,
                last_remote_poll_times: if remote_poll_fires(t, now) {
                    t.last_remote_poll_times.insert(w.worktree_id, now)
                } else {
                    t.last_remote_poll_times
                },
                ..after_local
            }
        } else {
            after_local
        }
    }
}

/// Shared state of the polling scheduler.
pub struct BackgroundTaskManager {
    is_focused: bool,
    active_worktree: Option<ActiveWorktreeInfo>,
    poll_interval_secs: u64,
    remote_poll_interval_secs: u64,
    shutdown: bool,
    immediate_poll: bool,
    immediate_remote_poll: bool,
    last_local_poll_times: StringMap<u64>,
    last_remote_poll_times: StringMap<u64>,
}

impl View for BackgroundTaskManager {
    type V = TaskState;

    closed spec fn view(&self) -> TaskState {
        TaskState {
            is_focused: self.is_focused,
            active_worktree: match self.active_worktree {
                Option::Some(i) => Option::Some(i@),
                Option::None => Option::None,
            },
            poll_interval_secs: self.poll_interval_secs,
            remote_poll_interval_secs: self.remote_poll_interval_secs,
            shutdown: self.shutdown,
            immediate_poll: self.immediate_poll,
            immediate_remote_poll: self.immediate_remote_poll,
            last_local_poll_times: self.last_local_poll_times@,
            last_remote_poll_times: self.last_remote_poll_times@,
        }
    }
}

impl BackgroundTaskManager {
    /// Internal invariant: the timestamp tables are well-formed and
    /// the intervals sit inside their declared ranges.
    pub closed spec fn wf(&self) -> bool {
        &&& self.last_local_poll_times.wf()
        &&& self.last_remote_poll_times.wf()
        &&& MIN_POLL_INTERVAL <= self.poll_interval_secs <= MAX_POLL_INTERVAL
        &&& MIN_REMOTE_POLL_INTERVAL <= self.remote_poll_interval_secs <= MAX_REMOTE_POLL_INTERVAL
    }

    /// A fresh scheduler: focused (treated as foregrounded at startup), no
    /// active worktree, default intervals, no pending triggers, no
    /// recorded poll times.
    pub fn new() -> (r: Self)
        ensures
            r.wf(),
            r@ == (TaskState {
                is_focused: true,
                active_worktree: Option::None,
                poll_interval_secs: DEFAULT_POLL_INTERVAL,
                remote_poll_interval_secs: DEFAULT_REMOTE_POLL_INTERVAL,
                shutdown: false,
                immediate_poll: false,
                immediate_remote_poll: false,
                last_local_poll_times: Map::empty(),
                last_remote_poll_times: Map::empty(),
            }),
    {
        BackgroundTaskManager {
            is_focused: true,
            active_worktree: Option::None,
            poll_interval_secs: DEFAULT_POLL_INTERVAL,
            remote_poll_interval_secs: DEFAULT_REMOTE_POLL_INTERVAL,
            shutdown: false,
            immediate_poll: false,
            immediate_remote_poll: false,
            last_local_poll_times: StringMap::new(),
            last_remote_poll_times: StringMap::new(),
        }
    }

    /// Signal the worker to stop; terminal, the worker never restarts.
    pub fn stop(&mut self)
        requires
            old(self).wf(),
        ensures
            final(self).wf(),
            final(self)@ == (TaskState { shutdown: true, ..old(self)@ }),
    {
        self.shutdown = true;
    }

    /// Set whether the application is focused. A false-to-true
    /// transition with an active worktree whose last local poll lies
    /// at least the debounce in the past sets the local single-shot
    /// flag; every other transition only writes the flag itself.
    pub fn set_focused(&mut self, focused: bool, now: u64)
        requires
            old(self).wf(),
        ensures
            final(self).wf(),
            final(self)@ == spec_set_focused(old(self)@, focused, now),
    {
        let was_focused = self.is_focused;
        self.is_focused = focused;
        if focused && !was_focused {
            match &self.active_worktree {
                Option::Some(info) => {
                    let last_poll = match self.last_local_poll_times.get(
                        info.worktree_id.as_str(),
                    ) {
                        Option::Some(t) => t,
                        Option::None => 0,
                    };
                    let time_since = if now >= last_poll {
                        now - last_poll
                    } else {
                        0
                    };
                    if time_since >= MIN_LOCAL_POLL_DEBOUNCE {
                        self.immediate_poll = true;
                    }
                },
                Option::None => {},
            }
        }
    }

    /// Replace the active worktree. A non-empty target always sets the
    /// local single-shot flag (a just-activated worktree is worth
    /// checking right away); clearing the target stops polling on the
    /// next wake without any further effect.
    pub fn set_active_worktree(&mut self, info: Option<ActiveWorktreeInfo>)
        requires
            old(self).wf(),
        ensures
            final(self).wf(),
            final(self)@ == spec_set_active_worktree(
                old(self)@,
                match info {
                    Option::Some(i) => Option::Some(i@),
                    Option::None => Option::None,
                },
            ),
    {
        let should_poll_immediately = info.is_some();
        self.active_worktree = info;
        if should_poll_immediately {
            self.immediate_poll = true;
        }
    }

    /// Set the local polling interval in seconds, clamped to the valid
    /// range; out-of-range inputs are never rejected.
    pub fn set_poll_interval(&mut self, seconds: u64)
        requires
            old(self).wf(),
        ensures
            final(self).wf(),
            final(self)@ == (TaskState {
                poll_interval_secs: clamped(seconds, MIN_POLL_INTERVAL, MAX_POLL_INTERVAL),
                ..old(self)@
            }),
    {
        self.poll_interval_secs = clamp_u64(seconds, MIN_POLL_INTERVAL, MAX_POLL_INTERVAL);
    }

    /// The current local polling interval in seconds.
    pub fn get_poll_interval(&self) -> (r: u64)
        ensures
            r == self@.poll_interval_secs,
    {
        self.poll_interval_secs
    }

    /// Set the remote polling interval in seconds, clamped to the
    /// valid range; out-of-range inputs are never rejected.
    pub fn set_remote_poll_interval(&mut self, seconds: u64)
        requires
            old(self).wf(),
        ensures
            final(self).wf(),
            final(self)@ == (TaskState {
                remote_poll_interval_secs: clamped(
                    seconds,
                    MIN_REMOTE_POLL_INTERVAL,
                    MAX_REMOTE_POLL_INTERVAL,
                ),
                ..old(self)@
            }),
    {
        self.remote_poll_interval_secs = clamp_u64(
            seconds,
            MIN_REMOTE_POLL_INTERVAL,
            MAX_REMOTE_POLL_INTERVAL,
        );
    }

    /// The current remote polling interval in seconds.
    pub fn get_remote_poll_interval(&self) -> (r: u64)
        ensures
            r == self@.remote_poll_interval_secs,
    {
        self.remote_poll_interval_secs
    }

    /// Force the next wake to run the local check, bypassing debounce.
    /// Single-shot: consumed by the next wake, however often set.
    pub fn trigger_immediate_poll(&mut self)
        requires
            old(self).wf(),
        ensures
            final(self).wf(),
            final(self)@ == spec_trigger_immediate_poll(old(self)@),
    {
        self.immediate_poll = true;
    }

    /// Force the next wake to run the remote check, bypassing the
    /// remote interval. Single-shot, like the local flag.
    pub fn trigger_immediate_remote_poll(&mut self)
        requires
            old(self).wf(),
        ensures
            final(self).wf(),
            final(self)@ == spec_trigger_immediate_remote_poll(old(self)@),
    {
        self.immediate_remote_poll = true;
    }

    /// Whether the worker's between-wake sleep should end early:
    /// shutdown fired, focus was lost, or a single-shot flag was set.
    pub fn should_wake(&self) -> (r: bool)
        ensures
            r == (self@.shutdown || !self@.is_focused || self@.immediate_poll
                || self@.immediate_remote_poll),
    {
        self.shutdown || !self.is_focused || self.immediate_poll || self.immediate_remote_poll
    }

    /// One wake of the worker: decide what to check at unix time
    /// `now`, consume the single-shot flags, and record the
    /// timestamps of the checks that fire before they run.
    pub fn poll_tick(&mut self, now: u64) -> (r: TickDecision)
        requires
            old(self).wf(),
        ensures
            final(self).wf(),
            final(self)@ == spec_tick(old(self)@, now),
            r is Shutdown <==> old(self)@.shutdown,
            r is Idle <==> (!old(self)@.shutdown && !polling_active(old(self)@)),
            r is Run <==> polling_active(old(self)@),
            r matches TickDecision::Run(plan) ==> {
                &&& (plan.local is Some) == local_poll_fires(old(self)@, now)
                &&& (plan.remote is Some) == remote_poll_fires(old(self)@, now)
                &&& (plan.local matches Option::Some(i) ==> Option::Some(i@) == old(
                    self,
                )@.active_worktree)
                &&& (plan.remote matches Option::Some(req) ==> {
                    let w = old(self)@.active_worktree->Some_0;
                    &&& req.worktree_id@ == w.worktree_id
                    &&& req.worktree_path@ == w.worktree_path
                    &&& Option::Some(req.pr_number) == w.pr_number
                    &&& Option::Some(req.pr_url@) == w.pr_url
                })
            },
    {
        if self.shutdown {
            return TickDecision::Shutdown;
        }
        if !self.is_focused {
            return TickDecision::Idle;
        }
        let info = match &self.active_worktree {
            Option::None => {
                return TickDecision::Idle;
            },
            Option::Some(i) => i.clone(),
        };

        // Local check: consume the flag, then poll under flag or
        // debounce, recording the timestamp before the check runs.
        let last_local = match self.last_local_poll_times.get(info.worktree_id.as_str()) {
            Option::Some(t) => t,
            Option::None => 0,
        };
        let time_since_local = if now >= last_local {
            now - last_local
        } else {
            0
        };
        let is_immediate_local = self.immediate_poll;
        self.immediate_poll = false;
        let mut local_req: Option<ActiveWorktreeInfo> = Option::None;
        if is_immediate_local || time_since_local >= MIN_LOCAL_POLL_DEBOUNCE {
            self.last_local_poll_times.insert(info.worktree_id.clone(), now);
            local_req = Option::Some(info.clone());
        }

        // Remote check: only with PR linkage, on its own timer.
        let mut remote_req: Option<RemotePollRequest> = Option::None;
        match info.pr_number {
            Option::Some(pr_number) => {
                match &info.pr_url {
                    Option::Some(pr_url) => {
                        let last_remote = match self.last_remote_poll_times.get(
                            info.worktree_id.as_str(),
                        ) {
                            Option::Some(t) => t,
                            Option::None => 0,
                        };
                        let time_since_remote = if now >= last_remote {
                            now - last_remote
                        } else {
                            0
                        };
                        let is_immediate_remote = self.immediate_remote_poll;
                        self.immediate_remote_poll = false;
                        if is_immediate_remote || time_since_remote
                            >= self.remote_poll_interval_secs {
                            self.last_remote_poll_times.insert(info.worktree_id.clone(), now);
                            remote_req = Option::Some(
                                RemotePollRequest {
                                    worktree_id: info.worktree_id.clone(),
                                    worktree_path: info.worktree_path.clone(),
                                    pr_number,
                                    pr_url: pr_url.clone(),
                                },
                            );
                        }
                    },
                    Option::None => {},
                }
            },
            Option::None => {},
        }
        TickDecision::Run(PollPlan { local: local_req, remote: remote_req })
    }
}

} // verus!

use pollcore::scheduler::ActiveWorktreeInfo;
use pollcore::scheduler::BackgroundTaskManager;
use pollcore::scheduler::PollPlan;
use pollcore::scheduler::TickDecision;

fn worktree(id: &str) -> ActiveWorktreeInfo {
    ActiveWorktreeInfo {
        worktree_id: id.to_string(),
        worktree_path: format!("/tmp/{id}"),
        pr_number: None,
        pr_url: None,
    }
}

fn worktree_with_pr(id: &str, pr_number: u64, pr_url: &str) -> ActiveWorktreeInfo {
    ActiveWorktreeInfo {
        worktree_id: id.to_string(),
        worktree_path: format!("/tmp/{id}"),
        pr_number: Some(pr_number),
        pr_url: Some(pr_url.to_string()),
    }
}

fn run_plan(d: TickDecision) -> PollPlan {
    match d {
        TickDecision::Run(plan) => plan,
        TickDecision::Idle => panic!("expected a run decision, got idle"),
        TickDecision::Shutdown => panic!("expected a run decision, got shutdown"),
    }
}

#[test]
fn default_intervals() {
    let m = BackgroundTaskManager::new();
    assert_eq!(m.get_poll_interval(), 60);
    assert_eq!(m.get_remote_poll_interval(), 60);
}

#[test]
fn local_interval_clamping() {
    let mut m = BackgroundTaskManager::new();
    m.set_poll_interval(5);
    assert_eq!(m.get_poll_interval(), 10);
    m.set_poll_interval(10000);
    assert_eq!(m.get_poll_interval(), 600);
    m.set_poll_interval(120);
    assert_eq!(m.get_poll_interval(), 120);
    m.set_poll_interval(10);
    assert_eq!(m.get_poll_interval(), 10);
    m.set_poll_interval(600);
    assert_eq!(m.get_poll_interval(), 600);
}

#[test]
fn remote_interval_clamping() {
    let mut m = BackgroundTaskManager::new();
    m.set_remote_poll_interval(5);
    assert_eq!(m.get_remote_poll_interval(), 30);
    m.set_remote_poll_interval(10000);
    assert_eq!(m.get_remote_poll_interval(), 600);
    m.set_remote_poll_interval(45);
    assert_eq!(m.get_remote_poll_interval(), 45);
}

#[test]
fn idle_without_worktree() {
    let mut m = BackgroundTaskManager::new();
    assert!(matches!(m.poll_tick(1000), TickDecision::Idle));
}

#[test]
fn idle_when_unfocused() {
    let mut m = BackgroundTaskManager::new();
    m.set_active_worktree(Some(worktree("w1")));
    m.set_focused(false, 1000);
    assert!(matches!(m.poll_tick(1000), TickDecision::Idle));
}

#[test]
fn shutdown_is_terminal_decision() {
    let mut m = BackgroundTaskManager::new();
    m.set_active_worktree(Some(worktree("w1")));
    m.stop();
    assert!(matches!(m.poll_tick(1000), TickDecision::Shutdown));
    assert!(m.should_wake());
}

#[test]
fn activation_triggers_immediate_local_poll() {
    let mut m = BackgroundTaskManager::new();
    m.set_active_worktree(Some(worktree("w1")));
    assert!(m.should_wake());
    let plan = run_plan(m.poll_tick(1000));
    let local = plan.local.expect("activation should force a local poll");
    assert_eq!(local.worktree_id, "w1");
    assert!(plan.remote.is_none());
}

#[test]
fn local_debounce_spacing() {
    // Scenario: worktree "W1" with no PR info. Only local checks ever
    // fire, at most once per 10s of simulated time, regardless of the
    // configured local interval, until "W1" is deactivated.
    let mut m = BackgroundTaskManager::new();
    m.set_poll_interval(600);
    m.set_active_worktree(Some(worktree("W1")));
    let mut local_polls = Vec::new();
    for t in 1000..1035u64 {
        match m.poll_tick(t) {
            TickDecision::Run(plan) => {
                assert!(plan.remote.is_none(), "no remote check may ever fire for W1");
                if plan.local.is_some() {
                    local_polls.push(t);
                }
            }
            other => panic!("expected run decisions while active, got {:?}", discr(&other)),
        }
    }
    assert_eq!(local_polls, vec![1000, 1010, 1020, 1030]);
    m.set_active_worktree(None);
    assert!(matches!(m.poll_tick(1040), TickDecision::Idle));
}

fn discr(d: &TickDecision) -> &'static str {
    match d {
        TickDecision::Shutdown => "shutdown",
        TickDecision::Idle => "idle",
        TickDecision::Run(_) => "run",
    }
}

#[test]
fn remote_polls_follow_remote_interval() {
    // Scenario: worktree "W2" with pr_number=42 and a PR URL, remote
    // interval 30s. The remote check fires on first sight and then no
    // earlier than 30s later.
    let base = 1_700_000_000u64;
    let mut m = BackgroundTaskManager::new();
    m.set_remote_poll_interval(30);
    m.set_active_worktree(Some(worktree_with_pr("W2", 42, "https://example/pr/42")));
    let plan = run_plan(m.poll_tick(base));
    assert!(plan.local.is_some());
    let remote = plan.remote.expect("first sight of W2 should fire a remote check");
    assert_eq!(remote.worktree_id, "W2");
    assert_eq!(remote.pr_number, 42);
    assert_eq!(remote.pr_url, "https://example/pr/42");
    for t in 1..30u64 {
        let plan = run_plan(m.poll_tick(base + t));
        assert!(plan.remote.is_none(), "remote check fired {t}s after the last one");
    }
    let plan = run_plan(m.poll_tick(base + 30));
    assert!(plan.remote.is_some());
}

#[test]
fn no_remote_poll_without_pr_linkage() {
    let base = 1_700_000_000u64;
    let mut m = BackgroundTaskManager::new();
    // PR number alone is not enough: the URL is missing.
    let mut info = worktree("W3");
    info.pr_number = Some(7);
    m.set_active_worktree(Some(info));
    m.trigger_immediate_remote_poll();
    for t in 0..40u64 {
        let plan = run_plan(m.poll_tick(base + t));
        assert!(plan.remote.is_none());
    }
}

#[test]
fn immediate_poll_flag_is_single_shot() {
    let base = 1_700_000_000u64;
    let mut m = BackgroundTaskManager::new();
    m.set_active_worktree(Some(worktree("w1")));
    let plan = run_plan(m.poll_tick(base));
    assert!(plan.local.is_some());
    // A burst of trigger calls before the worker wakes...
    for _ in 0..5 {
        m.trigger_immediate_poll();
    }
    assert!(m.should_wake());
    // ...yields exactly one extra poll.
    let plan = run_plan(m.poll_tick(base + 1));
    assert!(plan.local.is_some());
    let plan = run_plan(m.poll_tick(base + 2));
    assert!(plan.local.is_none());
}

#[test]
fn immediate_remote_poll_bypasses_interval() {
    let base = 1_700_000_000u64;
    let mut m = BackgroundTaskManager::new();
    m.set_active_worktree(Some(worktree_with_pr("w1", 9, "https://example/pr/9")));
    let plan = run_plan(m.poll_tick(base));
    assert!(plan.remote.is_some());
    let plan = run_plan(m.poll_tick(base + 1));
    assert!(plan.remote.is_none());
    m.trigger_immediate_remote_poll();
    let plan = run_plan(m.poll_tick(base + 2));
    assert!(plan.remote.is_some());
    let plan = run_plan(m.poll_tick(base + 3));
    assert!(plan.remote.is_none());
}

#[test]
fn focus_gain_after_debounce_triggers_poll() {
    let base = 1_700_000_000u64;
    let mut m = BackgroundTaskManager::new();
    m.set_active_worktree(Some(worktree("w1")));
    let plan = run_plan(m.poll_tick(base));
    assert!(plan.local.is_some());
    m.set_focused(false, base + 1);
    assert!(m.should_wake());
    assert!(matches!(m.poll_tick(base + 2), TickDecision::Idle));
    // Regaining focus within the debounce does not force a poll...
    m.set_focused(true, base + 5);
    let plan = run_plan(m.poll_tick(base + 6));
    assert!(plan.local.is_none());
    // ...but regaining it after the debounce does.
    m.set_focused(false, base + 7);
    m.set_focused(true, base + 12);
    let plan = run_plan(m.poll_tick(base + 12));
    assert!(plan.local.is_some());
}

#[test]
fn focus_noop_transitions_have_no_side_effects() {
    let base = 1_700_000_000u64;
    let mut m = BackgroundTaskManager::new();
    m.set_active_worktree(Some(worktree("w1")));
    let plan = run_plan(m.poll_tick(base));
    assert!(plan.local.is_some());
    // true -> true, long after the last poll: not a focus gain, so no
    // immediate flag may be set.
    m.set_focused(true, base + 100);
    let plan = run_plan(m.poll_tick(base + 5));
    assert!(plan.local.is_none());
}

#[test]
fn switching_worktree_forces_fresh_poll() {
    let base = 1_700_000_000u64;
    let mut m = BackgroundTaskManager::new();
    m.set_active_worktree(Some(worktree("w1")));
    let plan = run_plan(m.poll_tick(base));
    assert_eq!(plan.local.unwrap().worktree_id, "w1");
    m.set_active_worktree(Some(worktree("w2")));
    let plan = run_plan(m.poll_tick(base + 1));
    assert_eq!(plan.local.unwrap().worktree_id, "w2");
}

#[test]
fn should_wake_reflects_pending_work() {
    let mut m = BackgroundTaskManager::new();
    assert!(!m.should_wake());
    m.trigger_immediate_remote_poll();
    assert!(m.should_wake());
}

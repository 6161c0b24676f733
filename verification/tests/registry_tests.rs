use pollcore::registry::CancelAction;
use pollcore::registry::CancelError;
use pollcore::registry::ProcessRegistry;

#[test]
fn register_and_query() {
    let mut r = ProcessRegistry::new();
    assert!(!r.is_process_running("s1"));
    r.register_process("s1".to_string(), 4242);
    assert!(r.is_process_running("s1"));
    assert!(!r.is_process_running("s2"));
}

#[test]
fn register_overwrites_last_writer_wins() {
    let mut r = ProcessRegistry::new();
    r.register_process("s1".to_string(), 100);
    r.register_process("s1".to_string(), 200);
    let (res, actions) = r.cancel_process("s1", "w1");
    assert_eq!(res, Ok(true));
    assert!(matches!(actions[0], CancelAction::KillTree(200)));
}

#[test]
fn unregister_removes_entry() {
    let mut r = ProcessRegistry::new();
    r.register_process("s1".to_string(), 4242);
    r.unregister_process("s1");
    assert!(!r.is_process_running("s1"));
    // A second unregister is a harmless no-op.
    r.unregister_process("s1");
    assert!(!r.is_process_running("s1"));
}

#[test]
fn running_sessions_snapshot() {
    let mut r = ProcessRegistry::new();
    r.register_process("a".to_string(), 10);
    r.register_process("b".to_string(), 11);
    r.register_process("c".to_string(), 12);
    r.unregister_process("b");
    let mut sessions = r.get_running_sessions();
    sessions.sort();
    assert_eq!(sessions, vec!["a".to_string(), "c".to_string()]);
}

#[test]
fn cancel_unknown_session_is_benign() {
    let mut r = ProcessRegistry::new();
    let (res, actions) = r.cancel_process("nope", "w1");
    assert_eq!(res, Ok(false));
    assert!(actions.is_empty());
}

#[test]
fn cancel_twice_returns_true_then_false() {
    let mut r = ProcessRegistry::new();
    r.register_process("s1".to_string(), 4242);
    let (first, _) = r.cancel_process("s1", "w1");
    assert_eq!(first, Ok(true));
    let (second, actions) = r.cancel_process("s1", "w1");
    assert_eq!(second, Ok(false));
    assert!(actions.is_empty());
}

#[test]
fn cancel_plan_order_marks_before_emit() {
    let mut r = ProcessRegistry::new();
    r.register_process("s1".to_string(), 4242);
    let (res, actions) = r.cancel_process("s1", "w9");
    assert_eq!(res, Ok(true));
    assert_eq!(actions.len(), 4);
    assert!(matches!(actions[0], CancelAction::KillTree(4242)));
    assert!(matches!(actions[1], CancelAction::KillDirect(4242)));
    match &actions[2] {
        CancelAction::MarkRunCancelled(session) => assert_eq!(session, "s1"),
        _ => panic!("third step must be the durable run-state update"),
    }
    match &actions[3] {
        CancelAction::EmitCancelled(event) => {
            assert_eq!(event.session_id, "s1");
            assert_eq!(event.worktree_id, "w9");
            assert!(!event.undo_send);
        }
        _ => panic!("fourth step must be the cancellation event"),
    }
    assert!(!r.is_process_running("s1"));
}

#[test]
fn cancel_refuses_pid_zero() {
    let mut r = ProcessRegistry::new();
    r.register_process("s1".to_string(), 0);
    let (res, actions) = r.cancel_process("s1", "w1");
    assert_eq!(res, Err(CancelError::InvalidPid(0)));
    assert!(actions.is_empty());
    // The entry is still removed, so the session is not stuck running.
    assert!(!r.is_process_running("s1"));
}

#[test]
fn cancel_refuses_pid_one() {
    let mut r = ProcessRegistry::new();
    r.register_process("s1".to_string(), 1);
    let (res, actions) = r.cancel_process("s1", "w1");
    assert_eq!(res, Err(CancelError::InvalidPid(1)));
    assert!(actions.is_empty());
    assert!(!r.is_process_running("s1"));
}

fn expect_session_plan(plan: &[CancelAction], pid: u32, session_id: &str, worktree_id: &str) {
    assert_eq!(plan.len(), 4);
    assert!(matches!(plan[0], CancelAction::KillTree(p) if p == pid));
    assert!(matches!(plan[1], CancelAction::KillDirect(p) if p == pid));
    match &plan[2] {
        CancelAction::MarkRunCancelled(session) => assert_eq!(session, session_id),
        _ => panic!("third step must be the durable run-state update"),
    }
    match &plan[3] {
        CancelAction::EmitCancelled(event) => {
            assert_eq!(event.session_id, session_id);
            assert_eq!(event.worktree_id, worktree_id);
            assert!(!event.undo_send);
        }
        _ => panic!("fourth step must be the cancellation event"),
    }
}

#[test]
fn cancel_all_for_worktree() {
    let mut r = ProcessRegistry::new();
    r.register_process("s1".to_string(), 100);
    r.register_process("s2".to_string(), 101);
    r.register_process("other".to_string(), 102);
    let sessions = vec!["s1".to_string(), "s2".to_string(), "finished".to_string()];
    let actions = r.cancel_processes_for_worktree("w1", &sessions);
    assert!(!r.is_process_running("s1"));
    assert!(!r.is_process_running("s2"));
    assert!(r.is_process_running("other"));
    // Two running sessions were cancelled, four steps each in list
    // order; the already-finished one contributed nothing.
    assert_eq!(actions.len(), 8);
    expect_session_plan(&actions[0..4], 100, "s1", "w1");
    expect_session_plan(&actions[4..8], 101, "s2", "w1");
}

#[test]
fn duplicate_listed_session_cancelled_once() {
    let mut r = ProcessRegistry::new();
    r.register_process("s1".to_string(), 100);
    let sessions = vec!["s1".to_string(), "s1".to_string()];
    let actions = r.cancel_processes_for_worktree("w1", &sessions);
    assert_eq!(actions.len(), 4);
    expect_session_plan(&actions, 100, "s1", "w1");
    assert!(!r.is_process_running("s1"));
}

#[test]
fn sweep_continues_past_refused_pid() {
    let mut r = ProcessRegistry::new();
    r.register_process("init_like".to_string(), 1);
    r.register_process("normal".to_string(), 50);
    let sessions = vec!["init_like".to_string(), "normal".to_string()];
    let actions = r.cancel_processes_for_worktree("w1", &sessions);
    // The refused pid contributes nothing to the plan but is still
    // removed; the sweep goes on to the next session.
    assert_eq!(actions.len(), 4);
    expect_session_plan(&actions, 50, "normal", "w1");
    assert!(!r.is_process_running("init_like"));
    assert!(!r.is_process_running("normal"));
}

#[test]
fn cancel_all_with_no_sessions_is_benign() {
    let mut r = ProcessRegistry::new();
    r.register_process("s1".to_string(), 100);
    let actions = r.cancel_processes_for_worktree("w1", &Vec::new());
    assert!(actions.is_empty());
    assert!(r.is_process_running("s1"));
}

use rust_aec::audio::session_monitor::{
    container_of, count_active_sessions, is_watched, needs_prune, same_session, watched_endpoints,
    EndpointSessions, Monitor, SessionInfo, SessionKey, SessionNotice, SessionRegistry,
    SESSION_ACTIVE, SESSION_EXPIRED,
};
use rust_aec::engine::EngineCommand;

fn session(state: Option<i32>, process: Option<u32>) -> SessionInfo {
    SessionInfo { state, process }
}

fn endpoint(container: Option<u128>, sessions: Vec<SessionInfo>) -> EndpointSessions {
    EndpointSessions { container, sessions }
}

#[test]
fn only_running_sessions_of_others_count() {
    let endpoints = vec![
        endpoint(
            Some(7),
            vec![
                session(Some(SESSION_ACTIVE), Some(10)),
                session(Some(SESSION_ACTIVE), Some(42)),
                session(Some(SESSION_ACTIVE), None),
                session(Some(0), Some(10)),
                session(Some(SESSION_EXPIRED), Some(10)),
                session(None, Some(10)),
            ],
        ),
        endpoint(Some(8), vec![session(Some(SESSION_ACTIVE), Some(10))]),
        endpoint(None, vec![session(Some(SESSION_ACTIVE), Some(10))]),
        endpoint(Some(7), vec![session(Some(SESSION_ACTIVE), Some(11))]),
    ];
    assert_eq!(count_active_sessions(Some(7), &endpoints, 42), 3);
    assert_eq!(count_active_sessions(Some(7), &endpoints, 99), 4);
    assert_eq!(count_active_sessions(Some(8), &endpoints, 42), 1);
    assert_eq!(count_active_sessions(Some(9), &endpoints, 42), 0);
    assert_eq!(count_active_sessions(None, &endpoints, 42), 0);
    assert_eq!(count_active_sessions(Some(7), &vec![], 42), 0);
}

#[test]
fn only_the_endpoints_of_the_device_are_watched() {
    let containers = vec![Some(1), None, Some(2), Some(1)];
    assert_eq!(watched_endpoints(Some(1), &containers), vec![0, 3]);
    assert_eq!(watched_endpoints(Some(2), &containers), vec![2]);
    assert!(watched_endpoints(Some(3), &containers).is_empty());
    assert!(watched_endpoints(None, &containers).is_empty());
    assert!(is_watched(Some(1), Some(1)));
    assert!(!is_watched(None, None));
    assert!(!is_watched(Some(1), None));
}

#[test]
fn a_container_is_read_from_its_type_only() {
    assert_eq!(container_of(72, Some(5)), Some(5));
    assert_eq!(container_of(72, None), None);
    assert_eq!(container_of(31, Some(5)), None);
}

#[test]
fn the_engine_hears_of_changes_only() {
    let mut monitor = Monitor::new();
    assert!(monitor.recheck(0).is_none());
    assert!(matches!(monitor.recheck(2), Some(EngineCommand::Resume)));
    assert!(monitor.recheck(1).is_none());
    assert!(matches!(monitor.recheck(0), Some(EngineCommand::Pause)));
    assert!(monitor.recheck(0).is_none());
}

#[test]
fn commands_come_in_turn() {
    let mut monitor = Monitor::new();
    let mut resumes = 0;
    let mut pauses = 0;
    for active in [0usize, 1, 1, 0, 3, 0, 0, 2, 5] {
        match monitor.recheck(active) {
            Some(EngineCommand::Resume) => {
                assert_eq!(resumes, pauses);
                resumes += 1;
            }
            Some(EngineCommand::Pause) => {
                assert_eq!(resumes, pauses + 1);
                pauses += 1;
            }
            Some(_) => panic!("another command"),
            None => {}
        }
    }
    assert_eq!((resumes, pauses), (3, 2));
}

#[test]
fn ended_sessions_ask_for_pruning() {
    assert!(needs_prune(SessionNotice::Disconnected));
    assert!(needs_prune(SessionNotice::StateChanged(SESSION_EXPIRED)));
    assert!(!needs_prune(SessionNotice::StateChanged(SESSION_ACTIVE)));
    assert!(!needs_prune(SessionNotice::StateChanged(0)));
}

fn key(instance: Option<&str>, address: u64) -> SessionKey {
    SessionKey { instance_id: instance.map(|s| s.to_string()), address }
}

#[test]
fn sessions_are_told_apart() {
    assert!(same_session(&key(Some("a"), 1), &key(Some("a"), 2)));
    assert!(!same_session(&key(Some("a"), 1), &key(Some("b"), 1)));
    assert!(same_session(&key(None, 1), &key(Some("b"), 1)));
    assert!(!same_session(&key(None, 1), &key(None, 2)));
}

#[test]
fn no_session_is_registered_twice() {
    let mut registry = SessionRegistry::new();
    assert!(!registry.knows(&key(Some("a"), 1)));
    assert!(registry.note(key(Some("a"), 1), 100));
    assert!(registry.knows(&key(Some("a"), 9)));
    assert!(!registry.note(key(Some("a"), 2), 101));
    assert!(!registry.note(key(None, 1), 102));
    assert!(registry.note(key(None, 2), 103));
    assert_eq!(registry.tokens(), vec![100, 103]);
}

#[test]
fn ended_sessions_are_pruned() {
    let mut registry = SessionRegistry::new();
    for n in 0..5u64 {
        assert!(registry.note(key(None, n), 10 + n));
    }
    let states = vec![Some(0), Some(SESSION_EXPIRED), Some(SESSION_ACTIVE), None, Some(0)];
    assert_eq!(registry.prune(&states), vec![11, 13]);
    assert_eq!(registry.tokens(), vec![10, 12, 14]);
    assert!(!registry.knows(&key(None, 1)));
    assert!(registry.note(key(None, 1), 20));
    assert_eq!(registry.drain(), vec![10, 12, 14, 20]);
    assert!(registry.tokens().is_empty());
    assert!(registry.prune(&vec![]).is_empty());
}

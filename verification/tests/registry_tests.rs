use poor_jimmy::{SessionError, SessionRegistry, Status, Track};

fn track(name: &str) -> Track {
    Track::new(
        format!("https://www.youtube.com/watch?v={}", name),
        String::from(name),
        None,
        42,
    )
}

#[test]
fn get_before_join_finds_nothing() {
    let reg = SessionRegistry::new();
    assert!(reg.get(1).is_none());
    assert!(reg.snapshot(1).is_none());
    assert!(reg.status(1).is_none());
}

#[test]
fn join_creates_an_idle_session() {
    let mut reg = SessionRegistry::new();
    let h = reg.join(1);
    assert_eq!(h.guild_id, 1);
    assert_eq!(reg.status(1), Some(Status::Idle));
    let snap = reg.snapshot(1).unwrap();
    assert!(snap.current.is_none());
    assert!(snap.pending.is_empty());
}

#[test]
fn join_twice_returns_the_same_session() {
    let mut reg = SessionRegistry::new();
    let h1 = reg.join(1);
    reg.enqueue(1, track("a"));
    let h2 = reg.join(1);
    assert_eq!(h1.gen, h2.gen);
    assert_eq!(reg.snapshot(1).unwrap().current.unwrap().title, "a");
}

#[test]
fn sessions_of_different_guilds_are_independent() {
    let mut reg = SessionRegistry::new();
    assert!(reg.enqueue(1, track("a")).started_playback);
    assert!(reg.enqueue(2, track("b")).started_playback);
    reg.pause(1).unwrap();
    assert_eq!(reg.status(1), Some(Status::Paused));
    assert_eq!(reg.status(2), Some(Status::Playing));
    assert_eq!(reg.snapshot(2).unwrap().current.unwrap().title, "b");
}

#[test]
fn commands_without_a_session_report_no_active_session() {
    let mut reg = SessionRegistry::new();
    assert_eq!(reg.pause(1), Err(SessionError::NoActiveSession));
    assert_eq!(reg.resume(1), Err(SessionError::NoActiveSession));
    assert!(matches!(reg.skip(1), Err(SessionError::NoActiveSession)));
    assert_eq!(reg.toggle_loop(1), Err(SessionError::NoActiveSession));
    assert_eq!(reg.clear(1), 0);
}

#[test]
fn enqueue_creates_session_and_starts_playback() {
    let mut reg = SessionRegistry::new();
    let out = reg.enqueue(1, track("a"));
    assert!(out.started_playback);
    let out = reg.enqueue(1, track("b"));
    assert!(!out.started_playback);
    assert_eq!(reg.status(1), Some(Status::Playing));
}

#[test]
fn enqueue_many_through_registry_keeps_order() {
    let mut reg = SessionRegistry::new();
    let out = reg.enqueue_many(1, vec![track("a"), track("b"), track("c")]);
    assert!(out.started_playback);
    let snap = reg.snapshot(1).unwrap();
    assert_eq!(snap.current.unwrap().title, "a");
    assert_eq!(snap.pending[0].title, "b");
    assert_eq!(snap.pending[1].title, "c");
}

#[test]
fn registry_clear_reports_discarded_count() {
    let mut reg = SessionRegistry::new();
    for name in ["a", "b", "c", "d"] {
        reg.enqueue(1, track(name));
    }
    assert_eq!(reg.clear(1), 4);
    assert_eq!(reg.status(1), Some(Status::Idle));
}

#[test]
fn leave_is_idempotent() {
    let mut reg = SessionRegistry::new();
    reg.join(1);
    reg.leave(1);
    assert!(reg.get(1).is_none());
    reg.leave(1);
    assert!(reg.get(1).is_none());
}

#[test]
fn resolved_enqueue_through_live_handle_lands() {
    let mut reg = SessionRegistry::new();
    let h = reg.join(1);
    let out = reg.enqueue_resolved(h, track("a")).unwrap();
    assert!(out.started_playback);
    assert_eq!(reg.snapshot(1).unwrap().current.unwrap().title, "a");
}

#[test]
fn resolved_enqueue_after_clear_is_dropped() {
    let mut reg = SessionRegistry::new();
    let h = reg.join(1);
    reg.enqueue(1, track("a"));
    // The queue is torn down while a resolution is in flight.
    reg.clear(1);
    assert!(reg.enqueue_resolved(h, track("late")).is_none());
    assert_eq!(reg.status(1), Some(Status::Idle));
    assert!(reg.snapshot(1).unwrap().current.is_none());
}

#[test]
fn resolved_enqueue_after_leave_is_dropped() {
    let mut reg = SessionRegistry::new();
    let h = reg.join(1);
    reg.leave(1);
    assert!(reg.enqueue_resolved(h, track("late")).is_none());
    assert!(reg.get(1).is_none());
}

#[test]
fn resolved_enqueue_after_rejoin_is_dropped() {
    let mut reg = SessionRegistry::new();
    let h = reg.join(1);
    reg.leave(1);
    let h2 = reg.join(1);
    assert_ne!(h.gen, h2.gen);
    assert!(reg.enqueue_resolved(h, track("late")).is_none());
    assert!(reg.snapshot(1).unwrap().current.is_none());
}

#[test]
fn registry_skip_and_stale_finish_do_not_double_advance() {
    let mut reg = SessionRegistry::new();
    for name in ["a", "b", "c"] {
        reg.enqueue(1, track(name));
    }
    let stale = reg.current_play_id(1).unwrap();
    let next = reg.skip(1).unwrap();
    assert_eq!(next.unwrap().title, "b");
    reg.track_finished(1, stale);
    let snap = reg.snapshot(1).unwrap();
    assert_eq!(snap.current.unwrap().title, "b");
    assert_eq!(snap.pending.len(), 1);
    assert_eq!(snap.pending[0].title, "c");
}

#[test]
fn registry_finished_track_advances() {
    let mut reg = SessionRegistry::new();
    reg.enqueue(1, track("a"));
    reg.enqueue(1, track("b"));
    let id = reg.current_play_id(1).unwrap();
    reg.track_finished(1, id);
    assert_eq!(reg.snapshot(1).unwrap().current.unwrap().title, "b");
}

#[test]
fn registry_toggle_loop_reports_new_state() {
    let mut reg = SessionRegistry::new();
    reg.enqueue(1, track("a"));
    assert_eq!(reg.toggle_loop(1), Ok(true));
    assert_eq!(reg.toggle_loop(1), Ok(false));
    assert_eq!(reg.snapshot(1).unwrap().current.unwrap().title, "a");
}

#[test]
fn registry_pause_and_resume_report_exactly() {
    let mut reg = SessionRegistry::new();
    reg.join(1);
    assert_eq!(reg.pause(1), Err(SessionError::NoActiveSession));
    assert_eq!(reg.resume(1), Err(SessionError::NotPaused));
    reg.enqueue(1, track("a"));
    assert_eq!(reg.resume(1), Err(SessionError::NotPaused));
    assert_eq!(reg.pause(1), Ok(()));
    assert_eq!(reg.pause(1), Err(SessionError::AlreadyPaused));
    assert_eq!(reg.resume(1), Ok(()));
    assert_eq!(reg.status(1), Some(Status::Playing));
}

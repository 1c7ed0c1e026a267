use poor_jimmy::{Session, SessionError, Status, Track};

fn track(name: &str, who: u64) -> Track {
    Track::new(
        format!("https://www.youtube.com/watch?v={}", name),
        String::from(name),
        Some(180),
        who,
    )
}

#[test]
fn first_enqueue_starts_playback() {
    let mut s = Session::new();
    assert_eq!(s.status(), Status::Idle);
    let out = s.enqueue(track("a", 1));
    assert!(out.started_playback);
    assert_eq!(s.status(), Status::Playing);
}

#[test]
fn enqueue_into_playing_session_appends() {
    let mut s = Session::new();
    assert!(s.enqueue(track("a", 1)).started_playback);
    let out = s.enqueue(track("b", 2));
    assert!(!out.started_playback);
    let snap = s.snapshot();
    assert_eq!(snap.current.unwrap().title, "a");
    assert_eq!(snap.pending.len(), 1);
    assert_eq!(snap.pending[0].title, "b");
}

#[test]
fn enqueue_into_paused_session_appends() {
    let mut s = Session::new();
    s.enqueue(track("a", 1));
    s.pause().unwrap();
    let out = s.enqueue(track("b", 2));
    assert!(!out.started_playback);
    assert_eq!(s.status(), Status::Paused);
}

#[test]
fn enqueue_many_preserves_order_and_starts_once() {
    let mut s = Session::new();
    let out = s.enqueue_many(vec![track("a", 1), track("b", 1), track("c", 1)]);
    assert!(out.started_playback);
    let snap = s.snapshot();
    assert_eq!(snap.current.unwrap().title, "a");
    let titles: Vec<String> = snap.pending.iter().map(|t| t.title.clone()).collect();
    assert_eq!(titles, vec!["b".to_string(), "c".to_string()]);
}

#[test]
fn enqueue_many_empty_list_changes_nothing() {
    let mut s = Session::new();
    let out = s.enqueue_many(Vec::new());
    assert!(!out.started_playback);
    assert_eq!(s.status(), Status::Idle);
    assert_eq!(s.size(), 0);
}

#[test]
fn queue_size_is_conserved() {
    // Four enqueued, one advanced past, then the rest cleared:
    // 4 == 1 + 3, and every intermediate size matches.
    let mut s = Session::new();
    for name in ["a", "b", "c", "d"] {
        s.enqueue(track(name, 1));
    }
    assert_eq!(s.size(), 4);
    s.skip().unwrap();
    assert_eq!(s.size(), 3);
    let discarded = s.clear();
    assert_eq!(discarded, 3);
    assert_eq!(s.size(), 0);
}

#[test]
fn skip_advances_to_next_track() {
    let mut s = Session::new();
    s.enqueue(track("a", 1));
    s.enqueue(track("b", 1));
    let next = s.skip().unwrap();
    assert_eq!(next.unwrap().title, "b");
    assert_eq!(s.status(), Status::Playing);
}

#[test]
fn skip_on_last_track_goes_idle() {
    let mut s = Session::new();
    s.enqueue(track("a", 1));
    let next = s.skip().unwrap();
    assert!(next.is_none());
    assert_eq!(s.status(), Status::Idle);
    assert_eq!(s.size(), 0);
}

#[test]
fn skip_with_nothing_playing_reports_no_active_session() {
    let mut s = Session::new();
    assert!(matches!(s.skip(), Err(SessionError::NoActiveSession)));
    assert_eq!(s.status(), Status::Idle);
}

#[test]
fn skip_while_paused_is_honored() {
    let mut s = Session::new();
    s.enqueue(track("a", 1));
    s.enqueue(track("b", 1));
    s.pause().unwrap();
    let next = s.skip().unwrap();
    assert_eq!(next.unwrap().title, "b");
    assert_eq!(s.status(), Status::Playing);
}

#[test]
fn skip_ignores_loop_flag_and_discards_it() {
    let mut s = Session::new();
    s.enqueue(track("a", 1));
    s.enqueue(track("b", 1));
    s.toggle_loop();
    let next = s.skip().unwrap();
    assert_eq!(next.unwrap().title, "b");
    assert!(!s.loops());
}

#[test]
fn pause_on_idle_reports_no_active_session() {
    let mut s = Session::new();
    assert_eq!(s.pause(), Err(SessionError::NoActiveSession));
    assert_eq!(s.status(), Status::Idle);
    assert_eq!(s.size(), 0);
}

#[test]
fn pause_twice_reports_already_paused() {
    let mut s = Session::new();
    s.enqueue(track("a", 1));
    assert_eq!(s.pause(), Ok(()));
    assert_eq!(s.pause(), Err(SessionError::AlreadyPaused));
    assert_eq!(s.status(), Status::Paused);
}

#[test]
fn resume_on_non_paused_reports_not_paused() {
    let mut s = Session::new();
    assert_eq!(s.resume(), Err(SessionError::NotPaused));
    assert_eq!(s.status(), Status::Idle);
    s.enqueue(track("a", 1));
    assert_eq!(s.resume(), Err(SessionError::NotPaused));
    assert_eq!(s.status(), Status::Playing);
}

#[test]
fn pause_then_resume_round_trip() {
    let mut s = Session::new();
    s.enqueue(track("a", 1));
    assert_eq!(s.pause(), Ok(()));
    assert_eq!(s.status(), Status::Paused);
    assert_eq!(s.resume(), Ok(()));
    assert_eq!(s.status(), Status::Playing);
    assert_eq!(s.snapshot().current.unwrap().title, "a");
}

#[test]
fn toggle_loop_twice_restores_everything() {
    let mut s = Session::new();
    s.enqueue(track("a", 1));
    s.enqueue(track("b", 1));
    assert!(!s.loops());
    assert!(s.toggle_loop());
    assert!(s.loops());
    assert!(!s.toggle_loop());
    assert!(!s.loops());
    let snap = s.snapshot();
    assert_eq!(snap.current.unwrap().title, "a");
    assert_eq!(snap.pending.len(), 1);
    assert_eq!(snap.pending[0].title, "b");
    assert_eq!(s.status(), Status::Playing);
}

#[test]
fn clear_counts_pending_plus_current() {
    let mut s = Session::new();
    for name in ["a", "b", "c", "d"] {
        s.enqueue(track(name, 1));
    }
    // 3 pending plus 1 current.
    assert_eq!(s.clear(), 4);
    assert_eq!(s.status(), Status::Idle);
    assert_eq!(s.size(), 0);
}

#[test]
fn clear_on_idle_session_counts_zero() {
    let mut s = Session::new();
    assert_eq!(s.clear(), 0);
    assert_eq!(s.status(), Status::Idle);
}

#[test]
fn clear_on_paused_session_goes_idle() {
    let mut s = Session::new();
    s.enqueue(track("a", 1));
    s.pause().unwrap();
    assert_eq!(s.clear(), 1);
    assert_eq!(s.status(), Status::Idle);
}

#[test]
fn finished_track_advances_queue() {
    let mut s = Session::new();
    s.enqueue(track("a", 1));
    s.enqueue(track("b", 1));
    let id = s.play_id();
    s.track_finished(id);
    assert_eq!(s.snapshot().current.unwrap().title, "b");
}

#[test]
fn finished_last_track_goes_idle() {
    let mut s = Session::new();
    s.enqueue(track("a", 1));
    s.track_finished(s.play_id());
    assert_eq!(s.status(), Status::Idle);
    assert!(s.snapshot().current.is_none());
}

#[test]
fn finished_track_with_loop_replays_it() {
    let mut s = Session::new();
    s.enqueue(track("a", 1));
    s.enqueue(track("b", 1));
    s.toggle_loop();
    let id = s.play_id();
    s.track_finished(id);
    let snap = s.snapshot();
    assert_eq!(snap.current.unwrap().title, "a");
    assert_eq!(snap.pending.len(), 1);
    assert_ne!(s.play_id(), id);
}

#[test]
fn skip_then_stale_finish_does_not_double_advance() {
    let mut s = Session::new();
    s.enqueue(track("a", 1));
    s.enqueue(track("b", 1));
    s.enqueue(track("c", 1));
    let stale = s.play_id();
    s.skip().unwrap();
    // The transport reports the skipped stream finished afterwards.
    s.track_finished(stale);
    let snap = s.snapshot();
    assert_eq!(snap.current.unwrap().title, "b");
    assert_eq!(snap.pending.len(), 1);
    assert_eq!(snap.pending[0].title, "c");
}

#[test]
fn duplicate_finish_report_is_ignored() {
    let mut s = Session::new();
    s.enqueue(track("a", 1));
    s.enqueue(track("b", 1));
    s.enqueue(track("c", 1));
    let id = s.play_id();
    s.track_finished(id);
    s.track_finished(id);
    let snap = s.snapshot();
    assert_eq!(snap.current.unwrap().title, "b");
    assert_eq!(snap.pending.len(), 1);
}

#[test]
fn full_queue_scenario() {
    // Enqueue A, B, C; skip to B; loop and let B finish; skip to C;
    // let C finish: the session ends idle and empty.
    let mut s = Session::new();
    s.enqueue(track("a", 1));
    s.enqueue(track("b", 1));
    s.enqueue(track("c", 1));
    let snap = s.snapshot();
    assert_eq!(snap.current.as_ref().unwrap().title, "a");
    assert_eq!(snap.pending.len(), 2);
    assert_eq!(snap.pending[0].title, "b");
    assert_eq!(snap.pending[1].title, "c");

    let next = s.skip().unwrap();
    assert_eq!(next.unwrap().title, "b");
    let snap = s.snapshot();
    assert_eq!(snap.pending.len(), 1);
    assert_eq!(snap.pending[0].title, "c");

    assert!(s.toggle_loop());
    s.track_finished(s.play_id());
    let snap = s.snapshot();
    assert_eq!(snap.current.unwrap().title, "b");
    assert_eq!(snap.pending.len(), 1);
    assert_eq!(snap.pending[0].title, "c");

    let next = s.skip().unwrap();
    assert_eq!(next.unwrap().title, "c");
    assert_eq!(s.snapshot().pending.len(), 0);

    s.track_finished(s.play_id());
    assert_eq!(s.status(), Status::Idle);
    assert!(s.snapshot().current.is_none());
    assert_eq!(s.size(), 0);
}

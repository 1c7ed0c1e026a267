//! One guild's playback session: the ordered queue of pending tracks,
//! the currently streaming track, and the transport status, together
//! with the mathematical transition model that every operation is
//! proved against.

use vstd::prelude::*;

use crate::track::{Track, TrackView};

verus! {

/// Transport status of one guild's session.
#[derive(Clone, Copy, PartialEq, Eq, Structural, Debug)]
pub enum Status {
    Idle,
    Playing,
    Paused,
}

/// The user-feedback conditions a session operation can report.
#[derive(Clone, Copy, PartialEq, Eq, Structural, Debug)]
pub enum SessionError {
    /// No session exists for the guild, or nothing is playing in it.
    NoActiveSession,
    /// `resume` was asked of a session that is not paused.
    NotPaused,
    /// `pause` was asked of a session that is already paused.
    AlreadyPaused,
}

/// What an enqueue did: whether it was the one that moved the session
/// from idle to playing (so the caller knows what to announce).
#[derive(Clone, Copy, PartialEq, Eq, Structural, Debug)]
pub struct EnqueueOutcome {
    pub started_playback: bool,
}

/// Mathematical image of a [`Session`].
#[verifier::ext_equal]
pub struct SessionView {
    pub status: Status,
    pub loop_current: bool,
    pub current: Option<TrackView>,
    pub pending: Seq<TrackView>,
    /// Identifier of the active stream; a fresh one is taken whenever a
    /// track (re)starts, so a completion report for an older stream can
    /// be recognised as stale.
    pub play_id: u64,
}

/// View of a sequence of tracks.
pub open spec fn tracks_view(s: Seq<Track>) -> Seq<TrackView> {
    s.map_values(|t: Track| t@)
}

/// The next identifier from a saturating counter. Identifiers stop being distinct only at
/// the top of `u64`, which no real process reaches.
pub open spec fn next_id(p: u64) -> u64 {
    if p < u64::MAX {
        (p + 1) as u64
    } else {
        p
    }
}

impl SessionView {
    /// How many tracks the session holds: the pending ones plus the
    /// current one, if any.
    pub open spec fn size(self) -> nat {
        self.pending.len() + if self.current is Some {
            1nat
        } else {
            0nat
        }
    }

    /// Well-formedness: the current track exists exactly when the
    /// session is not idle, an idle session holds no pending tracks,
    /// and the size fits the machine.
    pub open spec fn wf(self) -> bool {
        &&& (self.status is Idle <==> self.current is None)
        &&& (self.status is Idle ==> self.pending.len() == 0)
        &&& self.size() <= usize::MAX
    }

    /// A freshly created session: idle, empty, not looping.
    pub open spec fn initial() -> SessionView {
        SessionView {
            status: Status::Idle,
            loop_current: false,
            current: None,
            pending: Seq::empty(),
            play_id: 0,
        }
    }

    /// Effect of enqueuing one track: an idle session starts streaming
    /// it at once; otherwise it is appended to the pending queue.
    pub open spec fn enqueue_step(self, t: TrackView) -> SessionView {
        if self.status is Idle {
            SessionView {
                status: Status::Playing,
                current: Some(t),
                play_id: next_id(self.play_id),
                ..self
            }
        } else {
            SessionView { pending: self.pending.push(t), ..self }
        }
    }

    /// Effect of enqueuing a list of tracks, in the given order.
    pub open spec fn enqueue_many_step(self, ts: Seq<TrackView>) -> SessionView
        decreases ts.len(),
    {
        if ts.len() == 0 {
            self
        } else {
            self.enqueue_step(ts[0]).enqueue_many_step(ts.drop_first())
        }
    }

    /// Effect of moving past the current track: when `honor_loop` is
    /// set and the session loops, the same track is re-armed as a new
    /// stream; otherwise the next pending track starts, or, with none
    /// pending, the session goes idle.
    pub open spec fn advance_step(self, honor_loop: bool) -> SessionView {
        if honor_loop && self.loop_current {
            SessionView { status: Status::Playing, play_id: next_id(self.play_id), ..self }
        } else if self.pending.len() > 0 {
            SessionView {
                status: Status::Playing,
                current: Some(self.pending[0]),
                pending: self.pending.drop_first(),
                play_id: next_id(self.play_id),
                ..self
            }
        } else {
            SessionView { status: Status::Idle, current: None, ..self }
        }
    }

    /// Effect of a user skip: the current track is discarded and the
    /// queue advances, whatever the loop flag says; the loop flag is
    /// discarded with the track it applied to.
    pub open spec fn skip_step(self) -> SessionView {
        if self.current is None {
            self
        } else {
            SessionView { loop_current: false, ..self.advance_step(false) }
        }
    }

    /// Effect of the transport reporting stream `id` finished: stale
    /// reports (wrong stream, or nothing current) change nothing;
    /// otherwise the queue advances, honoring the loop flag.
    pub open spec fn finish_step(self, id: u64) -> SessionView {
        if self.current is Some && id == self.play_id {
            self.advance_step(true)
        } else {
            self
        }
    }

    /// Effect of pausing: only a playing session changes.
    pub open spec fn pause_step(self) -> SessionView {
        if self.status is Playing {
            SessionView { status: Status::Paused, ..self }
        } else {
            self
        }
    }

    /// Effect of resuming: only a paused session changes.
    pub open spec fn resume_step(self) -> SessionView {
        if self.status is Paused {
            SessionView { status: Status::Playing, ..self }
        } else {
            self
        }
    }

    /// Effect of toggling the loop flag: nothing else moves.
    pub open spec fn toggle_step(self) -> SessionView {
        SessionView { loop_current: !self.loop_current, ..self }
    }

    /// Effect of clearing: every track is dropped and the session is
    /// idle again. The loop flag survives.
    pub open spec fn clear_step(self) -> SessionView {
        SessionView { status: Status::Idle, current: None, pending: Seq::empty(), ..self }
    }
}

/// A read-only copy of what a session holds, for listing and
/// now-playing displays.
pub struct QueueView {
    pub current: Option<Track>,
    pub pending: Vec<Track>,
}

/// One guild's playback session.
pub struct Session {
    status: Status,
    loop_current: bool,
    current: Option<Track>,
    pending: Vec<Track>,
    play_id: u64,
}

impl View for Session {
    type V = SessionView;

    closed spec fn view(&self) -> SessionView {
        SessionView {
            status: self.status,
            loop_current: self.loop_current,
            current: match self.current {
                Some(t) => Some(t@),
                None => None,
            },
            pending: tracks_view(self.pending@),
            play_id: self.play_id,
        }
    }
}

pub proof fn lemma_tracks_view_push(s: Seq<Track>, t: Track)
    ensures
        tracks_view(s.push(t)) == tracks_view(s).push(t@),
{
    assert(tracks_view(s.push(t)) =~= tracks_view(s).push(t@));
}

pub proof fn lemma_tracks_view_drop_first(s: Seq<Track>)
    requires
        s.len() > 0,
    ensures
        tracks_view(s.remove(0)) == tracks_view(s).drop_first(),
{
    assert(tracks_view(s.remove(0)) =~= tracks_view(s).drop_first());
}

impl Session {
    /// A fresh session: idle, empty, not looping.
    pub fn new() -> (s: Session)
        ensures
            s@ == SessionView::initial(),
            s@.wf(),
    {
        let s = Session {
            status: Status::Idle,
            loop_current: false,
            current: None,
            pending: Vec::new(),
            play_id: 0,
        };
        proof {
            assert(s@ =~= SessionView::initial());
        }
        s
    }

    /// The next stream identifier, as executable code.
    fn bump_play_id(&mut self)
        ensures
            final(self)@ == (SessionView { play_id: next_id(old(self)@.play_id), ..old(self)@ }),
    {
        if self.play_id < u64::MAX {
            self.play_id = self.play_id + 1;
        }
    }

    /// Appends `t`, starting playback at once when the session was
    /// idle. Returns whether playback started.
    pub fn enqueue(&mut self, t: Track) -> (r: EnqueueOutcome)
        requires
            old(self)@.wf(),
            old(self)@.size() < usize::MAX,
        ensures
            final(self)@ == old(self)@.enqueue_step(t@),
            final(self)@.wf(),
            r.started_playback == (old(self)@.status is Idle),
    {
        if matches!(self.status, Status::Idle) {
            self.status = Status::Playing;
            self.current = Some(t);
            self.bump_play_id();
            EnqueueOutcome { started_playback: true }
        } else {
            let ghost p = self.pending@;
            self.pending.push(t);
            proof {
                lemma_tracks_view_push(p, t);
            }
            EnqueueOutcome { started_playback: false }
        }
    }

    /// Appends every track of `ts`, in order; the first one starts
    /// playback at once when the session was idle.
    pub fn enqueue_many(&mut self, ts: Vec<Track>) -> (r: EnqueueOutcome)
        requires
            old(self)@.wf(),
            old(self)@.size() + ts@.len() <= usize::MAX,
        ensures
            final(self)@ == old(self)@.enqueue_many_step(tracks_view(ts@)),
            final(self)@.wf(),
            r.started_playback == (old(self)@.status is Idle && ts@.len() > 0),
    {
        let ghost start = self@;
        let ghost full = tracks_view(ts@);
        let mut rest = ts;
        let mut started = false;
        while rest.len() > 0
            invariant
                self@.wf(),
                self@.size() + rest@.len() <= usize::MAX,
                start.enqueue_many_step(full) == self@.enqueue_many_step(tracks_view(rest@)),
                started == (start.status is Idle && rest@.len() < full.len()),
                self@.status is Idle <==> (start.status is Idle && rest@.len() == full.len()),
                rest@.len() <= full.len(),
            decreases rest@.len(),
        {
            let ghost before = self@;
            let ghost rseq = rest@;
            let ghost rv = tracks_view(rseq);
            let t = rest.remove(0);
            proof {
                lemma_tracks_view_drop_first(rseq);
                assert(rv[0] == t@);
                assert(before.enqueue_many_step(rv) == before.enqueue_step(rv[0]).enqueue_many_step(
                    rv.drop_first(),
                ));
            }
            let out = self.enqueue(t);
            if out.started_playback {
                started = true;
            }
        }
        EnqueueOutcome { started_playback: started }
    }

    /// Moves past the current track; shared logic of skip and of the
    /// finished-stream report.
    fn advance(&mut self, honor_loop: bool)
        requires
            old(self)@.wf(),
            old(self)@.current is Some,
        ensures
            final(self)@ == old(self)@.advance_step(honor_loop),
            final(self)@.wf(),
    {
        if honor_loop && self.loop_current {
            self.status = Status::Playing;
            self.bump_play_id();
        } else if self.pending.len() > 0 {
            let ghost p = self.pending@;
            let t = self.pending.remove(0);
            proof {
                lemma_tracks_view_drop_first(p);
            }
            self.current = Some(t);
            self.status = Status::Playing;
            self.bump_play_id();
        } else {
            self.current = None;
            self.status = Status::Idle;
        }
    }

    /// Discards the current track and advances, whatever the loop flag
    /// says; looping is switched off, since it applied to the track
    /// that was skipped. With nothing playing it reports so and
    /// changes nothing.
    /// On success, returns the track now streaming, or `None` when the
    /// queue ran out and the session went idle.
    pub fn skip(&mut self) -> (r: Result<Option<Track>, SessionError>)
        requires
            old(self)@.wf(),
        ensures
            final(self)@ == old(self)@.skip_step(),
            final(self)@.wf(),
            match r {
                Err(e) => e == SessionError::NoActiveSession && old(self)@.current is None,
                Ok(t) => old(self)@.current is Some && (match t {
                    Some(tr) => final(self)@.current == Some(tr@),
                    None => final(self)@.current is None,
                }),
            },
    {
        if self.current.is_none() {
            Err(SessionError::NoActiveSession)
        } else {
            self.loop_current = false;
            self.advance(false);
            Ok(self.clone_current())
        }
    }

    /// Takes the transport's report that stream `id` finished. A stale
    /// report (another stream, or nothing current) changes nothing;
    /// otherwise the queue advances, honoring the loop flag.
    pub fn track_finished(&mut self, id: u64)
        requires
            old(self)@.wf(),
        ensures
            final(self)@ == old(self)@.finish_step(id),
            final(self)@.wf(),
    {
        if self.current.is_some() && id == self.play_id {
            self.advance(true);
        }
    }

    /// Suspends a playing session.
    pub fn pause(&mut self) -> (r: Result<(), SessionError>)
        requires
            old(self)@.wf(),
        ensures
            final(self)@ == old(self)@.pause_step(),
            final(self)@.wf(),
            match r {
                Ok(()) => old(self)@.status is Playing,
                Err(e) => final(self)@ == old(self)@ && (match e {
                    SessionError::NoActiveSession => old(self)@.status is Idle,
                    SessionError::AlreadyPaused => old(self)@.status is Paused,
                    SessionError::NotPaused => false,
                }),
            },
    {
        match self.status {
            Status::Playing => {
                self.status = Status::Paused;
                Ok(())
            },
            Status::Idle => Err(SessionError::NoActiveSession),
            Status::Paused => Err(SessionError::AlreadyPaused),
        }
    }

    /// Resumes a paused session.
    pub fn resume(&mut self) -> (r: Result<(), SessionError>)
        requires
            old(self)@.wf(),
        ensures
            final(self)@ == old(self)@.resume_step(),
            final(self)@.wf(),
            match r {
                Ok(()) => old(self)@.status is Paused,
                Err(e) => e == SessionError::NotPaused && final(self)@ == old(self)@ && !(old(
                    self,
                )@.status is Paused),
            },
    {
        if matches!(self.status, Status::Paused) {
            self.status = Status::Playing;
            Ok(())
        } else {
            Err(SessionError::NotPaused)
        }
    }

    /// Flips the loop flag and returns its new state; the current
    /// track and the pending queue are untouched.
    pub fn toggle_loop(&mut self) -> (r: bool)
        requires
            old(self)@.wf(),
        ensures
            final(self)@ == old(self)@.toggle_step(),
            final(self)@.wf(),
            r == !old(self)@.loop_current,
            final(self)@.current == old(self)@.current,
            final(self)@.pending == old(self)@.pending,
    {
        self.loop_current = !self.loop_current;
        self.loop_current
    }

    /// Drops every track and goes idle, whatever the prior state.
    /// Returns how many tracks were discarded.
    pub fn clear(&mut self) -> (r: usize)
        requires
            old(self)@.wf(),
        ensures
            final(self)@ == old(self)@.clear_step(),
            final(self)@.wf(),
            r == old(self)@.size(),
            final(self)@.status is Idle,
            final(self)@.pending.len() == 0,
            final(self)@.current is None,
    {
        let n = self.pending.len();
        let count = if self.current.is_some() {
            n + 1
        } else {
            n
        };
        self.pending.clear();
        self.current = None;
        self.status = Status::Idle;
        count
    }

    /// A copy of the current track, if any.
    fn clone_current(&self) -> (r: Option<Track>)
        ensures
            match r {
                Some(t) => self@.current == Some(t@),
                None => self@.current is None,
            },
    {
        match &self.current {
            Some(t) => Some(t.clone()),
            None => None,
        }
    }

    /// A read-only copy of the current track and the pending queue,
    /// taken at one consistent instant.
    pub fn snapshot(&self) -> (r: QueueView)
        ensures
            match r.current {
                Some(t) => self@.current == Some(t@),
                None => self@.current is None,
            },
            tracks_view(r.pending@) == self@.pending,
    {
        let current = self.clone_current();
        let mut pending: Vec<Track> = Vec::new();
        let mut i: usize = 0;
        while i < self.pending.len()
            invariant
                i <= self.pending@.len(),
                tracks_view(pending@) == self@.pending.take(i as int),
            decreases self.pending@.len() - i,
        {
            let ghost pv = pending@;
            pending.push(self.pending[i].clone());
            proof {
                lemma_tracks_view_push(pv, self.pending@[i as int]);
                assert(self@.pending.take(i as int).push(self.pending@[i as int]@) =~= self@.pending.take(
                    i + 1,
                ));
            }
            i = i + 1;
        }
        proof {
            assert(self@.pending.take(self.pending@.len() as int) =~= self@.pending);
        }
        QueueView { current, pending }
    }

    /// The transport status.
    pub fn status(&self) -> (r: Status)
        ensures
            r == self@.status,
    {
        self.status
    }

    /// The loop flag.
    pub fn loops(&self) -> (r: bool)
        ensures
            r == self@.loop_current,
    {
        self.loop_current
    }

    /// The identifier of the active stream; a finished-stream report
    /// must carry it to take effect.
    pub fn play_id(&self) -> (r: u64)
        ensures
            r == self@.play_id,
    {
        self.play_id
    }

    /// How many tracks the session holds.
    pub fn size(&self) -> (r: usize)
        requires
            self@.wf(),
        ensures
            r == self@.size(),
    {
        if self.current.is_some() {
            self.pending.len() + 1
        } else {
            self.pending.len()
        }
    }
}

} // verus!

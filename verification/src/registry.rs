//! The process-wide registry: one playback session per guild, created
//! lazily, torn down on leave, and guarded against stale mutations by
//! generation-stamped handles.
//!
//! Callers that resolve a track asynchronously capture a handle first
//! and enqueue through it afterwards; if the session was torn down or
//! cleared in between, the generation no longer matches and the
//! enqueue is a silent no-op instead of resurrecting dead state.

use std::collections::HashMap;

use vstd::prelude::*;

use crate::session::{
    next_id, EnqueueOutcome, QueueView, Session, SessionError, SessionView, Status,
};
use crate::track::Track;

verus! {

broadcast use vstd::std_specs::hash::group_hash_axioms;

/// Mathematical image of one registry entry.
#[verifier::ext_equal]
pub struct EntryView {
    pub gen: u64,
    pub session: SessionView,
}

/// Mathematical image of the registry.
#[verifier::ext_equal]
pub struct RegistryView {
    pub entries: Map<u64, EntryView>,
    pub next_gen: u64,
}

impl RegistryView {
    /// Whether a session exists for the guild.
    pub open spec fn has(self, g: u64) -> bool {
        self.entries.contains_key(g)
    }

    /// The session registered for the guild.
    pub open spec fn session_of(self, g: u64) -> SessionView {
        self.entries[g].session
    }

    /// The generation stamped on the guild's current handles.
    pub open spec fn gen_of(self, g: u64) -> u64 {
        self.entries[g].gen
    }

    /// The registry with the guild's session replaced and its
    /// generation kept.
    pub open spec fn with_session(self, g: u64, s: SessionView) -> RegistryView {
        RegistryView {
            entries: self.entries.insert(g, EntryView { gen: self.gen_of(g), session: s }),
            ..self
        }
    }

    /// The registry with a fresh idle session for the guild, stamped
    /// with a generation no live handle carries.
    pub open spec fn with_fresh_session(self, g: u64) -> RegistryView {
        RegistryView {
            entries: self.entries.insert(
                g,
                EntryView { gen: self.next_gen, session: SessionView::initial() },
            ),
            next_gen: next_id(self.next_gen),
        }
    }

    /// Well-formedness: every session is well-formed, and, until the
    /// generation counter is exhausted, every stamped generation is
    /// older than the next one to be handed out.
    pub open spec fn wf(self) -> bool {
        &&& forall|g: u64| #[trigger] self.entries.contains_key(g) ==> self.entries[g].session.wf()
        &&& self.next_gen < u64::MAX ==> forall|g: u64|
            #[trigger] self.entries.contains_key(g) ==> self.entries[g].gen < self.next_gen
    }
}

/// A reference to one guild's session, stamped with the generation it
/// was taken at. Mutating through it after the session was torn down
/// or cleared is rejected.
#[derive(Clone, Copy, PartialEq, Eq, Structural, Debug)]
pub struct SessionHandle {
    pub guild_id: u64,
    pub gen: u64,
}

/// One registry entry: the guild's session and the generation of the
/// handles that may still mutate it.
struct SessionEntry {
    gen: u64,
    session: Session,
}

impl View for SessionEntry {
    type V = EntryView;

    closed spec fn view(&self) -> EntryView {
        EntryView { gen: self.gen, session: self.session@ }
    }
}

/// View of the entry map.
spec fn entries_view(m: Map<u64, SessionEntry>) -> Map<u64, EntryView> {
    m.map_values(|e: SessionEntry| e@)
}

proof fn lemma_entries_view_insert(m: Map<u64, SessionEntry>, g: u64, e: SessionEntry)
    ensures
        entries_view(m.insert(g, e)) == entries_view(m).insert(g, e@),
{
    assert(entries_view(m.insert(g, e)) =~= entries_view(m).insert(g, e@));
}

proof fn lemma_entries_view_remove(m: Map<u64, SessionEntry>, g: u64)
    ensures
        entries_view(m.remove(g)) == entries_view(m).remove(g),
{
    assert(entries_view(m.remove(g)) =~= entries_view(m).remove(g));
}

/// The process-wide map from guild identifier to playback session.
pub struct SessionRegistry {
    entries: HashMap<u64, SessionEntry>,
    next_gen: u64,
}

impl View for SessionRegistry {
    type V = RegistryView;

    closed spec fn view(&self) -> RegistryView {
        RegistryView { entries: entries_view(self.entries@), next_gen: self.next_gen }
    }
}

impl SessionRegistry {
    /// An empty registry.
    pub fn new() -> (r: SessionRegistry)
        ensures
            r@.entries == Map::<u64, EntryView>::empty(),
            r@.next_gen == 0,
            r@.wf(),
    {
        let r = SessionRegistry { entries: HashMap::new(), next_gen: 0 };
        proof {
            assert(r@.entries =~= Map::<u64, EntryView>::empty());
        }
        r
    }

    /// Takes the guild's entry out of the map, leaving the map without
    /// it; the caller puts it back with `restore`.
    fn take_entry(&mut self, guild_id: u64) -> (r: Option<SessionEntry>)
        ensures
            match r {
                Some(e) => old(self)@.has(guild_id) && e@ == old(self)@.entries[guild_id]
                    && final(self)@.entries == old(self)@.entries.remove(guild_id),
                None => !old(self)@.has(guild_id) && final(self)@.entries == old(self)@.entries,
            },
            final(self)@.next_gen == old(self)@.next_gen,
    {
        let ghost m = self.entries@;
        let r = self.entries.remove(&guild_id);
        proof {
            lemma_entries_view_remove(m, guild_id);
            if !m.contains_key(guild_id) {
                assert(entries_view(m).remove(guild_id) =~= entries_view(m));
            }
        }
        r
    }

    /// Puts an entry back for the guild.
    fn restore(&mut self, guild_id: u64, e: SessionEntry)
        ensures
            final(self)@.entries == old(self)@.entries.insert(guild_id, e@),
            final(self)@.next_gen == old(self)@.next_gen,
    {
        let ghost m = self.entries@;
        self.entries.insert(guild_id, e);
        proof {
            lemma_entries_view_insert(m, guild_id, e);
        }
    }

    /// Bumps the generation counter.
    fn bump_gen(&mut self)
        ensures
            final(self)@.next_gen == next_id(old(self)@.next_gen),
            final(self)@.entries == old(self)@.entries,
    {
        if self.next_gen < u64::MAX {
            self.next_gen = self.next_gen + 1;
        }
    }

    /// Returns a handle to the guild's session, creating a fresh idle
    /// one if none exists. Never fails.
    pub fn join(&mut self, guild_id: u64) -> (h: SessionHandle)
        requires
            old(self)@.wf(),
        ensures
            final(self)@.wf(),
            h.guild_id == guild_id,
            final(self)@.has(guild_id),
            h.gen == final(self)@.gen_of(guild_id),
            old(self)@.has(guild_id) ==> final(self)@ == old(self)@,
            !old(self)@.has(guild_id) ==> final(self)@ == old(self)@.with_fresh_session(guild_id)
                && final(self)@.session_of(guild_id) == SessionView::initial(),
    {
        match self.take_entry(guild_id) {
            Some(e) => {
                let gen = e.gen;
                self.restore(guild_id, e);
                proof {
                    assert(self@.entries =~= old(self)@.entries);
                    assert(self@ =~= old(self)@);
                }
                SessionHandle { guild_id, gen }
            },
            None => {
                let gen = self.next_gen;
                self.restore(guild_id, SessionEntry { gen, session: Session::new() });
                self.bump_gen();
                proof {
                    assert(self@ =~= old(self)@.with_fresh_session(guild_id));
                }
                SessionHandle { guild_id, gen }
            },
        }
    }

    /// A handle to the guild's session, if one exists; commands issued
    /// before anything was queued report "no active session" instead of
    /// creating empty state.
    pub fn get(&self, guild_id: u64) -> (r: Option<SessionHandle>)
        ensures
            match r {
                Some(h) => self@.has(guild_id) && h.guild_id == guild_id && h.gen == self@.gen_of(
                    guild_id,
                ),
                None => !self@.has(guild_id),
            },
    {
        match self.entries.get(&guild_id) {
            Some(e) => Some(SessionHandle { guild_id, gen: e.gen }),
            None => None,
        }
    }

    /// Tears the guild's session down. Removing a guild that has no
    /// session is a no-op, not an error.
    pub fn leave(&mut self, guild_id: u64)
        requires
            old(self)@.wf(),
        ensures
            final(self)@.wf(),
            final(self)@.entries == old(self)@.entries.remove(guild_id),
            final(self)@.next_gen == old(self)@.next_gen,
    {
        let _ = self.take_entry(guild_id);
        proof {
            if !old(self)@.has(guild_id) {
                assert(old(self)@.entries.remove(guild_id) =~= old(self)@.entries);
            }
        }
    }

    /// Enqueues a track for the guild, creating the session if none
    /// exists; an idle session starts playing it at once.
    pub fn enqueue(&mut self, guild_id: u64, t: Track) -> (r: EnqueueOutcome)
        requires
            old(self)@.wf(),
            old(self)@.has(guild_id) ==> old(self)@.session_of(guild_id).size() < usize::MAX,
        ensures
            final(self)@.wf(),
            old(self)@.has(guild_id) ==> final(self)@ == old(self)@.with_session(
                guild_id,
                old(self)@.session_of(guild_id).enqueue_step(t@),
            ) && r.started_playback == (old(self)@.session_of(guild_id).status is Idle),
            !old(self)@.has(guild_id) ==> final(self)@ == old(self)@.with_fresh_session(
                guild_id,
            ).with_session(guild_id, SessionView::initial().enqueue_step(t@))
                && r.started_playback,
    {
        let ghost pre = self@;
        let h = self.join(guild_id);
        let mut e = match self.take_entry(guild_id) {
            Some(e) => e,
            None => {
                proof {
                    assert(false);
                }
                unreached()
            },
        };
        let out = e.session.enqueue(t);
        self.restore(guild_id, e);
        proof {
            if pre.has(guild_id) {
                assert(self@ =~= pre.with_session(guild_id, pre.session_of(guild_id).enqueue_step(t@)));
            } else {
                assert(self@ =~= pre.with_fresh_session(guild_id).with_session(
                    guild_id,
                    SessionView::initial().enqueue_step(t@),
                ));
            }
        }
        out
    }

    /// Enqueues a list of tracks in order for the guild, creating the
    /// session if none exists; the first track starts playing at once
    /// when the session was idle.
    pub fn enqueue_many(&mut self, guild_id: u64, ts: Vec<Track>) -> (r: EnqueueOutcome)
        requires
            old(self)@.wf(),
            old(self)@.has(guild_id) ==> old(self)@.session_of(guild_id).size() + ts@.len()
                <= usize::MAX,
            ts@.len() <= usize::MAX,
        ensures
            final(self)@.wf(),
            old(self)@.has(guild_id) ==> final(self)@ == old(self)@.with_session(
                guild_id,
                old(self)@.session_of(guild_id).enqueue_many_step(crate::session::tracks_view(ts@)),
            ) && r.started_playback == (old(self)@.session_of(guild_id).status is Idle
                && ts@.len() > 0),
            !old(self)@.has(guild_id) ==> final(self)@ == old(self)@.with_fresh_session(
                guild_id,
            ).with_session(
                guild_id,
                SessionView::initial().enqueue_many_step(crate::session::tracks_view(ts@)),
            ) && r.started_playback == (ts@.len() > 0),
    {
        let ghost pre = self@;
        let h = self.join(guild_id);
        let mut e = match self.take_entry(guild_id) {
            Some(e) => e,
            None => {
                proof {
                    assert(false);
                }
                unreached()
            },
        };
        let out = e.session.enqueue_many(ts);
        self.restore(guild_id, e);
        proof {
            if pre.has(guild_id) {
                assert(self@ =~= pre.with_session(
                    guild_id,
                    pre.session_of(guild_id).enqueue_many_step(crate::session::tracks_view(ts@)),
                ));
            } else {
                assert(self@ =~= pre.with_fresh_session(guild_id).with_session(
                    guild_id,
                    SessionView::initial().enqueue_many_step(crate::session::tracks_view(ts@)),
                ));
            }
        }
        out
    }

    /// Enqueues the result of an asynchronous resolution through the
    /// handle captured before it started. If the session was torn down
    /// or cleared meanwhile, the handle is stale and the result is
    /// dropped silently: `None` comes back and nothing changes.
    pub fn enqueue_resolved(&mut self, h: SessionHandle, t: Track) -> (r: Option<EnqueueOutcome>)
        requires
            old(self)@.wf(),
            old(self)@.has(h.guild_id) ==> old(self)@.session_of(h.guild_id).size() < usize::MAX,
        ensures
            final(self)@.wf(),
            (!old(self)@.has(h.guild_id) || h.gen != old(self)@.gen_of(h.guild_id)) ==> r is None
                && final(self)@ == old(self)@,
            (old(self)@.has(h.guild_id) && h.gen == old(self)@.gen_of(h.guild_id)) ==> final(self)@
                == old(self)@.with_session(
                h.guild_id,
                old(self)@.session_of(h.guild_id).enqueue_step(t@),
            ) && r == Some(
                EnqueueOutcome {
                    started_playback: old(self)@.session_of(h.guild_id).status is Idle,
                },
            ),
    {
        match self.take_entry(h.guild_id) {
            None => {
                proof {
                    assert(self@ =~= old(self)@);
                }
                None
            },
            Some(mut e) => {
                if e.gen != h.gen {
                    self.restore(h.guild_id, e);
                    proof {
                        assert(self@.entries =~= old(self)@.entries);
                        assert(self@ =~= old(self)@);
                    }
                    None
                } else {
                    let out = e.session.enqueue(t);
                    self.restore(h.guild_id, e);
                    proof {
                        assert(self@ =~= old(self)@.with_session(
                            h.guild_id,
                            old(self)@.session_of(h.guild_id).enqueue_step(t@),
                        ));
                    }
                    Some(out)
                }
            },
        }
    }

    /// Pauses the guild's playing session.
    pub fn pause(&mut self, guild_id: u64) -> (r: Result<(), SessionError>)
        requires
            old(self)@.wf(),
        ensures
            final(self)@.wf(),
            !old(self)@.has(guild_id) ==> r == Err::<(), SessionError>(
                SessionError::NoActiveSession,
            ) && final(self)@ == old(self)@,
            old(self)@.has(guild_id) ==> {
                let s = old(self)@.session_of(guild_id);
                &&& final(self)@ == old(self)@.with_session(guild_id, s.pause_step())
                &&& (r is Ok <==> s.status is Playing)
                &&& (s.status is Idle ==> r == Err::<(), SessionError>(
                    SessionError::NoActiveSession,
                ))
                &&& (s.status is Paused ==> r == Err::<(), SessionError>(
                    SessionError::AlreadyPaused,
                ))
            },
    {
        match self.take_entry(guild_id) {
            None => {
                proof {
                    assert(self@ =~= old(self)@);
                }
                Err(SessionError::NoActiveSession)
            },
            Some(mut e) => {
                let r = e.session.pause();
                self.restore(guild_id, e);
                proof {
                    assert(self@ =~= old(self)@.with_session(
                        guild_id,
                        old(self)@.session_of(guild_id).pause_step(),
                    ));
                }
                r
            },
        }
    }

    /// Resumes the guild's paused session.
    pub fn resume(&mut self, guild_id: u64) -> (r: Result<(), SessionError>)
        requires
            old(self)@.wf(),
        ensures
            final(self)@.wf(),
            !old(self)@.has(guild_id) ==> r == Err::<(), SessionError>(
                SessionError::NoActiveSession,
            ) && final(self)@ == old(self)@,
            old(self)@.has(guild_id) ==> {
                let s = old(self)@.session_of(guild_id);
                &&& final(self)@ == old(self)@.with_session(guild_id, s.resume_step())
                &&& (r is Ok <==> s.status is Paused)
                &&& (!(s.status is Paused) ==> r == Err::<(), SessionError>(
                    SessionError::NotPaused,
                ))
            },
    {
        match self.take_entry(guild_id) {
            None => {
                proof {
                    assert(self@ =~= old(self)@);
                }
                Err(SessionError::NoActiveSession)
            },
            Some(mut e) => {
                let r = e.session.resume();
                self.restore(guild_id, e);
                proof {
                    assert(self@ =~= old(self)@.with_session(
                        guild_id,
                        old(self)@.session_of(guild_id).resume_step(),
                    ));
                }
                r
            },
        }
    }

    /// Skips past the guild's current track, whatever the loop flag
    /// says. On success, the track now streaming comes back, or `None`
    /// when the queue ran out and the session went idle.
    pub fn skip(&mut self, guild_id: u64) -> (r: Result<Option<Track>, SessionError>)
        requires
            old(self)@.wf(),
        ensures
            final(self)@.wf(),
            !old(self)@.has(guild_id) ==> r == Err::<Option<Track>, SessionError>(
                SessionError::NoActiveSession,
            ) && final(self)@ == old(self)@,
            old(self)@.has(guild_id) ==> {
                let s = old(self)@.session_of(guild_id);
                &&& final(self)@ == old(self)@.with_session(guild_id, s.skip_step())
                &&& (r is Err ==> r == Err::<Option<Track>, SessionError>(
                    SessionError::NoActiveSession,
                ) && s.current is None)
                &&& (r is Ok <==> s.current is Some)
                &&& (match r {
                    Ok(t) => match t {
                        Some(tr) => s.skip_step().current == Some(tr@),
                        None => s.skip_step().current is None,
                    },
                    Err(_) => true,
                })
            },
    {
        match self.take_entry(guild_id) {
            None => {
                proof {
                    assert(self@ =~= old(self)@);
                }
                Err(SessionError::NoActiveSession)
            },
            Some(mut e) => {
                let r = e.session.skip();
                self.restore(guild_id, e);
                proof {
                    assert(self@ =~= old(self)@.with_session(
                        guild_id,
                        old(self)@.session_of(guild_id).skip_step(),
                    ));
                }
                r
            },
        }
    }

    /// Takes the transport's report that stream `play_id` finished for
    /// the guild. Stale reports, and reports for guilds without a
    /// session, change nothing; otherwise the queue advances, honoring
    /// the loop flag.
    pub fn track_finished(&mut self, guild_id: u64, play_id: u64)
        requires
            old(self)@.wf(),
        ensures
            final(self)@.wf(),
            !old(self)@.has(guild_id) ==> final(self)@ == old(self)@,
            old(self)@.has(guild_id) ==> final(self)@ == old(self)@.with_session(
                guild_id,
                old(self)@.session_of(guild_id).finish_step(play_id),
            ),
    {
        match self.take_entry(guild_id) {
            None => {
                proof {
                    assert(self@ =~= old(self)@);
                }
            },
            Some(mut e) => {
                e.session.track_finished(play_id);
                self.restore(guild_id, e);
                proof {
                    assert(self@ =~= old(self)@.with_session(
                        guild_id,
                        old(self)@.session_of(guild_id).finish_step(play_id),
                    ));
                }
            },
        }
    }

    /// Flips the guild's loop flag and returns its new state.
    pub fn toggle_loop(&mut self, guild_id: u64) -> (r: Result<bool, SessionError>)
        requires
            old(self)@.wf(),
        ensures
            final(self)@.wf(),
            !old(self)@.has(guild_id) ==> r == Err::<bool, SessionError>(
                SessionError::NoActiveSession,
            ) && final(self)@ == old(self)@,
            old(self)@.has(guild_id) ==> {
                let s = old(self)@.session_of(guild_id);
                &&& final(self)@ == old(self)@.with_session(guild_id, s.toggle_step())
                &&& r == Ok::<bool, SessionError>(!s.loop_current)
            },
    {
        match self.take_entry(guild_id) {
            None => {
                proof {
                    assert(self@ =~= old(self)@);
                }
                Err(SessionError::NoActiveSession)
            },
            Some(mut e) => {
                let r = e.session.toggle_loop();
                self.restore(guild_id, e);
                proof {
                    assert(self@ =~= old(self)@.with_session(
                        guild_id,
                        old(self)@.session_of(guild_id).toggle_step(),
                    ));
                }
                Ok(r)
            },
        }
    }

    /// Drops every queued track of the guild and leaves its session
    /// idle; in-flight resolutions against it become stale. Returns how
    /// many tracks were discarded; a guild without a session counts
    /// zero.
    pub fn clear(&mut self, guild_id: u64) -> (r: usize)
        requires
            old(self)@.wf(),
        ensures
            final(self)@.wf(),
            !old(self)@.has(guild_id) ==> r == 0 && final(self)@ == old(self)@,
            old(self)@.has(guild_id) ==> {
                let s = old(self)@.session_of(guild_id);
                &&& r == s.size()
                &&& final(self)@.has(guild_id)
                &&& final(self)@.session_of(guild_id) == s.clear_step()
                &&& final(self)@.session_of(guild_id).status is Idle
                &&& final(self)@.session_of(guild_id).size() == 0
                &&& final(self)@.entries == old(self)@.entries.insert(
                    guild_id,
                    EntryView { gen: old(self)@.next_gen, session: s.clear_step() },
                )
                &&& final(self)@.next_gen == next_id(old(self)@.next_gen)
                &&& (old(self)@.next_gen < u64::MAX ==> final(self)@.gen_of(guild_id) != old(
                    self,
                )@.gen_of(guild_id))
            },
    {
        match self.take_entry(guild_id) {
            None => {
                proof {
                    assert(self@ =~= old(self)@);
                }
                0
            },
            Some(mut e) => {
                let r = e.session.clear();
                e.gen = self.next_gen;
                self.restore(guild_id, e);
                self.bump_gen();
                proof {
                    assert(self@.entries =~= old(self)@.entries.insert(
                        guild_id,
                        EntryView {
                            gen: old(self)@.next_gen,
                            session: old(self)@.session_of(guild_id).clear_step(),
                        },
                    ));
                }
                r
            },
        }
    }

    /// A read-only copy of the guild's current track and pending queue,
    /// taken at one consistent instant, or `None` when the guild has no
    /// session.
    pub fn snapshot(&self, guild_id: u64) -> (r: Option<QueueView>)
        requires
            self@.wf(),
        ensures
            match r {
                None => !self@.has(guild_id),
                Some(q) => self@.has(guild_id) && {
                    let s = self@.session_of(guild_id);
                    &&& (match q.current {
                        Some(t) => s.current == Some(t@),
                        None => s.current is None,
                    })
                    &&& crate::session::tracks_view(q.pending@) == s.pending
                },
            },
    {
        match self.entries.get(&guild_id) {
            Some(e) => Some(e.session.snapshot()),
            None => None,
        }
    }

    /// The identifier of the guild's active stream, or `None` when it
    /// has no session. A finished-stream report must carry it to take
    /// effect.
    pub fn current_play_id(&self, guild_id: u64) -> (r: Option<u64>)
        ensures
            match r {
                None => !self@.has(guild_id),
                Some(p) => self@.has(guild_id) && p == self@.session_of(guild_id).play_id,
            },
    {
        match self.entries.get(&guild_id) {
            Some(e) => Some(e.session.play_id()),
            None => None,
        }
    }

    /// The guild's transport status, or `None` when it has no session.
    pub fn status(&self, guild_id: u64) -> (r: Option<Status>)
        ensures
            match r {
                None => !self@.has(guild_id),
                Some(st) => self@.has(guild_id) && st == self@.session_of(guild_id).status,
            },
    {
        match self.entries.get(&guild_id) {
            Some(e) => Some(e.session.status()),
            None => None,
        }
    }
}

} // verus!

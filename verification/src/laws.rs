//! Laws of the session transition model: properties that relate whole
//! sequences of operations, proved once over the mathematical model
//! that every executable session operation is specified against.

use vstd::prelude::*;

use crate::session::{SessionView, Status};
use crate::track::TrackView;

verus! {

/// One session operation, as a mathematical value.
pub enum Op {
    Enqueue(TrackView),
    EnqueueMany(Seq<TrackView>),
    Skip,
    Finish(u64),
    Pause,
    Resume,
    ToggleLoop,
    Clear,
}

/// The effect of one operation on a session.
pub open spec fn step(s: SessionView, op: Op) -> SessionView {
    match op {
        Op::Enqueue(t) => s.enqueue_step(t),
        Op::EnqueueMany(ts) => s.enqueue_many_step(ts),
        Op::Skip => s.skip_step(),
        Op::Finish(id) => s.finish_step(id),
        Op::Pause => s.pause_step(),
        Op::Resume => s.resume_step(),
        Op::ToggleLoop => s.toggle_step(),
        Op::Clear => s.clear_step(),
    }
}

/// The effect of a whole sequence of operations, first one first.
pub open spec fn run(s: SessionView, ops: Seq<Op>) -> SessionView
    decreases ops.len(),
{
    if ops.len() == 0 {
        s
    } else {
        run(step(s, ops[0]), ops.drop_first())
    }
}

/// How many tracks one operation adds to the session.
pub open spec fn tracks_added(op: Op) -> nat {
    match op {
        Op::Enqueue(_) => 1nat,
        Op::EnqueueMany(ts) => ts.len(),
        _ => 0nat,
    }
}

/// How many tracks a sequence of operations adds.
pub open spec fn tracks_added_all(ops: Seq<Op>) -> nat
    decreases ops.len(),
{
    if ops.len() == 0 {
        0nat
    } else {
        tracks_added(ops[0]) + tracks_added_all(ops.drop_first())
    }
}

/// How many tracks one operation removes (advances past or discards)
/// when applied to session `s`.
pub open spec fn tracks_removed(s: SessionView, op: Op) -> nat {
    match op {
        Op::Skip => if s.current is Some {
            1nat
        } else {
            0nat
        },
        Op::Finish(id) => if s.current is Some && id == s.play_id && !s.loop_current {
            1nat
        } else {
            0nat
        },
        Op::Clear => s.size(),
        _ => 0nat,
    }
}

/// How many tracks a sequence of operations removes, starting from `s`.
pub open spec fn tracks_removed_all(s: SessionView, ops: Seq<Op>) -> nat
    decreases ops.len(),
{
    if ops.len() == 0 {
        0nat
    } else {
        tracks_removed(s, ops[0]) + tracks_removed_all(step(s, ops[0]), ops.drop_first())
    }
}

/// The one structural fact the conservation law rests on: an idle
/// session has no current track. Well-formed sessions satisfy it, and
/// every operation preserves it.
pub open spec fn idle_has_no_current(s: SessionView) -> bool {
    s.status is Idle ==> s.current is None
}

/// Enqueuing a list grows the size by exactly its length.
pub proof fn lemma_enqueue_many_size(s: SessionView, ts: Seq<TrackView>)
    requires
        idle_has_no_current(s),
    ensures
        s.enqueue_many_step(ts).size() == s.size() + ts.len(),
        idle_has_no_current(s.enqueue_many_step(ts)),
    decreases ts.len(),
{
    if ts.len() > 0 {
        lemma_enqueue_many_size(s.enqueue_step(ts[0]), ts.drop_first());
    }
}

/// One step conserves the track count: the new size plus what the step
/// removed equals the old size plus what it added. Every step also
/// preserves the structural fact above.
pub proof fn lemma_step_conserves(s: SessionView, op: Op)
    requires
        idle_has_no_current(s),
    ensures
        step(s, op).size() + tracks_removed(s, op) == s.size() + tracks_added(op),
        idle_has_no_current(step(s, op)),
{
    match op {
        Op::EnqueueMany(ts) => {
            lemma_enqueue_many_size(s, ts);
        },
        _ => {},
    }
}

/// Queue size is conserved: for every sequence of operations on one
/// session, the tracks it ends up holding plus the tracks the run
/// advanced past or cleared equal the tracks it started with plus the
/// tracks the run enqueued.
pub proof fn lemma_queue_size_conserved(s: SessionView, ops: Seq<Op>)
    requires
        idle_has_no_current(s),
    ensures
        run(s, ops).size() + tracks_removed_all(s, ops) == s.size() + tracks_added_all(ops),
    decreases ops.len(),
{
    if ops.len() > 0 {
        lemma_step_conserves(s, ops[0]);
        lemma_queue_size_conserved(step(s, ops[0]), ops.drop_first());
    }
}

/// Toggling the loop flag twice restores the session exactly, and one
/// toggle never changes the current track or the pending queue.
pub proof fn lemma_toggle_loop_twice(s: SessionView)
    ensures
        s.toggle_step().toggle_step() == s,
        s.toggle_step().current == s.current,
        s.toggle_step().pending == s.pending,
{
    assert(s.toggle_step().toggle_step() =~= s);
}

/// Clearing leaves any session idle and empty, and what it discards is
/// exactly what the session held.
pub proof fn lemma_clear_resets(s: SessionView)
    ensures
        s.clear_step().status is Idle,
        s.clear_step().current is None,
        s.clear_step().pending.len() == 0,
        tracks_removed(s, Op::Clear) == s.size(),
{
}

/// Stream identifiers never regress: no operation re-issues an
/// identifier that an earlier stream already carried, so a completion
/// report can always be matched against the stream it belongs to.
pub proof fn lemma_play_id_monotonic(s: SessionView, ops: Seq<Op>)
    ensures
        run(s, ops).play_id >= s.play_id,
    decreases ops.len(),
{
    if ops.len() > 0 {
        if let Op::EnqueueMany(ts) = ops[0] {
            lemma_enqueue_many_play_id(s, ts);
        }
        lemma_play_id_monotonic(step(s, ops[0]), ops.drop_first());
    }
}

/// Helper for the above: enqueuing a list never lowers the stream
/// identifier either.
proof fn lemma_enqueue_many_play_id(s: SessionView, ts: Seq<TrackView>)
    ensures
        s.enqueue_many_step(ts).play_id >= s.play_id,
    decreases ts.len(),
{
    if ts.len() > 0 {
        lemma_enqueue_many_play_id(s.enqueue_step(ts[0]), ts.drop_first());
    }
}

/// A skip and a finished-stream report for the same current track never
/// both advance the queue: after the skip, the report carries the
/// identifier of a stream that is no longer active and changes nothing.
pub proof fn lemma_skip_then_stale_finish(s: SessionView, id: u64)
    requires
        s.current is Some,
        id == s.play_id,
        s.play_id < u64::MAX,
    ensures
        s.skip_step().finish_step(id) == s.skip_step(),
{
}

/// Two finished-stream reports for the same stream never both advance
/// the queue: the first advance retires the stream identifier, so the
/// duplicate changes nothing.
pub proof fn lemma_duplicate_finish_ignored(s: SessionView, id: u64)
    requires
        id == s.play_id,
        s.play_id < u64::MAX,
    ensures
        s.finish_step(id).finish_step(id) == s.finish_step(id),
{
}

} // verus!

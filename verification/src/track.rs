//! The immutable description of one playable item.

use vstd::prelude::*;

verus! {

/// Mathematical image of a [`Track`]: the same data over `Seq<char>`.
pub struct TrackView {
    pub source: Seq<char>,
    pub title: Seq<char>,
    pub duration: Option<u64>,
    pub requested_by: u64,
}

/// One playable media item: where to fetch it, what to display for it,
/// how long it runs (when known, in seconds), and who asked for it.
/// Immutable once constructed.
pub struct Track {
    pub source: String,
    pub title: String,
    pub duration: Option<u64>,
    pub requested_by: u64,
}

impl View for Track {
    type V = TrackView;

    open spec fn view(&self) -> TrackView {
        TrackView {
            source: self.source@,
            title: self.title@,
            duration: self.duration,
            requested_by: self.requested_by,
        }
    }
}

impl Track {
    pub fn new(source: String, title: String, duration: Option<u64>, requested_by: u64) -> (t:
        Track)
        ensures
            t@ == (TrackView {
                source: source@,
                title: title@,
                duration: duration,
                requested_by: requested_by,
            }),
    {
        Track { source, title, duration, requested_by }
    }
}

impl Clone for Track {
    fn clone(&self) -> (t: Track)
        ensures
            t == *self,
    {
        Track {
            source: self.source.clone(),
            title: self.title.clone(),
            duration: self.duration,
            requested_by: self.requested_by,
        }
    }
}

} // verus!

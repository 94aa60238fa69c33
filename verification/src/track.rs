//! Tracks: what the player can play.

use vstd::prelude::*;

verus! {

/// A playable file: the title shown and searched, and where the file is.
pub struct Track {
    pub title: String,
    pub path: String,
}

/// What a [`Track`] holds, as text.
pub struct TrackView {
    pub title: Seq<char>,
    pub path: Seq<char>,
}

impl View for Track {
    type V = TrackView;

    open spec fn view(&self) -> TrackView {
        TrackView { title: self.title@, path: self.path@ }
    }
}

/// The views of a list of tracks, in order.
pub open spec fn track_views(tracks: Seq<Track>) -> Seq<TrackView> {
    Seq::new(tracks.len(), |i: int| tracks[i]@)
}

} // verus!

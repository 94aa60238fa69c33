//! The playlist navigator: which track comes next.
//!
//! The navigator owns the track list, the indices of the tracks that match
//! the current search, an optional shuffled order of those indices, and the
//! repeat-one flag. Tracks are named by their index into the track list.

use vstd::prelude::*;
use crate::ordering::{is_title_ordering, ordered_by_title, sort_by_title};
use crate::search::{chars_occur_within, folded_chars, lowercase, title_matches};
use crate::track::{track_views, Track, TrackView};
use crate::shuffle::shuffle_in_place;
use crate::time::RESTART_THRESHOLD;

verus! {

/// The indices `0, 1, .., count - 1`.
pub open spec fn all_indices(count: nat) -> Seq<usize> {
    Seq::new(count, |i: int| i as usize)
}

/// `filtered` lists, in ascending order and each once, exactly the indices
/// of the tracks whose title matches `query`.
pub open spec fn is_filtered_sequence(
    filtered: Seq<usize>,
    tracks: Seq<TrackView>,
    query: Seq<char>,
) -> bool {
    &&& forall|a: int, b: int| 0 <= a < b < filtered.len() ==> filtered[a] < filtered[b]
    &&& forall|k: int|
        0 <= k < filtered.len() ==> (#[trigger] filtered[k]) < tracks.len() && title_matches(
            tracks[filtered[k] as int].title,
            query,
        )
    &&& forall|i: int|
        0 <= i < tracks.len() && title_matches(#[trigger] tracks[i].title, query)
            ==> filtered.contains(i as usize)
}

/// The element that follows the first occurrence of `current` in `order`;
/// none when `current` does not occur or stands last.
pub open spec fn successor(order: Seq<usize>, current: usize) -> Option<usize> {
    match order.index_of_first(current) {
        Some(at) => if at + 1 < order.len() {
            Some(order[at + 1])
        } else {
            None
        },
        None => None,
    }
}

/// The element that precedes the first occurrence of `current` in `order`;
/// none when `current` does not occur or stands first.
pub open spec fn predecessor(order: Seq<usize>, current: usize) -> Option<usize> {
    match order.index_of_first(current) {
        Some(at) => if at > 0 {
            Some(order[at - 1])
        } else {
            None
        },
        None => None,
    }
}

/// As [`predecessor`], but where that gives none the last element of `order`
/// is taken; none only when `order` is empty.
pub open spec fn wrapping_predecessor(order: Seq<usize>, current: usize) -> Option<usize> {
    match predecessor(order, current) {
        Some(before) => Some(before),
        None => if order.len() > 0 {
            Some(order.last())
        } else {
            None
        },
    }
}

/// What "previous" asks for.
#[derive(Debug, Clone, Copy, PartialEq, Eq, Structural)]
pub enum PrevTarget {
    /// Play the current track again from its start; no change of track.
    Restart,
    /// Change to the track with this index.
    Track(usize),
    /// There is no earlier track: nothing changes.
    Stay,
}

/// The navigator as plain data.
#[verifier::ext_equal]
pub struct NavigatorView {
    /// The track list.
    pub tracks: Seq<TrackView>,
    /// The search text as it was last set.
    pub query: Seq<char>,
    /// Indices of the tracks that match the search, ascending.
    pub filtered: Seq<usize>,
    /// Whether shuffle is on.
    pub shuffle: bool,
    /// The shuffled order taken when shuffle was last switched on.
    pub shuffle_order: Seq<usize>,
    /// Whether repeat-one is on.
    pub repeat_one: bool,
}

impl NavigatorView {
    /// The track list is in title order, the filtered sequence belongs to
    /// the search text, and the shuffled order names tracks of the list,
    /// none of them twice.
    pub open spec fn wf(self) -> bool {
        &&& ordered_by_title(self.tracks)
        &&& is_filtered_sequence(self.filtered, self.tracks, self.query)
        &&& self.shuffle_order.no_duplicates()
        &&& forall|k: int|
            0 <= k < self.shuffle_order.len() ==> #[trigger] self.shuffle_order[k]
                < self.tracks.len()
    }

    /// The order in which tracks are walked: the shuffled order while
    /// shuffle is on, the filtered sequence otherwise.
    pub open spec fn walk_order(self) -> Seq<usize> {
        if self.shuffle {
            self.shuffle_order
        } else {
            self.filtered
        }
    }

    /// The track to play after `current`.
    pub open spec fn next_of(self, current: usize) -> Option<usize> {
        if self.repeat_one {
            Some(current)
        } else {
            successor(self.walk_order(), current)
        }
    }

    /// What "previous" asks for when `current` has played for `position`
    /// nanoseconds.
    pub open spec fn prev_of(self, current: usize, position: u64) -> PrevTarget {
        if position > RESTART_THRESHOLD {
            PrevTarget::Restart
        } else {
            let before = if self.shuffle {
                wrapping_predecessor(self.shuffle_order, current)
            } else {
                predecessor(self.filtered, current)
            };
            match before {
                Some(track) => PrevTarget::Track(track),
                None => PrevTarget::Stay,
            }
        }
    }
}

/// The position of the first occurrence of `wanted` in `order`.
fn first_position(order: &Vec<usize>, wanted: usize) -> (at: Option<usize>)
    ensures
        match at {
            Some(p) => p < order.len() && order@.index_of_first(wanted) == Some(p as int),
            None => order@.index_of_first(wanted) is None,
        },
{
    let mut p: usize = 0;
    while p < order.len()
        invariant
            p <= order.len(),
            forall|q: int| 0 <= q < p ==> order@[q] != wanted,
        decreases order.len() - p,
    {
        if order[p] == wanted {
            proof {
                order@.index_of_first_ensures(wanted);
            }
            return Some(p);
        }
        p += 1;
    }
    proof {
        order@.index_of_first_ensures(wanted);
    }
    None
}

/// The element after the first occurrence of `current` in `order`: none
/// when `current` does not occur in `order` or stands last in it.
pub fn step_forward(order: &Vec<usize>, current: usize) -> (next: Option<usize>)
    ensures
        next == successor(order@, current),
{
    match first_position(order, current) {
        Some(at) => if at + 1 < order.len() {
            Some(order[at + 1])
        } else {
            None
        },
        None => None,
    }
}

/// The element before the first occurrence of `current` in `order`:
/// none when `current` does not occur in `order` or stands first in it.
pub fn step_back(order: &Vec<usize>, current: usize) -> (before: Option<usize>)
    ensures
        before == predecessor(order@, current),
{
    match first_position(order, current) {
        Some(at) => if at > 0 {
            Some(order[at - 1])
        } else {
            None
        },
        None => None,
    }
}

/// As [`step_back`], but going round to the last element of `order` where
/// `current` stands first or does not occur; none only for an empty order.
pub fn step_back_wrapping(order: &Vec<usize>, current: usize) -> (before: Option<usize>)
    ensures
        before == wrapping_predecessor(order@, current),
{
    match step_back(order, current) {
        Some(track) => Some(track),
        None => if order.len() > 0 {
            Some(order[order.len() - 1])
        } else {
            None
        },
    }
}

/// The indices of the tracks whose title matches `query`, ascending. The
/// empty query matches every track.
pub fn filter_tracks(tracks: &Vec<Track>, query: &str) -> (filtered: Vec<usize>)
    ensures
        is_filtered_sequence(filtered@, track_views(tracks@), query@),
        query@.len() == 0 ==> filtered@ == all_indices(tracks@.len()),
{
    let ghost views = track_views(tracks@);
    let every = query.is_empty();
    let folded_query = folded_chars(query);
    let mut filtered: Vec<usize> = Vec::new();
    let mut i: usize = 0;
    while i < tracks.len()
        invariant
            i <= tracks.len(),
            views == track_views(tracks@),
            every == (query@.len() == 0),
            folded_query@ == lowercase(query@),
            forall|a: int, b: int| 0 <= a < b < filtered.len() ==> filtered@[a] < filtered@[b],
            forall|k: int|
                0 <= k < filtered.len() ==> (#[trigger] filtered@[k]) < i && title_matches(
                    views[filtered@[k] as int].title,
                    query@,
                ),
            forall|j: int|
                0 <= j < i && title_matches(#[trigger] views[j].title, query@)
                    ==> filtered@.contains(j as usize),
            query@.len() == 0 ==> filtered@ == all_indices(i as nat),
        decreases tracks.len() - i,
    {
        let ghost before = filtered@;
        let hit = every || {
            let folded_title = folded_chars(tracks[i].title.as_str());
            chars_occur_within(&folded_query, &folded_title)
        };
        if hit {
            filtered.push(i);
            assert forall|j: int|
                0 <= j < i + 1 && title_matches(#[trigger] views[j].title, query@) implies filtered@.contains(
                j as usize,
            ) by {
                if j < i {
                    let at = before.index_of(j as usize);
                    assert(filtered@[at] == j as usize);
                } else {
                    assert(filtered@[filtered.len() - 1] == j as usize);
                }
            }
        }
        i += 1;
    }
    filtered
}

/// The playlist navigator.
pub struct PlaylistNavigator {
    tracks: Vec<Track>,
    query: String,
    filtered: Vec<usize>,
    shuffle: bool,
    shuffle_order: Vec<usize>,
    repeat_one: bool,
}

impl View for PlaylistNavigator {
    type V = NavigatorView;

    closed spec fn view(&self) -> NavigatorView {
        NavigatorView {
            tracks: track_views(self.tracks@),
            query: self.query@,
            filtered: self.filtered@,
            shuffle: self.shuffle,
            shuffle_order: self.shuffle_order@,
            repeat_one: self.repeat_one,
        }
    }
}

impl PlaylistNavigator {
    /// A navigator over `tracks` put in title order, with an empty search,
    /// which every track matches, shuffle off and repeat-one off.
    pub fn new(tracks: Vec<Track>) -> (navigator: Self)
        ensures
            navigator@.wf(),
            is_title_ordering(navigator@.tracks, track_views(tracks@)),
            navigator@ == (NavigatorView {
                tracks: navigator@.tracks,
                query: Seq::<char>::empty(),
                filtered: all_indices(tracks@.len()),
                shuffle: false,
                shuffle_order: Seq::<usize>::empty(),
                repeat_one: false,
            }),
    {
        let ghost given = track_views(tracks@);
        let tracks = sort_by_title(tracks);
        proof {
            assert(track_views(tracks@).len() == track_views(tracks@).to_multiset().len()) by {
                broadcast use vstd::seq_lib::group_to_multiset_ensures;

            }
            assert(given.len() == given.to_multiset().len()) by {
                broadcast use vstd::seq_lib::group_to_multiset_ensures;

            }
        }
        let query = String::new();
        let filtered = filter_tracks(&tracks, query.as_str());
        PlaylistNavigator {
            tracks,
            query,
            filtered,
            shuffle: false,
            shuffle_order: Vec::new(),
            repeat_one: false,
        }
    }

    /// The track to play after `current`: `current` again while repeat-one
    /// is on; else the track that follows it in the shuffled order, while
    /// shuffle is on, or in the filtered sequence. There is no wrapping
    /// round: after the last track, or when `current` is not in the order,
    /// nothing follows.
    pub fn next(&self, current: usize) -> (next: Option<usize>)
        ensures
            next == self@.next_of(current),
            self@.repeat_one ==> next == Some(current),
    {
        if self.repeat_one {
            Some(current)
        } else if self.shuffle {
            step_forward(&self.shuffle_order, current)
        } else {
            step_forward(&self.filtered, current)
        }
    }

    /// What "previous" asks for when `current` has played for `position`
    /// nanoseconds. Past three seconds the current track starts over. Else
    /// the track before `current` is taken: in the shuffled order, while
    /// shuffle is on, going round to its last track when `current` stands
    /// first or is not in it; in the filtered sequence otherwise, where
    /// nothing precedes the first track.
    pub fn prev(&self, current: usize, position: u64) -> (target: PrevTarget)
        ensures
            target == self@.prev_of(current, position),
    {
        if position > RESTART_THRESHOLD {
            return PrevTarget::Restart;
        }
        let before = if self.shuffle {
            step_back_wrapping(&self.shuffle_order, current)
        } else {
            step_back(&self.filtered, current)
        };
        match before {
            Some(track) => PrevTarget::Track(track),
            None => PrevTarget::Stay,
        }
    }

    /// The track to play when `current` has played to its end: the same
    /// answer as [`PlaylistNavigator::next`]. Where it is none, playback
    /// ends.
    pub fn auto_advance(&self, current: usize) -> (next: Option<usize>)
        ensures
            next == self@.next_of(current),
    {
        self.next(current)
    }

    /// Sets the search text and recomputes the filtered sequence from it.
    /// The shuffled order stays as it was taken.
    pub fn set_search(&mut self, query: &str)
        requires
            old(self)@.wf(),
        ensures
            final(self)@.wf(),
            final(self)@ == (NavigatorView {
                query: query@,
                filtered: final(self)@.filtered,
                ..old(self)@
            }),
            query@.len() == 0 ==> final(self)@.filtered == all_indices(old(self)@.tracks.len()),
    {
        let filtered = filter_tracks(&self.tracks, query);
        self.filtered = filtered;
        self.query = query.to_owned();
    }

    /// Switches shuffle on or off and returns the new setting. Switching it
    /// on takes a fresh random order of the tracks that the search matches
    /// now; switching it off leaves the last order untouched.
    pub fn toggle_shuffle(&mut self) -> (enabled: bool)
        requires
            old(self)@.wf(),
        ensures
            final(self)@.wf(),
            enabled == !old(self)@.shuffle,
            final(self)@ == (NavigatorView {
                shuffle: enabled,
                shuffle_order: final(self)@.shuffle_order,
                ..old(self)@
            }),
            enabled ==> final(self)@.shuffle_order.to_multiset() == old(self)@.filtered.to_multiset(),
            enabled ==> final(self)@.shuffle_order.len() == old(self)@.filtered.len(),
            !enabled ==> final(self)@.shuffle_order == old(self)@.shuffle_order,
    {
        self.shuffle = !self.shuffle;
        if self.shuffle {
            let mut order = self.filtered.clone();
            shuffle_in_place(&mut order);
            proof {
                lemma_reordering_keeps_validity(self.filtered@, order@, self@.tracks.len());
            }
            self.shuffle_order = order;
        }
        self.shuffle
    }

    /// The track from which to step when the user has selected `selected`:
    /// the selected track, else the first track that the search matches.
    pub fn current_or_first(&self, selected: Option<usize>) -> (current: Option<usize>)
        ensures
            current == match selected {
                Some(index) => Some(index),
                None => if self@.filtered.len() > 0 {
                    Some(self@.filtered[0])
                } else {
                    None
                },
            },
    {
        match selected {
            Some(index) => Some(index),
            None => if self.filtered.len() > 0 {
                Some(self.filtered[0])
            } else {
                None
            },
        }
    }

    /// Switches repeat-one on or off and returns the new setting.
    pub fn toggle_repeat_one(&mut self) -> (enabled: bool)
        ensures
            enabled == !old(self)@.repeat_one,
            final(self)@ == (NavigatorView { repeat_one: enabled, ..old(self)@ }),
    {
        self.repeat_one = !self.repeat_one;
        self.repeat_one
    }

    /// The indices of the tracks that the search matches, ascending.
    pub fn filtered_indices(&self) -> (filtered: &Vec<usize>)
        ensures
            filtered@ == self@.filtered,
    {
        &self.filtered
    }

    /// The number of tracks in the list.
    pub fn track_count(&self) -> (count: usize)
        ensures
            count == self@.tracks.len(),
    {
        self.tracks.len()
    }

    /// The track with the index `index`, where the list has one.
    pub fn track(&self, index: usize) -> (track: Option<&Track>)
        ensures
            track is Some <==> index < self@.tracks.len(),
            track is Some ==> track->0@ == self@.tracks[index as int],
    {
        if index < self.tracks.len() {
            Some(&self.tracks[index])
        } else {
            None
        }
    }

    /// The search text as it was last set.
    pub fn search(&self) -> (query: &String)
        ensures
            query@ == self@.query,
    {
        &self.query
    }

    /// Whether shuffle is on.
    pub fn shuffle_enabled(&self) -> (enabled: bool)
        ensures
            enabled == self@.shuffle,
    {
        self.shuffle
    }

    /// Whether repeat-one is on.
    pub fn repeat_one_enabled(&self) -> (enabled: bool)
        ensures
            enabled == self@.repeat_one,
    {
        self.repeat_one
    }
}

/// A reordering of an ascending list of track indices names the same tracks,
/// none of them twice.
proof fn lemma_reordering_keeps_validity(filtered: Seq<usize>, order: Seq<usize>, count: nat)
    requires
        forall|a: int, b: int| 0 <= a < b < filtered.len() ==> filtered[a] < filtered[b],
        forall|k: int| 0 <= k < filtered.len() ==> (#[trigger] filtered[k]) < count,
        order.to_multiset() == filtered.to_multiset(),
    ensures
        order.no_duplicates(),
        order.len() == filtered.len(),
        forall|k: int| 0 <= k < order.len() ==> (#[trigger] order[k]) < count,
{
    broadcast use vstd::seq_lib::group_to_multiset_ensures;

    assert(filtered.len() == filtered.to_multiset().len());
    filtered.lemma_multiset_has_no_duplicates();
    order.lemma_multiset_has_no_duplicates_conv();
    assert forall|k: int| 0 <= k < order.len() implies (#[trigger] order[k]) < count by {
        assert(order.to_multiset().count(order[k]) > 0);
    }
}

/// In an order without repeats, the neighbours of the element at position
/// `at` are the elements at the positions next to it.
pub proof fn lemma_neighbours_at(order: Seq<usize>, at: int)
    requires
        order.no_duplicates(),
        0 <= at < order.len(),
    ensures
        successor(order, order[at]) == if at + 1 < order.len() {
            Some(order[at + 1])
        } else {
            None
        },
        predecessor(order, order[at]) == if at > 0 {
            Some(order[at - 1])
        } else {
            None
        },
{
    order.index_of_first_ensures(order[at]);
}

/// An element that does not occur in `order` has no neighbours there.
pub proof fn lemma_no_neighbours_outside(order: Seq<usize>, current: usize)
    requires
        !order.contains(current),
    ensures
        successor(order, current) is None,
        predecessor(order, current) is None,
{
    order.index_of_first_ensures(current);
}

/// In an order without repeats, the element before the one that follows
/// `current` is `current`, and the element after the one that precedes
/// `current` is `current`.
pub proof fn lemma_steps_undo_each_other(order: Seq<usize>, current: usize)
    requires
        order.no_duplicates(),
    ensures
        successor(order, current) is Some ==> predecessor(order, successor(order, current)->0)
            == Some(current),
        predecessor(order, current) is Some ==> successor(order, predecessor(order, current)->0)
            == Some(current),
{
    order.index_of_first_ensures(current);
    if successor(order, current) is Some {
        let at = order.index_of_first(current)->0;
        let next = order[at + 1];
        order.index_of_first_ensures(next);
    }
    if predecessor(order, current) is Some {
        let at = order.index_of_first(current)->0;
        let before = order[at - 1];
        order.index_of_first_ensures(before);
    }
}

/// With repeat-one off, going to the next track and then asking for the
/// previous one, before three seconds of it have played, leads back to the
/// track one came from: along the filtered sequence, and along the shuffled
/// order as well.
pub proof fn lemma_prev_undoes_next(nav: NavigatorView, current: usize, position: u64)
    requires
        nav.wf(),
        !nav.repeat_one,
        position <= RESTART_THRESHOLD,
        nav.next_of(current) is Some,
    ensures
        nav.prev_of(nav.next_of(current)->0, position) == PrevTarget::Track(current),
{
    lemma_steps_undo_each_other(nav.walk_order(), current);
}

/// With shuffle and repeat-one off, going to the previous track and then to
/// the next one leads back to the track one came from.
pub proof fn lemma_next_undoes_prev(nav: NavigatorView, current: usize, position: u64)
    requires
        nav.wf(),
        !nav.shuffle,
        !nav.repeat_one,
        nav.prev_of(current, position) is Track,
    ensures
        nav.next_of(nav.prev_of(current, position)->Track_0) == Some(current),
{
    lemma_steps_undo_each_other(nav.filtered, current);
}

/// Two ascending sequences that hold the same indices are the same
/// sequence.
proof fn lemma_ascending_same_members(left: Seq<usize>, right: Seq<usize>)
    requires
        forall|a: int, b: int| 0 <= a < b < left.len() ==> left[a] < left[b],
        forall|a: int, b: int| 0 <= a < b < right.len() ==> right[a] < right[b],
        forall|index: usize| left.contains(index) <==> right.contains(index),
    ensures
        left == right,
    decreases left.len(),
{
    if left.len() == 0 {
        if right.len() > 0 {
            assert(right.contains(right[0]));
        }
    } else {
        let top = left.last();
        assert(right.contains(top));
        let at = choose|at: int| 0 <= at < right.len() && right[at] == top;
        assert(left.contains(right.last()));
        assert(at == right.len() - 1);
        let left_rest = left.drop_last();
        let right_rest = right.drop_last();
        assert forall|index: usize| left_rest.contains(index) <==> right_rest.contains(
            index,
        ) by {
            if left_rest.contains(index) {
                let i = choose|i: int| 0 <= i < left_rest.len() && left_rest[i] == index;
                assert(left.contains(index));
                let j = choose|j: int| 0 <= j < right.len() && right[j] == index;
                assert(right_rest[j] == index);
            }
            if right_rest.contains(index) {
                let j = choose|j: int| 0 <= j < right_rest.len() && right_rest[j] == index;
                assert(right.contains(index));
                let i = choose|i: int| 0 <= i < left.len() && left[i] == index;
                assert(left_rest[i] == index);
            }
        }
        lemma_ascending_same_members(left_rest, right_rest);
        assert(right =~= right_rest.push(top));
    }
}

/// A track list and a search text have one filtered sequence only.
pub proof fn lemma_filtered_sequence_is_unique(
    left: Seq<usize>,
    right: Seq<usize>,
    tracks: Seq<TrackView>,
    query: Seq<char>,
)
    requires
        is_filtered_sequence(left, tracks, query),
        is_filtered_sequence(right, tracks, query),
    ensures
        left == right,
{
    assert forall|index: usize| left.contains(index) <==> right.contains(index) by {
        if left.contains(index) {
            let i = left.index_of(index);
            assert(title_matches(tracks[left[i] as int].title, query));
        }
        if right.contains(index) {
            let j = right.index_of(index);
            assert(title_matches(tracks[right[j] as int].title, query));
        }
    }
    lemma_ascending_same_members(left, right);
}

} // verus!

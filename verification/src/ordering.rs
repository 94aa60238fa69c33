//! The order of the track list: ascending by title, letter case set aside.
//!
//! Titles are compared by their lower-cased text, character by character in
//! dictionary order of the character codes. Tracks whose titles compare
//! equal keep the order in which they were given.

use vstd::prelude::*;
use crate::search::{folded_chars, lowercase};
use crate::track::{track_views, Track, TrackView};

verus! {

/// `left` and `right` hold the same characters at their first `count`
/// positions.
pub open spec fn agree_before(left: Seq<char>, right: Seq<char>, count: int) -> bool {
    forall|j: int| 0 <= j < count ==> left[j] == right[j]
}

/// `left` and `right` first differ at position `at`, and there `left` has
/// the character with the smaller code.
pub open spec fn smaller_at(left: Seq<char>, right: Seq<char>, at: int) -> bool {
    &&& 0 <= at < left.len()
    &&& at < right.len()
    &&& agree_before(left, right, at)
    &&& (left[at] as u32) < (right[at] as u32)
}

/// Dictionary order: `left` is the beginning of `right` (or all of it), or
/// at the first position where they differ `left` has the smaller
/// character.
pub open spec fn text_le(left: Seq<char>, right: Seq<char>) -> bool {
    ||| left.len() <= right.len() && agree_before(left, right, left.len() as int)
    ||| exists|at: int| smaller_at(left, right, at)
}

/// Dictionary order carries over: from `a` before `b` and `b` before `c`,
/// `a` before `c`.
pub proof fn lemma_text_le_transitive(a: Seq<char>, b: Seq<char>, c: Seq<char>)
    requires
        text_le(a, b),
        text_le(b, c),
    ensures
        text_le(a, c),
{
    let a_differs = exists|at: int| smaller_at(a, b, at);
    let b_differs = exists|at: int| smaller_at(b, c, at);
    if a_differs && b_differs {
        let first = choose|at: int| smaller_at(a, b, at);
        let second = choose|at: int| smaller_at(b, c, at);
        if first <= second {
            assert(smaller_at(a, c, first));
        } else {
            assert(smaller_at(a, c, second));
        }
    } else if a_differs {
        let first = choose|at: int| smaller_at(a, b, at);
        assert(smaller_at(a, c, first));
    } else if b_differs {
        let second = choose|at: int| smaller_at(b, c, at);
        if second < a.len() {
            assert(smaller_at(a, c, second));
        }
    }
}

/// Two texts that each come no later than the other are the same text.
pub proof fn lemma_text_le_antisymmetric(a: Seq<char>, b: Seq<char>)
    requires
        text_le(a, b),
        text_le(b, a),
    ensures
        a == b,
{
    assert forall|at: int| !smaller_at(a, b, at) by {
        if smaller_at(a, b, at) {
            if exists|other: int| smaller_at(b, a, other) {
                let other = choose|other: int| smaller_at(b, a, other);
                if other < at {
                    assert(a[other] == b[other]);
                } else if other > at {
                    assert(b[at] == a[at]);
                }
            } else {
                assert(b[at] == a[at]);
            }
        }
    }
    assert forall|at: int| !smaller_at(b, a, at) by {
        if smaller_at(b, a, at) {
            assert(a[at] == b[at]);
        }
    }
    assert(a =~= b);
}

/// Whether `left` has the smaller character code. Of two different
/// characters one has the smaller code.
fn code_less(left: char, right: char) -> (less: bool)
    ensures
        less == ((left as u32) < (right as u32)),
        left != right && !less ==> (right as u32) < (left as u32),
{
    left < right
}

/// Whether `left` comes no later than `right` in dictionary order. Of any
/// two texts one comes no later than the other.
pub fn text_no_later(left: &Vec<char>, right: &Vec<char>) -> (no_later: bool)
    ensures
        no_later == text_le(left@, right@),
        !no_later ==> text_le(right@, left@) && left@ != right@,
{
    let mut at: usize = 0;
    while at < left.len() && at < right.len()
        invariant
            at <= left.len(),
            at <= right.len(),
            agree_before(left@, right@, at as int),
        decreases left.len() - at,
    {
        if left[at] != right[at] {
            let smaller = code_less(left[at], right[at]);
            proof {
                if smaller {
                    assert(smaller_at(left@, right@, at as int));
                } else {
                    assert(smaller_at(right@, left@, at as int));
                    assert forall|other: int| !smaller_at(left@, right@, other) by {
                        if other > at && smaller_at(left@, right@, other) {
                            assert(left@[at as int] == right@[at as int]);
                        }
                    }
                }
            }
            return smaller;
        }
        at += 1;
    }
    if at == left.len() {
        true
    } else {
        proof {
            assert forall|other: int| !smaller_at(left@, right@, other) by {}
        }
        false
    }
}

/// The text by which a track is ordered: its lower-cased title.
pub open spec fn title_key(track: TrackView) -> Seq<char> {
    lowercase(track.title)
}

/// Titles ascend along `tracks`, letter case set aside.
pub open spec fn ordered_by_title(tracks: Seq<TrackView>) -> bool {
    forall|i: int, j: int|
        0 <= i < j < tracks.len() ==> text_le(
            title_key(#[trigger] tracks[i]),
            title_key(#[trigger] tracks[j]),
        )
}

/// The test for a track's key being `key`.
pub open spec fn has_key(key: Seq<char>) -> spec_fn(TrackView) -> bool {
    |track: TrackView| title_key(track) == key
}

/// The tracks of `tracks` whose key is `key`, in the order they have there.
pub open spec fn with_key(tracks: Seq<TrackView>, key: Seq<char>) -> Seq<TrackView> {
    tracks.filter(has_key(key))
}

/// `sorted` is `given` put in title order: titles ascend, the tracks are
/// the same, each as often as given, and tracks whose titles compare equal
/// stand in the order given.
pub open spec fn is_title_ordering(sorted: Seq<TrackView>, given: Seq<TrackView>) -> bool {
    &&& ordered_by_title(sorted)
    &&& sorted.to_multiset() == given.to_multiset()
    &&& forall|key: Seq<char>| #[trigger] with_key(sorted, key) == with_key(given, key)
}

/// No track of `tracks` has the key `key`: none is kept.
proof fn lemma_none_with_key(tracks: Seq<TrackView>, key: Seq<char>)
    requires
        forall|i: int| 0 <= i < tracks.len() ==> title_key(#[trigger] tracks[i]) != key,
    ensures
        with_key(tracks, key) == Seq::<TrackView>::empty(),
{
    let kept = with_key(tracks, key);
    if kept.len() > 0 {
        tracks.lemma_filter_pred(has_key(key), 0);
        tracks.lemma_filter_contains_rev(has_key(key), kept[0]);
        assert(tracks.contains(kept[0]));
    }
}

/// Of a single track, the one is kept whose key it is.
proof fn lemma_single_with_key(track: TrackView, key: Seq<char>)
    ensures
        with_key(seq![track], key) == if title_key(track) == key {
            seq![track]
        } else {
            Seq::<TrackView>::empty()
        },
{
    reveal_with_fuel(Seq::filter, 2);
}

/// Putting `track` into a title ordering of `later`, behind the tracks
/// that come strictly before it and in front of all others, gives the
/// title ordering of `track` followed by `later`.
proof fn lemma_insert_in_order(
    sorted: Seq<TrackView>,
    track: TrackView,
    at: int,
    later: Seq<TrackView>,
)
    requires
        is_title_ordering(sorted, later),
        0 <= at <= sorted.len(),
        forall|q: int|
            0 <= q < at ==> text_le(title_key(#[trigger] sorted[q]), title_key(track))
                && title_key(sorted[q]) != title_key(track),
        at < sorted.len() ==> text_le(title_key(track), title_key(sorted[at])),
    ensures
        is_title_ordering(sorted.insert(at, track), seq![track] + later),
{
    let grown = sorted.insert(at, track);
    let given = seq![track] + later;
    assert forall|i: int, j: int| 0 <= i < j < grown.len() implies text_le(
        title_key(#[trigger] grown[i]),
        title_key(#[trigger] grown[j]),
    ) by {
        if i == at && j - 1 > at {
            lemma_text_le_transitive(
                title_key(track),
                title_key(sorted[at]),
                title_key(sorted[j - 1]),
            );
        }
    }
    assert(grown.to_multiset() == given.to_multiset()) by {
        vstd::seq_lib::to_multiset_insert(sorted, at, track);
        assert(given =~= later.insert(0, track));
        vstd::seq_lib::to_multiset_insert(later, 0, track);
    }
    let head = sorted.take(at);
    let tail = sorted.skip(at);
    assert(sorted =~= head + tail);
    assert(grown =~= head + seq![track] + tail);
    assert forall|key: Seq<char>| #[trigger] with_key(grown, key) == with_key(given, key) by {
        let test = has_key(key);
        Seq::filter_distributes_over_add(head, tail, test);
        Seq::filter_distributes_over_add(head, seq![track], test);
        Seq::filter_distributes_over_add(head + seq![track], tail, test);
        Seq::filter_distributes_over_add(seq![track], later, test);
        lemma_single_with_key(track, key);
        assert(with_key(sorted, key) == with_key(later, key));
        if title_key(track) == key {
            lemma_none_with_key(head, key);
        }
    }
}

/// Where a track with the key `key` goes among tracks with the keys
/// `keys`: behind every key that comes strictly before it.
fn insertion_point(keys: &Vec<Vec<char>>, key: &Vec<char>) -> (at: usize)
    ensures
        at <= keys.len(),
        forall|q: int|
            0 <= q < at ==> text_le((#[trigger] keys@[q])@, key@) && keys@[q]@ != key@,
        at < keys.len() ==> text_le(key@, keys@[at as int]@),
{
    let mut at: usize = 0;
    while at < keys.len()
        invariant
            at <= keys.len(),
            forall|q: int|
                0 <= q < at ==> text_le((#[trigger] keys@[q])@, key@) && keys@[q]@ != key@,
        decreases keys.len() - at,
    {
        if text_no_later(key, &keys[at]) {
            return at;
        }
        at += 1;
    }
    at
}

/// Puts `tracks` in title order: ascending by lower-cased title, tracks
/// with equal lower-cased titles in the order given.
pub fn sort_by_title(tracks: Vec<Track>) -> (sorted: Vec<Track>)
    ensures
        is_title_ordering(track_views(sorted@), track_views(tracks@)),
{
    let ghost given = track_views(tracks@);
    let mut rest = tracks;
    let mut sorted: Vec<Track> = Vec::new();
    let mut keys: Vec<Vec<char>> = Vec::new();
    proof {
        assert(given.skip(given.len() as int) =~= Seq::<TrackView>::empty());
        assert(track_views(sorted@) =~= Seq::<TrackView>::empty());
    }
    while rest.len() > 0
        invariant
            rest.len() <= given.len(),
            track_views(rest@) == given.take(rest.len() as int),
            keys.len() == sorted.len(),
            forall|i: int|
                0 <= i < sorted.len() ==> (#[trigger] keys@[i])@ == title_key(sorted@[i]@),
            is_title_ordering(track_views(sorted@), given.skip(rest.len() as int)),
        decreases rest.len(),
    {
        let ghost before = track_views(sorted@);
        let ghost later = given.skip(rest.len() as int);
        let ghost longer = track_views(rest@);
        let track = rest.pop().unwrap();
        let ghost view = track@;
        let key = folded_chars(track.title.as_str());
        let at = insertion_point(&keys, &key);
        proof {
            assert(view == longer[rest.len() as int]);
            assert forall|q: int| 0 <= q < at implies text_le(
                title_key(#[trigger] before[q]),
                title_key(view),
            ) && title_key(before[q]) != title_key(view) by {
                assert(keys@[q]@ == title_key(sorted@[q]@));
            }
            lemma_insert_in_order(before, view, at as int, later);
            assert(seq![view] + later =~= given.skip(rest.len() as int));
        }
        sorted.insert(at, track);
        keys.insert(at, key);
        proof {
            assert(track_views(sorted@) =~= before.insert(at as int, view));
        }
    }
    proof {
        assert(given.skip(0) =~= given);
    }
    sorted
}

/// Two title-ordered lists of the same tracks, in which the tracks of each
/// key stand in the same order, are the same list.
proof fn lemma_orderings_agree(left: Seq<TrackView>, right: Seq<TrackView>)
    requires
        ordered_by_title(left),
        ordered_by_title(right),
        left.to_multiset() == right.to_multiset(),
        forall|key: Seq<char>| #[trigger] with_key(left, key) == with_key(right, key),
    ensures
        left == right,
    decreases left.len(),
{
    broadcast use vstd::seq_lib::group_to_multiset_ensures;

    assert(left.len() == left.to_multiset().len());
    assert(right.len() == right.to_multiset().len());
    if left.len() == 0 {
        assert(left =~= right);
    } else {
        let ours = left[0];
        let theirs = right[0];
        let left_rest = left.drop_first();
        let right_rest = right.drop_first();
        assert(left =~= seq![ours] + left_rest);
        assert(right =~= seq![theirs] + right_rest);
        assert(title_key(ours) == title_key(theirs)) by {
            assert(left.contains(ours));
            assert(right.to_multiset().count(ours) > 0);
            assert(right.contains(ours));
            let there = right.index_of(ours);
            assert(text_le(title_key(right[0]), title_key(right[there])));
            assert(right.contains(theirs));
            assert(left.to_multiset().count(theirs) > 0);
            assert(left.contains(theirs));
            let here = left.index_of(theirs);
            assert(text_le(title_key(left[0]), title_key(left[here])));
            lemma_text_le_antisymmetric(title_key(ours), title_key(theirs));
        }
        let first_key = title_key(ours);
        Seq::filter_distributes_over_add(seq![ours], left_rest, has_key(first_key));
        Seq::filter_distributes_over_add(seq![theirs], right_rest, has_key(first_key));
        lemma_single_with_key(ours, first_key);
        lemma_single_with_key(theirs, first_key);
        assert(with_key(left, first_key) == with_key(right, first_key));
        assert(with_key(left, first_key)[0] == ours);
        assert(with_key(right, first_key)[0] == theirs);
        assert(ours == theirs);
        assert(left_rest.to_multiset() == right_rest.to_multiset()) by {
            assert(left_rest =~= left.remove(0));
            assert(right_rest =~= right.remove(0));
            vstd::seq_lib::to_multiset_remove(left, 0);
            vstd::seq_lib::to_multiset_remove(right, 0);
        }
        assert forall|key: Seq<char>| #[trigger]
            with_key(left_rest, key) == with_key(right_rest, key) by {
            Seq::filter_distributes_over_add(seq![ours], left_rest, has_key(key));
            Seq::filter_distributes_over_add(seq![ours], right_rest, has_key(key));
            lemma_single_with_key(ours, key);
            assert(with_key(left, key) == with_key(right, key));
            let front = with_key(seq![ours], key);
            let ours_kept = with_key(left_rest, key);
            let theirs_kept = with_key(right_rest, key);
            assert(front + ours_kept == front + theirs_kept);
            assert(ours_kept.len() == theirs_kept.len()) by {
                assert((front + ours_kept).len() == (front + theirs_kept).len());
            }
            assert forall|i: int| 0 <= i < ours_kept.len() implies ours_kept[i]
                == theirs_kept[i] by {
                assert((front + ours_kept)[front.len() + i] == ours_kept[i]);
                assert((front + theirs_kept)[front.len() + i] == theirs_kept[i]);
            }
            assert(ours_kept =~= theirs_kept);
        }
        assert(ordered_by_title(left_rest)) by {
            assert forall|i: int, j: int| 0 <= i < j < left_rest.len() implies text_le(
                title_key(#[trigger] left_rest[i]),
                title_key(#[trigger] left_rest[j]),
            ) by {
                assert(text_le(title_key(left[i + 1]), title_key(left[j + 1])));
            }
        }
        assert(ordered_by_title(right_rest)) by {
            assert forall|i: int, j: int| 0 <= i < j < right_rest.len() implies text_le(
                title_key(#[trigger] right_rest[i]),
                title_key(#[trigger] right_rest[j]),
            ) by {
                assert(text_le(title_key(right[i + 1]), title_key(right[j + 1])));
            }
        }
        lemma_orderings_agree(left_rest, right_rest);
    }
}

/// A list of tracks has one title ordering only.
pub proof fn lemma_title_ordering_is_unique(
    left: Seq<TrackView>,
    right: Seq<TrackView>,
    given: Seq<TrackView>,
)
    requires
        is_title_ordering(left, given),
        is_title_ordering(right, given),
    ensures
        left == right,
{
    assert forall|key: Seq<char>| #[trigger] with_key(left, key) == with_key(right, key) by {
        assert(with_key(left, key) == with_key(given, key));
        assert(with_key(right, key) == with_key(given, key));
    }
    lemma_orderings_agree(left, right);
}

} // verus!

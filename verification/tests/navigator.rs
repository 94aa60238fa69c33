use audio_player::navigator::{
    filter_tracks, step_back, step_back_wrapping, step_forward, PlaylistNavigator, PrevTarget,
};
use audio_player::track::Track;

fn track(title: &str) -> Track {
    Track { title: title.to_string(), path: format!("/music/{title}") }
}

fn six_tracks() -> Vec<Track> {
    vec![
        track("Lambda"),
        track("omega MIX"),
        track("Beta"),
        track("gamma mix"),
        track("Alpha Mix"),
        track("kappa"),
    ]
}

fn titles(navigator: &PlaylistNavigator) -> Vec<String> {
    let mut titles = Vec::new();
    let mut index = 0;
    while let Some(track) = navigator.track(index) {
        titles.push(track.title.clone());
        index += 1;
    }
    titles
}

#[test]
fn new_orders_tracks_by_title_ignoring_case() {
    let navigator = PlaylistNavigator::new(six_tracks());
    assert_eq!(
        titles(&navigator),
        vec!["Alpha Mix", "Beta", "gamma mix", "kappa", "Lambda", "omega MIX"]
    );
    assert_eq!(navigator.track_count(), 6);
    assert_eq!(navigator.track(2).unwrap().path, "/music/gamma mix");
    assert!(navigator.track(6).is_none());
}

#[test]
fn new_keeps_given_order_among_equal_titles() {
    let tracks = vec![
        Track { title: "song".to_string(), path: "first".to_string() },
        Track { title: "Able".to_string(), path: "a".to_string() },
        Track { title: "SONG".to_string(), path: "second".to_string() },
        Track { title: "Song".to_string(), path: "third".to_string() },
    ];
    let navigator = PlaylistNavigator::new(tracks);
    let paths: Vec<String> =
        (0..4).map(|index| navigator.track(index).unwrap().path.clone()).collect();
    assert_eq!(paths, vec!["a", "first", "second", "third"]);
}

#[test]
fn new_starts_with_every_track_and_both_modes_off() {
    let navigator = PlaylistNavigator::new(six_tracks());
    assert_eq!(navigator.filtered_indices(), &vec![0, 1, 2, 3, 4, 5]);
    assert_eq!(navigator.search(), "");
    assert!(!navigator.shuffle_enabled());
    assert!(!navigator.repeat_one_enabled());
}

#[test]
fn new_on_empty_list() {
    let navigator = PlaylistNavigator::new(Vec::new());
    assert_eq!(navigator.track_count(), 0);
    assert!(navigator.filtered_indices().is_empty());
    assert_eq!(navigator.next(0), None);
    assert_eq!(navigator.prev(0, 0), PrevTarget::Stay);
    assert_eq!(navigator.current_or_first(None), None);
}

#[test]
fn search_matches_substring_ignoring_case() {
    let mut navigator = PlaylistNavigator::new(six_tracks());
    navigator.set_search("MiX");
    assert_eq!(navigator.filtered_indices(), &vec![0, 2, 5]);
    assert_eq!(navigator.search(), "MiX");
    navigator.set_search("a");
    assert_eq!(navigator.filtered_indices(), &vec![0, 1, 2, 3, 4, 5]);
    navigator.set_search("mm");
    assert_eq!(navigator.filtered_indices(), &vec![2]);
    navigator.set_search("zzz");
    assert!(navigator.filtered_indices().is_empty());
}

#[test]
fn empty_search_matches_all() {
    let mut navigator = PlaylistNavigator::new(six_tracks());
    navigator.set_search("beta");
    assert_eq!(navigator.filtered_indices(), &vec![1]);
    navigator.set_search("");
    assert_eq!(navigator.filtered_indices(), &vec![0, 1, 2, 3, 4, 5]);
}

#[test]
fn filter_tracks_lists_matching_indices_ascending() {
    let tracks = vec![track("One"), track("Two"), track("Three"), track("Four")];
    assert_eq!(filter_tracks(&tracks, "T"), vec![1, 2]);
    assert_eq!(filter_tracks(&tracks, "o"), vec![0, 1, 3]);
    assert_eq!(filter_tracks(&tracks, ""), vec![0, 1, 2, 3]);
    assert_eq!(filter_tracks(&tracks, "five"), Vec::<usize>::new());
}

#[test]
fn next_follows_filtered_sequence_without_wrapping() {
    let mut navigator = PlaylistNavigator::new(six_tracks());
    navigator.set_search("mix");
    assert_eq!(navigator.filtered_indices(), &vec![0, 2, 5]);
    assert_eq!(navigator.next(0), Some(2));
    assert_eq!(navigator.next(2), Some(5));
    assert_eq!(navigator.next(5), None);
}

#[test]
fn next_of_track_outside_the_filter_is_none() {
    let mut navigator = PlaylistNavigator::new(six_tracks());
    navigator.set_search("mix");
    assert_eq!(navigator.next(1), None);
    assert_eq!(navigator.next(17), None);
}

#[test]
fn auto_advance_answers_as_next() {
    let mut navigator = PlaylistNavigator::new(six_tracks());
    navigator.set_search("mix");
    assert_eq!(navigator.auto_advance(2), Some(5));
    assert_eq!(navigator.auto_advance(5), None);
    navigator.toggle_repeat_one();
    assert_eq!(navigator.auto_advance(5), Some(5));
}

#[test]
fn prev_restarts_after_three_seconds() {
    let mut navigator = PlaylistNavigator::new(six_tracks());
    navigator.set_search("mix");
    assert_eq!(navigator.prev(2, 5_000_000_000), PrevTarget::Restart);
    assert_eq!(navigator.prev(0, 3_000_000_001), PrevTarget::Restart);
}

#[test]
fn prev_switches_to_predecessor_within_three_seconds() {
    let mut navigator = PlaylistNavigator::new(six_tracks());
    navigator.set_search("mix");
    assert_eq!(navigator.prev(2, 1_000_000_000), PrevTarget::Track(0));
    assert_eq!(navigator.prev(5, 3_000_000_000), PrevTarget::Track(2));
}

#[test]
fn prev_of_first_track_stays_without_shuffle() {
    let mut navigator = PlaylistNavigator::new(six_tracks());
    navigator.set_search("mix");
    assert_eq!(navigator.prev(0, 0), PrevTarget::Stay);
    assert_eq!(navigator.prev(1, 0), PrevTarget::Stay);
}

#[test]
fn prev_undoes_next_on_filtered_sequence() {
    let mut navigator = PlaylistNavigator::new(six_tracks());
    navigator.set_search("a");
    for index in 0..5 {
        let next = navigator.next(index).unwrap();
        assert_eq!(navigator.prev(next, 0), PrevTarget::Track(index));
    }
}

#[test]
fn repeat_one_returns_current_whatever_the_shuffle_state() {
    let mut navigator = PlaylistNavigator::new(six_tracks());
    assert!(navigator.toggle_repeat_one());
    assert!(navigator.repeat_one_enabled());
    for index in 0..8 {
        assert_eq!(navigator.next(index), Some(index));
    }
    assert!(navigator.toggle_shuffle());
    for index in 0..8 {
        assert_eq!(navigator.next(index), Some(index));
    }
    assert!(!navigator.toggle_repeat_one());
    assert!(!navigator.repeat_one_enabled());
}

#[test]
fn repeat_one_leaves_prev_alone() {
    let mut navigator = PlaylistNavigator::new(six_tracks());
    navigator.toggle_repeat_one();
    assert_eq!(navigator.prev(3, 0), PrevTarget::Track(2));
}

fn walk_shuffled(navigator: &PlaylistNavigator, candidates: &[usize]) -> Vec<usize> {
    let mut head = None;
    for &candidate in candidates {
        let reached = candidates.iter().any(|&other| navigator.next(other) == Some(candidate));
        if !reached {
            head = Some(candidate);
        }
    }
    let mut order = Vec::new();
    let mut current = head;
    while let Some(index) = current {
        order.push(index);
        current = navigator.next(index);
    }
    order
}

#[test]
fn toggle_shuffle_reorders_the_filtered_sequence() {
    let mut navigator = PlaylistNavigator::new(six_tracks());
    navigator.set_search("mix");
    assert!(navigator.toggle_shuffle());
    assert!(navigator.shuffle_enabled());
    let mut order = walk_shuffled(&navigator, &[0, 2, 5]);
    assert_eq!(order.len(), 3);
    order.sort();
    assert_eq!(order, vec![0, 2, 5]);
    assert_eq!(navigator.next(1), None);
}

#[test]
fn shuffled_next_does_not_wrap_and_prev_wraps_to_last() {
    let mut navigator = PlaylistNavigator::new(six_tracks());
    navigator.toggle_shuffle();
    let order = walk_shuffled(&navigator, &[0, 1, 2, 3, 4, 5]);
    assert_eq!(order.len(), 6);
    let first = order[0];
    let last = order[5];
    assert_eq!(navigator.next(last), None);
    assert_eq!(navigator.prev(first, 0), PrevTarget::Track(last));
    assert_eq!(navigator.prev(99, 0), PrevTarget::Track(last));
    for pair in order.windows(2) {
        assert_eq!(navigator.next(pair[0]), Some(pair[1]));
        assert_eq!(navigator.prev(pair[1], 0), PrevTarget::Track(pair[0]));
    }
    assert_eq!(navigator.prev(first, 4_000_000_000), PrevTarget::Restart);
}

#[test]
fn shuffle_changes_the_order_of_a_long_list() {
    let tracks: Vec<Track> = (0..200).map(|n| track(&format!("{n:04}"))).collect();
    let mut navigator = PlaylistNavigator::new(tracks);
    navigator.toggle_shuffle();
    let in_list_order = (0..199).all(|index| navigator.next(index) == Some(index + 1));
    assert!(!in_list_order);
}

#[test]
fn search_leaves_the_shuffled_order_as_taken() {
    let mut navigator = PlaylistNavigator::new(six_tracks());
    navigator.toggle_shuffle();
    let before = walk_shuffled(&navigator, &[0, 1, 2, 3, 4, 5]);
    navigator.set_search("mix");
    assert_eq!(navigator.filtered_indices(), &vec![0, 2, 5]);
    let after = walk_shuffled(&navigator, &[0, 1, 2, 3, 4, 5]);
    assert_eq!(before, after);
}

#[test]
fn switching_shuffle_off_returns_to_the_filtered_sequence() {
    let mut navigator = PlaylistNavigator::new(six_tracks());
    navigator.toggle_shuffle();
    assert!(!navigator.toggle_shuffle());
    assert!(!navigator.shuffle_enabled());
    assert_eq!(navigator.next(0), Some(1));
    assert_eq!(navigator.next(5), None);
    assert_eq!(navigator.prev(0, 0), PrevTarget::Stay);
}

#[test]
fn shuffle_of_empty_filter_has_no_tracks() {
    let mut navigator = PlaylistNavigator::new(six_tracks());
    navigator.set_search("zzz");
    navigator.toggle_shuffle();
    assert_eq!(navigator.next(0), None);
    assert_eq!(navigator.prev(0, 0), PrevTarget::Stay);
}

#[test]
fn current_or_first_prefers_the_selection() {
    let mut navigator = PlaylistNavigator::new(six_tracks());
    navigator.set_search("mix");
    assert_eq!(navigator.current_or_first(Some(4)), Some(4));
    assert_eq!(navigator.current_or_first(None), Some(0));
    navigator.set_search("omega");
    assert_eq!(navigator.current_or_first(None), Some(5));
    navigator.set_search("zzz");
    assert_eq!(navigator.current_or_first(None), None);
}

#[test]
fn step_forward_walks_a_given_order() {
    let order = vec![0, 2, 5];
    assert_eq!(step_forward(&order, 0), Some(2));
    assert_eq!(step_forward(&order, 2), Some(5));
    assert_eq!(step_forward(&order, 5), None);
    assert_eq!(step_forward(&order, 1), None);
    assert_eq!(step_forward(&Vec::new(), 0), None);
}

#[test]
fn step_back_walks_a_given_order() {
    let order = vec![0, 2, 5];
    assert_eq!(step_back(&order, 5), Some(2));
    assert_eq!(step_back(&order, 2), Some(0));
    assert_eq!(step_back(&order, 0), None);
    assert_eq!(step_back(&order, 3), None);
    assert_eq!(step_back(&Vec::new(), 0), None);
}

#[test]
fn step_back_wrapping_goes_round_to_the_last() {
    let order = vec![4, 1, 3];
    assert_eq!(step_back_wrapping(&order, 3), Some(1));
    assert_eq!(step_back_wrapping(&order, 1), Some(4));
    assert_eq!(step_back_wrapping(&order, 4), Some(3));
    assert_eq!(step_back_wrapping(&order, 9), Some(3));
    assert_eq!(step_back_wrapping(&Vec::new(), 0), None);
}

#[test]
fn steps_go_by_the_first_occurrence() {
    let order = vec![7, 3, 7, 9];
    assert_eq!(step_forward(&order, 7), Some(3));
    assert_eq!(step_back(&order, 7), None);
    assert_eq!(step_back_wrapping(&order, 7), Some(9));
}

use audio_player::ordering::{sort_by_title, text_no_later};
use audio_player::track::Track;

fn chars(text: &str) -> Vec<char> {
    text.chars().collect()
}

fn no_later(left: &str, right: &str) -> bool {
    text_no_later(&chars(left), &chars(right))
}

#[test]
fn text_order_is_dictionary_order() {
    assert!(no_later("abc", "abd"));
    assert!(!no_later("abd", "abc"));
    assert!(no_later("ab", "abc"));
    assert!(!no_later("abc", "ab"));
    assert!(no_later("", "a"));
    assert!(!no_later("a", ""));
    assert!(no_later("b", "ba"));
    assert!(no_later("az", "b"));
}

#[test]
fn text_order_holds_both_ways_for_equal_texts() {
    assert!(no_later("same", "same"));
    assert!(no_later("", ""));
}

#[test]
fn text_order_goes_by_character_code() {
    assert!(no_later("Z", "a"));
    assert!(!no_later("a", "Z"));
    assert!(no_later("z", "é"));
    assert!(no_later("é", "日"));
    assert!(no_later("日", "😀"));
    assert!(!no_later("😀", "日"));
}

#[test]
fn text_order_agrees_with_std_on_strings() {
    let words = ["", "a", "A", "ab", "aB", "b", "é", "e", "zz", "日本", "😀", "a😀"];
    for left in words {
        for right in words {
            assert_eq!(no_later(left, right), left <= right, "{left:?} {right:?}");
        }
    }
}

fn titled(title: &str, path: &str) -> Track {
    Track { title: title.to_string(), path: path.to_string() }
}

fn paths(tracks: &[Track]) -> Vec<String> {
    tracks.iter().map(|track| track.path.clone()).collect()
}

#[test]
fn sort_by_title_ignores_case() {
    let sorted = sort_by_title(vec![
        titled("delta", "4"),
        titled("Charlie", "3"),
        titled("alpha", "1"),
        titled("BRAVO", "2"),
    ]);
    assert_eq!(paths(&sorted), vec!["1", "2", "3", "4"]);
    assert_eq!(sorted[1].title, "BRAVO");
}

#[test]
fn sort_by_title_is_stable() {
    let sorted = sort_by_title(vec![
        titled("b", "1"),
        titled("A", "2"),
        titled("B", "3"),
        titled("a", "4"),
        titled("b", "5"),
        titled("a", "6"),
    ]);
    assert_eq!(paths(&sorted), vec!["2", "4", "6", "1", "3", "5"]);
}

#[test]
fn sort_by_title_handles_short_lists() {
    assert!(sort_by_title(Vec::new()).is_empty());
    let one = sort_by_title(vec![titled("only", "1")]);
    assert_eq!(paths(&one), vec!["1"]);
}

#[test]
fn sort_by_title_agrees_with_std_stable_sort() {
    let titles = ["m", "Z", "a", "M", "z", "A", "mm", "", "Mm", "b", "0", "é", "É"];
    let given: Vec<Track> =
        titles.iter().enumerate().map(|(n, title)| titled(title, &n.to_string())).collect();
    let mut expected: Vec<(String, String)> =
        given.iter().map(|t| (t.title.to_lowercase(), t.path.clone())).collect();
    expected.sort_by(|left, right| left.0.cmp(&right.0));
    let sorted = sort_by_title(given);
    let expected_paths: Vec<String> = expected.into_iter().map(|pair| pair.1).collect();
    assert_eq!(paths(&sorted), expected_paths);
}

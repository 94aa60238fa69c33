use audio_player::scan::{is_supported_extension, same_ignoring_ascii_case};

#[test]
fn supported_extensions_are_accepted() {
    for extension in ["mp3", "flac", "wav", "ogg", "opus", "aac", "m4a", "alac", "aiff", "aif"] {
        assert!(is_supported_extension(extension), "{extension}");
    }
}

#[test]
fn supported_extensions_are_accepted_in_any_case() {
    assert!(is_supported_extension("MP3"));
    assert!(is_supported_extension("Flac"));
    assert!(is_supported_extension("oGG"));
    assert!(is_supported_extension("M4A"));
}

#[test]
fn other_extensions_are_rejected() {
    assert!(!is_supported_extension("txt"));
    assert!(!is_supported_extension(""));
    assert!(!is_supported_extension("mp"));
    assert!(!is_supported_extension("mp33"));
    assert!(!is_supported_extension(".mp3"));
    assert!(!is_supported_extension("wma"));
    assert!(!is_supported_extension("ｍｐ３"));
}

#[test]
fn ascii_case_is_set_aside() {
    assert!(same_ignoring_ascii_case("Flac", "fLAC"));
    assert!(same_ignoring_ascii_case("", ""));
    assert!(same_ignoring_ascii_case("a-1_Z", "A-1_z"));
    assert!(!same_ignoring_ascii_case("flac", "flak"));
    assert!(!same_ignoring_ascii_case("flac", "fla"));
    assert!(!same_ignoring_ascii_case("", "a"));
}

#[test]
fn only_ascii_letters_lose_their_case() {
    assert!(same_ignoring_ascii_case("é", "é"));
    assert!(!same_ignoring_ascii_case("É", "é"));
    assert!(!same_ignoring_ascii_case("@", "`"));
    assert!(!same_ignoring_ascii_case("[", "{"));
    assert!(!same_ignoring_ascii_case("K", "\u{212A}"));
}

#[test]
fn ascii_case_comparison_agrees_with_std() {
    let words = ["", "a", "A", "mp3", "MP3", "Mp3", "mp4", "é", "É", "z{", "Z[", "aa", "日本"];
    for left in words {
        for right in words {
            assert_eq!(
                same_ignoring_ascii_case(left, right),
                left.eq_ignore_ascii_case(right),
                "{left:?} {right:?}"
            );
        }
    }
}

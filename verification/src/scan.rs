//! Which files count as tracks.
//!
//! The player offers the files of a folder whose extension names one of the
//! audio formats below, letter case set aside. Walking the folder is the
//! caller's work; this module holds the rule.

use vstd::prelude::*;
use crate::search::chars_of;

verus! {

/// `letter` with an upper-case ASCII letter turned into its lower-case
/// form; any other character is left as it is.
pub open spec fn ascii_lower(letter: char) -> char {
    if 'A' as u32 <= letter as u32 <= 'Z' as u32 {
        ((letter as u32) + 32) as char
    } else {
        letter
    }
}

/// `text` with each character put through [`ascii_lower`].
pub open spec fn ascii_folded(text: Seq<char>) -> Seq<char> {
    Seq::new(text.len(), |i: int| ascii_lower(text[i]))
}

/// The extensions of the audio formats that the player offers.
pub open spec fn supported_extensions() -> Seq<Seq<char>> {
    seq![
        "mp3"@,
        "flac"@,
        "wav"@,
        "ogg"@,
        "opus"@,
        "aac"@,
        "m4a"@,
        "alac"@,
        "aiff"@,
        "aif"@,
    ]
}

/// `extension` is one of the supported extensions but for the case of its
/// ASCII letters.
pub open spec fn is_supported(extension: Seq<char>) -> bool {
    exists|k: int|
        0 <= k < supported_extensions().len() && ascii_folded(extension) == ascii_folded(
            #[trigger] supported_extensions()[k],
        )
}

/// The character code of `letter` after [`ascii_lower`].
fn folded_code(letter: char) -> (code: u32)
    ensures
        code == ascii_lower(letter) as u32,
{
    let code: u32 = letter as u32;
    if 65 <= code && code <= 90 {
        code + 32
    } else {
        code
    }
}

/// Whether two characters are the same but for the case of an ASCII
/// letter.
fn same_letter(left: char, right: char) -> (same: bool)
    ensures
        same == (ascii_lower(left) == ascii_lower(right)),
{
    folded_code(left) == folded_code(right)
}

/// Whether two texts are the same but for the case of their ASCII letters.
pub fn same_ignoring_ascii_case(left: &str, right: &str) -> (same: bool)
    ensures
        same == (ascii_folded(left@) == ascii_folded(right@)),
{
    let ours = chars_of(left);
    let theirs = chars_of(right);
    if ours.len() != theirs.len() {
        assert(ascii_folded(left@).len() != ascii_folded(right@).len());
        return false;
    }
    let mut at: usize = 0;
    while at < ours.len()
        invariant
            at <= ours.len(),
            ours.len() == theirs.len(),
            ours@ == left@,
            theirs@ == right@,
            forall|j: int| 0 <= j < at ==> ascii_lower(ours@[j]) == ascii_lower(theirs@[j]),
        decreases ours.len() - at,
    {
        if !same_letter(ours[at], theirs[at]) {
            assert(ascii_folded(left@)[at as int] != ascii_folded(right@)[at as int]);
            return false;
        }
        at += 1;
    }
    assert(ascii_folded(left@) =~= ascii_folded(right@));
    true
}

/// Whether a file with the extension `extension` (the part of its name
/// behind the last dot) is offered as a track.
pub fn is_supported_extension(extension: &str) -> (supported: bool)
    ensures
        supported == is_supported(extension@),
{
    let ghost list = supported_extensions();
    let supported = same_ignoring_ascii_case(extension, "mp3") || same_ignoring_ascii_case(
        extension,
        "flac",
    ) || same_ignoring_ascii_case(extension, "wav") || same_ignoring_ascii_case(extension, "ogg")
        || same_ignoring_ascii_case(extension, "opus") || same_ignoring_ascii_case(
        extension,
        "aac",
    ) || same_ignoring_ascii_case(extension, "m4a") || same_ignoring_ascii_case(
        extension,
        "alac",
    ) || same_ignoring_ascii_case(extension, "aiff") || same_ignoring_ascii_case(
        extension,
        "aif",
    );
    proof {
        assert(list.len() == 10);
        assert(list[0] == "mp3"@ && list[1] == "flac"@ && list[2] == "wav"@ && list[3] == "ogg"@
            && list[4] == "opus"@);
        assert(list[5] == "aac"@ && list[6] == "m4a"@ && list[7] == "alac"@ && list[8] == "aiff"@
            && list[9] == "aif"@);
    }
    supported
}

} // verus!

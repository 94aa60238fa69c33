//! Case-insensitive substring search over titles.

use vstd::prelude::*;

verus! {

/// The text that lower-casing `text` gives.
pub uninterp spec fn lowercase(text: Seq<char>) -> Seq<char>;

/// `needle` stands in `hay` starting at position `at`.
pub open spec fn occurs_at(needle: Seq<char>, hay: Seq<char>, at: int) -> bool {
    &&& 0 <= at
    &&& at + needle.len() <= hay.len()
    &&& hay.subrange(at, at + needle.len()) == needle
}

/// `needle` is a contiguous part of `hay`. The empty text is part of every
/// text.
pub open spec fn occurs_in(needle: Seq<char>, hay: Seq<char>) -> bool {
    exists|at: int| occurs_at(needle, hay, at)
}

/// A title matches a query when the query is empty or when the lower-cased
/// query is part of the lower-cased title.
pub open spec fn title_matches(title: Seq<char>, query: Seq<char>) -> bool {
    query.len() == 0 || occurs_in(lowercase(query), lowercase(title))
}

/// Calls `str::to_lowercase` of std. Its result depends on the text alone
/// (the Unicode lower-case mapping, no locale), and the contract gives that
/// result the name [`lowercase`] without saying more of it.
#[verifier::external_body]
fn to_lowercase(text: &str) -> (lowered: String)
    ensures
        lowered@ == lowercase(text@),
{
    text.to_lowercase()
}

/// The characters of `text`, in order.
pub(crate) fn chars_of(text: &str) -> (chars: Vec<char>)
    ensures
        chars@ == text@,
{
    let mut chars: Vec<char> = Vec::new();
    for c in it: text.chars()
        invariant
            chars@ == it.seq().take(it.index()),
            it.seq() == text@,
    {
        chars.push(c);
    }
    chars
}

/// Whether `needle` stands in `hay` at position `at`.
fn found_at(needle: &Vec<char>, hay: &Vec<char>, at: usize) -> (found: bool)
    requires
        at + needle.len() <= hay.len(),
    ensures
        found == occurs_at(needle@, hay@, at as int),
{
    let mut k: usize = 0;
    while k < needle.len()
        invariant
            k <= needle.len(),
            at + needle.len() <= hay.len(),
            forall|j: int| 0 <= j < k ==> hay@[at + j] == needle@[j],
        decreases needle.len() - k,
    {
        if hay[at + k] != needle[k] {
            assert(hay@.subrange(at as int, at + needle.len())[k as int] == hay@[at + k]);
            return false;
        }
        k += 1;
    }
    assert(hay@.subrange(at as int, at + needle.len()) =~= needle@);
    true
}

/// Whether the characters `needle` are a contiguous part of the characters
/// `hay`.
pub(crate) fn chars_occur_within(needle: &Vec<char>, hay: &Vec<char>) -> (found: bool)
    ensures
        found == occurs_in(needle@, hay@),
{
    if needle.len() > hay.len() {
        return false;
    }
    let last: usize = hay.len() - needle.len();
    let mut at: usize = 0;
    loop
        invariant
            at <= last,
            last == hay.len() - needle.len(),
            forall|a: int| 0 <= a < at ==> !occurs_at(needle@, hay@, a),
        decreases last - at,
    {
        if found_at(needle, hay, at) {
            return true;
        }
        if at == last {
            return false;
        }
        at += 1;
    }
}

/// Whether `needle` is a contiguous part of `hay`, compared character by
/// character.
pub fn occurs_within(needle: &str, hay: &str) -> (found: bool)
    ensures
        found == occurs_in(needle@, hay@),
{
    let needle_chars = chars_of(needle);
    let hay_chars = chars_of(hay);
    chars_occur_within(&needle_chars, &hay_chars)
}

/// The lower-cased characters of `text`.
pub(crate) fn folded_chars(text: &str) -> (folded: Vec<char>)
    ensures
        folded@ == lowercase(text@),
{
    let lowered = to_lowercase(text);
    chars_of(lowered.as_str())
}

/// Whether `title` matches `query`: every title matches the empty query, and
/// any other query matches the titles that hold it somewhere, letter case
/// set aside.
pub fn matches_query(title: &str, query: &str) -> (hit: bool)
    ensures
        hit == title_matches(title@, query@),
{
    if query.is_empty() {
        return true;
    }
    let folded_query = folded_chars(query);
    let folded_title = folded_chars(title);
    chars_occur_within(&folded_query, &folded_title)
}

} // verus!

//! Where a request goes: the mint's address with an operation's path
//! segment, and a query pair where the operation has one.

use vstd::prelude::*;
use vstd::utf8::*;

verus! {

/// The longest text, in bytes, that goes into an address: a longer mint
/// address, path segment, query name or query value is refused.
pub const MAX_TEXT: usize = 1_048_576;

/// Whether `text` is short enough to go into an address.
pub open spec fn fits(text: Seq<char>) -> bool {
    encode_utf8(text).len() as usize <= MAX_TEXT
}

/// The address that results from `base` when `segment` is added to its
/// path as one more segment, after a trailing slash of `base` has been
/// dropped. `None` where `base` is no absolute URL, or one that cannot be a
/// base.
pub uninterp spec fn url_with_segment(base: Seq<char>, segment: Seq<char>) -> Option<Seq<char>>;

/// The address that results from `url` when the pair `name=value` is added
/// to its query in form encoding. `None` where `url` is no absolute URL.
pub uninterp spec fn url_with_query(url: Seq<char>, name: Seq<char>, value: Seq<char>) -> Option<
    Seq<char>,
>;

/// The address of a request: `base` with `segment`, then with the query
/// pair if there is one. `None` where one of the texts is too long or the
/// address cannot be built.
pub open spec fn located(
    base: Seq<char>,
    segment: Seq<char>,
    query: Option<(Seq<char>, Seq<char>)>,
) -> Option<Seq<char>> {
    if !fits(base) || !fits(segment) {
        None
    } else {
        match (url_with_segment(base, segment), query) {
            (None, _) => None,
            (Some(url), None) => Some(url),
            (Some(url), Some((name, value))) => if fits(url) && fits(name) && fits(value) {
                url_with_query(url, name, value)
            } else {
                None
            },
        }
    }
}

/// Calls `url::Url::parse` on `base`, then `path_segments_mut`,
/// `pop_if_empty` and `push` with `segment`, and takes the serialization.
/// Believed: the outcome is a function of the two texts alone, and the call
/// returns where both are at most [`MAX_TEXT`] bytes long (the `url` crate
/// counts positions in 32 bits and stops the program beyond them).
#[verifier::external_body]
fn push_segment(base: &str, segment: &str) -> (url: Option<String>)
    requires
        base.len() <= MAX_TEXT,
        segment.len() <= MAX_TEXT,
    ensures
        url.deep_view() == url_with_segment(base@, segment@),
{
    let mut url = url::Url::parse(base).ok()?;
    url.path_segments_mut().ok()?.pop_if_empty().push(segment);
    Some(url.into())
}

/// Calls `url::Url::parse` on `url`, then `query_pairs_mut` and
/// `append_pair` with `name` and `value`, and takes the serialization.
/// Believed: the outcome is a function of the three texts alone, and the
/// call returns where each is at most [`MAX_TEXT`] bytes long.
#[verifier::external_body]
fn append_pair(url: &str, name: &str, value: &str) -> (extended: Option<String>)
    requires
        url.len() <= MAX_TEXT,
        name.len() <= MAX_TEXT,
        value.len() <= MAX_TEXT,
    ensures
        extended.deep_view() == url_with_query(url@, name@, value@),
{
    let mut url = url::Url::parse(url).ok()?;
    url.query_pairs_mut().append_pair(name, value);
    Some(url.into())
}

/// Builds the address of a request from the mint's address, the
/// operation's path segment and its query pair, if it has one.
pub fn locate(base: &str, segment: &str, query: Option<(&str, &str)>) -> (url: Option<String>)
    ensures
        url.deep_view() == located(base@, segment@, query.deep_view()),
{
    if base.len() > MAX_TEXT || segment.len() > MAX_TEXT {
        return None;
    }
    let url = push_segment(base, segment)?;
    match query {
        None => Some(url),
        Some((name, value)) => {
            if url.as_str().len() > MAX_TEXT || name.len() > MAX_TEXT || value.len() > MAX_TEXT {
                return None;
            }
            append_pair(url.as_str(), name, value)
        },
    }
}

} // verus!

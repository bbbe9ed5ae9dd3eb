use reqwest::Url;
use vstd::prelude::*;
use vstd::utf8::encode_utf8;

use crate::data_types::response::text_of;

verus! {

/// The longest text, in bytes, that is handed to the URL parser.
pub const MAX_TEXT_BYTES: usize = 0x100_0000;

/// Whether a text is short enough to be handed to the URL parser.
pub open spec fn fits(text: Seq<char>) -> bool {
    encode_utf8(text).len() <= MAX_TEXT_BYTES
}

/// Whether a text is short enough to be handed to the URL parser.
pub fn text_fits(text: &str) -> (ok: bool)
    ensures
        ok == fits(text@),
{
    text.as_bytes().len() <= MAX_TEXT_BYTES
}

/// The URL that results from parsing `url` and appending `segment` to its
/// path, or nothing where `url` does not parse or cannot have a path of
/// segments.
pub uninterp spec fn with_segment(url: Seq<char>, segment: Seq<char>) -> Option<Seq<char>>;

/// The URL that results from parsing `url` and appending the pair of `name`
/// and `value` to its query, or nothing where `url` does not parse.
pub uninterp spec fn with_query_pair(url: Seq<char>, name: Seq<char>, value: Seq<char>) -> Option<
    Seq<char>,
>;

/// The URL that results from parsing `url` and replacing its query by
/// `query`, or nothing where `url` does not parse.
pub uninterp spec fn with_query(url: Seq<char>, query: Seq<char>) -> Option<Seq<char>>;

/// `Url::parse`, `Url::path_segments_mut` and `PathSegmentsMut::push` of the
/// url crate, as reqwest hands it on. As they compute from their arguments
/// alone, the result is given a name; nothing more is claimed of it. The
/// texts are kept short because the crate gives up on a URL of more than
/// 4 GiB.
#[verifier::external_body]
pub(crate) fn push_segment(url: &str, segment: &str) -> (result: Option<String>)
    requires
        fits(url@),
        fits(segment@),
    ensures
        text_of(result) == with_segment(url@, segment@),
{
    let mut parsed = Url::parse(url).ok()?;
    parsed.path_segments_mut().ok()?.push(segment);
    Some(parsed.into())
}

/// `Url::parse` and `Url::query_pairs_mut` of the url crate with
/// `Serializer::append_pair` of form_urlencoded. As they compute from their
/// arguments alone, the result is given a name; nothing more is claimed of
/// it.
#[verifier::external_body]
pub(crate) fn append_query_pair(url: &str, name: &str, value: &str) -> (result: Option<String>)
    requires
        fits(url@),
        fits(name@),
        fits(value@),
    ensures
        text_of(result) == with_query_pair(url@, name@, value@),
{
    let mut parsed = Url::parse(url).ok()?;
    parsed.query_pairs_mut().append_pair(name, value);
    Some(parsed.into())
}

/// `Url::parse` and `Url::set_query` of the url crate. As they compute from
/// their arguments alone, the result is given a name; nothing more is
/// claimed of it.
#[verifier::external_body]
pub(crate) fn replace_query(url: &str, query: &str) -> (result: Option<String>)
    requires
        fits(url@),
        fits(query@),
    ensures
        text_of(result) == with_query(url@, query@),
{
    let mut parsed = Url::parse(url).ok()?;
    parsed.set_query(Some(query));
    Some(parsed.into())
}

/// `url` with `segment` appended to its path, where both are short enough
/// for the parser and `url` is a URL that can have a path of segments.
pub open spec fn pushed(url: Seq<char>, segment: Seq<char>) -> Option<Seq<char>> {
    if fits(url) && fits(segment) {
        with_segment(url, segment)
    } else {
        None
    }
}

/// `url` with the pair of `name` and `value` appended to its query, where
/// all three are short enough for the parser and `url` is a URL.
pub open spec fn paired(url: Seq<char>, name: Seq<char>, value: Seq<char>) -> Option<Seq<char>> {
    if fits(url) && fits(name) && fits(value) {
        with_query_pair(url, name, value)
    } else {
        None
    }
}

/// `url` with its query replaced by `query`, where both are short enough for
/// the parser and `url` is a URL.
pub open spec fn queried(url: Seq<char>, query: Seq<char>) -> Option<Seq<char>> {
    if fits(url) && fits(query) {
        with_query(url, query)
    } else {
        None
    }
}

/// Appends `segment` to the path of `url`.
pub fn push_path_segment(url: &str, segment: &str) -> (result: Option<String>)
    ensures
        text_of(result) == pushed(url@, segment@),
{
    if text_fits(url) && text_fits(segment) {
        push_segment(url, segment)
    } else {
        None
    }
}

/// Appends the pair of `name` and `value` to the query of `url`.
pub fn push_query_pair(url: &str, name: &str, value: &str) -> (result: Option<String>)
    ensures
        text_of(result) == paired(url@, name@, value@),
{
    if text_fits(url) && text_fits(name) && text_fits(value) {
        append_query_pair(url, name, value)
    } else {
        None
    }
}

/// Replaces the query of `url` by `query`.
pub fn set_query(url: &str, query: &str) -> (result: Option<String>)
    ensures
        text_of(result) == queried(url@, query@),
{
    if text_fits(url) && text_fits(query) {
        replace_query(url, query)
    } else {
        None
    }
}

} // verus!

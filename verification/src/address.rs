//! The addresses that sources are fetched from.

use vstd::prelude::*;

use crate::text::text_of;
use crate::text::texts;

verus! {

/// The address that the `url` crate reads in a text, written out in full; nothing where the text
/// is no absolute address.
pub uninterp spec fn url_href(input: Seq<char>) -> Option<Seq<char>>;

/// The segments of the path of the address that the `url` crate reads in a text; nothing where the
/// text is no absolute address, or one without a hierarchical path.
pub uninterp spec fn url_path_segments(input: Seq<char>) -> Option<Seq<Seq<char>>>;

/// The segments, if there are any, as texts.
pub open spec fn segment_texts(segments: Option<Vec<String>>) -> Option<Seq<Seq<char>>> {
    match segments {
        Some(segments) => Some(texts(segments@)),
        None => None,
    }
}

/// An absolute address.
#[derive(Debug, PartialEq, Eq)]
pub struct Url {
    /// The address in full.
    pub href: String,
    /// The parts of its path between slashes, where it has a hierarchical path.
    pub path_segments: Option<Vec<String>>,
}

impl Url {
    /// Whether this is the address that stands in `input`.
    pub open spec fn read_from(self, input: Seq<char>) -> bool {
        &&& url_href(input) == Some(self.href@)
        &&& url_path_segments(input) == segment_texts(self.path_segments)
        &&& self.path_segments matches Some(segments) ==> segments@.len() > 0
    }

    /// The address that stands in `input`.
    pub fn parse(input: &str) -> (url: Option<Url>)
        ensures
            match url {
                Some(url) => url.read_from(input@),
                None => url_href(input@) is None,
            },
    {
        match parse_href(input) {
            Some(href) => Some(Url { href, path_segments: parse_path_segments(input) }),
            None => None,
        }
    }
}

/// Calls `url::Url::parse`, and gives the address that it reads as one string. The string is the
/// one that `url_href` names, and there is none where the parser reports an error.
#[verifier::external_body]
fn parse_href(input: &str) -> (href: Option<String>)
    ensures
        text_of(href) == url_href(input@),
{
    ::url::Url::parse(input).ok().map(String::from)
}

/// Calls `url::Url::path_segments` on the address that stands in `input`. The segments are those
/// that `url_path_segments` names. Where there is a list of them it is not empty; its one segment
/// may be.
#[verifier::external_body]
fn parse_path_segments(input: &str) -> (segments: Option<Vec<String>>)
    ensures
        segment_texts(segments) == url_path_segments(input@),
        segments matches Some(segments) ==> segments@.len() > 0,
{
    let url = ::url::Url::parse(input).ok()?;
    url.path_segments().map(|segments| segments.map(String::from).collect())
}

} // verus!

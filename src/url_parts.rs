//! URLs as plain values: the url crate parses, the library reads the parts.

use vstd::prelude::*;

use crate::text::strings_view;

verus! {

/// A URL taken apart into the parts the library reads.
#[derive(Debug, Clone)]
pub struct UrlParts {
    /// The URL as serialised after parsing.
    pub href: String,
    pub host: Option<String>,
    pub path: String,
    /// Decoded query pairs, in order.
    pub query: Vec<(String, String)>,
    /// Path segments; `None` for a URL that cannot be a base.
    pub segments: Option<Vec<String>>,
}

/// The mathematical model of `UrlParts`.
pub ghost struct UrlView {
    pub href: Seq<char>,
    pub host: Option<Seq<char>>,
    pub path: Seq<char>,
    pub query: Seq<(Seq<char>, Seq<char>)>,
    pub segments: Option<Seq<Seq<char>>>,
}

impl View for UrlParts {
    type V = UrlView;

    open spec fn view(&self) -> UrlView {
        UrlView {
            href: self.href@,
            host: match self.host {
                Option::None => Option::None,
                Option::Some(h) => Option::Some(h@),
            },
            path: self.path@,
            query: self.query@.map_values(|p: (String, String)| (p.0@, p.1@)),
            segments: match self.segments {
                Option::None => Option::None,
                Option::Some(s) => Option::Some(strings_view(s@)),
            },
        }
    }
}

/// The parts of a URL as the url crate parses it; `None` where it does not
/// parse.
pub uninterp spec fn parsed_url(s: Seq<char>) -> Option<UrlView>;

/// Relies on url's `Url::parse`, and on `as_str`, `host_str`, `path`,
/// `query_pairs` and `path_segments` of the parsed value: the parts depend
/// on the text alone.
#[verifier::external_body]
pub(crate) fn parse_url(s: &str) -> (r: Option<UrlParts>)
    ensures
        match r {
            Option::None => parsed_url(s@) is None,
            Option::Some(p) => parsed_url(s@) == Option::Some(p@),
        },
{
    url::Url::parse(s).ok().map(|u| UrlParts {
        href: u.as_str().to_string(),
        host: u.host_str().map(|h| h.to_string()),
        path: u.path().to_string(),
        query: u.query_pairs().map(|(k, v)| (k.into_owned(), v.into_owned())).collect(),
        segments: u.path_segments().map(|p| p.map(|x| x.to_string()).collect()),
    })
}

} // verus!

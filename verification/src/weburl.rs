use vstd::prelude::*;

use crate::metadata::opt_view;
use crate::text::views;

verus! {

/// The parts of a parsed URL that the bot reads, as plain values.
#[derive(Debug, Clone)]
pub struct UrlParts {
    /// `Url::host_str`: the host as written in the serialization.
    pub host: Option<String>,
    /// `Url::domain`: the host when it is a domain name (not an address).
    pub domain: Option<String>,
    /// `Url::path_segments`: the path split at `/`, when the URL has one.
    pub segments: Option<Vec<String>>,
}

/// The view of `UrlParts`.
pub struct UrlView {
    pub host: Option<Seq<char>>,
    pub domain: Option<Seq<char>>,
    pub segments: Option<Seq<Seq<char>>>,
}

impl View for UrlParts {
    type V = UrlView;

    open spec fn view(&self) -> UrlView {
        UrlView {
            host: opt_view(self.host),
            domain: opt_view(self.domain),
            segments: match self.segments {
                Some(v) => Some(views(v@)),
                None => None,
            },
        }
    }
}

/// What `url::Url::parse` makes of `input`: `None` where it refuses the
/// input, else the host, domain and path segments of the parsed URL.
pub uninterp spec fn url_parse(input: Seq<char>) -> Option<UrlView>;

/// Calls `url::Url::parse` and reads `host_str`, `domain` and
/// `path_segments` of the result. Claimed: the result is `url_parse` of the
/// input, and (as `domain` and `host_str` slice the same range of the
/// serialization in the url crate) a domain, where there is one, is the host.
#[verifier::external_body]
pub(crate) fn parse_url(input: &str) -> (res: Option<UrlParts>)
    ensures
        match res {
            Some(p) => url_parse(input@) == Some(p@),
            None => url_parse(input@) is None,
        },
        res matches Some(p) ==> (p.domain is Some ==> p@.domain == p@.host),
{
    let url = url::Url::parse(input).ok()?;
    Some(UrlParts {
        host: url.host_str().map(|h| h.to_string()),
        domain: url.domain().map(|d| d.to_string()),
        segments: url.path_segments().map(|s| s.map(|x| x.to_string()).collect()),
    })
}

/// The host of the URL that `input` parses to, if it parses and has one.
pub open spec fn url_host(input: Seq<char>) -> Option<Seq<char>> {
    match url_parse(input) {
        Some(v) => v.host,
        None => None,
    }
}

} // verus!

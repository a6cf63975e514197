//! What the engine reads of a request's URL.

use vstd::prelude::*;

verus! {

/// What the engine reads of a URL that parsed: the domain name of its host,
/// if the host is a domain name.
#[derive(Debug, PartialEq, Eq)]
pub struct ParsedUrl {
    pub domain: Option<String>,
}

impl View for ParsedUrl {
    type V = Option<Seq<char>>;

    /// The domain, as text.
    open spec fn view(&self) -> Option<Seq<char>> {
        match self.domain {
            Some(d) => Some(d@),
            None => None,
        }
    }
}

/// The views of an optional parsed URL.
pub open spec fn target_view(target: Option<ParsedUrl>) -> Option<Option<Seq<char>>> {
    match target {
        Some(url) => Some(url@),
        None => None,
    }
}

/// What `url::Url::parse` makes of `text`, as far as the engine reads it:
/// `None` where `text` does not parse as an absolute URL, else what
/// `Url::domain` returns for the parsed URL.
pub uninterp spec fn url_domain(text: Seq<char>) -> Option<Option<Seq<char>>>;

/// Parses `text` with `url::Url::parse` and reads the parsed URL's
/// `domain()`. The parser is a function of the text alone; the contract gives
/// its outcome the name [`url_domain`] and claims nothing else of it.
#[verifier::external_body]
pub(crate) fn parse_url(text: &str) -> (target: Option<ParsedUrl>)
    ensures
        target_view(target) == url_domain(text@),
{
    match url::Url::parse(text) {
        Ok(parsed) => Some(ParsedUrl { domain: parsed.domain().map(|d| d.to_string()) }),
        Err(_) => None,
    }
}

} // verus!

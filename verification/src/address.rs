//! The addresses of workers.

use reqwest::Url;
use vstd::prelude::*;

verus! {

#[verifier::external_type_specification]
#[verifier::external_body]
pub struct ExUrl(reqwest::Url);

/// The text that a `reqwest::Url` stands for, which it is written as.
pub uninterp spec fn url_text(url: reqwest::Url) -> Seq<char>;

/// The text of the URL that `reqwest::Url::parse` makes of `text`, and nothing
/// where it refuses it.
pub uninterp spec fn url_parse(text: Seq<char>) -> Option<Seq<char>>;

/// The text of the URL that `reqwest::Url::join` makes of a base and a path, and
/// nothing where it refuses them.
pub uninterp spec fn url_join(base: Seq<char>, path: Seq<char>) -> Option<Seq<char>>;

/// The text of an optional URL.
pub open spec fn optional_url_text(url: Option<reqwest::Url>) -> Option<Seq<char>> {
    match url {
        Some(url) => Some(url_text(url)),
        None => None,
    }
}

/// `reqwest::Url::parse`, its error dropped.
#[verifier::external_body]
pub(crate) fn parse_url(text: &str) -> (url: Option<Url>)
    ensures
        optional_url_text(url) == url_parse(text@),
{
    Url::parse(text).ok()
}

/// `reqwest::Url::join`, its error dropped.
#[verifier::external_body]
pub(crate) fn join_url(base: &Url, path: &str) -> (url: Option<Url>)
    ensures
        optional_url_text(url) == url_join(url_text(*base), path@),
{
    base.join(path).ok()
}

/// `reqwest::Url::clone`: the same URL.
pub assume_specification[ <Url as Clone>::clone ](url: &Url) -> (copy: Url)
    ensures
        url_text(copy) == url_text(*url),
;

} // verus!

//! URLs as texts. Parsing and changing them is the work of the `url`
//! crate; what it returns goes by a name here, and a URL is held as its
//! serialization.

use vstd::prelude::*;
use vstd::string::StringSliceAdditionalSpecFns;

verus! {

/// The longest text, in bytes, that is handed to a setter of a URL.
pub const TEXT_LIMIT: usize = 0x1000_0000;

/// The serialization of the URL that `Url::parse` reads from a text; `None`
/// where it reads none.
pub uninterp spec fn parsed_url(text: Seq<char>) -> Option<Seq<char>>;

/// The serialization of the URL that `Url::join` makes of a reference and
/// the URL read from `base`; `None` where either fails.
pub uninterp spec fn joined_url(base: Seq<char>, reference: Seq<char>) -> Option<Seq<char>>;

/// The serialization of the URL read from `url` after `Url::set_path`;
/// `None` where `url` is no URL.
pub uninterp spec fn url_with_path(url: Seq<char>, path: Seq<char>) -> Option<Seq<char>>;

/// The serialization of the URL read from `url` after `Url::set_query`;
/// `None` where `url` is no URL.
pub uninterp spec fn url_with_query(url: Seq<char>, query: Seq<char>) -> Option<Seq<char>>;

/// Calls `url::Url::parse` and hands back the serialization of the URL, or
/// the error. The contract claims only that the outcome depends on the
/// text alone.
#[verifier::external_body]
pub(crate) fn parse_url(text: &str) -> (url: Result<String, url::ParseError>)
    ensures
        match url {
            Ok(u) => parsed_url(text@) == Some(u@),
            Err(_) => parsed_url(text@) is None,
        },
{
    url::Url::parse(text).map(String::from)
}

/// Calls `url::Url::join` on the URL read from `base` and hands back the
/// serialization of the result, or the error of either step. The contract
/// claims only that the outcome depends on the two texts alone.
#[verifier::external_body]
pub(crate) fn join_url(base: &str, reference: &str) -> (url: Result<String, url::ParseError>)
    ensures
        match url {
            Ok(u) => joined_url(base@, reference@) == Some(u@),
            Err(_) => joined_url(base@, reference@) is None,
        },
{
    url::Url::parse(base)?.join(reference).map(String::from)
}

/// Calls `url::Url::set_path` on the URL read from `url` and hands back the
/// serialization of the result. The setter fails on a URL of more than
/// four gigabytes, which the bounds rule out. The contract claims only that
/// the outcome depends on the two texts alone.
#[verifier::external_body]
pub(crate) fn set_url_path(url: &str, path: &str) -> (changed: Option<String>)
    requires
        url.spec_bytes().len() <= TEXT_LIMIT,
        path.spec_bytes().len() <= TEXT_LIMIT,
    ensures
        changed is Some <==> url_with_path(url@, path@) is Some,
        changed matches Some(u) ==> url_with_path(url@, path@) == Some(u@),
{
    let mut parsed = url::Url::parse(url).ok()?;
    parsed.set_path(path);
    Some(String::from(parsed))
}

/// Calls `url::Url::set_query` on the URL read from `url` and hands back
/// the serialization of the result. The setter fails on a URL of more than
/// four gigabytes, which the bounds rule out. The contract claims only that
/// the outcome depends on the two texts alone.
#[verifier::external_body]
pub(crate) fn set_url_query(url: &str, query: &str) -> (changed: Option<String>)
    requires
        url.spec_bytes().len() <= TEXT_LIMIT,
        query.spec_bytes().len() <= TEXT_LIMIT,
    ensures
        changed is Some <==> url_with_query(url@, query@) is Some,
        changed matches Some(u) ==> url_with_query(url@, query@) == Some(u@),
{
    let mut parsed = url::Url::parse(url).ok()?;
    parsed.set_query(Some(query));
    Some(String::from(parsed))
}

} // verus!

//! Trusted interface to the URL library.
//!
//! Each operation is deterministic in its text arguments, so its result is
//! named by an uninterpreted function of those arguments alone; the
//! wrappers state nothing further than the library's own documentation.

use vstd::prelude::*;

verus! {

/// The serialization of `rel` resolved against the absolute URL `base`,
/// or nothing where `base` does not parse or the resolution fails.
pub uninterp spec fn join_of(base: Seq<char>, rel: Seq<char>) -> Option<Seq<char>>;

/// The raw, still percent-encoded path segments of `url`, or nothing
/// where `url` does not parse or cannot be a base.
pub uninterp spec fn path_segments_of(url: Seq<char>) -> Option<Seq<Seq<char>>>;

/// The decoded query pairs of `url`, in order; empty where `url` does not
/// parse or has no query string.
pub uninterp spec fn query_pairs_of(url: Seq<char>) -> Seq<(Seq<char>, Seq<char>)>;

/// The percent-decoding of `text`.
pub uninterp spec fn percent_decoded(text: Seq<char>) -> Seq<char>;

/// Resolve `rel` against `base`.
///
/// Relies on `url::Url::parse` and `url::Url::join`, which parse and
/// resolve deterministically from their text arguments, and on
/// `url::Url::as_str`, the resolved URL's serialization. The `Err`
/// payload carries the failure's message.
#[verifier::external_body]
pub fn resolve_url(base: &str, rel: &str) -> (r: Result<String, String>)
    ensures
        r is Ok <==> join_of(base@, rel@) is Some,
        r matches Ok(u) ==> join_of(base@, rel@) == Some(u@),
{
    match url::Url::parse(base) {
        Err(e) => Err(e.to_string()),
        Ok(b) => match b.join(rel) {
            Err(e) => Err(e.to_string()),
            Ok(j) => Ok(j.as_str().to_string()),
        },
    }
}

/// The raw path segments of `url`.
///
/// Relies on `url::Url::parse` and `url::Url::path_segments`, which
/// splits the parsed URL's path at `/` without percent-decoding, and
/// returns nothing for a URL that cannot be a base.
#[verifier::external_body]
pub fn url_path_segments(url: &str) -> (r: Option<Vec<String>>)
    ensures
        r is Some <==> path_segments_of(url@) is Some,
        r matches Some(v) ==> {
            &&& path_segments_of(url@) matches Some(segs)
            &&& v@.len() == segs.len()
            &&& forall|i: int| 0 <= i < segs.len() ==> v@[i]@ == segs[i]
        },
{
    match url::Url::parse(url) {
        Err(_) => None,
        Ok(u) => match u.path_segments() {
            None => None,
            Some(it) => Some(it.map(|s| s.to_string()).collect()),
        },
    }
}

/// The decoded query pairs of `url`, in order.
///
/// Relies on `url::Url::parse` and `url::Url::query_pairs`, which parses
/// the URL's query string as `application/x-www-form-urlencoded`,
/// percent-decoding each name and value; a URL that does not parse
/// yields no pairs.
#[verifier::external_body]
pub fn url_query_pairs(url: &str) -> (r: Vec<(String, String)>)
    ensures
        r@.len() == query_pairs_of(url@).len(),
        forall|i: int| 0 <= i < r@.len() ==> r@[i].0@ == query_pairs_of(url@)[i].0 && r@[i].1@
            == query_pairs_of(url@)[i].1,
{
    match url::Url::parse(url) {
        Err(_) => Vec::new(),
        Ok(u) => u.query_pairs().map(|(k, v)| (k.into_owned(), v.into_owned())).collect(),
    }
}

/// Percent-decode `text`.
///
/// Relies on `url_escape::decode`, which decodes `%`-escape sequences and
/// leaves every other character as it stands.
#[verifier::external_body]
pub fn percent_decode(text: &str) -> (r: String)
    ensures
        r@ == percent_decoded(text@),
{
    url_escape::decode(text).into_owned()
}

} // verus!

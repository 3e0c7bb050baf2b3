//! URL parsing and regular-expression matching, done by the `url` and
//! `regex` crates. The results are named by spec functions over the
//! characters of the inputs.
use vstd::prelude::*;

verus! {

/// Whether `url::Url::parse` accepts the text as an absolute URL.
pub uninterp spec fn url_parses(text: Seq<char>) -> bool;

/// What `url::Url::host_str` gives for the URL parsed from the text.
pub uninterp spec fn url_host(text: Seq<char>) -> Option<Seq<char>>;

/// The serialization of the URL parsed from `text` after
/// `query_pairs_mut().append_pair(key, value)`.
pub uninterp spec fn url_with_query_pair(text: Seq<char>, key: Seq<char>, value: Seq<char>) -> Seq<char>;

/// Whether `regex::Regex::new` accepts the pattern.
pub uninterp spec fn regex_valid(pattern: Seq<char>) -> bool;

/// What `regex::Regex::is_match` answers for the regex compiled from
/// `pattern` and the haystack `text`.
pub uninterp spec fn regex_matches(pattern: Seq<char>, text: Seq<char>) -> bool;

/// Parses `text` with `url::Url::parse` and reads the host with
/// `url::Url::host_str`. `None` when the text does not parse; the inner
/// option is the host, which URLs such as `data:` ones lack.
#[verifier::external_body]
pub(crate) fn parse_url_host(text: &str) -> (r: Option<Option<String>>)
    ensures
        r is Some <==> url_parses(text@),
        r matches Some(h) ==> h.deep_view() == url_host(text@),
{
    match url::Url::parse(text) {
        Ok(u) => Some(u.host_str().map(|h| h.to_string())),
        Err(_) => None,
    }
}

/// Parses `text` with `url::Url::parse`, appends the query pair
/// `key=value` with `query_pairs_mut().append_pair` and serializes the
/// URL again. `None` when the text does not parse.
#[verifier::external_body]
pub(crate) fn append_query_pair(text: &str, key: &str, value: &str) -> (r: Option<String>)
    ensures
        r is Some <==> url_parses(text@),
        r matches Some(s) ==> s@ == url_with_query_pair(text@, key@, value@),
{
    match url::Url::parse(text) {
        Ok(mut u) => {
            u.query_pairs_mut().append_pair(key, value);
            Some(u.to_string())
        },
        Err(_) => None,
    }
}

/// Compiles `pattern` with `regex::Regex::new` and reports whether it was
/// accepted.
#[verifier::external_body]
pub(crate) fn regex_compiles(pattern: &str) -> (r: bool)
    ensures
        r == regex_valid(pattern@),
{
    regex::Regex::new(pattern).is_ok()
}

/// Compiles `pattern` with `regex::Regex::new` and runs
/// `regex::Regex::is_match` on `text`. Only called on patterns that compile.
#[verifier::external_body]
pub(crate) fn regex_is_match(pattern: &str, text: &str) -> (r: bool)
    requires
        regex_valid(pattern@),
    ensures
        r == regex_matches(pattern@, text@),
{
    match regex::Regex::new(pattern) {
        Ok(re) => re.is_match(text),
        Err(_) => false,
    }
}

} // verus!

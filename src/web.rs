use vstd::prelude::*;

verus! {

/// Whether a text parses as an absolute URL.
pub uninterp spec fn url_parses(s: Seq<char>) -> bool;

/// The text of the URL that `path` resolves to against the base URL `base`, if any.
pub uninterp spec fn joined_url(base: Seq<char>, path: Seq<char>) -> Option<Seq<char>>;

/// The text of `url` with the query pair `key=value` appended, form-encoded, if `url` parses.
pub uninterp spec fn url_with_pair(url: Seq<char>, key: Seq<char>, value: Seq<char>) -> Option<
    Seq<char>,
>;

/// Relies on `reqwest::Url::parse` of the base and `Url::join` of the path; a joined URL
/// is serialized by the url crate itself, so its text parses again.
#[verifier::external_body]
pub(crate) fn join_url(base: &str, path: &str) -> (r: Option<Option<String>>)
    ensures
        match r {
            None => !url_parses(base@),
            Some(None) => url_parses(base@) && joined_url(base@, path@) is None,
            Some(Some(u)) => url_parses(base@) && joined_url(base@, path@) == Some(u@)
                && url_parses(u@),
        },
{
    match reqwest::Url::parse(base) {
        Err(_) => None,
        Ok(b) => Some(b.join(path).ok().map(|u| u.to_string())),
    }
}

/// Relies on `reqwest::Url::query_pairs_mut().append_pair` on the parsed `url`: appending
/// a pair always succeeds, and the url crate's own serialization parses again.
#[verifier::external_body]
pub(crate) fn append_query_pair(url: &str, key: &str, value: &str) -> (r: Option<String>)
    ensures
        match r {
            None => url_with_pair(url@, key@, value@) is None && !url_parses(url@),
            Some(u) => url_with_pair(url@, key@, value@) == Some(u@) && (url_parses(url@)
                ==> url_parses(u@)),
        },
{
    let mut u = reqwest::Url::parse(url).ok()?;
    u.query_pairs_mut().append_pair(key, value);
    Some(u.to_string())
}

} // verus!

use crate::error::MonitorError;
use vstd::prelude::*;
use vstd::string::StringExecFns;

verus! {

/// The serialization of the URL that `url::Url::parse` makes of `s`, or
/// `None` where `s` is not a valid absolute URL.
pub uninterp spec fn parsed_url(s: Seq<char>) -> Option<Seq<char>>;

/// The serialization of `url::Url::parse(base)?.join(path)`, or `None`
/// where either step fails.
pub uninterp spec fn joined_url(base: Seq<char>, path: Seq<char>) -> Option<Seq<char>>;

/// The text of an optional `String`.
pub open spec fn text_of(o: Option<String>) -> Option<Seq<char>> {
    match o {
        Some(s) => Some(s@),
        None => None,
    }
}

/// Relies on `url::Url::parse` (and `From<Url> for String`, which hands out
/// the serialization): the parse depends on the input text alone.
#[verifier::external_body]
fn parse_url(s: &str) -> (r: Option<String>)
    ensures
        text_of(r) == parsed_url(s@),
{
    url::Url::parse(s).ok().map(String::from)
}

/// Relies on `url::Url::parse` followed by `url::Url::join`: the join
/// depends on the two texts alone, and never succeeds where the base does
/// not parse.
#[verifier::external_body]
fn join_url(base: &str, path: &str) -> (r: Option<String>)
    ensures
        text_of(r) == joined_url(base@, path@),
        parsed_url(base@) is None ==> r is None,
{
    url::Url::parse(base).ok().and_then(|b| b.join(path).ok()).map(String::from)
}

/// What resolving `path` against `base` gives: the joined URL, or the error
/// naming the base text when it does not parse, or the parsed base followed
/// by the path when the join fails.
pub open spec fn resolution(base: Seq<char>, path: Seq<char>) -> Result<Seq<char>, Seq<char>> {
    match parsed_url(base) {
        None => Err(base),
        Some(b) => match joined_url(base, path) {
            Some(j) => Ok(j),
            None => Err(b + path),
        },
    }
}

/// The view of a resolution result: URL text, or the text of `InvalidUrl`.
pub open spec fn resolved_view(r: Result<String, MonitorError>) -> Result<Seq<char>, Seq<char>> {
    match r {
        Ok(s) => Ok(s@),
        Err(MonitorError::InvalidUrl(t)) => Err(t@),
        Err(MonitorError::Request(t)) => Err(t@),
    }
}

/// Resolves `path` against the absolute URL `base` with standard URL
/// joining: a path that starts with `/` replaces the base's path, a relative
/// one is taken from the base's directory.
pub fn resolve_url(base: &str, path: &str) -> (r: Result<String, MonitorError>)
    ensures
        resolved_view(r) == resolution(base@, path@),
        r is Err ==> r->Err_0 is InvalidUrl,
{
    match parse_url(base) {
        None => Err(MonitorError::InvalidUrl(base.to_owned())),
        Some(parsed) => match join_url(base, path) {
            Some(joined) => Ok(joined),
            None => Err(MonitorError::InvalidUrl(parsed.concat(path))),
        },
    }
}

} // verus!

verus! {

/// The fixed path that pushed snapshots are posted to.
pub const PUSH_PATH: &'static str = "/api/monitoring/data";

/// Builds the health check URL from the backend base URL and the health path.
pub fn build_health_url(base: &str, health_path: &str) -> (r: Result<String, MonitorError>)
    ensures
        resolved_view(r) == resolution(base@, health_path@),
        r is Err ==> r->Err_0 is InvalidUrl,
{
    resolve_url(base, health_path)
}

/// Builds the metrics URL from the backend base URL and the metrics path.
pub fn build_metrics_url(base: &str, metrics_path: &str) -> (r: Result<String, MonitorError>)
    ensures
        resolved_view(r) == resolution(base@, metrics_path@),
        r is Err ==> r->Err_0 is InvalidUrl,
{
    resolve_url(base, metrics_path)
}

/// Builds the URL that snapshots are pushed to.
pub fn build_push_url(base: &str) -> (r: Result<String, MonitorError>)
    ensures
        resolved_view(r) == resolution(base@, PUSH_PATH@),
        r is Err ==> r->Err_0 is InvalidUrl,
{
    resolve_url(base, PUSH_PATH)
}

} // verus!

verus! {

/// Resolution is a function of the base and path texts alone: where the
/// base parses, the result is exactly the standard join of the path onto
/// it, so the same inputs always resolve to the same URL.
pub proof fn resolution_is_standard_join(base: Seq<char>, path: Seq<char>)
    requires
        parsed_url(base) is Some,
    ensures
        resolution(base, path) is Ok <==> joined_url(base, path) is Some,
        joined_url(base, path) matches Some(j) ==> resolution(base, path) == Ok::<
            Seq<char>,
            Seq<char>,
        >(j),
{
}

} // verus!

use vstd::prelude::*;

verus! {

/// Whether an HTTP status code counts as success: the 2xx range.
pub open spec fn success_code(code: u16) -> bool {
    200 <= code < 300
}

/// Classifies a status code as success (2xx) or not.
pub fn is_success(code: u16) -> (r: bool)
    ensures
        r == success_code(code),
{
    200 <= code && code < 300
}

/// The outcome of one health or metrics request that got a response.
#[derive(Debug, Clone, PartialEq, Eq)]
pub struct PollResult {
    pub code: u16,
    pub latency_ms: u64,
    /// Whether the body parsed as JSON.
    pub has_body: bool,
    pub success: bool,
}

impl PollResult {
    /// Records a response; success is read from the status code alone.
    pub fn new(code: u16, latency_ms: u64, has_body: bool) -> (r: PollResult)
        ensures
            r.code == code,
            r.latency_ms == latency_ms,
            r.has_body == has_body,
            r.success == success_code(code),
    {
        PollResult { code, latency_ms, has_body, success: is_success(code) }
    }
}

/// What `serde_json` makes of a response body and a member name: `None`
/// where the body is not JSON, else the body's top-level member `key` where
/// that is a string.
pub uninterp spec fn json_str_member(body: Seq<u8>, key: Seq<char>) -> Option<Option<Seq<char>>>;

/// Relies on `serde_json::from_slice` into a `serde_json::Value`, read with
/// `Value::get` and `Value::as_str`: the result depends on the bytes and the
/// member name alone.
#[verifier::external_body]
fn read_json_str_member(body: &[u8], key: &str) -> (r: Option<Option<String>>)
    ensures
        match r {
            None => json_str_member(body@, key@) is None,
            Some(None) => json_str_member(body@, key@) == Some(None::<Seq<char>>),
            Some(Some(t)) => json_str_member(body@, key@) == Some(Some(t@)),
        },
{
    serde_json::from_slice::<serde_json::Value>(body).ok().map(
        |v| v.get(key).and_then(|s| s.as_str()).map(String::from),
    )
}

/// The member of a health body whose string is reported.
pub const STATUS_MEMBER: &'static str = "status";

/// What a body holds for the reports: `None` where it is not JSON, else its
/// `status` member where that is a string.
pub open spec fn json_status(body: Seq<u8>) -> Option<Option<Seq<char>>> {
    json_str_member(body, STATUS_MEMBER@)
}

/// Records a response from its status code, latency and body; the body
/// counts only where it parses as JSON, and a body that does not is no
/// error.
pub fn poll_response(code: u16, latency_ms: u64, body: &[u8]) -> (r: PollResult)
    ensures
        r.code == code,
        r.latency_ms == latency_ms,
        r.has_body == (json_status(body@) is Some),
        r.success == success_code(code),
{
    let parsed = read_json_str_member(body, STATUS_MEMBER);
    PollResult::new(code, latency_ms, parsed.is_some())
}

/// The `status` member a body offers to the health report, if any.
pub open spec fn body_status(body: Seq<u8>) -> Option<Seq<char>> {
    match json_status(body) {
        Some(Some(t)) => Some(t),
        _ => None,
    }
}

/// How a health response is reported.
#[derive(Debug, Clone, PartialEq, Eq)]
pub enum HealthReport {
    /// A 2xx response, with the body's `status` string (empty when the body
    /// has none).
    Healthy { code: u16, latency_ms: u64, status: String },
    /// Any other response, whatever its body.
    Unhealthy { code: u16, latency_ms: u64 },
}

/// The `status` text logged for a healthy response: empty when absent.
pub open spec fn status_text(status: Option<String>) -> Seq<char> {
    match status {
        Some(t) => t@,
        None => Seq::<char>::empty(),
    }
}

/// Reports a health response: healthy with the body's `status` field for a
/// 2xx code, unhealthy for any other code regardless of the body.
pub fn health_report(result: &PollResult, status: Option<String>) -> (r: HealthReport)
    ensures
        success_code(result.code) ==> (r matches HealthReport::Healthy { code, latency_ms, status: s }
            && code == result.code && latency_ms == result.latency_ms && s@ == status_text(status)),
        !success_code(result.code) ==> r == (HealthReport::Unhealthy {
            code: result.code,
            latency_ms: result.latency_ms,
        }),
{
    if is_success(result.code) {
        let s = match status {
            Some(t) => t,
            None => String::new(),
        };
        HealthReport::Healthy { code: result.code, latency_ms: result.latency_ms, status: s }
    } else {
        HealthReport::Unhealthy { code: result.code, latency_ms: result.latency_ms }
    }
}

} // verus!

verus! {

/// Reports a health response from its status code, latency and body: for a
/// 2xx code healthy with the body's `status` string (empty where the body is
/// not JSON or has none), for any other code unhealthy.
pub fn health_response(code: u16, latency_ms: u64, body: &[u8]) -> (r: (PollResult, HealthReport))
    ensures
        r.0.code == code && r.0.latency_ms == latency_ms,
        r.0.has_body == (json_status(body@) is Some),
        r.0.success == success_code(code),
        success_code(code) ==> (r.1 matches HealthReport::Healthy { code: c, latency_ms: l, status: s }
            && c == code && l == latency_ms && s@ == match body_status(body@) {
                Some(t) => t,
                None => Seq::<char>::empty(),
            }),
        !success_code(code) ==> r.1 == (HealthReport::Unhealthy { code, latency_ms }),
{
    let parsed = read_json_str_member(body, STATUS_MEMBER);
    let result = PollResult::new(code, latency_ms, parsed.is_some());
    let status = match parsed {
        Some(Some(t)) => Some(t),
        _ => None,
    };
    let report = health_report(&result, status);
    (result, report)
}

} // verus!

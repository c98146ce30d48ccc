use vstd::prelude::*;

verus! {

/// The header that carries the metrics API key.
pub const METRICS_KEY_HEADER: &'static str = "X-Metrics-Key";

/// The header that carries the push API key.
pub const PUSH_KEY_HEADER: &'static str = "X-API-Key";

/// A character that may stand in an HTTP header value: a tab, or any
/// character from the space up other than DEL. Every character beyond ASCII
/// encodes to bytes of 0x80 and above, which are all allowed.
pub open spec fn header_char_ok(c: char) -> bool {
    c == '\t' || (c as u32 >= 32 && c as u32 != 127)
}

/// Text that can be sent as an HTTP header value.
pub open spec fn header_text_ok(s: Seq<char>) -> bool {
    forall|i: int| 0 <= i < s.len() ==> header_char_ok(#[trigger] s[i])
}

/// Relies on `reqwest::header::HeaderValue::from_str` (the `http` crate's),
/// which accepts a text exactly when each of its UTF-8 bytes is a tab or at
/// least 32 and not 127.
#[verifier::external_body]
fn header_value_accepted(s: &str) -> (r: bool)
    ensures
        r == header_text_ok(s@),
{
    reqwest::header::HeaderValue::from_str(s).is_ok()
}

/// What becomes of an optional API key on a request.
#[derive(Debug, Clone, PartialEq, Eq)]
pub enum KeyHeader {
    /// No key is configured: the request carries no such header.
    Absent,
    /// The header is attached with this exact value.
    Attached(String),
    /// The key cannot be a header value: the header is left out and the
    /// request goes on without it.
    Rejected,
}

/// The header decision for the metrics request.
pub open spec fn metrics_key_spec(key: Option<Seq<char>>) -> Option<Option<Seq<char>>> {
    match key {
        None => None,
        Some(k) => if header_text_ok(k) {
            Some(Some(k))
        } else {
            Some(None)
        },
    }
}

/// The view of a header decision: `None` when absent, `Some(None)` when
/// rejected, `Some(Some(v))` when attached with value `v`.
pub open spec fn key_header_view(h: KeyHeader) -> Option<Option<Seq<char>>> {
    match h {
        KeyHeader::Absent => None,
        KeyHeader::Rejected => Some(None),
        KeyHeader::Attached(v) => Some(Some(v@)),
    }
}

/// The view of an optional key.
pub open spec fn key_view(key: Option<String>) -> Option<Seq<char>> {
    match key {
        Some(k) => Some(k@),
        None => None,
    }
}

/// Decides the `X-Metrics-Key` header: attached with the configured value
/// exactly, left out when no key is configured, and left out (not fatal)
/// when the key holds characters a header value cannot hold.
pub fn metrics_key_header(key: &Option<String>) -> (r: KeyHeader)
    ensures
        key_header_view(r) == metrics_key_spec(key_view(*key)),
        key is None <==> r is Absent,
        r matches KeyHeader::Attached(v) ==> key == Some(v),
{
    match key {
        None => KeyHeader::Absent,
        Some(k) => if header_value_accepted(k.as_str()) {
            KeyHeader::Attached(k.clone())
        } else {
            KeyHeader::Rejected
        },
    }
}

/// Decides the `X-API-Key` header of a push: the configured value is handed
/// to the request as it is, and none is attached without a key.
pub fn push_key_header(key: &Option<String>) -> (r: KeyHeader)
    ensures
        key is None <==> r is Absent,
        r !is Rejected,
        r matches KeyHeader::Attached(v) ==> key_view(*key) == Some(v@),
{
    match key {
        None => KeyHeader::Absent,
        Some(k) => KeyHeader::Attached(k.clone()),
    }
}

} // verus!

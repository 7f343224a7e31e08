//! Instants in UTC as plain values, read and written by the `chrono` crate in
//! two text dialects: general RFC 3339, and the fixed pattern
//! `YYYY-MM-DDTHH:MM:SS.ffffffZ`.
use vstd::prelude::*;

verus! {

/// An instant: whole seconds since 1970-01-01T00:00:00Z and the nanoseconds
/// past that second.
#[derive(Debug, Clone, Copy, PartialEq, Eq, Structural)]
pub struct Timestamp {
    pub secs: i64,
    pub nanos: u32,
}

impl View for Timestamp {
    type V = Timestamp;

    open spec fn view(&self) -> Timestamp {
        *self
    }
}

/// What `chrono` makes of an RFC 3339 text, taken to UTC; `None` where it is
/// not one.
pub uninterp spec fn rfc3339_parse(text: Seq<char>) -> Option<Timestamp>;

/// The RFC 3339 text that `chrono` writes for an instant in UTC; `None` where the
/// instant is out of its range.
pub uninterp spec fn rfc3339_render(t: Timestamp) -> Option<Seq<char>>;

/// What `chrono` makes of a text in the fixed pattern `%Y-%m-%dT%H:%M:%S.%6fZ`,
/// read as UTC; `None` where it does not match.
pub uninterp spec fn fixed_utc_parse(text: Seq<char>) -> Option<Timestamp>;

/// The text of an instant in the fixed pattern `%Y-%m-%dT%H:%M:%S.%6fZ`; `None`
/// where the instant is out of `chrono`'s range.
pub uninterp spec fn fixed_utc_render(t: Timestamp) -> Option<Seq<char>>;

/// Relies on `chrono::DateTime::parse_from_rfc3339`, then `timestamp` and
/// `timestamp_subsec_nanos` of the result.
#[verifier::external_body]
fn parse_rfc3339(text: &str) -> (r: Option<Timestamp>)
    ensures
        r == rfc3339_parse(text@),
{
    match chrono::DateTime::parse_from_rfc3339(text) {
        Ok(d) => Some(Timestamp { secs: d.timestamp(), nanos: d.timestamp_subsec_nanos() }),
        Err(_) => None,
    }
}

/// Relies on `chrono::DateTime::from_timestamp`, then `to_rfc3339` in UTC.
#[verifier::external_body]
fn render_rfc3339(t: Timestamp) -> (r: Option<String>)
    ensures
        r matches Some(s) ==> rfc3339_render(t) == Some(s@),
        r is None ==> rfc3339_render(t) is None,
{
    chrono::DateTime::from_timestamp(t.secs, t.nanos).map(|d| d.to_rfc3339())
}

/// Relies on `chrono::NaiveDateTime::parse_from_str` with the fixed pattern, read as UTC.
#[verifier::external_body]
fn parse_fixed_utc(text: &str) -> (r: Option<Timestamp>)
    ensures
        r == fixed_utc_parse(text@),
{
    match chrono::NaiveDateTime::parse_from_str(text, "%Y-%m-%dT%H:%M:%S.%6fZ") {
        Ok(d) => Some(Timestamp { secs: d.and_utc().timestamp(), nanos: d.and_utc().timestamp_subsec_nanos() }),
        Err(_) => None,
    }
}

/// Relies on `chrono::DateTime::from_timestamp`, then `format` with the fixed pattern.
#[verifier::external_body]
fn render_fixed_utc(t: Timestamp) -> (r: Option<String>)
    ensures
        r matches Some(s) ==> fixed_utc_render(t) == Some(s@),
        r is None ==> fixed_utc_render(t) is None,
{
    chrono::DateTime::from_timestamp(t.secs, t.nanos).map(|d| d.format("%Y-%m-%dT%H:%M:%S.%6fZ").to_string())
}

impl Timestamp {
    /// Reads an RFC 3339 text with any UTC offset.
    pub fn parse_rfc3339(text: &str) -> (r: Option<Timestamp>)
        ensures
            r == rfc3339_parse(text@),
    {
        parse_rfc3339(text)
    }

    /// Writes the instant as RFC 3339 in UTC; `None` where it is out of range.
    pub fn to_rfc3339(&self) -> (r: Option<String>)
        ensures
            r matches Some(s) ==> rfc3339_render(*self) == Some(s@),
            r is None ==> rfc3339_render(*self) is None,
    {
        render_rfc3339(*self)
    }

    /// Reads a text in the fixed pattern `YYYY-MM-DDTHH:MM:SS.ffffffZ`.
    pub fn parse_fixed_utc(text: &str) -> (r: Option<Timestamp>)
        ensures
            r == fixed_utc_parse(text@),
    {
        parse_fixed_utc(text)
    }

    /// Writes the instant in the fixed pattern; `None` where it is out of range.
    pub fn to_fixed_utc(&self) -> (r: Option<String>)
        ensures
            r matches Some(s) ==> fixed_utc_render(*self) == Some(s@),
            r is None ==> fixed_utc_render(*self) is None,
    {
        render_fixed_utc(*self)
    }
}

} // verus!

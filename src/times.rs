//! Modification times and their textual forms.
use vstd::prelude::*;
use crate::paths::opt_view;

verus! {

/// A point in time as seconds and nanoseconds since the Unix epoch (UTC).
#[derive(Clone, Copy, Debug, PartialEq, Eq, Structural)]
pub struct Timestamp {
    pub secs: i64,
    pub nanos: u32,
}

/// Seconds since the epoch of 0000-01-01T00:00:00Z.
pub const FIRST_FOUR_DIGIT_SECS: i64 = -62167219200;

/// Seconds since the epoch of 10000-01-01T00:00:00Z.
pub const END_FOUR_DIGIT_SECS: i64 = 253402300800;

/// The RFC 3339 text of the instant `secs` seconds and `nanos` nanoseconds
/// after the epoch in UTC; `None` where it is out of range.
pub uninterp spec fn rfc3339_text(secs: int, nanos: int) -> Option<Seq<char>>;

/// The RFC 2822 text of the instant `secs` seconds and `nanos` nanoseconds
/// after the epoch in UTC; `None` where it is out of range.
pub uninterp spec fn rfc2822_text(secs: int, nanos: int) -> Option<Seq<char>>;

/// Relies on `chrono::DateTime::from_timestamp` (which gives `None` out of
/// range) and `DateTime::to_rfc3339`.
#[verifier::external_body]
fn format_rfc3339(secs: i64, nanos: u32) -> (r: Option<String>)
    ensures
        opt_view(r) == rfc3339_text(secs as int, nanos as int),
{
    match chrono::DateTime::from_timestamp(secs, nanos) {
        Some(d) => Some(d.to_rfc3339()),
        None => None,
    }
}

/// Relies on `chrono::DateTime::from_timestamp` and `DateTime::to_rfc2822`,
/// which panics outside the years 0 to 9999: those are excluded.
#[verifier::external_body]
fn format_rfc2822(secs: i64, nanos: u32) -> (r: Option<String>)
    requires
        FIRST_FOUR_DIGIT_SECS <= secs < END_FOUR_DIGIT_SECS,
    ensures
        opt_view(r) == rfc2822_text(secs as int, nanos as int),
{
    match chrono::DateTime::from_timestamp(secs, nanos) {
        Some(d) => Some(d.to_rfc2822()),
        None => None,
    }
}

/// The text a timestamp is shown as: `format`'s text, or empty where there is
/// none.
pub open spec fn text_or_empty(t: Option<Seq<char>>) -> Seq<char> {
    match t {
        Some(s) => s,
        None => Seq::empty(),
    }
}

/// The RFC 2822 text of `t`, or empty where `t` lies outside the years 0 to
/// 9999.
pub open spec fn rfc2822_or_empty(t: Timestamp) -> Seq<char> {
    if FIRST_FOUR_DIGIT_SECS <= t.secs < END_FOUR_DIGIT_SECS {
        text_or_empty(rfc2822_text(t.secs as int, t.nanos as int))
    } else {
        Seq::empty()
    }
}

impl Timestamp {
    /// The modification time to report: the one read, or `now` where none could be read.
    pub fn or_now(t: Option<Timestamp>, now: Timestamp) -> (r: Timestamp)
        ensures
            r == match t {
                Some(m) => m,
                None => now,
            },
    {
        match t {
            Some(m) => m,
            None => now,
        }
    }

    /// This time in RFC 3339 form (UTC), or empty where it is out of range.
    pub fn to_rfc3339(&self) -> (r: String)
        ensures
            r@ == text_or_empty(rfc3339_text(self.secs as int, self.nanos as int)),
    {
        match format_rfc3339(self.secs, self.nanos) {
            Some(s) => s,
            None => String::new(),
        }
    }

    /// This time in RFC 2822 form (UTC), or empty where it is out of range.
    pub fn to_rfc2822(&self) -> (r: String)
        ensures
            r@ == rfc2822_or_empty(*self),
    {
        if FIRST_FOUR_DIGIT_SECS <= self.secs && self.secs < END_FOUR_DIGIT_SECS {
            match format_rfc2822(self.secs, self.nanos) {
                Some(s) => s,
                None => String::new(),
            }
        } else {
            String::new()
        }
    }
}

} // verus!

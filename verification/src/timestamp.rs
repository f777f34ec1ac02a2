//! Points in time. The date library reads and writes them; this module holds
//! one as the seconds and nanoseconds that have passed since 1970-01-01T00:00:00.

use chrono::{DateTime, NaiveDateTime};
use std::fmt::Write;
use vstd::prelude::*;

verus! {

/// A date with a time of day, without a time zone.
#[derive(Debug, Clone, Copy, PartialEq, Eq, Structural)]
pub struct Timestamp {
    /// Whole seconds since 1970-01-01T00:00:00; negative before it.
    pub secs: i64,
    /// Nanoseconds since the last whole second.
    pub nanos: u32,
}

/// What `NaiveDateTime::parse_from_str` makes of a text under a format: the
/// seconds and nanoseconds of the point in time, or the message of its refusal.
pub uninterp spec fn date_time_parse(value: Seq<char>, format: Seq<char>) -> Result<
    (i64, u32),
    Seq<char>,
>;

/// What the date library writes for a point in time under a format; `None` where
/// it has no such point in time or refuses the format.
pub uninterp spec fn date_time_text(secs: i64, nanos: u32, format: Seq<char>) -> Option<
    Seq<char>,
>;

/// Whether `a` is earlier than `b`.
pub open spec fn earlier(a: Timestamp, b: Timestamp) -> bool {
    a.secs < b.secs || (a.secs == b.secs && a.nanos < b.nanos)
}

/// What reading `value` under `format` gives.
pub open spec fn timestamp_of(value: Seq<char>, format: Seq<char>) -> Result<
    Timestamp,
    Seq<char>,
> {
    match date_time_parse(value, format) {
        Ok((secs, nanos)) => Ok(Timestamp { secs, nanos }),
        Err(cause) => Err(cause),
    }
}

/// Calls `NaiveDateTime::parse_from_str`, and reads the result as seconds and
/// nanoseconds with `timestamp` and `timestamp_subsec_nanos`. Trusted: the
/// outcome depends on the two texts alone and is named `date_time_parse`.
#[verifier::external_body]
fn parse_date_time(value: &str, format: &str) -> (r: Result<Timestamp, String>)
    ensures
        match r {
            Ok(t) => date_time_parse(value@, format@) == Ok::<(i64, u32), Seq<char>>(
                (t.secs, t.nanos),
            ),
            Err(cause) => date_time_parse(value@, format@) == Err::<(i64, u32), Seq<char>>(
                cause@,
            ),
        },
{
    match NaiveDateTime::parse_from_str(value, format) {
        Ok(d) => Ok(
            Timestamp {
                secs: d.and_utc().timestamp(),
                nanos: d.and_utc().timestamp_subsec_nanos(),
            },
        ),
        Err(e) => Err(e.to_string()),
    }
}

/// Makes the point in time with `DateTime::from_timestamp` and writes it with
/// `format` of the date library. Trusted: the outcome depends on the arguments
/// alone and is named `date_time_text`.
#[verifier::external_body]
fn format_date_time(secs: i64, nanos: u32, format: &str) -> (r: Option<String>)
    ensures
        match r {
            Some(s) => date_time_text(secs, nanos, format@) == Some(s@),
            None => date_time_text(secs, nanos, format@) is None,
        },
{
    match DateTime::from_timestamp(secs, nanos) {
        Some(d) => {
            let mut out = String::new();
            match write!(out, "{}", d.naive_utc().format(format)) {
                Ok(()) => Some(out),
                Err(_) => None,
            }
        },
        None => None,
    }
}

impl Timestamp {
    /// Reads a text as a point in time under a format of the date library.
    pub fn parse(value: &str, format: &str) -> (r: Result<Timestamp, String>)
        ensures
            match r {
                Ok(t) => timestamp_of(value@, format@) == Ok::<Timestamp, Seq<char>>(t),
                Err(cause) => timestamp_of(value@, format@) == Err::<Timestamp, Seq<char>>(
                    cause@,
                ),
            },
    {
        parse_date_time(value, format)
    }

    /// Writes the point in time under a format of the date library.
    pub fn format(&self, format: &str) -> (r: Option<String>)
        ensures
            match r {
                Some(s) => date_time_text(self.secs, self.nanos, format@) == Some(s@),
                None => date_time_text(self.secs, self.nanos, format@) is None,
            },
    {
        format_date_time(self.secs, self.nanos, format)
    }

    /// Whether this point in time is earlier than `other`.
    pub fn is_before(&self, other: &Timestamp) -> (r: bool)
        ensures
            r == earlier(*self, *other),
    {
        self.secs < other.secs || (self.secs == other.secs && self.nanos < other.nanos)
    }
}

} // verus!

//! The time that a web server's `Date` header gives, for the clock sync.

use vstd::prelude::*;

use crate::clock::utc_fields;
use crate::cmd_parse::offset_time_of;
use crate::cmds::OffsetTime;
use crate::rtc::{raw_of_fields, RTCRawTime};

verus! {

/// What `chrono::DateTime::parse_from_rfc2822` gives for `s`: Unix time and
/// UTC offset, both in seconds.
pub uninterp spec fn rfc2822_time(s: Seq<char>) -> Option<(i64, i32)>;

/// Calls `chrono::DateTime::parse_from_rfc2822` and keeps the Unix time and
/// the offset of what it parsed; the result is the named `rfc2822_time`.
#[verifier::external_body]
fn parse_http_date(s: &str) -> (r: Option<OffsetTime>)
    ensures
        match rfc2822_time(s@) {
            Some(t) => r == Some(offset_time_of(t)),
            None => r is None,
        },
{
    match chrono::DateTime::parse_from_rfc2822(s) {
        Ok(d) => Some(OffsetTime { timestamp: d.timestamp(), offset: d.offset().local_minus_utc() }),
        Err(_) => None,
    }
}

/// The instant of a web server's `Date` header (RFC 2822), for the system
/// clock; `None` when the header is no such date.
pub fn web_date(date: &str) -> (r: Option<OffsetTime>)
    ensures
        match rfc2822_time(date@) {
            Some(t) => r == Some(offset_time_of(t)),
            None => r is None,
        },
{
    parse_http_date(date)
}

/// The clock registers written from a web server's `Date` header: the UTC
/// calendar fields of its instant; `None` when the header is no date or its
/// instant has no calendar date.
pub fn web_time_registers(date: &str) -> (r: Option<RTCRawTime>)
    ensures
        match rfc2822_time(date@) {
            Some(t) => match utc_fields(t.0 as int) {
                Some(f) => r matches Some(x) && x.0@ == raw_of_fields(f),
                None => r is None,
            },
            None => r is None,
        },
{
    match parse_http_date(date) {
        Some(t) => RTCRawTime::from_unix(t.timestamp),
        None => None,
    }
}

} // verus!

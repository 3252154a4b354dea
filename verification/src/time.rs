//! Instants in time, as seconds and nanoseconds since the Unix epoch, and the
//! clock and RFC 3339 text that `chrono` provides for them.

use vstd::prelude::*;

verus! {

/// One billion: nanoseconds in a second.
pub const NANOS_PER_SECOND: i128 = 1_000_000_000;

/// An instant: whole seconds since the Unix epoch (UTC) and the nanoseconds
/// past that second.
#[derive(Debug, Clone, Copy, PartialEq, Eq, Structural)]
pub struct Timestamp {
    pub secs: i64,
    pub nanos: u32,
}

impl Timestamp {
    /// The instant as nanoseconds since the epoch.
    pub open spec fn total_nanos(self) -> int {
        self.secs * 1_000_000_000 + self.nanos
    }
}

/// Whole seconds from `since` to `now`, never negative: the elapsed time
/// truncated to seconds, 0 when `now` is not after `since`, and capped at the
/// largest `u64`.
pub open spec fn elapsed_seconds(now: Timestamp, since: Timestamp) -> int {
    let d = now.total_nanos() - since.total_nanos();
    if d <= 0 {
        0
    } else if d / 1_000_000_000 > u64::MAX {
        u64::MAX as int
    } else {
        d / 1_000_000_000
    }
}

/// Whole seconds from `since` to `now`, truncated toward zero: negative when
/// `since` is later than `now`.
pub open spec fn signed_whole_seconds(now: Timestamp, since: Timestamp) -> int {
    let d = now.total_nanos() - since.total_nanos();
    if d >= 0 {
        d / 1_000_000_000
    } else {
        -((-d) / 1_000_000_000)
    }
}

/// Computes `elapsed_seconds(now, since)`.
pub fn elapsed_seconds_between(now: Timestamp, since: Timestamp) -> (res: u64)
    ensures
        res == elapsed_seconds(now, since),
{
    let d: i128 = (now.secs as i128 - since.secs as i128) * NANOS_PER_SECOND + (now.nanos as i128
        - since.nanos as i128);
    assert(d == now.total_nanos() - since.total_nanos());
    if d <= 0 {
        0
    } else {
        let q: i128 = d / NANOS_PER_SECOND;
        if q > u64::MAX as i128 {
            u64::MAX
        } else {
            q as u64
        }
    }
}

/// The text of an RFC 3339 date-time parsed by
/// `chrono::DateTime::parse_from_rfc3339` and converted to UTC, or `None` when
/// the text is not such a date-time.
pub uninterp spec fn rfc3339_instant(text: Seq<char>) -> Option<Timestamp>;

/// Reads the system clock through `chrono::Utc::now`. Nothing is claimed of
/// the instant returned: it is the current time.
#[verifier::external_body]
pub(crate) fn now() -> (res: Timestamp) {
    let t = chrono::Utc::now();
    Timestamp { secs: t.timestamp(), nanos: t.timestamp_subsec_nanos() }
}

/// An instant that RFC 3339 text can carry: a year from 0000 to 9999
/// (UTC), with fewer than a billion nanoseconds past its second.
pub open spec fn in_rfc3339_years(t: Timestamp) -> bool {
    &&& -62_167_219_200 <= t.secs <= 253_402_300_799
    &&& t.nanos < 1_000_000_000
}

/// Renders an instant with `chrono::DateTime::from_timestamp` and
/// `to_rfc3339` (UTC, offset `+00:00`, the fraction of a second written in
/// full where it is not 0). Claimed: such text of an instant whose year has
/// four digits parses back, by `parse_from_rfc3339`, to that very instant.
/// Not claimed: the text of other instants (chrono writes a signed year of
/// five or more digits, which its parser refuses; an instant it cannot
/// represent gives the empty text).
#[verifier::external_body]
pub(crate) fn rfc3339_text(t: Timestamp) -> (res: String)
    ensures
        in_rfc3339_years(t) ==> rfc3339_instant(res@) == Some(t),
{
    match chrono::DateTime::from_timestamp(t.secs, t.nanos) {
        Some(d) => d.to_rfc3339(),
        None => String::new(),
    }
}

/// The system clock rendered as RFC 3339 text, by `rfc3339_text`. Nothing is
/// claimed of the text: the instant the clock gives is not known.
pub(crate) fn now_rfc3339() -> (res: String) {
    let t = now();
    rfc3339_text(t)
}

/// Parses RFC 3339 text with `chrono::DateTime::parse_from_rfc3339`, as an
/// instant in UTC. The result is named `rfc3339_instant`; the grammar of
/// RFC 3339 is not restated.
#[verifier::external_body]
pub(crate) fn parse_rfc3339(text: &str) -> (res: Option<Timestamp>)
    ensures
        res == rfc3339_instant(text@),
{
    match chrono::DateTime::parse_from_rfc3339(text) {
        Ok(t) => Some(Timestamp { secs: t.timestamp(), nanos: t.timestamp_subsec_nanos() }),
        Err(_) => None,
    }
}

/// A lower-case hexadecimal digit.
pub open spec fn is_lower_hex(c: char) -> bool {
    ('0' <= c && c <= '9') || ('a' <= c && c <= 'f')
}

/// The hyphenated lower-case text of a version 4 UUID: 36 characters,
/// hyphens at positions 8, 13, 18 and 23, hexadecimal digits elsewhere, the
/// version digit `4` at position 14 and the variant digit (8, 9, a or b) at
/// position 19.
pub open spec fn is_v4_uuid_text(s: Seq<char>) -> bool {
    &&& s.len() == 36
    &&& forall|i: int|
        0 <= i < 36 ==> if i == 8 || i == 13 || i == 18 || i == 23 {
            s[i] == '-'
        } else {
            is_lower_hex(#[trigger] s[i])
        }
    &&& s[14] == '4'
    &&& (s[19] == '8' || s[19] == '9' || s[19] == 'a' || s[19] == 'b')
}

/// Draws a random version 4 UUID with `uuid::Uuid::new_v4` and renders it
/// with `to_string`, which writes the hyphenated lower-case form. The digits
/// are random; the contract states the form every such text has.
#[verifier::external_body]
pub(crate) fn new_uuid_v4() -> (res: String)
    ensures
        is_v4_uuid_text(res@),
{
    uuid::Uuid::new_v4().to_string()
}

} // verus!

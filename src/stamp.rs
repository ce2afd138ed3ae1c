//! UTC timestamps as milliseconds since the Unix epoch, with the text that
//! chrono's `Display` gives them, and the inclusive date window of a query.

use chrono::{TimeZone, Utc};
use vstd::prelude::*;
use vstd::string::*;

verus! {

/// The layout of timestamps in feed records: `YYYY-MM-DD HH:MM:SS`.
pub const FEED_FORMAT: &'static str = "%Y-%m-%d %H:%M:%S";

/// The layout of a day bound once widened to a full timestamp: `YYYYMMDDHHMMSS`.
pub const COMPACT_FORMAT: &'static str = "%Y%m%d%H%M%S";

/// How many leading characters of a feed timestamp are significant.
pub const FEED_STAMP_CHARS: usize = 19;

/// What chrono's `Utc.datetime_from_str(s, fmt)` yields, as milliseconds since
/// the epoch (`timestamp_millis`), or `None` when `s` does not match `fmt` or
/// names no valid instant.
pub uninterp spec fn parsed_utc_millis(s: Seq<char>, fmt: Seq<char>) -> Option<i64>;

/// The text chrono's `Display` writes for the `DateTime<Utc>` that
/// `Utc.datetime_from_str(s, fmt)` yields (meaningful when it parses).
pub uninterp spec fn parsed_utc_text(s: Seq<char>, fmt: Seq<char>) -> Seq<char>;

/// Relies on chrono's `TimeZone::datetime_from_str` for `Utc`; of the instant
/// it yields, `DateTime::timestamp_millis` and the `Display` text.
#[verifier::external_body]
#[allow(deprecated)]
fn parse_utc(s: &str, fmt: &str) -> (r: Option<(i64, String)>)
    ensures
        (r is Some) == (parsed_utc_millis(s@, fmt@) is Some),
        r matches Some((ms, t)) ==> parsed_utc_millis(s@, fmt@) == Some(ms) && t@
            == parsed_utc_text(s@, fmt@),
{
    Utc.datetime_from_str(s, fmt).ok().map(|d| (d.timestamp_millis(), d.to_string()))
}

/// An instant in UTC together with its default textual form.
#[derive(Debug)]
pub struct Stamp {
    pub millis: i64,
    pub text: String,
}

impl Stamp {
    /// Decodes a feed timestamp: its first nineteen characters, read as
    /// `YYYY-MM-DD HH:MM:SS` in UTC. Shorter or malformed text gives `None`.
    pub fn from_feed(raw: &str) -> (r: Option<Stamp>)
        ensures
            raw@.len() < 19 ==> r is None,
            raw@.len() >= 19 ==> match parsed_utc_millis(raw@.subrange(0, 19), FEED_FORMAT@) {
                None => r is None,
                Some(ms) => r matches Some(st) && st.millis == ms && st.text@ == parsed_utc_text(
                    raw@.subrange(0, 19),
                    FEED_FORMAT@,
                ),
            },
    {
        let n = raw.unicode_len();
        if n < FEED_STAMP_CHARS {
            return None;
        }
        let head = raw.substring_char(0, FEED_STAMP_CHARS);
        match parse_utc(head, FEED_FORMAT) {
            Some((ms, t)) => Some(Stamp { millis: ms, text: t }),
            None => None,
        }
    }
}

/// The six zero digits that widen a day to its midnight.
pub open spec fn midnight_suffix() -> Seq<char> {
    seq!['0', '0', '0', '0', '0', '0']
}

/// The bound a `YYYYMMDD` day gives: its midnight in UTC, or `now` when the
/// day does not parse.
pub open spec fn day_bound(day: Seq<char>, now: i64) -> i64 {
    match parsed_utc_millis(day + midnight_suffix(), COMPACT_FORMAT@) {
        Some(m) => m,
        None => now,
    }
}

/// Turns a `YYYYMMDD` day into the milliseconds of its UTC midnight; text that
/// does not parse falls back to `now_ms`.
pub fn date_bound(day: &str, now_ms: i64) -> (r: i64)
    ensures
        r == day_bound(day@, now_ms),
{
    let mut full = String::from_str(day);
    full.append("000000");
    proof {
        reveal_strlit("000000");
        assert("000000"@ =~= midnight_suffix());
    }
    match parse_utc(full.as_str(), COMPACT_FORMAT) {
        Some((m, _)) => m,
        None => now_ms,
    }
}

/// `t` lies in the inclusive window `[from, to]`.
pub open spec fn within(t: int, from: int, to: int) -> bool {
    from <= t <= to
}

/// Inclusive window test on millisecond instants.
pub fn in_date_range(t: i64, from: i64, to: i64) -> (r: bool)
    ensures
        r == within(t as int, from as int, to as int),
{
    from <= t && t <= to
}

/// For two days that parse, the earlier not after the later, the window they
/// bound admits each day's own midnight and rejects the millisecond before
/// the first midnight and the millisecond after the second.
pub proof fn date_window_edges(d1: Seq<char>, d2: Seq<char>, now: i64)
    requires
        parsed_utc_millis(d1 + midnight_suffix(), COMPACT_FORMAT@) is Some,
        parsed_utc_millis(d2 + midnight_suffix(), COMPACT_FORMAT@) is Some,
        day_bound(d1, now) <= day_bound(d2, now),
    ensures
        within(day_bound(d1, now) as int, day_bound(d1, now) as int, day_bound(d2, now) as int),
        within(day_bound(d2, now) as int, day_bound(d1, now) as int, day_bound(d2, now) as int),
        !within(day_bound(d1, now) - 1, day_bound(d1, now) as int, day_bound(d2, now) as int),
        !within(day_bound(d2, now) + 1, day_bound(d1, now) as int, day_bound(d2, now) as int),
{
}

} // verus!

//! Points in time.
//!
//! A [`Timestamp`] is a number of seconds and nanoseconds since the Unix
//! epoch.  The clock and the text form of a timestamp come from `chrono`,
//! through three functions whose contracts are believed, not proved.  How far
//! two timestamps are apart is computed here.

use vstd::prelude::*;

verus! {

/// A point in time: `secs` seconds and `nanos` nanoseconds after the start of
/// 1970 in UTC.
#[derive(Clone, Copy, Debug, PartialEq, Eq, Structural)]
pub struct Timestamp {
    /// Whole seconds since the epoch; negative before it.
    pub secs: i64,
    /// Nanoseconds after the last whole second.
    pub nanos: u32,
}

/// The nanoseconds from the epoch to `t`.
pub open spec fn since_epoch(t: Timestamp) -> int {
    t.secs * 1_000_000_000 + t.nanos
}

/// The nanoseconds from `from` to `to`; negative where `to` is the earlier one.
pub open spec fn elapsed(from: Timestamp, to: Timestamp) -> int {
    since_epoch(to) - since_epoch(from)
}

/// The text that `chrono` writes for a timestamp, in the form of RFC 3339 with
/// `Z` for UTC; `None` where `chrono` cannot hold the timestamp as a date.
pub uninterp spec fn rfc3339_text(secs: i64, nanos: u32) -> Option<Seq<char>>;

/// The timestamp that `chrono` reads from a text in the form of RFC 3339.
pub uninterp spec fn rfc3339_instant(text: Seq<char>) -> Option<Timestamp>;

/// What holds of every time that the clock gives: it has less than a second of
/// nanoseconds, and it can be written as text.
pub open spec fn from_clock(t: Timestamp) -> bool {
    t.nanos < 1_000_000_000 && rfc3339_text(t.secs, t.nanos) is Some
}

/// `chrono::Utc::now`, as seconds and nanoseconds.  Which time the clock gives
/// is not known; it is a date that `chrono` holds, so it can be written, and
/// its nanoseconds are those of the system's clock, which stay below a second.
#[verifier::external_body]
fn clock() -> (r: Timestamp)
    ensures
        r.nanos < 1_000_000_000,
        rfc3339_text(r.secs, r.nanos) is Some,
{
    let t = chrono::Utc::now();
    Timestamp { secs: t.timestamp(), nanos: t.timestamp_subsec_nanos() }
}

/// `chrono::DateTime::to_rfc3339_opts`, on the date that
/// `chrono::DateTime::from_timestamp` makes of `t`, with as many digits of the
/// second's fraction as are needed and `Z` for UTC.
#[verifier::external_body]
fn chrono_text(t: Timestamp) -> (r: Option<String>)
    ensures
        match r {
            Some(s) => rfc3339_text(t.secs, t.nanos) == Some(s@),
            None => rfc3339_text(t.secs, t.nanos) is None,
        },
{
    chrono::DateTime::from_timestamp(t.secs, t.nanos).map(
        |d| d.to_rfc3339_opts(chrono::SecondsFormat::AutoSi, true),
    )
}

/// `str::parse` to a `chrono::DateTime<Utc>`, as seconds and nanoseconds.
#[verifier::external_body]
fn chrono_instant(s: &str) -> (r: Option<Timestamp>)
    ensures
        r == rfc3339_instant(s@),
{
    s.parse::<chrono::DateTime<chrono::Utc>>().ok().map(
        |d| Timestamp { secs: d.timestamp(), nanos: d.timestamp_subsec_nanos() },
    )
}

impl Timestamp {
    /// The time that the system's clock shows: some time that can be written
    /// as text, with less than a second of nanoseconds.
    pub fn now() -> (r: Timestamp)
        ensures
            r.nanos < 1_000_000_000,
            rfc3339_text(r.secs, r.nanos) is Some,
    {
        clock()
    }

    /// The timestamp as text, in the form of RFC 3339; `None` where it is
    /// outside the dates that can be written.
    pub fn to_text(&self) -> (r: Option<String>)
        ensures
            match r {
                Some(s) => rfc3339_text(self.secs, self.nanos) == Some(s@),
                None => rfc3339_text(self.secs, self.nanos) is None,
            },
    {
        chrono_text(*self)
    }

    /// The timestamp that a text in the form of RFC 3339 stands for.
    pub fn parse(s: &str) -> (r: Option<Timestamp>)
        ensures
            r == rfc3339_instant(s@),
    {
        chrono_instant(s)
    }

    /// Whether more than `seconds` seconds lie between `self` and the later
    /// time `now`.
    pub fn passed(&self, now: Timestamp, seconds: i64) -> (r: bool)
        ensures
            r == (elapsed(*self, now) > seconds * 1_000_000_000),
    {
        let from: i128 = (self.secs as i128) * 1_000_000_000 + (self.nanos as i128);
        let to: i128 = (now.secs as i128) * 1_000_000_000 + (now.nanos as i128);
        to - from > (seconds as i128) * 1_000_000_000
    }

    /// The later of two timestamps.
    pub fn later(self, other: Timestamp) -> (r: Timestamp)
        ensures
            r == if since_epoch(self) >= since_epoch(other) {
                self
            } else {
                other
            },
    {
        let a: i128 = (self.secs as i128) * 1_000_000_000 + (self.nanos as i128);
        let b: i128 = (other.secs as i128) * 1_000_000_000 + (other.nanos as i128);
        if a >= b {
            self
        } else {
            other
        }
    }
}

} // verus!

//! Instants in UTC, held as whole seconds since the Unix epoch and the
//! nanoseconds past that second, the two numbers that `chrono` builds a
//! `DateTime<Utc>` from.

use vstd::prelude::*;

verus! {

/// The seconds and nanoseconds that `chrono::DateTime::<Utc>::from_timestamp`
/// accepts: a date from year -262143 to year 262142, and a nanosecond part
/// below one second, or below two seconds on a leap second (the 59th second
/// of a minute).
pub open spec fn chrono_timestamp_valid(secs: i64, nanos: u32) -> bool {
    &&& -8_334_601_228_800 <= secs <= 8_210_266_876_799
    &&& nanos < 2_000_000_000
    &&& (nanos < 1_000_000_000 || (secs as int) % 60 == 59)
}

/// An instant in UTC.
#[derive(Clone, Copy, Debug, PartialEq, Eq, Structural)]
pub struct UtcTime {
    pub secs: i64,
    pub nanos: u32,
}

impl UtcTime {
    /// The instant is one that `chrono` can represent.
    pub open spec fn valid(self) -> bool {
        chrono_timestamp_valid(self.secs, self.nanos)
    }

    /// Whether the instant is one that `chrono` can represent.
    pub fn is_valid(&self) -> (b: bool)
        ensures
            b == self.valid(),
    {
        -8_334_601_228_800 <= self.secs && self.secs <= 8_210_266_876_799 && self.nanos
            < 2_000_000_000 && (self.nanos < 1_000_000_000 || (self.secs % 60 + 60) % 60 == 59)
    }

    /// `DateTime::timestamp_millis`: whole seconds times 1000 plus the
    /// milliseconds of the nanosecond part.
    pub open spec fn spec_millis(self) -> int {
        self.secs * 1000 + (self.nanos / 1_000_000) as int
    }

    pub fn timestamp_millis(&self) -> (m: i64)
        requires
            self.valid(),
        ensures
            m == self.spec_millis(),
    {
        self.secs * 1000 + (self.nanos / 1_000_000) as i64
    }
}

/// `chrono::Utc::now()`, as seconds and nanoseconds. Trusted: the instant is
/// one that a `DateTime<Utc>` holds. Which instant it is depends on the
/// clock and is not stated.
#[verifier::external_body]
pub fn utc_now() -> (t: UtcTime)
    ensures
        t.valid(),
{
    let now = chrono::Utc::now();
    UtcTime { secs: now.timestamp(), nanos: now.timestamp_subsec_nanos() }
}

/// The RFC 3339 text that `chrono` writes for a valid instant
/// (`DateTime::<Utc>::to_rfc3339`).
pub uninterp spec fn chrono_rfc3339(secs: i64, nanos: u32) -> Seq<char>;

/// `chrono::DateTime::<Utc>::from_timestamp(secs, nanos)` followed, when it
/// gives a date, by `to_rfc3339`. Trusted: there is a date exactly when the
/// two numbers are in `chrono`'s range, and the text is the one `chrono`
/// writes for them.
#[verifier::external_body]
pub fn rfc3339_of_timestamp(secs: i64, nanos: u32) -> (res: Option<String>)
    ensures
        res is Some <==> chrono_timestamp_valid(secs, nanos),
        res matches Some(s) ==> s@ == chrono_rfc3339(secs, nanos),
{
    match chrono::DateTime::<chrono::Utc>::from_timestamp(secs, nanos) {
        Some(date) => Some(date.to_rfc3339()),
        None => None,
    }
}

} // verus!

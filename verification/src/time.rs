//! Points in time, as seconds and nanoseconds since the Unix epoch.

use vstd::prelude::*;

verus! {

/// First second of the year 0000, the earliest that an RFC 3339 text can name.
pub const MIN_SECS: i64 = -62_167_219_200;

/// Last second of the year 9999, the latest that an RFC 3339 text can name.
pub const MAX_SECS: i64 = 253_402_300_799;

/// Nanoseconds in one second.
pub const NANOS_PER_SEC: u32 = 1_000_000_000;

/// The text that chrono writes for the instant `secs` and `nanos` after the
/// Unix epoch: RFC 3339 in UTC, the offset written as `Z`, the fraction of a
/// second in three, six or nine digits, or left out where it is zero.
pub uninterp spec fn rfc3339_text(secs: int, nanos: int) -> Seq<char>;

/// The instant that chrono reads from a text, as seconds and nanoseconds
/// after the Unix epoch, or `None` where it reads none.
pub uninterp spec fn rfc3339_instant(text: Seq<char>) -> Option<(int, int)>;

/// Whether an instant can be written: it lies in the years 0000 to 9999,
/// and its nanoseconds are less than a second, or stand for a leap second.
/// A leap second is held as chrono holds it: on the last second of a minute,
/// with nanoseconds from one second up to two.
pub open spec fn instant_in_range(secs: int, nanos: int) -> bool {
    &&& MIN_SECS <= secs <= MAX_SECS
    &&& 0 <= nanos
    &&& nanos < NANOS_PER_SEC || (nanos < 2 * NANOS_PER_SEC && secs % 60 == 59)
}

/// `chrono::DateTime::<Utc>::from` on the reading of
/// `std::time::SystemTime::now`, taken apart by `DateTime::timestamp` and
/// `DateTime::timestamp_subsec_nanos`. Claimed: the clock shows no leap
/// second, so less than a second has passed since the last whole one.
/// Nothing else is claimed of the clock; one that stands before 1970 gives
/// negative seconds.
#[verifier::external_body]
pub(crate) fn clock_now() -> (r: (i64, u32))
    ensures
        r.1 < NANOS_PER_SEC,
{
    let now = chrono::DateTime::<chrono::Utc>::from(std::time::SystemTime::now());
    (now.timestamp(), now.timestamp_subsec_nanos())
}

/// `chrono::DateTime::to_rfc3339_opts` with `SecondsFormat::AutoSi` and `Z`,
/// on the value that `DateTime::from_timestamp` makes of the arguments.
/// Claimed: an instant in range has a text; the text is the one named
/// `rfc3339_text`; and chrono reads the text of an instant in range back
/// as that instant. A leap second is written as second 60 and read back
/// from it.
#[verifier::external_body]
pub(crate) fn write_instant(secs: i64, nanos: u32) -> (r: Option<String>)
    ensures
        instant_in_range(secs as int, nanos as int) ==> r is Some,
        r matches Some(s) ==> s@ == rfc3339_text(secs as int, nanos as int),
        r matches Some(s) ==> (instant_in_range(secs as int, nanos as int) ==> rfc3339_instant(s@)
            == Some((secs as int, nanos as int))),
{
    match chrono::DateTime::from_timestamp(secs, nanos) {
        Some(t) => Some(t.to_rfc3339_opts(chrono::SecondsFormat::AutoSi, true)),
        None => None,
    }
}

/// `str::parse` to a `chrono::DateTime<Utc>`, taken apart by
/// `DateTime::timestamp` and `DateTime::timestamp_subsec_nanos`.
/// Claimed: the result is the instant named `rfc3339_instant`.
#[verifier::external_body]
pub(crate) fn read_instant(text: &str) -> (r: Option<(i64, u32)>)
    ensures
        match r {
            Some((secs, nanos)) => rfc3339_instant(text@) == Some((secs as int, nanos as int)),
            None => rfc3339_instant(text@) is None,
        },
{
    match text.parse::<chrono::DateTime<chrono::Utc>>() {
        Ok(t) => Some((t.timestamp(), t.timestamp_subsec_nanos())),
        Err(_) => None,
    }
}

/// A point in time: whole seconds since the Unix epoch, and the nanoseconds
/// that have passed since the last whole second. On a leap second the
/// seconds stay on the last second of the minute and the nanoseconds run
/// on, from one second up to two.
#[derive(Clone, Copy, Debug, PartialEq, Eq, Structural)]
pub struct PomTime {
    pub secs: i64,
    pub nanos: u32,
}

impl PomTime {
    /// Whether the time can be written as RFC 3339 text.
    pub open spec fn in_range(self) -> bool {
        instant_in_range(self.secs as int, self.nanos as int)
    }

    /// Whether `self` is no later than `other`.
    pub open spec fn not_after(self, other: PomTime) -> bool {
        self.secs < other.secs || (self.secs == other.secs && self.nanos <= other.nanos)
    }

    /// The RFC 3339 text of the time.
    pub open spec fn text(self) -> Seq<char> {
        rfc3339_text(self.secs as int, self.nanos as int)
    }

    /// The time that a text names, where it names one that is in range.
    pub open spec fn from_text(text: Seq<char>) -> Option<PomTime> {
        match rfc3339_instant(text) {
            Some((secs, nanos)) => if instant_in_range(secs, nanos) {
                Some(PomTime { secs: secs as i64, nanos: nanos as u32 })
            } else {
                None
            },
            None => None,
        }
    }

    pub fn new(secs: i64, nanos: u32) -> (t: PomTime)
        ensures
            t == (PomTime { secs, nanos }),
    {
        PomTime { secs, nanos }
    }

    /// The time that the system clock shows.
    pub fn now() -> (t: PomTime)
        ensures
            t.nanos < NANOS_PER_SEC,
    {
        let (secs, nanos) = clock_now();
        PomTime { secs, nanos }
    }

    pub fn is_in_range(&self) -> (b: bool)
        ensures
            b == self.in_range(),
    {
        if self.secs < MIN_SECS || self.secs > MAX_SECS {
            false
        } else if self.nanos < NANOS_PER_SEC {
            true
        } else {
            let since_first: i64 = self.secs - MIN_SECS;
            assert(since_first % 60 == self.secs % 60);
            self.nanos < 2 * NANOS_PER_SEC && since_first % 60 == 59
        }
    }

    pub fn is_not_after(&self, other: &PomTime) -> (b: bool)
        ensures
            b == self.not_after(*other),
    {
        self.secs < other.secs || (self.secs == other.secs && self.nanos <= other.nanos)
    }

    /// The RFC 3339 text of a time in range; `None` for any other.
    pub fn to_text(&self) -> (r: Option<String>)
        ensures
            r is Some <==> self.in_range(),
            r matches Some(s) ==> s@ == self.text() && PomTime::from_text(s@) == Some(*self),
    {
        if self.is_in_range() {
            write_instant(self.secs, self.nanos)
        } else {
            None
        }
    }

    /// Reads a time from RFC 3339 text. A text that names no time, or one
    /// out of range, gives `None`.
    pub fn parse(text: &str) -> (r: Option<PomTime>)
        ensures
            r == PomTime::from_text(text@),
    {
        match read_instant(text) {
            Some((secs, nanos)) => {
                let t = PomTime { secs, nanos };
                if t.is_in_range() {
                    Some(t)
                } else {
                    None
                }
            },
            None => None,
        }
    }
}

} // verus!

//! Instants of local time, and their rendering through strftime-style patterns.

use vstd::prelude::*;

verus! {

/// The last second that the time library can hold: the end of the year 262142.
pub const MAX_SECS: i64 = 8_210_266_876_799;

/// An instant together with the local offset from UTC that was in force then.
pub struct Moment {
    secs: i64,
    nanos: u32,
    offset: i32,
}

/// What a pattern expands to at an instant with a given offset, as `chrono`
/// computes it; `None` where it gives no text, as for a specifier that it does
/// not know.
pub uninterp spec fn strftime(pattern: Seq<char>, secs: i64, nanos: u32, offset: i32) -> Option<Seq<char>>;

/// A pattern with a `%` in it asks for some part of the time.
pub open spec fn has_specifier(pattern: Seq<char>) -> bool {
    pattern.contains('%')
}

pub open spec fn digit_char(d: int) -> char
    recommends
        0 <= d <= 9,
{
    (d + '0' as u32) as char
}

pub open spec fn two_digits(n: int) -> Seq<char>
    recommends
        0 <= n <= 99,
{
    seq![digit_char(n / 10), digit_char(n % 10)]
}

/// `HH:MM:SS` for a second of the day.
pub open spec fn clock_text(second_of_day: int) -> Seq<char>
    recommends
        0 <= second_of_day < 86_400,
{
    two_digits(second_of_day / 3600) + seq![':'] + two_digits((second_of_day / 60) % 60) + seq![':']
        + two_digits(second_of_day % 60)
}

/// The text inside an optional string.
pub open spec fn text_of(s: Option<String>) -> Option<Seq<char>> {
    match s {
        Some(t) => Some(t@),
        None => None,
    }
}

impl Moment {
    /// Seconds since 1970-01-01T00:00:00 UTC, leap seconds not counted.
    pub closed spec fn unix_seconds(&self) -> i64 {
        self.secs
    }

    /// Nanoseconds since the last whole second.
    pub closed spec fn subsec_nanos(&self) -> u32 {
        self.nanos
    }

    /// Seconds that local time is ahead of UTC.
    pub closed spec fn utc_offset(&self) -> i32 {
        self.offset
    }

    /// The values that a clock can give: an instant from 1970 on that the time
    /// library can hold, outside a leap second, with an offset of less than a day.
    pub open spec fn is_reading(&self) -> bool {
        &&& 0 <= self.unix_seconds() <= MAX_SECS
        &&& self.subsec_nanos() < 1_000_000_000
        &&& -86_400 < self.utc_offset() < 86_400
    }

    #[verifier::type_invariant]
    spec fn inv(&self) -> bool {
        self.is_reading()
    }

    /// The second of the local day at which the instant falls.
    pub open spec fn second_of_day(&self) -> int {
        (self.unix_seconds() + self.utc_offset()) % 86_400
    }

    /// The local time of day as `HH:MM:SS`.
    pub open spec fn clock(&self) -> Seq<char> {
        clock_text(self.second_of_day())
    }

    /// What `pattern` expands to at this instant.
    pub open spec fn expand(&self, pattern: Seq<char>) -> Option<Seq<char>> {
        strftime(pattern, self.unix_seconds(), self.subsec_nanos(), self.utc_offset())
    }

    /// The instant `secs` seconds and `nanos` nanoseconds after the start of
    /// 1970 in UTC, seen where local time is `offset` seconds ahead of UTC.
    pub fn new(secs: i64, nanos: u32, offset: i32) -> (r: Option<Moment>)
        ensures
            r is Some <==> 0 <= secs <= MAX_SECS && nanos < 1_000_000_000 && -86_400 < offset
                < 86_400,
            r matches Some(m) ==> m.is_reading() && m.unix_seconds() == secs && m.subsec_nanos()
                == nanos && m.utc_offset() == offset,
    {
        if 0 <= secs && secs <= MAX_SECS && nanos < 1_000_000_000 && -86_400 < offset && offset
            < 86_400 {
            Some(Moment { secs, nanos, offset })
        } else {
            None
        }
    }

    /// The local time of day as `HH:MM:SS`.
    pub fn clock_string(&self) -> (r: String)
        ensures
            r@ == self.clock(),
    {
        self.format("%T").unwrap()
    }

    /// Expands `pattern` at this instant.
    pub fn format(&self, pattern: &str) -> (r: Option<String>)
        ensures
            text_of(r) == self.expand(pattern@),
            !has_specifier(pattern@) ==> text_of(r) == Some(pattern@),
            pattern@ == "%T"@ ==> text_of(r) == Some(self.clock()),
    {
        proof {
            use_type_invariant(self);
        }
        strftime_at(pattern, self)
    }
}

/// `chrono::Local::now`, taken apart by `timestamp`, `timestamp_subsec_nanos`
/// and `offset().local_minus_utc()`. Nothing is said of which instant comes
/// back, only that it is one a clock can give: the call builds it from the
/// time since 1970 and fails, by a panic, on a system clock set before that.
#[verifier::external_body]
fn read_clock() -> (m: Moment)
    ensures
        m.is_reading(),
{
    let t = chrono::Local::now();
    Moment {
        secs: t.timestamp(),
        nanos: t.timestamp_subsec_nanos(),
        offset: t.offset().local_minus_utc(),
    }
}

/// `chrono::DateTime::format` on the instant that `DateTime::from_timestamp`
/// and `FixedOffset::east_opt` rebuild from `m`, written out by
/// `DelayedFormat::write_to`. The result is a function of the pattern and the
/// three numbers alone. Two things are claimed of it beyond that, for an
/// instant that a clock can give: text without `%` comes back as it is, and
/// `%T` gives the local hour, minute and second, two digits each.
#[verifier::external_body]
fn strftime_at(pattern: &str, m: &Moment) -> (r: Option<String>)
    ensures
        text_of(r) == strftime(pattern@, m.unix_seconds(), m.subsec_nanos(), m.utc_offset()),
        m.is_reading() && !has_specifier(pattern@) ==> text_of(r) == Some(pattern@),
        m.is_reading() && pattern@ == "%T"@ ==> text_of(r) == Some(clock_text(m.second_of_day())),
{
    let utc = chrono::DateTime::from_timestamp(m.secs, m.nanos)?;
    let zone = chrono::FixedOffset::east_opt(m.offset)?;
    let mut out = String::new();
    match utc.with_timezone(&zone).format(pattern).write_to(&mut out) {
        Ok(()) => Some(out),
        Err(_) => None,
    }
}

/// Expands `fmt` at the current local time. `None` where the pattern holds a
/// specifier that is not known.
pub fn current_time_fmt(fmt: &str) -> (r: Option<String>)
    ensures
        exists|m: Moment| #[trigger] m.is_reading() && text_of(r) == m.expand(fmt@),
        !has_specifier(fmt@) ==> text_of(r) == Some(fmt@),
        fmt@ == "%T"@ ==> exists|m: Moment| #[trigger] m.is_reading() && text_of(r) == Some(m.clock()),
{
    let now = read_clock();
    now.format(fmt)
}

} // verus!

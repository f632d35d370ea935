//! Durations, wall times and clock samples, as plain numbers.

use crate::text::{chars_of, decimal_text, push_char, push_decimal, push_two_digits};
use vstd::prelude::*;

verus! {

pub const NANOS_PER_MILLI: u128 = 1_000_000;

pub const NANOS_PER_SECOND: u128 = 1_000_000_000;

/// A span of time, to the nanosecond.
#[derive(Clone, Copy, Debug, PartialEq, Eq, Structural, PartialOrd, Ord, Hash)]
pub struct Duration {
    pub nanos: u128,
}

impl Duration {
    pub fn zero() -> (span: Self)
        ensures
            span.nanos == 0,
    {
        Duration { nanos: 0 }
    }

    pub fn from_secs(secs: u64) -> (span: Self)
        ensures
            span.nanos == secs * NANOS_PER_SECOND,
    {
        Duration { nanos: secs as u128 * NANOS_PER_SECOND }
    }

    pub fn from_millis(millis: u64) -> (span: Self)
        ensures
            span.nanos == millis * NANOS_PER_MILLI,
    {
        Duration { nanos: millis as u128 * NANOS_PER_MILLI }
    }

    pub open spec fn secs_spec(self) -> int {
        let secs = self.nanos as int / NANOS_PER_SECOND as int;
        if secs <= u64::MAX {
            secs
        } else {
            u64::MAX as int
        }
    }

    /// Whole seconds, the remainder dropped.
    pub fn as_secs(self) -> (secs: u64)
        ensures
            secs == self.secs_spec(),
    {
        let secs: u128 = self.nanos / NANOS_PER_SECOND;
        if secs <= u64::MAX as u128 {
            secs as u64
        } else {
            u64::MAX
        }
    }

    pub open spec fn millis_spec(self) -> int {
        let millis = self.nanos as int / NANOS_PER_MILLI as int;
        if millis <= u64::MAX {
            millis
        } else {
            u64::MAX as int
        }
    }

    /// Whole milliseconds, the remainder dropped; the largest number where
    /// there are more than it can hold.
    pub fn as_millis(self) -> (millis: u64)
        ensures
            millis == self.millis_spec(),
    {
        let millis: u128 = self.nanos / NANOS_PER_MILLI;
        if millis <= u64::MAX as u128 {
            millis as u64
        } else {
            u64::MAX
        }
    }

    /// The time from `earlier` to `self`; none where `earlier` is later.
    pub open spec fn since_spec(self, earlier: Self) -> int {
        if earlier.nanos <= self.nanos {
            self.nanos - earlier.nanos
        } else {
            0
        }
    }

    pub fn since(self, earlier: Self) -> (span: Self)
        ensures
            span.nanos == self.since_spec(earlier),
    {
        if earlier.nanos <= self.nanos {
            Duration { nanos: self.nanos - earlier.nanos }
        } else {
            Duration { nanos: 0 }
        }
    }

    /// `HH:MM:SS`, the hours taking as many digits as they need.
    pub open spec fn hms_spec(self) -> Seq<char> {
        let secs = self.secs_spec() as nat;
        crate::text::two_digits(secs / 3600) + seq![':'] + crate::text::two_digits(
            (secs / 60) % 60,
        ) + seq![':'] + crate::text::two_digits(secs % 60)
    }
}

pub fn format_hms(span: Duration) -> (out: String)
    ensures
        out@ == span.hms_spec(),
{
    let secs: u64 = span.as_secs();
    let mut out = String::new();
    push_two_digits(&mut out, secs / 3600);
    push_char(&mut out, ':');
    push_two_digits(&mut out, (secs / 60) % 60);
    push_char(&mut out, ':');
    push_two_digits(&mut out, secs % 60);
    proof {
        assert(out@ =~= span.hms_spec());
    }
    out
}

/// A written span tells the whole span: hours, minutes and seconds in digits, with
/// colons between, which together come to its seconds, fewer than sixty of them,
/// and of the minutes, behind a colon.
pub proof fn hms_tells_the_span(span: Duration)
    requires
        span.nanos as int / 1_000_000_000 <= u64::MAX,
    ensures
        exists|hours: Seq<char>, minutes: Seq<char>, seconds: Seq<char>|
            #![trigger crate::text::number_of(hours), crate::text::number_of(minutes), crate::text::number_of(seconds)]
            {
                &&& span.hms_spec() == hours + seq![':'] + minutes + seq![':'] + seconds
                &&& crate::text::is_number(hours) && hours.len() >= 2
                &&& crate::text::is_number(minutes) && minutes.len() == 2
                &&& crate::text::is_number(seconds) && seconds.len() == 2
                &&& crate::text::number_of(minutes) < 60
                &&& crate::text::number_of(seconds) < 60
                &&& crate::text::number_of(hours) * 3600 + crate::text::number_of(minutes) * 60
                    + crate::text::number_of(seconds) == span.nanos as int / 1_000_000_000
            },
{
    let secs = span.secs_spec() as nat;
    let hours = crate::text::two_digits(secs / 3600);
    let minutes = crate::text::two_digits((secs / 60) % 60);
    let seconds = crate::text::two_digits(secs % 60);
    crate::text::two_digits_read_back(secs / 3600);
    crate::text::two_digits_read_back((secs / 60) % 60);
    crate::text::two_digits_read_back(secs % 60);
    assert(crate::text::number_of(hours) * 3600 + crate::text::number_of(minutes) * 60
        + crate::text::number_of(seconds) == secs);
}

/// A date and time of day with its offset from UTC, in calendar parts.
#[derive(Clone, Copy, Debug, PartialEq, Eq, Structural, Hash)]
pub struct WallTime {
    pub year: i32,
    pub month: u8,
    pub day: u8,
    pub hour: u8,
    pub minute: u8,
    pub second: u8,
    pub nanosecond: u32,
    pub offset_seconds: i32,
}

/// `count` zeros.
pub open spec fn zeros(count: nat) -> Seq<char> {
    Seq::new(count, |i: int| '0')
}

/// Zeros in front of `digits`, up to `width` characters in all.
pub open spec fn zero_padded(digits: Seq<char>, width: nat) -> Seq<char> {
    if digits.len() < width {
        zeros((width - digits.len()) as nat) + digits
    } else {
        digits
    }
}

/// A year in four places, its sign among them.
pub open spec fn year_text(year: int) -> Seq<char> {
    if year < 0 {
        seq!['-'] + zero_padded(crate::text::decimal((-year) as nat), 3)
    } else {
        zero_padded(crate::text::decimal(year as nat), 4)
    }
}

fn push_padded(out: &mut String, n: u64, width: usize)
    ensures
        final(out)@ == old(out)@ + zero_padded(crate::text::decimal(n as nat), width as nat),
{
    let digits = chars_of(decimal_text(n).as_str());
    let mut filled: usize = digits.len();
    while filled < width
        invariant
            digits@.len() <= filled,
            filled <= width || filled == digits@.len(),
            out@ == old(out)@ + zeros((filled - digits@.len()) as nat),
        decreases width - filled,
    {
        proof {
            let k = (filled - digits@.len()) as nat;
            assert(zeros(k + 1) =~= zeros(k).push('0'));
        }
        push_char(out, '0');
        filled += 1;
    }
    push_decimal(out, n);
    proof {
        assert(out@ =~= old(out)@ + zero_padded(crate::text::decimal(n as nat), width as nat));
    }
}

/// `20260908T143211Z`: safe in a file name.
pub open spec fn stamp_text(at: WallTime) -> Seq<char> {
    year_text(at.year as int) + crate::text::two_digits(at.month as nat) + crate::text::two_digits(
        at.day as nat,
    ) + seq!['T'] + crate::text::two_digits(at.hour as nat) + crate::text::two_digits(
        at.minute as nat,
    ) + crate::text::two_digits(at.second as nat) + seq!['Z']
}

pub fn stamp(at: WallTime) -> (out: String)
    ensures
        out@ == stamp_text(at),
{
    let mut out = String::new();
    if at.year < 0 {
        push_char(&mut out, '-');
        push_padded(&mut out, (-(at.year as i64)) as u64, 3);
    } else {
        push_padded(&mut out, at.year as u64, 4);
    }
    proof {
        assert(out@ =~= year_text(at.year as int));
    }
    push_two_digits(&mut out, at.month as u64);
    push_two_digits(&mut out, at.day as u64);
    push_char(&mut out, 'T');
    push_two_digits(&mut out, at.hour as u64);
    push_two_digits(&mut out, at.minute as u64);
    push_two_digits(&mut out, at.second as u64);
    push_char(&mut out, 'Z');
    proof {
        assert(out@ =~= stamp_text(at));
    }
    out
}

/// One reading of both clocks.
#[derive(Clone, Copy, Debug, PartialEq, Eq, Structural)]
pub struct ClockSample {
    /// Time since a fixed but arbitrary start; it never runs back.
    pub monotonic: Duration,
    pub wall: WallTime,
}

} // verus!

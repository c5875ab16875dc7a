use vstd::prelude::*;
use crate::time::time::TimeUnit;

verus! {

/// Nanoseconds in a second.
pub const NANOSECONDS_PER_SECOND: u128 = 1_000_000_000;

/// A span of time as the cartridge clock counts it: seconds, minutes and hours within the
/// day, and whole days.
#[derive(Copy, Clone, PartialEq, Eq, Structural, Debug)]
pub struct RTCDuration {
    pub seconds: u8,
    pub minutes: u8,
    pub hours: u8,
    pub days: u16,
}

/// The number of seconds that the clock fields stand for.
pub open spec fn rtc_total_seconds(seconds: u8, minutes: u8, hours: u8, days: u16) -> int {
    seconds + 60 * minutes + 3600 * hours + 86400 * days
}

impl RTCDuration {
    pub fn to_duration(&self) -> (r: Duration)
        ensures
            r.nanoseconds == rtc_total_seconds(self.seconds, self.minutes, self.hours, self.days)
                * 1_000_000_000,
    {
        Duration::from_seconds(
            self.seconds as u64 + (self.minutes as u64) * 60 + (self.hours as u64) * 3600 + (
            self.days as u64) * 86400,
        )
    }
}

/// A span of time in nanoseconds.
#[derive(Copy, Clone, PartialEq, Eq, Structural, PartialOrd, Ord, Debug)]
pub struct Duration {
    pub nanoseconds: u128,
}

/// The whole seconds of `nanoseconds`, as the 64-bit count that the clock works with.
pub open spec fn whole_seconds(nanoseconds: u128) -> u64 {
    (nanoseconds / 1_000_000_000) as u64
}

impl Duration {
    /// The empty span.
    pub fn new() -> (r: Duration)
        ensures
            r.nanoseconds == 0,
    {
        Duration { nanoseconds: 0 }
    }

    pub fn from_seconds(seconds: u64) -> (r: Duration)
        ensures
            r.nanoseconds == seconds * 1_000_000_000,
    {
        Duration { nanoseconds: (seconds as u128) * NANOSECONDS_PER_SECOND }
    }

    pub fn from_nanoseconds(nanoseconds: u128) -> (r: Duration)
        ensures
            r.nanoseconds == nanoseconds,
    {
        Duration { nanoseconds }
    }

    /// This span lengthened by `amount` units.
    pub fn add(&self, amount: u64, unit: TimeUnit) -> (r: Duration)
        requires
            amount * unit.nanoseconds_spec() <= u64::MAX,
            self.nanoseconds + amount * unit.nanoseconds_spec() <= u128::MAX,
        ensures
            r.nanoseconds == self.nanoseconds + amount * unit.nanoseconds_spec(),
    {
        let step = amount * unit.to_nanoseconds();
        Duration::from_nanoseconds(self.nanoseconds + step as u128)
    }

    /// This span shortened by `amount` units.
    pub fn subtract(&self, amount: u64, unit: TimeUnit) -> (r: Duration)
        requires
            amount * unit.nanoseconds_spec() <= u64::MAX,
            amount * unit.nanoseconds_spec() <= self.nanoseconds,
        ensures
            r.nanoseconds == self.nanoseconds - amount * unit.nanoseconds_spec(),
    {
        let step = amount * unit.to_nanoseconds();
        Duration::from_nanoseconds(self.nanoseconds - step as u128)
    }

    /// How many whole spans of `amount` units fit in this span.
    pub fn divide_by(&self, amount: u64, unit: TimeUnit) -> (r: u128)
        requires
            amount * unit.nanoseconds_spec() <= u64::MAX,
            amount > 0,
        ensures
            r == self.nanoseconds / (amount * unit.nanoseconds_spec()) as u128,
    {
        let ns = unit.to_nanoseconds();
        proof {
            vstd::arithmetic::mul::lemma_mul_strictly_positive(amount as int, ns as int);
        }
        let step = amount * ns;
        self.nanoseconds / (step as u128)
    }

    /// The span split into days, hours, minutes and seconds; nanoseconds below a second
    /// are dropped, and the day count keeps its low 16 bits.
    pub fn to_rtc_duration(&self) -> (r: RTCDuration)
        ensures
            r.days == (whole_seconds(self.nanoseconds) / 86400) as u16,
            r.hours == whole_seconds(self.nanoseconds) % 86400 / 3600,
            r.minutes == whole_seconds(self.nanoseconds) % 3600 / 60,
            r.seconds == whole_seconds(self.nanoseconds) % 60,
    {
        let mut seconds: u64 = (self.nanoseconds / NANOSECONDS_PER_SECOND) as u64;
        let ghost total = seconds;
        let days: u64 = seconds / 86400;
        seconds = seconds - days * 86400;
        let hours: u64 = seconds / 3600;
        seconds = seconds - hours * 3600;
        let minutes: u64 = seconds / 60;
        seconds = seconds - minutes * 60;
        proof {
            assert(total % 86400 == total - days * 86400);
            assert(total % 3600 == (total % 86400) % 3600) by {
                vstd::arithmetic::div_mod::lemma_mod_mod(total as int, 3600, 24);
            }
            assert(total % 60 == (total % 3600) % 60) by {
                vstd::arithmetic::div_mod::lemma_mod_mod(total as int, 60, 60);
            }
        }
        RTCDuration { seconds: seconds as u8, minutes: minutes as u8, hours: hours as u8, days: days as u16 }
    }
}

/// Splitting a whole number of seconds, less than 65536 days, into clock fields and
/// turning them back into a span gives the span back.
pub proof fn law_rtc_round_trip(nanoseconds: u128, rtc: RTCDuration)
    requires
        nanoseconds % 1_000_000_000 == 0,
        nanoseconds / 1_000_000_000 < 65536 * 86400,
        rtc.days == (whole_seconds(nanoseconds) / 86400) as u16,
        rtc.hours == whole_seconds(nanoseconds) % 86400 / 3600,
        rtc.minutes == whole_seconds(nanoseconds) % 3600 / 60,
        rtc.seconds == whole_seconds(nanoseconds) % 60,
    ensures
        rtc_total_seconds(rtc.seconds, rtc.minutes, rtc.hours, rtc.days) * 1_000_000_000
            == nanoseconds,
{
    let s = whole_seconds(nanoseconds) as int;
    assert(s == nanoseconds / 1_000_000_000);
    assert(s % 3600 == (s % 86400) % 3600) by {
        vstd::arithmetic::div_mod::lemma_mod_mod(s, 3600, 24);
    }
    assert(s % 60 == (s % 3600) % 60) by {
        vstd::arithmetic::div_mod::lemma_mod_mod(s, 60, 60);
    }
    assert(rtc_total_seconds(rtc.seconds, rtc.minutes, rtc.hours, rtc.days) == s);
}

/// Lengthening a span by some units and shortening it by as many gives the span back.
pub proof fn law_add_then_subtract(start: u128, amount: u64, unit: TimeUnit)
    requires
        amount * unit.nanoseconds_spec() <= u64::MAX,
        start + amount * unit.nanoseconds_spec() <= u128::MAX,
    ensures
        (start + amount * unit.nanoseconds_spec()) - amount * unit.nanoseconds_spec() == start,
        amount * unit.nanoseconds_spec() <= start + amount * unit.nanoseconds_spec(),
{
    vstd::arithmetic::mul::lemma_mul_nonnegative(amount as int, unit.nanoseconds_spec() as int);
}

} // verus!

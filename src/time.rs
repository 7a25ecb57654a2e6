use vstd::prelude::*;
use vstd::arithmetic::div_mod::{lemma_add_mod_noop_right, lemma_fundamental_div_mod_converse};
use crate::duration::{in_range, Duration, NANOS_PER_SEC, SECS_PER_DAY};

verus! {

/// The largest stored fraction plus one: fractions from one second up to this
/// bound stand for a positive leap second.
pub const MAX_FRAC: u32 = 2_000_000_000;

/// Whether hour, minute, second and fraction lie in their ranges.
pub open spec fn valid_fields(hour: int, min: int, sec: int, nano: int) -> bool {
    &&& 0 <= hour < 24
    &&& 0 <= min < 60
    &&& 0 <= sec < 60
    &&& 0 <= nano < MAX_FRAC
}

/// The hour on a 12-hour clock: whether it is past noon, and the hour from 1 to 12.
pub open spec fn hour12_of(hour: int) -> (bool, int) {
    (hour >= 12, if hour % 12 == 0 { 12 } else { hour % 12 })
}

/// Whole seconds past midnight, the leap second left out.
pub open spec fn secs_of_day(hour: int, min: int, sec: int) -> int {
    hour * 3600 + min * 60 + sec
}

/// The fraction at which a carry into the next second happens: a leap second,
/// once entered, runs out in full before the carry.
pub open spec fn carry_limit(frac: int) -> int {
    if frac >= NANOS_PER_SEC { 2 * NANOS_PER_SEC } else { NANOS_PER_SEC as int }
}

/// The start of the second that holds a fraction: zero, or one second into a leap second.
pub open spec fn second_start(frac: int) -> int {
    if frac >= NANOS_PER_SEC { NANOS_PER_SEC as int } else { 0 }
}

/// Hour, minute, second and fraction `t` moved by `d` nanoseconds, wrapping at midnight.
pub open spec fn time_plus(t: (int, int, int, int), d: int) -> (int, int, int, int) {
    let n = NANOS_PER_SEC as int;
    let secs = secs_of_day(t.0, t.1, t.2) + d / n;
    let nanos = t.3 + d % n;
    let carried = nanos >= carry_limit(t.3);
    let secs = if carried { secs + 1 } else { secs };
    let nanos = if carried { nanos - carry_limit(t.3) } else { nanos };
    let day = secs % (SECS_PER_DAY as int);
    (day / 3600, day / 60 % 60, day % 60, nanos)
}

/// Nanoseconds from `b` to `a`, a leap second counted as part of the second before it.
pub open spec fn time_minus(a: (int, int, int, int), b: (int, int, int, int)) -> int {
    let secs = (a.0 - b.0) * 3600 + (a.1 - b.1) * 60 + (a.2 - b.2) - 1;
    let to_next = carry_limit(b.3) - b.3;
    let from_last = a.3 - second_start(a.3);
    secs * NANOS_PER_SEC + to_next + from_last
}

/// A value that has an hour, a minute, a second and a nanosecond fraction.
pub trait Timelike: Sized {
    /// The hour, from 0 to 23.
    spec fn spec_hour(&self) -> int;

    /// The minute, from 0 to 59.
    spec fn spec_minute(&self) -> int;

    /// The second, from 0 to 59.
    spec fn spec_second(&self) -> int;

    /// Nanoseconds past the whole second; from one second on, a leap second.
    spec fn spec_nanosecond(&self) -> int;

    /// Returns the hour number from 0 to 23.
    fn hour(&self) -> (r: usize)
        ensures
            r == self.spec_hour(),
            r < 24,
    ;

    /// Returns the hour number from 1 to 12 with a flag that is false for AM
    /// and true for PM.
    fn hour12(&self) -> (r: (bool, usize))
        ensures
            r.0 == hour12_of(self.spec_hour()).0,
            r.1 == hour12_of(self.spec_hour()).1,
    {
        let hour = self.hour();
        let mut hour12: usize = hour % 12;
        if hour12 == 0 {
            hour12 = 12;
        }
        (hour >= 12, hour12)
    }

    /// Returns the minute number from 0 to 59.
    fn minute(&self) -> (r: usize)
        ensures
            r == self.spec_minute(),
            r < 60,
    ;

    /// Returns the second number from 0 to 59.
    fn second(&self) -> (r: usize)
        ensures
            r == self.spec_second(),
            r < 60,
    ;

    /// Returns the number of nanoseconds since the whole non-leap second.
    /// The range from 1,000,000,000 to 1,999,999,999 represents the leap second.
    fn nanosecond(&self) -> (r: usize)
        ensures
            r == self.spec_nanosecond(),
            r < MAX_FRAC,
    ;

    /// Makes a new value with the hour number changed, or `None` when the
    /// hour is out of range.
    fn with_hour(&self, hour: usize) -> (r: Option<Self>)
        ensures
            r is Some <==> hour < 24,
            r matches Some(t) ==> {
                &&& t.spec_hour() == hour
                &&& t.spec_minute() == self.spec_minute()
                &&& t.spec_second() == self.spec_second()
                &&& t.spec_nanosecond() == self.spec_nanosecond()
            },
    ;

    /// Makes a new value with the minute number changed, or `None` when the
    /// minute is out of range.
    fn with_minute(&self, min: usize) -> (r: Option<Self>)
        ensures
            r is Some <==> min < 60,
            r matches Some(t) ==> {
                &&& t.spec_hour() == self.spec_hour()
                &&& t.spec_minute() == min
                &&& t.spec_second() == self.spec_second()
                &&& t.spec_nanosecond() == self.spec_nanosecond()
            },
    ;

    /// Makes a new value with the second number changed, or `None` when the
    /// second is out of range.
    fn with_second(&self, sec: usize) -> (r: Option<Self>)
        ensures
            r is Some <==> sec < 60,
            r matches Some(t) ==> {
                &&& t.spec_hour() == self.spec_hour()
                &&& t.spec_minute() == self.spec_minute()
                &&& t.spec_second() == sec
                &&& t.spec_nanosecond() == self.spec_nanosecond()
            },
    ;

    /// Makes a new value with the nanoseconds since the whole non-leap second
    /// changed, or `None` when they are out of range.
    fn with_nanosecond(&self, nano: usize) -> (r: Option<Self>)
        ensures
            r is Some <==> nano < MAX_FRAC,
            r matches Some(t) ==> {
                &&& t.spec_hour() == self.spec_hour()
                &&& t.spec_minute() == self.spec_minute()
                &&& t.spec_second() == self.spec_second()
                &&& t.spec_nanosecond() == nano
            },
    ;

    /// Returns the number of non-leap seconds past the last midnight.
    fn nseconds_from_midnight(&self) -> (r: usize)
        ensures
            r == secs_of_day(self.spec_hour(), self.spec_minute(), self.spec_second()),
    {
        self.hour() * 3600 + self.minute() * 60 + self.second()
    }
}

/// A time of day without time zone, with nanosecond precision and an optional
/// positive leap second.
#[derive(Clone, Copy, Debug, PartialEq, Eq, Structural, PartialOrd, Ord, Hash)]
pub struct TimeZ {
    hour: u8,
    min: u8,
    sec: u8,
    frac: u32,
}

impl Timelike for TimeZ {
    closed spec fn spec_hour(&self) -> int {
        self.hour as int
    }

    closed spec fn spec_minute(&self) -> int {
        self.min as int
    }

    closed spec fn spec_second(&self) -> int {
        self.sec as int
    }

    closed spec fn spec_nanosecond(&self) -> int {
        self.frac as int
    }

    fn hour(&self) -> (r: usize) {
        proof {
            use_type_invariant(self);
        }
        self.hour as usize
    }

    fn minute(&self) -> (r: usize) {
        proof {
            use_type_invariant(self);
        }
        self.min as usize
    }

    fn second(&self) -> (r: usize) {
        proof {
            use_type_invariant(self);
        }
        self.sec as usize
    }

    fn nanosecond(&self) -> (r: usize) {
        proof {
            use_type_invariant(self);
        }
        self.frac as usize
    }

    fn with_hour(&self, hour: usize) -> (r: Option<TimeZ>) {
        proof {
            use_type_invariant(self);
        }
        if hour >= 24 {
            return None;
        }
        Some(TimeZ { hour: hour as u8, ..*self })
    }

    fn with_minute(&self, min: usize) -> (r: Option<TimeZ>) {
        proof {
            use_type_invariant(self);
        }
        if min >= 60 {
            return None;
        }
        Some(TimeZ { min: min as u8, ..*self })
    }

    fn with_second(&self, sec: usize) -> (r: Option<TimeZ>) {
        proof {
            use_type_invariant(self);
        }
        if sec >= 60 {
            return None;
        }
        Some(TimeZ { sec: sec as u8, ..*self })
    }

    fn with_nanosecond(&self, nano: usize) -> (r: Option<TimeZ>) {
        proof {
            use_type_invariant(self);
        }
        if nano >= MAX_FRAC as usize {
            return None;
        }
        Some(TimeZ { frac: nano as u32, ..*self })
    }
}

impl TimeZ {
    #[verifier::type_invariant]
    spec fn inv(&self) -> bool {
        valid_fields(self.hour as int, self.min as int, self.sec as int, self.frac as int)
    }

    /// Hour, minute, second and fraction, as stored.
    pub open spec fn fields(&self) -> (int, int, int, int) {
        (self.spec_hour(), self.spec_minute(), self.spec_second(), self.spec_nanosecond())
    }

    /// Whether every field lies in its range, as it does for every value made
    /// by this library.
    pub open spec fn wf(&self) -> bool {
        valid_fields(self.fields().0, self.fields().1, self.fields().2, self.fields().3)
    }

    /// Adds a signed duration. The result wraps around midnight, so whole days
    /// of the duration have no effect. A leap second, once entered, runs out in
    /// full before the carry into the next second.
    pub fn add(&self, rhs: &Duration) -> (r: TimeZ)
        ensures
            r.fields() == time_plus(self.fields(), rhs@),
            r.wf(),
    {
        proof {
            use_type_invariant(self);
        }
        let whole: i64 = rhs.num_seconds();
        let q: i64 = whole / SECS_PER_DAY;
        let mut day_secs: i64 = whole % SECS_PER_DAY;
        if day_secs < 0 {
            day_secs = day_secs + SECS_PER_DAY;
            proof {
                lemma_fundamental_div_mod_converse(
                    whole as int,
                    SECS_PER_DAY as int,
                    q - 1,
                    day_secs as int,
                );
            }
        } else {
            proof {
                lemma_fundamental_div_mod_converse(
                    whole as int,
                    SECS_PER_DAY as int,
                    q as int,
                    day_secs as int,
                );
            }
        }
        let mut secs: i64 = self.nseconds_from_midnight() as i64 + day_secs;
        let mut nanos: i64 = self.frac as i64 + rhs.subsec_nanos();

        // a leap second that has begun runs out in full before the carry
        let maxnanos: i64 = if self.frac >= NANOS_PER_SEC as u32 {
            2 * NANOS_PER_SEC
        } else {
            NANOS_PER_SEC
        };
        let carried: bool = nanos >= maxnanos;
        if carried {
            nanos = nanos - maxnanos;
            secs = secs + 1;
        }
        proof {
            let base = secs_of_day(self.hour as int, self.min as int, self.sec as int) + if carried {
                1int
            } else {
                0int
            };
            lemma_add_mod_noop_right(base, whole as int, SECS_PER_DAY as int);
        }
        let day: i64 = secs % SECS_PER_DAY;
        TimeZ { hour: (day / 3600) as u8, min: (day / 60 % 60) as u8, sec: (day % 60) as u8, frac: nanos as u32 }
    }

    /// The signed duration from `rhs` to `self`. A leap second counts as part
    /// of the second before it, so that `a - b` is always `-(b - a)`.
    pub fn sub(&self, rhs: &TimeZ) -> (r: Duration)
        ensures
            r@ == time_minus(self.fields(), rhs.fields()),
    {
        proof {
            use_type_invariant(self);
            use_type_invariant(rhs);
        }
        // the number of whole non-leap seconds
        let secs: i64 = (self.hour as i64 - rhs.hour as i64) * 3600 + (self.min as i64
            - rhs.min as i64) * 60 + (self.sec as i64 - rhs.sec as i64) - 1;

        // the fractional second from the rhs to the next non-leap second
        let maxnanos: i64 = if rhs.frac >= NANOS_PER_SEC as u32 {
            2 * NANOS_PER_SEC
        } else {
            NANOS_PER_SEC
        };
        let nanos1: i64 = maxnanos - rhs.frac as i64;

        // the fractional second from the last leap or non-leap second to the lhs
        let lastfrac: i64 = if self.frac >= NANOS_PER_SEC as u32 {
            NANOS_PER_SEC
        } else {
            0
        };
        let nanos2: i64 = self.frac as i64 - lastfrac;

        let whole = Duration::seconds(secs);
        let part = Duration::nanoseconds(nanos1 + nanos2);
        proof {
            let v = whole@ + part@;
            assert(-100_000 * (NANOS_PER_SEC as int) <= v <= 100_000 * (NANOS_PER_SEC as int));
            assert(-100_000 <= v / (NANOS_PER_SEC as int) <= 100_000);
        }
        whole.add(&part)
    }

    /// Makes a new `TimeZ` from hour, minute and second.
    ///
    /// Returns `None` on invalid hour, minute and/or second.
    pub fn from_hms(hour: usize, min: usize, sec: usize) -> (r: Option<TimeZ>)
        ensures
            r is Some <==> valid_fields(hour as int, min as int, sec as int, 0),
            r matches Some(t) ==> t.fields() == (hour as int, min as int, sec as int, 0int),
    {
        TimeZ::from_hms_nano(hour, min, sec, 0)
    }

    /// Makes a new `TimeZ` from hour, minute, second and millisecond.
    /// The millisecond part can exceed 1,000 in order to represent the leap second.
    ///
    /// Returns `None` on invalid hour, minute, second and/or millisecond.
    pub fn from_hms_milli(hour: usize, min: usize, sec: usize, milli: usize) -> (r: Option<TimeZ>)
        ensures
            r is Some <==> valid_fields(hour as int, min as int, sec as int, milli * 1_000_000),
            r matches Some(t) ==> t.fields() == (
                hour as int,
                min as int,
                sec as int,
                milli * 1_000_000,
            ),
    {
        if milli >= 2000 {
            return None;
        }
        TimeZ::from_hms_nano(hour, min, sec, milli * 1_000_000)
    }

    /// Makes a new `TimeZ` from hour, minute, second and microsecond.
    /// The microsecond part can exceed 1,000,000 in order to represent the leap second.
    ///
    /// Returns `None` on invalid hour, minute, second and/or microsecond.
    pub fn from_hms_micro(hour: usize, min: usize, sec: usize, micro: usize) -> (r: Option<TimeZ>)
        ensures
            r is Some <==> valid_fields(hour as int, min as int, sec as int, micro * 1000),
            r matches Some(t) ==> t.fields() == (
                hour as int,
                min as int,
                sec as int,
                micro * 1000,
            ),
    {
        if micro >= 2_000_000 {
            return None;
        }
        TimeZ::from_hms_nano(hour, min, sec, micro * 1000)
    }

    /// Makes a new `TimeZ` from hour, minute, second and nanosecond.
    /// The nanosecond part can exceed 1,000,000,000 in order to represent the leap second.
    ///
    /// Returns `None` on invalid hour, minute, second and/or nanosecond.
    pub fn from_hms_nano(hour: usize, min: usize, sec: usize, nano: usize) -> (r: Option<TimeZ>)
        ensures
            r is Some <==> valid_fields(hour as int, min as int, sec as int, nano as int),
            r matches Some(t) ==> t.fields() == (hour as int, min as int, sec as int, nano as int),
    {
        if hour >= 24 || min >= 60 || sec >= 60 || nano >= MAX_FRAC as usize {
            return None;
        }
        Some(TimeZ { hour: hour as u8, min: min as u8, sec: sec as u8, frac: nano as u32 })
    }
}

} // verus!

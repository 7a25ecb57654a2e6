use vstd::prelude::*;
use vstd::arithmetic::div_mod::lemma_fundamental_div_mod_converse;

verus! {

/// Nanoseconds in one second.
pub const NANOS_PER_SEC: i64 = 1_000_000_000;

/// Seconds in one day.
pub const SECS_PER_DAY: i64 = 86_400;

/// The largest number of days, either way, that a `Duration` can hold.
pub const MAX_DAYS: i64 = 106_751_991_167_300;

/// Whether a span of `v` nanoseconds has a whole-second part that fits an `i64`,
/// which is what a `Duration` can hold.
pub open spec fn in_range(v: int) -> bool {
    i64::MIN <= v / (NANOS_PER_SEC as int) <= i64::MAX
}

/// A signed span of time with nanosecond precision.
///
/// Its value is the integer number of nanoseconds given by its view: whole
/// seconds rounded toward negative infinity, and a nanosecond part that is
/// never negative.
#[derive(Clone, Copy, Debug, PartialEq, Eq, Structural)]
pub struct Duration {
    secs: i64,
    nanos: i64,
}

impl View for Duration {
    type V = int;

    closed spec fn view(&self) -> int {
        self.secs * NANOS_PER_SEC + self.nanos
    }
}

impl Duration {
    #[verifier::type_invariant]
    spec fn inv(&self) -> bool {
        0 <= self.nanos < NANOS_PER_SEC
    }

    proof fn lemma_parts(self)
        requires
            self.inv(),
        ensures
            self@ / (NANOS_PER_SEC as int) == self.secs,
            self@ % (NANOS_PER_SEC as int) == self.nanos,
            in_range(self@),
    {
        lemma_fundamental_div_mod_converse(
            self@,
            NANOS_PER_SEC as int,
            self.secs as int,
            self.nanos as int,
        );
    }

    /// The empty span.
    pub fn zero() -> (r: Duration)
        ensures
            r@ == 0,
    {
        Duration { secs: 0, nanos: 0 }
    }

    /// A span of whole seconds.
    pub fn seconds(secs: i64) -> (r: Duration)
        ensures
            r@ == secs * NANOS_PER_SEC,
    {
        Duration { secs, nanos: 0 }
    }

    /// A span of whole days.
    pub fn days(days: i64) -> (r: Duration)
        requires
            -MAX_DAYS <= days <= MAX_DAYS,
        ensures
            r@ == days * SECS_PER_DAY * NANOS_PER_SEC,
    {
        assert(-MAX_DAYS * SECS_PER_DAY <= days * SECS_PER_DAY <= MAX_DAYS * SECS_PER_DAY)
            by (nonlinear_arith)
            requires
                -MAX_DAYS <= days <= MAX_DAYS,
        ;
        Duration { secs: days * SECS_PER_DAY, nanos: 0 }
    }

    /// `q * per_sec + m` units of `unit` nanoseconds each, where `per_sec`
    /// units make a second and `q`, `m` are a truncating quotient and remainder.
    fn from_quot_rem(q: i64, m: i64, per_sec: i64, unit: i64) -> (r: Duration)
        requires
            per_sec >= 1000,
            unit >= 1,
            per_sec * unit == NANOS_PER_SEC,
            -per_sec < m < per_sec,
            m < 0 ==> q <= 0,
            q > i64::MIN,
        ensures
            r@ == (q * per_sec + m) * unit,
    {
        if m < 0 {
            assert(0 <= (m + per_sec) * unit < NANOS_PER_SEC) by (nonlinear_arith)
                requires
                    -per_sec < m < 0,
                    per_sec * unit == NANOS_PER_SEC,
                    unit >= 1,
            ;
            assert((q - 1) * NANOS_PER_SEC + (m + per_sec) * unit == (q * per_sec + m) * unit)
                by (nonlinear_arith)
                requires
                    per_sec * unit == NANOS_PER_SEC,
            ;
            Duration { secs: q - 1, nanos: (m + per_sec) * unit }
        } else {
            assert(0 <= m * unit < NANOS_PER_SEC) by (nonlinear_arith)
                requires
                    0 <= m < per_sec,
                    per_sec * unit == NANOS_PER_SEC,
                    unit >= 1,
            ;
            assert(q * NANOS_PER_SEC + m * unit == (q * per_sec + m) * unit) by (nonlinear_arith)
                requires
                    per_sec * unit == NANOS_PER_SEC,
            ;
            Duration { secs: q, nanos: m * unit }
        }
    }

    /// A span of milliseconds.
    pub fn milliseconds(ms: i64) -> (r: Duration)
        ensures
            r@ == ms * 1_000_000,
    {
        Duration::from_quot_rem(ms / 1000, ms % 1000, 1000, 1_000_000)
    }

    /// A span of microseconds.
    pub fn microseconds(us: i64) -> (r: Duration)
        ensures
            r@ == us * 1000,
    {
        Duration::from_quot_rem(us / 1_000_000, us % 1_000_000, 1_000_000, 1000)
    }

    /// A span of nanoseconds.
    pub fn nanoseconds(ns: i64) -> (r: Duration)
        ensures
            r@ == ns,
    {
        Duration::from_quot_rem(ns / NANOS_PER_SEC, ns % NANOS_PER_SEC, NANOS_PER_SEC, 1)
    }

    /// The whole seconds of the span, rounded toward negative infinity.
    pub fn num_seconds(&self) -> (r: i64)
        ensures
            r == self@ / (NANOS_PER_SEC as int),
    {
        proof {
            use_type_invariant(self);
            self.lemma_parts();
        }
        self.secs
    }

    /// The nanoseconds past the whole seconds: never negative, under one second.
    pub fn subsec_nanos(&self) -> (r: i64)
        ensures
            r == self@ % (NANOS_PER_SEC as int),
            0 <= r < NANOS_PER_SEC,
    {
        proof {
            use_type_invariant(self);
            self.lemma_parts();
        }
        self.nanos
    }

    /// The sum of two spans.
    pub fn add(&self, rhs: &Duration) -> (r: Duration)
        requires
            in_range(self@ + rhs@),
        ensures
            r@ == self@ + rhs@,
    {
        proof {
            use_type_invariant(self);
            use_type_invariant(rhs);
        }
        let nanos: i64 = self.nanos + rhs.nanos;
        let wide: i128 = self.secs as i128 + rhs.secs as i128;
        if nanos >= NANOS_PER_SEC {
            let r = Duration { secs: 0, nanos: nanos - NANOS_PER_SEC };
            proof {
                lemma_fundamental_div_mod_converse(
                    self@ + rhs@,
                    NANOS_PER_SEC as int,
                    wide + 1,
                    nanos - NANOS_PER_SEC,
                );
            }
            Duration { secs: (wide + 1) as i64, ..r }
        } else {
            proof {
                lemma_fundamental_div_mod_converse(
                    self@ + rhs@,
                    NANOS_PER_SEC as int,
                    wide as int,
                    nanos as int,
                );
            }
            Duration { secs: wide as i64, nanos }
        }
    }

    /// The span of the same length, the other way.
    pub fn neg(&self) -> (r: Duration)
        requires
            in_range(-self@),
        ensures
            r@ == -self@,
    {
        proof {
            use_type_invariant(self);
        }
        if self.nanos == 0 {
            proof {
                lemma_fundamental_div_mod_converse(-self@, NANOS_PER_SEC as int, -self.secs, 0);
            }
            Duration { secs: -self.secs, nanos: 0 }
        } else {
            Duration { secs: -1 - self.secs, nanos: NANOS_PER_SEC - self.nanos }
        }
    }
}

} // verus!

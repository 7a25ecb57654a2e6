use vstd::prelude::*;
use vstd::arithmetic::div_mod::lemma_fundamental_div_mod_converse;
use crate::duration::{NANOS_PER_SEC, SECS_PER_DAY};
use crate::time::{secs_of_day, time_minus, time_plus, TimeZ};

verus! {

/// Hour, minute and second are recovered from the seconds past midnight.
proof fn lemma_day_split(t: TimeZ)
    requires
        t.wf(),
    ensures
        ({
            let day = secs_of_day(t.fields().0, t.fields().1, t.fields().2) % (SECS_PER_DAY as int);
            day / 3600 == t.fields().0 && day / 60 % 60 == t.fields().1 && day % 60 == t.fields().2
        }),
{
    let (h, m, s) = (t.fields().0, t.fields().1, t.fields().2);
    let secs = secs_of_day(h, m, s);
    lemma_fundamental_div_mod_converse(secs, SECS_PER_DAY as int, 0, secs);
    lemma_fundamental_div_mod_converse(secs, 3600, h, m * 60 + s);
    lemma_fundamental_div_mod_converse(secs, 60, h * 60 + m, s);
    lemma_fundamental_div_mod_converse(h * 60 + m, 60, h, m);
}

/// Adding the zero duration leaves a time unchanged.
pub proof fn law_add_zero(t: TimeZ)
    requires
        t.wf(),
    ensures
        time_plus(t.fields(), 0) == t.fields(),
{
    lemma_day_split(t);
}

/// Subtraction is antisymmetric: `a - b` is `-(b - a)`, leap seconds included.
pub proof fn law_sub_antisymmetric(a: TimeZ, b: TimeZ)
    requires
        a.wf(),
        b.wf(),
    ensures
        time_minus(a.fields(), b.fields()) == -time_minus(b.fields(), a.fields()),
{
}

/// Adding `t1 - t2` to `t2` gives back `t1`, where neither of them is in a leap
/// second.
pub proof fn law_sub_then_add(t1: TimeZ, t2: TimeZ)
    requires
        t1.wf(),
        t2.wf(),
        t1.fields().3 < NANOS_PER_SEC,
        t2.fields().3 < NANOS_PER_SEC,
    ensures
        time_plus(t2.fields(), time_minus(t1.fields(), t2.fields())) == t1.fields(),
{
    let n = NANOS_PER_SEC as int;
    let (f1, f2) = (t1.fields().3, t2.fields().3);
    let s1 = secs_of_day(t1.fields().0, t1.fields().1, t1.fields().2);
    let s2 = secs_of_day(t2.fields().0, t2.fields().1, t2.fields().2);
    let d = time_minus(t1.fields(), t2.fields());
    assert(d == (s1 - s2) * n + f1 - f2) by (nonlinear_arith)
        requires
            d == (s1 - s2 - 1) * n + (n - f2) + f1,
    ;
    if f1 < f2 {
        lemma_fundamental_div_mod_converse(d, n, s1 - s2 - 1, n + f1 - f2);
    } else {
        lemma_fundamental_div_mod_converse(d, n, s1 - s2, f1 - f2);
    }
    lemma_day_split(t1);
}

} // verus!

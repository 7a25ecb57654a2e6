use vstd::prelude::*;
use crate::duration::NANOS_PER_SEC;
use crate::time::{Timelike, TimeZ};

verus! {

/// The decimal digits, in order.
pub open spec fn digits() -> Seq<char> {
    seq!['0', '1', '2', '3', '4', '5', '6', '7', '8', '9']
}

/// The last `width` decimal digits of `n`, padded with zeros on the left.
pub open spec fn padded(n: nat, width: nat) -> Seq<char>
    decreases width,
{
    if width == 0 {
        Seq::empty()
    } else {
        padded(n / 10, (width - 1) as nat).push(digits()[(n % 10) as int])
    }
}

/// The fraction of a second as text: nothing when it is zero, else a comma and
/// three, six or nine digits, the fewest that show it exactly.
pub open spec fn fraction_text(nano: nat) -> Seq<char> {
    if nano == 0 {
        Seq::empty()
    } else if nano % 1_000_000 == 0 {
        seq![','] + padded(nano / 1_000_000, 3)
    } else if nano % 1000 == 0 {
        seq![','] + padded(nano / 1000, 6)
    } else {
        seq![','] + padded(nano, 9)
    }
}

/// `HH:MM:SS` and the fraction, for hour, minute, second and fraction `t`.
/// A leap second shows as the second after `t.2`, with the fraction past it.
pub open spec fn time_text(t: (int, int, int, int)) -> Seq<char> {
    let leap = t.3 >= NANOS_PER_SEC;
    let sec = if leap { t.2 + 1 } else { t.2 };
    let nano = if leap { t.3 - NANOS_PER_SEC } else { t.3 };
    padded(t.0 as nat, 2) + seq![':'] + padded(t.1 as nat, 2) + seq![':'] + padded(sec as nat, 2)
        + fraction_text(nano as nat)
}

/// Appends the last `width` decimal digits of `n` to `out`, padded with zeros.
fn push_padded(out: &mut String, n: u64, width: usize)
    ensures
        final(out)@ == old(out)@ + padded(n as nat, width as nat),
    decreases width,
{
    if width > 0 {
        push_padded(out, n / 10, width - 1);
        let all = "0123456789";
        proof {
            reveal_strlit("0123456789");
            assert(all@ =~= digits());
        }
        let d: usize = (n % 10) as usize;
        out.append(all.substring_char(d, d + 1));
        proof {
            let prev = padded((n / 10) as nat, (width - 1) as nat);
            assert(all@.subrange(d as int, d + 1) =~= seq![digits()[d as int]]);
            assert(old(out)@ + prev + seq![digits()[d as int]] =~= old(out)@ + prev.push(
                digits()[d as int],
            ));
        }
    }
}

fn push_str(out: &mut String, s: &str)
    ensures
        final(out)@ == old(out)@ + s@,
{
    out.append(s);
}

impl TimeZ {
    /// The time as text, `HH:MM:SS` with a comma and the fraction where it is
    /// not zero; a leap second shows as second 60 (or one past the stored second).
    pub fn to_string(&self) -> (r: String)
        ensures
            r@ == time_text(self.fields()),
    {
        let hour = self.hour() as u64;
        let min = self.minute() as u64;
        let frac = self.nanosecond() as u64;
        let leap = frac >= NANOS_PER_SEC as u64;
        let sec: u64 = if leap { self.second() as u64 + 1 } else { self.second() as u64 };
        let nano: u64 = if leap { frac - NANOS_PER_SEC as u64 } else { frac };

        let colon = ":";
        let comma = ",";
        proof {
            reveal_strlit(":");
            reveal_strlit(",");
        }
        let mut out = String::new();
        push_padded(&mut out, hour, 2);
        push_str(&mut out, colon);
        push_padded(&mut out, min, 2);
        push_str(&mut out, colon);
        push_padded(&mut out, sec, 2);
        let ghost clock = out@;
        if nano == 0 {
        } else if nano % 1_000_000 == 0 {
            push_str(&mut out, comma);
            push_padded(&mut out, nano / 1_000_000, 3);
        } else if nano % 1000 == 0 {
            push_str(&mut out, comma);
            push_padded(&mut out, nano / 1000, 6);
        } else {
            push_str(&mut out, comma);
            push_padded(&mut out, nano, 9);
        }
        proof {
            assert(colon@ =~= seq![':']);
            assert(comma@ =~= seq![',']);
            assert(out@ =~= clock + fraction_text(nano as nat));
            assert(out@ =~= time_text(self.fields()));
        }
        out
    }
}

} // verus!

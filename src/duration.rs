//! Units in which durations are reported, and how a duration is written.
use vstd::prelude::*;
use vstd::string::*;
use crate::text::{decimal, push_decimal};

verus! {

/// A unit for reporting durations. Durations are measured in nanoseconds and
/// divided by the unit's length when written.
#[derive(Clone, Copy, PartialEq, Eq, Structural, Debug)]
pub enum TimeUnit {
    Minutes,
    Seconds,
    Milliseconds,
    Microseconds,
    Nanoseconds,
}

/// The length of a unit in nanoseconds.
pub open spec fn unit_nanos(u: TimeUnit) -> nat {
    match u {
        TimeUnit::Minutes => 60_000_000_000,
        TimeUnit::Seconds => 1_000_000_000,
        TimeUnit::Milliseconds => 1_000_000,
        TimeUnit::Microseconds => 1_000,
        TimeUnit::Nanoseconds => 1,
    }
}

/// The suffix written after a duration in this unit.
pub open spec fn unit_suffix(u: TimeUnit) -> Seq<char> {
    match u {
        TimeUnit::Minutes => seq!['m', 'i', 'n'],
        TimeUnit::Seconds => seq!['s', 'e', 'c'],
        TimeUnit::Milliseconds => seq!['m', 's'],
        TimeUnit::Microseconds => seq!['\u{3bc}', 's'],
        TimeUnit::Nanoseconds => seq!['n', 's'],
    }
}

/// How many fractional digits a duration gets: two below one unit, one below
/// ten units, none from ten units on.
pub open spec fn fraction_digits(ns: nat, u: TimeUnit) -> nat {
    if ns < unit_nanos(u) {
        2
    } else if ns < 10 * unit_nanos(u) {
        1
    } else {
        0
    }
}

pub open spec fn pow10(p: nat) -> nat {
    if p == 0 {
        1
    } else if p == 1 {
        10
    } else {
        100
    }
}

/// The duration in units of `10^-p` of `u`, rounded to the nearest integer,
/// halves rounded up.
pub open spec fn scaled_duration(ns: nat, u: TimeUnit, p: nat) -> nat {
    (2 * ns * pow10(p) + unit_nanos(u)) / (2 * unit_nanos(u))
}

/// The `p` fractional digits of a fraction `f` below `10^p`.
pub open spec fn fraction_text(f: nat, p: nat) -> Seq<char> {
    if p == 2 && f < 10 {
        seq!['0'] + decimal(f)
    } else {
        decimal(f)
    }
}

/// A duration of `ns` nanoseconds written as a number of units `u`, with as
/// many fractional digits as `fraction_digits` gives.
pub open spec fn duration_number(ns: nat, u: TimeUnit) -> Seq<char> {
    let p = fraction_digits(ns, u);
    let q = scaled_duration(ns, u, p);
    if p == 0 {
        decimal(q)
    } else {
        decimal(q / pow10(p)) + seq!['.'] + fraction_text(q % pow10(p), p)
    }
}

/// A duration written with its unit's suffix.
pub open spec fn duration_text(ns: nat, u: TimeUnit) -> Seq<char> {
    duration_number(ns, u) + unit_suffix(u)
}

impl TimeUnit {
    /// The length of the unit in nanoseconds.
    pub fn nanos(&self) -> (r: u64)
        ensures
            r == unit_nanos(*self),
    {
        match self {
            TimeUnit::Minutes => 60_000_000_000,
            TimeUnit::Seconds => 1_000_000_000,
            TimeUnit::Milliseconds => 1_000_000,
            TimeUnit::Microseconds => 1_000,
            TimeUnit::Nanoseconds => 1,
        }
    }

    /// The suffix written after a duration in this unit.
    pub fn suffix(&self) -> (r: &'static str)
        ensures
            r@ == unit_suffix(*self),
    {
        proof {
            reveal_strlit("min");
            reveal_strlit("sec");
            reveal_strlit("ms");
            reveal_strlit("\u{3bc}s");
            reveal_strlit("ns");
        }
        match self {
            TimeUnit::Minutes => "min",
            TimeUnit::Seconds => "sec",
            TimeUnit::Milliseconds => "ms",
            TimeUnit::Microseconds => "\u{3bc}s",
            TimeUnit::Nanoseconds => "ns",
        }
    }
}

/// Rounding a whole number of units: the quotient, plus one where the
/// remainder is at least half a unit.
proof fn lemma_round_whole(ns: nat, unit: nat, c: nat)
    requires
        unit > 0,
        c == (if 2 * (ns % unit) >= unit { 1nat } else { 0nat }),
    ensures
        (2 * ns + unit) / (2 * unit) == ns / unit + c,
{
    let a = ns / unit;
    let b = ns % unit;
    vstd::arithmetic::div_mod::lemma_fundamental_div_mod(ns as int, unit as int);
    let x = 2 * ns + unit;
    let q = a + c;
    let r = 2 * b + unit - 2 * unit * c;
    assert(x == q * (2 * unit) + r) by (nonlinear_arith)
        requires
            ns == unit * a + b,
            x == 2 * ns + unit,
            q == a + c,
            r == 2 * b + unit - 2 * unit * c,
    ;
    vstd::arithmetic::div_mod::lemma_fundamental_div_mod_converse(
        x as int,
        (2 * unit) as int,
        q as int,
        r as int,
    );
}

/// Appends the number part of a duration of `ns` nanoseconds in unit `u`.
pub fn push_duration_number(out: &mut String, ns: u128, u: TimeUnit)
    ensures
        final(out)@ == old(out)@ + duration_number(ns as nat, u),
{
    let unit = u.nanos() as u128;
    if ns >= 10 * unit {
        let a = ns / unit;
        let b = ns % unit;
        let q = if 2 * b >= unit {
            assert(a * unit <= ns) by {
                vstd::arithmetic::div_mod::lemma_fundamental_div_mod(ns as int, unit as int);
            }
            assert(a + 1 <= u128::MAX) by (nonlinear_arith)
                requires
                    a * unit <= ns,
                    ns <= u128::MAX,
                    unit >= 2,
            ;
            a + 1
        } else {
            a
        };
        proof {
            lemma_round_whole(ns as nat, unit as nat, (q - a) as nat);
        }
        push_decimal(out, q);
    } else {
        let p: u128 = if ns < unit {
            2
        } else {
            1
        };
        let scale: u128 = if p == 1 {
            10
        } else {
            100
        };
        assert(2 * ns * scale + unit <= 200 * 600_000_000_000 + 60_000_000_000) by (nonlinear_arith)
            requires
                ns < 600_000_000_000,
                scale <= 100,
                unit <= 60_000_000_000,
        ;
        let q: u128 = (2 * ns * scale + unit) / (2 * unit);
        push_decimal(out, q / scale);
        proof {
            reveal_strlit(".");
            reveal_strlit("0");
        }
        out.append(".");
        if p == 2 && q % scale < 10 {
            out.append("0");
        }
        push_decimal(out, q % scale);
    }
}

/// Writes a duration of `ns` nanoseconds in unit `u`, with the unit's suffix.
pub fn format_duration(ns: u128, u: TimeUnit) -> (r: String)
    ensures
        r@ == duration_text(ns as nat, u),
{
    let mut out = String::new();
    push_duration_number(&mut out, ns, u);
    out.append(u.suffix());
    out
}

} // verus!

//! Rendering helpers: decimal numbers and terminal colours.
use vstd::prelude::*;
use vstd::string::*;

verus! {

/// The decimal digit for `d`, which must be below ten.
pub open spec fn digit_char(d: nat) -> char {
    seq!['0', '1', '2', '3', '4', '5', '6', '7', '8', '9'][d as int]
}

/// The decimal representation of `n`, without leading zeros.
pub open spec fn decimal(n: nat) -> Seq<char>
    decreases n,
{
    if n < 10 {
        seq![digit_char(n)]
    } else {
        decimal(n / 10) + seq![digit_char(n % 10)]
    }
}

fn digit_text(d: u128) -> (r: &'static str)
    requires
        d < 10,
    ensures
        r@ == seq![digit_char(d as nat)],
{
    proof {
        reveal_strlit("0");
        reveal_strlit("1");
        reveal_strlit("2");
        reveal_strlit("3");
        reveal_strlit("4");
        reveal_strlit("5");
        reveal_strlit("6");
        reveal_strlit("7");
        reveal_strlit("8");
        reveal_strlit("9");
    }
    if d == 0 {
        "0"
    } else if d == 1 {
        "1"
    } else if d == 2 {
        "2"
    } else if d == 3 {
        "3"
    } else if d == 4 {
        "4"
    } else if d == 5 {
        "5"
    } else if d == 6 {
        "6"
    } else if d == 7 {
        "7"
    } else if d == 8 {
        "8"
    } else {
        "9"
    }
}

/// Appends the decimal representation of `n` to `out`.
pub fn push_decimal(out: &mut String, n: u128)
    ensures
        final(out)@ == old(out)@ + decimal(n as nat),
    decreases n,
{
    if n >= 10 {
        push_decimal(out, n / 10);
    }
    out.append(digit_text(n % 10));
    assert(final(out)@ == old(out)@ + decimal(n as nat));
}

/// The colours the harness uses on a terminal.
#[derive(Clone, Copy, PartialEq, Eq, Structural, Debug)]
pub enum Tint {
    Green,
    Red,
    Yellow,
    Cyan,
    Purple,
}

/// The foreground code of a colour in an ANSI escape sequence.
pub open spec fn tint_code(t: Tint) -> Seq<char> {
    match t {
        Tint::Green => seq!['3', '2'],
        Tint::Red => seq!['3', '1'],
        Tint::Yellow => seq!['3', '3'],
        Tint::Cyan => seq!['3', '6'],
        Tint::Purple => seq!['3', '5'],
    }
}

/// `s` wrapped in the escape sequences that set the colour `t` and reset it.
pub open spec fn painted(t: Tint, s: Seq<char>) -> Seq<char> {
    seq!['\x1b', '['] + tint_code(t) + seq!['m'] + s + seq!['\x1b', '[', '0', 'm']
}

/// Relies on ansi_term's `Colour::paint` and the `Display` of its result:
/// the text between the colour's escape prefix and the reset suffix.
#[verifier::external_body]
pub(crate) fn paint(t: Tint, s: &str) -> (r: String)
    ensures
        r@ == painted(t, s@),
{
    let colour = match t {
        Tint::Green => ansi_term::Colour::Green,
        Tint::Red => ansi_term::Colour::Red,
        Tint::Yellow => ansi_term::Colour::Yellow,
        Tint::Cyan => ansi_term::Colour::Cyan,
        Tint::Purple => ansi_term::Colour::Purple,
    };
    colour.paint(s).to_string()
}

} // verus!

//! Decimal notation for natural numbers, as text.
//!
//! `decimal_digits` is the mathematical definition; `push_decimal` is the
//! executable routine that writes the same characters onto a `String`.

use vstd::prelude::*;
use vstd::string::StringExecFns;

verus! {

/// The character that writes the single digit `d`.
pub open spec fn digit_char(d: nat) -> char
    recommends
        d < 10,
{
    seq!['0', '1', '2', '3', '4', '5', '6', '7', '8', '9'][d as int]
}

/// `n` in base ten, most significant digit first, without leading zeros.
pub open spec fn decimal_digits(n: nat) -> Seq<char>
    decreases n,
{
    if n < 10 {
        seq![digit_char(n)]
    } else {
        decimal_digits(n / 10).push(digit_char(n % 10))
    }
}

/// A number from 100 to 999 is written with exactly three digits: its
/// hundreds, its tens and its units.
pub proof fn lemma_three_digits(n: nat)
    requires
        100 <= n <= 999,
    ensures
        decimal_digits(n) == seq![
            digit_char(n / 100),
            digit_char((n / 10) % 10),
            digit_char(n % 10),
        ],
        decimal_digits(n).len() == 3,
{
    let tens: nat = n / 10;
    let hundreds: nat = tens / 10;
    assert(hundreds == n / 100);
    assert(1 <= hundreds <= 9);
    assert(decimal_digits(hundreds) == seq![digit_char(hundreds)]);
    assert(decimal_digits(tens) == decimal_digits(hundreds).push(digit_char(tens % 10)));
    assert(decimal_digits(n) == decimal_digits(tens).push(digit_char(n % 10)));
    assert(decimal_digits(n) =~= seq![
        digit_char(n / 100),
        digit_char((n / 10) % 10),
        digit_char(n % 10),
    ]);
}

/// The one-character text of the digit `d`.
fn digit_text(d: u16) -> (s: &'static str)
    requires
        d < 10,
    ensures
        s@ == seq![digit_char(d as nat)],
{
    proof {
        reveal_strlit("0");
        reveal_strlit("1");
        reveal_strlit("2");
        reveal_strlit("3");
        reveal_strlit("4");
        reveal_strlit("5");
        reveal_strlit("6");
        reveal_strlit("7");
        reveal_strlit("8");
        reveal_strlit("9");
    }
    let s = match d {
        0 => "0",
        1 => "1",
        2 => "2",
        3 => "3",
        4 => "4",
        5 => "5",
        6 => "6",
        7 => "7",
        8 => "8",
        _ => "9",
    };
    assert(s@ =~= seq![digit_char(d as nat)]);
    s
}

/// Appends `n`, written in base ten, to `out`.
pub fn push_decimal(out: &mut String, n: u16)
    ensures
        final(out)@ == old(out)@ + decimal_digits(n as nat),
    decreases n,
{
    if n >= 10 {
        push_decimal(out, n / 10);
    }
    let units: u16 = n % 10;
    out.append(digit_text(units));
    assert(final(out)@ =~= old(out)@ + decimal_digits(n as nat));
}

} // verus!

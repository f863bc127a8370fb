//! Signed percentage deltas and the text they are shown and sent as.
//!
//! A delta is written the way the mixer expects a relative volume: an
//! explicit `+` in front of a raise, the bare (minus-signed) number for a
//! cut or for zero, and a trailing `%`.

use vstd::prelude::*;
use vstd::string::*;

verus! {

/// The character that stands for the decimal digit `d`.
pub open spec fn digit_char(d: int) -> char
    recommends
        0 <= d <= 9,
{
    if d == 0 {
        '0'
    } else if d == 1 {
        '1'
    } else if d == 2 {
        '2'
    } else if d == 3 {
        '3'
    } else if d == 4 {
        '4'
    } else if d == 5 {
        '5'
    } else if d == 6 {
        '6'
    } else if d == 7 {
        '7'
    } else if d == 8 {
        '8'
    } else {
        '9'
    }
}

/// The digit that the character `c` stands for; `-1` for any other character.
pub open spec fn digit_value(c: char) -> int {
    if c == '0' {
        0
    } else if c == '1' {
        1
    } else if c == '2' {
        2
    } else if c == '3' {
        3
    } else if c == '4' {
        4
    } else if c == '5' {
        5
    } else if c == '6' {
        6
    } else if c == '7' {
        7
    } else if c == '8' {
        8
    } else if c == '9' {
        9
    } else {
        -1
    }
}

/// Decimal notation of a natural number, most significant digit first,
/// without leading zeros.
pub open spec fn decimal(n: nat) -> Seq<char>
    decreases n,
{
    if n < 10 {
        seq![digit_char(n as int)]
    } else {
        decimal(n / 10).push(digit_char((n % 10) as int))
    }
}

/// The number that a sequence of digits denotes in base ten.
pub open spec fn decimal_value(digits: Seq<char>) -> int
    decreases digits.len(),
{
    if digits.len() == 0 {
        0
    } else {
        10 * decimal_value(digits.drop_last()) + digit_value(digits.last())
    }
}

/// Decimal notation of an integer: a minus sign in front of a negative
/// number, no sign otherwise.
pub open spec fn signed_decimal(d: int) -> Seq<char> {
    if d < 0 {
        seq!['-'] + decimal((-d) as nat)
    } else {
        decimal(d as nat)
    }
}

/// The text of a percentage delta: `+` in front of a positive delta, the
/// plain number for zero and for negative ones, then `%`.
pub open spec fn percent_text(d: int) -> Seq<char> {
    if d > 0 {
        seq!['+'] + signed_decimal(d) + seq!['%']
    } else {
        signed_decimal(d) + seq!['%']
    }
}

/// Decimal notation uses digits only, has at least one of them, and starts
/// with `0` for zero alone.
pub proof fn lemma_decimal_digits(n: nat)
    ensures
        decimal(n).len() >= 1,
        forall|i: int| 0 <= i < decimal(n).len() ==> 0 <= digit_value(#[trigger] decimal(n)[i]) <= 9,
        decimal(n)[0] == '0' <==> n == 0,
    decreases n,
{
    if n >= 10 {
        lemma_decimal_digits(n / 10);
    }
}

/// Reading the decimal notation of a number gives the number back.
pub proof fn lemma_decimal_value(n: nat)
    ensures
        decimal_value(decimal(n)) == n,
    decreases n,
{
    if n < 10 {
        assert(decimal(n).drop_last() =~= Seq::<char>::empty());
        assert(decimal_value(decimal(n).drop_last()) == 0);
    } else {
        lemma_decimal_value(n / 10);
        assert(decimal(n).drop_last() =~= decimal(n / 10));
    }
}

/// Two deltas with the same text are the same delta.
pub proof fn lemma_percent_text_injective(a: int, b: int)
    requires
        percent_text(a) == percent_text(b),
    ensures
        a == b,
{
    lemma_signed_decimal_first(a);
    lemma_signed_decimal_first(b);
    let ta = percent_text(a);
    let tb = percent_text(b);
    assert(ta[0] == tb[0]);
    if a > 0 {
        assert(ta[0] == '+');
        assert(b > 0);
        assert(signed_decimal(a) =~= ta.subrange(1, ta.len() - 1));
        assert(signed_decimal(b) =~= tb.subrange(1, tb.len() - 1));
        lemma_decimal_value(a as nat);
        lemma_decimal_value(b as nat);
    } else if a < 0 {
        assert(ta[0] == '-');
        assert(b < 0);
        assert(decimal((-a) as nat) =~= ta.subrange(1, ta.len() - 1));
        assert(decimal((-b) as nat) =~= tb.subrange(1, tb.len() - 1));
        lemma_decimal_value((-a) as nat);
        lemma_decimal_value((-b) as nat);
    } else {
        assert(ta[0] == '0');
        assert(b == 0);
    }
}

/// The first character of a number's notation tells its sign apart: `-`
/// for a negative number, `0` for zero, another digit otherwise.
proof fn lemma_signed_decimal_first(d: int)
    ensures
        signed_decimal(d).len() >= 1,
        d < 0 ==> signed_decimal(d)[0] == '-',
        d == 0 ==> signed_decimal(d)[0] == '0',
        d > 0 ==> 1 <= digit_value(signed_decimal(d)[0]) <= 9,
{
    if d < 0 {
        lemma_decimal_digits((-d) as nat);
    } else {
        lemma_decimal_digits(d as nat);
    }
}

/// A signed percentage by which the output volume is raised or lowered.
#[derive(Debug, Clone, Copy)]
pub struct DiffValue(i32);

impl View for DiffValue {
    type V = int;

    closed spec fn view(&self) -> int {
        self.0 as int
    }
}

impl DiffValue {
    /// Wraps a percentage delta.
    pub fn new(percent: i32) -> (diff: Self)
        ensures
            diff@ == percent,
    {
        DiffValue(percent)
    }

    /// The wrapped percentage delta.
    pub fn percent(&self) -> (percent: i32)
        ensures
            percent == self@,
    {
        self.0
    }

    /// The delta as text: `+5%` for 5, `-5%` for -5, `0%` for 0.
    pub fn to_string(&self) -> (text: String)
        ensures
            text@ == percent_text(self@),
    {
        let wide: i64 = self.0 as i64;
        let mut text = String::new();
        if wide > 0 {
            proof {
                reveal_strlit("+");
            }
            text.append("+");
            push_decimal(&mut text, wide as u32);
        } else if wide < 0 {
            proof {
                reveal_strlit("-");
            }
            text.append("-");
            push_decimal(&mut text, (0 - wide) as u32);
        } else {
            push_decimal(&mut text, 0);
        }
        proof {
            reveal_strlit("%");
        }
        text.append("%");
        assert(text@ =~= percent_text(self@));
        text
    }
}

/// The one-character text of a decimal digit.
fn digit_str(d: u32) -> (text: &'static str)
    requires
        d <= 9,
    ensures
        text@ == seq![digit_char(d as int)],
{
    proof {
        reveal_strlit("0");
        reveal_strlit("1");
        reveal_strlit("2");
        reveal_strlit("3");
        reveal_strlit("4");
        reveal_strlit("5");
        reveal_strlit("6");
        reveal_strlit("7");
        reveal_strlit("8");
        reveal_strlit("9");
    }
    let text = if d == 0 {
        "0"
    } else if d == 1 {
        "1"
    } else if d == 2 {
        "2"
    } else if d == 3 {
        "3"
    } else if d == 4 {
        "4"
    } else if d == 5 {
        "5"
    } else if d == 6 {
        "6"
    } else if d == 7 {
        "7"
    } else if d == 8 {
        "8"
    } else {
        "9"
    };
    assert(text@ =~= seq![digit_char(d as int)]);
    text
}

/// Appends the decimal notation of `n` to `out`.
fn push_decimal(out: &mut String, n: u32)
    ensures
        final(out)@ == old(out)@ + decimal(n as nat),
    decreases n,
{
    if n >= 10 {
        push_decimal(out, n / 10);
    }
    out.append(digit_str(n % 10));
    assert(out@ =~= old(out)@ + decimal(n as nat));
}

} // verus!

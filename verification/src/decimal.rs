//! Decimal notation for the numbers that appear in a summary.
//!
//! Counts are written as plain decimal integers. Measured statistics are kept as
//! [`Hundredths`], which are written with exactly two digits after the point.

use vstd::prelude::*;
use vstd::string::*;

verus! {

/// The character that writes the digit `d`, for `0 <= d <= 9`.
pub open spec fn digit_char(d: int) -> char {
    if d == 0 {
        '0'
    } else if d == 1 {
        '1'
    } else if d == 2 {
        '2'
    } else if d == 3 {
        '3'
    } else if d == 4 {
        '4'
    } else if d == 5 {
        '5'
    } else if d == 6 {
        '6'
    } else if d == 7 {
        '7'
    } else if d == 8 {
        '8'
    } else {
        '9'
    }
}

/// The decimal notation of `n`: most significant digit first, no leading zero,
/// and the single digit `0` for zero.
pub open spec fn decimal_text(n: nat) -> Seq<char>
    decreases n,
{
    if n < 10 {
        seq![digit_char(n as int)]
    } else {
        decimal_text(n / 10).push(digit_char((n % 10) as int))
    }
}

/// Whether `c` is one of the ten decimal digits.
pub open spec fn is_digit(c: char) -> bool {
    c == '0' || c == '1' || c == '2' || c == '3' || c == '4' || c == '5' || c == '6' || c == '7'
        || c == '8' || c == '9'
}

/// Decimal notation is never empty and holds digits only.
pub proof fn lemma_decimal_text_digits(n: nat)
    ensures
        decimal_text(n).len() >= 1,
        forall|i: int| 0 <= i < decimal_text(n).len() ==> is_digit(#[trigger] decimal_text(n)[i]),
    decreases n,
{
    if n >= 10 {
        lemma_decimal_text_digits(n / 10);
    }
}

/// The one-character string that writes the digit `d`.
fn digit_str(d: u64) -> (s: &'static str)
    requires
        d < 10,
    ensures
        s@ == seq![digit_char(d as int)],
{
    proof {
        reveal_strlit("0");
        reveal_strlit("1");
        reveal_strlit("2");
        reveal_strlit("3");
        reveal_strlit("4");
        reveal_strlit("5");
        reveal_strlit("6");
        reveal_strlit("7");
        reveal_strlit("8");
        reveal_strlit("9");
    }
    let s: &'static str = if d == 0 {
        "0"
    } else if d == 1 {
        "1"
    } else if d == 2 {
        "2"
    } else if d == 3 {
        "3"
    } else if d == 4 {
        "4"
    } else if d == 5 {
        "5"
    } else if d == 6 {
        "6"
    } else if d == 7 {
        "7"
    } else if d == 8 {
        "8"
    } else {
        "9"
    };
    assert(s@ =~= seq![digit_char(d as int)]);
    s
}

/// Appends the decimal notation of `n` to `out`.
pub fn push_decimal(out: &mut String, n: u64)
    ensures
        final(out)@ == old(out)@ + decimal_text(n as nat),
    decreases n,
{
    if n >= 10 {
        push_decimal(out, n / 10);
    }
    out.append(digit_str(n % 10));
    assert(out@ =~= old(out)@ + decimal_text(n as nat));
}

/// The decimal notation of `n` as a string.
pub fn decimal_string(n: u64) -> (s: String)
    ensures
        s@ == decimal_text(n as nat),
{
    let mut s = String::new();
    push_decimal(&mut s, n);
    assert(s@ =~= decimal_text(n as nat));
    s
}

/// A non-negative measurement kept to two decimal places: the number of
/// hundredths of its unit. `Hundredths(1234)` stands for 12.34.
#[derive(Clone, Copy, Debug, PartialEq, Eq, Structural)]
pub struct Hundredths(pub u64);

impl Hundredths {
    /// The whole units of the measurement.
    pub open spec fn whole(self) -> nat {
        (self.0 / 100) as nat
    }

    /// The hundredths beyond the whole units, from 0 to 99.
    pub open spec fn fraction(self) -> nat {
        (self.0 % 100) as nat
    }

    /// The notation of the measurement with two decimal places: the whole
    /// units in decimal, a point, and exactly two digits.
    pub open spec fn text(self) -> Seq<char> {
        decimal_text(self.whole()).push('.').push(digit_char((self.fraction() / 10) as int)).push(
            digit_char((self.fraction() % 10) as int),
        )
    }

    /// The measurement of `whole` units and `fraction` hundredths, or `None`
    /// where `fraction` is not below 100 or the count of hundredths does not
    /// fit the machine word.
    pub fn from_parts(whole: u64, fraction: u64) -> (h: Option<Hundredths>)
        ensures
            h is Some <==> fraction < 100 && whole * 100 + fraction <= u64::MAX,
            h matches Some(v) ==> v.0 == whole * 100 + fraction && v.whole() == whole
                && v.fraction() == fraction,
    {
        if fraction >= 100 {
            return None;
        }
        if whole > (u64::MAX - fraction) / 100 {
            return None;
        }
        Some(Hundredths(whole * 100 + fraction))
    }

    /// Appends the two-decimal notation of the measurement to `out`.
    pub fn push_to(&self, out: &mut String)
        ensures
            final(out)@ == old(out)@ + self.text(),
    {
        let whole: u64 = self.0 / 100;
        let fraction: u64 = self.0 % 100;
        push_decimal(out, whole);
        proof {
            reveal_strlit(".");
        }
        out.append(".");
        out.append(digit_str(fraction / 10));
        out.append(digit_str(fraction % 10));
        assert(out@ =~= old(out)@ + self.text());
    }

    /// The two-decimal notation of the measurement as a string.
    pub fn render(&self) -> (s: String)
        ensures
            s@ == self.text(),
    {
        let mut s = String::new();
        self.push_to(&mut s);
        assert(s@ =~= self.text());
        s
    }
}

} // verus!

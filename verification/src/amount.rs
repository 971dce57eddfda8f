//! Minor-unit amounts and their decimal string form, as the workers receive them.

use vstd::prelude::*;

verus! {

/// The character of the decimal digit `d` (`0 <= d < 10`).
pub open spec fn digit_char(d: int) -> char {
    (('0' as int) + d) as char
}

/// The decimal digits of a natural number, most significant first, without
/// leading zeros (zero itself is the single digit `0`).
pub open spec fn nat_digits(n: nat) -> Seq<char>
    decreases n,
{
    if n < 10 {
        seq![digit_char(n as int)]
    } else {
        nat_digits(n / 10).push(digit_char((n % 10) as int))
    }
}

/// The decimal form of an integer, with a leading `-` for negative values.
pub open spec fn int_decimal(n: int) -> Seq<char> {
    if n < 0 {
        seq!['-'] + nat_digits((-n) as nat)
    } else {
        nat_digits(n as nat)
    }
}

/// An amount in the smallest unit of its currency (cents for USD).
pub struct MinorUnit(pub i64);

impl MinorUnit {
    /// Wraps a minor-unit amount.
    pub fn new(value: i64) -> (r: MinorUnit)
        ensures
            r.0 == value,
    {
        MinorUnit(value)
    }

    /// The wrapped minor-unit amount.
    pub fn get_amount_as_i64(&self) -> (r: i64)
        ensures
            r == self.0,
    {
        self.0
    }
}

/// A minor-unit amount written as a decimal string (`"1000"` for 10.00 USD).
pub struct StringMinorUnit(String);

impl View for StringMinorUnit {
    type V = Seq<char>;

    closed spec fn view(&self) -> Seq<char> {
        self.0@
    }
}

impl StringMinorUnit {
    /// Wraps an already formatted amount string.
    pub fn new(value: String) -> (r: StringMinorUnit)
        ensures
            r@ == value@,
    {
        StringMinorUnit(value)
    }

    /// The amount string.
    pub fn to_string(&self) -> (r: String)
        ensures
            r@ == self@,
    {
        self.0.clone()
    }
}

/// The one-character string of the digit `d`.
fn digit_str(d: u64) -> (r: &'static str)
    requires
        d < 10,
    ensures
        r@ == seq![digit_char(d as int)],
{
    proof {
        reveal_strlit("0");
        reveal_strlit("1");
        reveal_strlit("2");
        reveal_strlit("3");
        reveal_strlit("4");
        reveal_strlit("5");
        reveal_strlit("6");
        reveal_strlit("7");
        reveal_strlit("8");
        reveal_strlit("9");
    }
    if d == 0 {
        "0"
    } else if d == 1 {
        "1"
    } else if d == 2 {
        "2"
    } else if d == 3 {
        "3"
    } else if d == 4 {
        "4"
    } else if d == 5 {
        "5"
    } else if d == 6 {
        "6"
    } else if d == 7 {
        "7"
    } else if d == 8 {
        "8"
    } else {
        "9"
    }
}

/// Appends the decimal digits of `n` to `out`.
fn push_digits(n: u64, out: &mut String)
    ensures
        final(out)@ == old(out)@ + nat_digits(n as nat),
    decreases n,
{
    if n >= 10 {
        push_digits(n / 10, out);
        out.append(digit_str(n % 10));
        assert(final(out)@ =~= old(out)@ + nat_digits(n as nat));
    } else {
        out.append(digit_str(n));
    }
}

/// Writes a signed minor-unit amount in decimal, as `i64`'s `to_string` does.
pub fn i64_to_decimal(n: i64) -> (r: String)
    ensures
        r@ == int_decimal(n as int),
{
    let mut out = String::new();
    if n < 0 {
        proof {
            reveal_strlit("-");
        }
        out.append("-");
        let wide: i128 = n as i128;
        let magnitude: u64 = (0i128 - wide) as u64;
        push_digits(magnitude, &mut out);
    } else {
        push_digits(n as u64, &mut out);
    }
    out
}

/// Converts a minor-unit amount into the string form that the workers receive.
/// This conversion cannot fail: every `i64` has a decimal form.
pub fn convert_amount(amount: &MinorUnit) -> (r: StringMinorUnit)
    ensures
        r@ == int_decimal(amount.0 as int),
{
    StringMinorUnit::new(i64_to_decimal(amount.0))
}

} // verus!

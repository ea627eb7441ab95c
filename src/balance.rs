use std::str::FromStr;

use bigdecimal::{BigDecimal, Signed, ToPrimitive};
use vstd::prelude::*;
use vstd::string::*;

verus! {

/// Number of decimal places kept by every balance. Amounts are rounded to
/// this precision when they are read, so arithmetic on balances is exact.
pub const SCALE: i64 = 4;

/// What a decimal text is worth: whether it is negative, and its value
/// rounded to `scale` places, counted in units of `10^-scale` where that
/// count fits in an `i128`; `None` where the text is no decimal number.
pub uninterp spec fn decimal_units_of(s: Seq<char>, scale: int) -> Option<(bool, Option<i128>)>;

/// `10^n`.
pub open spec fn pow10(n: nat) -> nat
    decreases n,
{
    if n == 0 {
        1
    } else {
        10 * pow10((n - 1) as nat)
    }
}

/// The character of the decimal digit `d`.
pub open spec fn digit_char(d: nat) -> char {
    "0123456789"@[d as int]
}

/// The decimal digits of `n`, with no leading zeros (`0` for zero).
pub open spec fn nat_text(n: nat) -> Seq<char>
    decreases n,
{
    if n < 10 {
        seq![digit_char(n)]
    } else {
        nat_text(n / 10).push(digit_char(n % 10))
    }
}

/// The last `width` decimal digits of `n`, with leading zeros.
pub open spec fn fixed_digits(n: nat, width: nat) -> Seq<char>
    decreases width,
{
    if width == 0 {
        Seq::empty()
    } else {
        fixed_digits(n / 10, (width - 1) as nat).push(digit_char(n % 10))
    }
}

/// `s` without its trailing zeros.
pub open spec fn trim_zeros(s: Seq<char>) -> Seq<char>
    decreases s.len(),
{
    if s.len() > 0 && s.last() == '0' {
        trim_zeros(s.drop_last())
    } else {
        s
    }
}

/// The text of the number `units * 10^-scale`: the digits of its integer
/// part, then, where the fraction is not zero, a point and the `scale`
/// digits of the fraction without trailing zeros.
pub open spec fn decimal_text_of(units: nat, scale: nat) -> Seq<char> {
    let whole = units / pow10(scale);
    let fraction = units % pow10(scale);
    if fraction == 0 {
        nat_text(whole)
    } else {
        nat_text(whole) + "."@ + trim_zeros(fixed_digits(fraction, scale))
    }
}

/// Relies on bigdecimal's `BigDecimal::from_str`, `round`, `with_scale` and
/// `is_negative`: parses `s`, rounds it half away from zero to `scale` places and
/// hands back the sign and the integer count of `10^-scale` units.
/// Text with an exponent is left out: a huge exponent makes `with_scale` build
/// a number of that many digits.
#[verifier::external_body]
fn decimal_units(s: &str, scale: i64) -> (r: Option<(bool, Option<i128>)>)
    requires
        0 <= scale <= 18,
        !s@.contains('e'),
        !s@.contains('E'),
    ensures
        r == decimal_units_of(s@, scale as int),
{
    match BigDecimal::from_str(s) {
        Ok(d) => Some((d.is_negative(), d.round(scale).with_scale(scale).into_bigint_and_exponent().0.to_i128())),
        Err(_) => None,
    }
}

/// Relies on bigdecimal's `BigDecimal::new`, `normalized` and `Display`: the
/// decimal text of `units * 10^-scale` with trailing zeros removed (a
/// normalized value prints its integer part, and a point and the fraction
/// only where the fraction is not zero). The scale is kept small: at extreme
/// scales `normalized` overflows.
#[verifier::external_body]
fn decimal_text(units: u64, scale: i64) -> (r: String)
    requires
        0 <= scale <= 18,
    ensures
        r@ == decimal_text_of(units as nat, scale as nat),
{
    let (digits, _) = BigDecimal::from(units).into_bigint_and_exponent();
    BigDecimal::new(digits, scale).normalized().to_string()
}

/// Why a value is not a valid balance.
#[derive(Debug, Copy, Clone, PartialEq, Eq, Hash, Structural)]
pub enum FloatErr {
    /// The value does not fit: a balance has a largest value.
    Infinite,
    /// The text is not a decimal number.
    NaN,
    /// Balances are never negative.
    Negative,
}

/// A non-negative amount of money with `SCALE` decimal places, held as an
/// integer count of `10^-SCALE` units.
#[derive(Debug, Copy, Clone, PartialEq, Eq, Hash, Default, Structural)]
pub struct Balance {
    units: u64,
}

impl View for Balance {
    type V = nat;

    /// The number of `10^-SCALE` units.
    closed spec fn view(&self) -> nat {
        self.units as nat
    }
}

/// The value that decimal text stands for as a balance, or why it stands for none.
pub open spec fn parse_spec(s: Seq<char>) -> Result<nat, FloatErr> {
    if s.contains('e') || s.contains('E') {
        Err(FloatErr::NaN)
    } else {
        match decimal_units_of(s, SCALE as int) {
            None => Err(FloatErr::NaN),
            Some((negative, units)) => match units {
                Some(u) => if negative || u < 0 {
                    Err(FloatErr::Negative)
                } else if u > u64::MAX {
                    Err(FloatErr::Infinite)
                } else {
                    Ok(u as nat)
                },
                None => if negative {
                    Err(FloatErr::Negative)
                } else {
                    Err(FloatErr::Infinite)
                },
            },
        }
    }
}

impl Balance {
    /// The zero balance.
    pub fn zero() -> (r: Balance)
        ensures
            r@ == 0,
    {
        Balance { units: 0 }
    }

    /// The balance of `units` steps of `10^-SCALE`.
    pub fn from_units(units: u64) -> (r: Balance)
        ensures
            r@ == units,
    {
        Balance { units }
    }

    /// The number of `10^-SCALE` steps in this balance.
    pub fn units(&self) -> (r: u64)
        ensures
            r == self@,
    {
        self.units
    }

    /// Reads a decimal number, rounded to `SCALE` places. Fails with `Negative`
    /// for a negative number, `Infinite` for one too large to hold, and `NaN`
    /// for text that is no plain decimal number.
    pub fn parse(s: &str) -> (r: Result<Balance, FloatErr>)
        ensures
            match (r, parse_spec(s@)) {
                (Ok(b), Ok(v)) => b@ == v,
                (Err(e), Err(f)) => e == f,
                _ => false,
            },
    {
        if has_exponent(s) {
            return Err(FloatErr::NaN);
        }
        match decimal_units(s, SCALE) {
            None => Err(FloatErr::NaN),
            Some((negative, None)) => {
                if negative {
                    Err(FloatErr::Negative)
                } else {
                    Err(FloatErr::Infinite)
                }
            },
            Some((negative, Some(units))) => {
                if negative || units < 0 {
                    Err(FloatErr::Negative)
                } else if units > u64::MAX as i128 {
                    Err(FloatErr::Infinite)
                } else {
                    Ok(Balance { units: units as u64 })
                }
            },
        }
    }

    /// The sum of two balances; `Infinite` where it is too large to hold.
    pub fn try_add(&self, rhs: Balance) -> (r: Result<Balance, FloatErr>)
        ensures
            self@ + rhs@ <= u64::MAX ==> r is Ok && r->Ok_0@ == self@ + rhs@,
            self@ + rhs@ <= u64::MAX ==> r == Ok::<Balance, FloatErr>(Balance::from_nat(self@ + rhs@)),
            self@ + rhs@ > u64::MAX ==> r == Err::<Balance, FloatErr>(FloatErr::Infinite),
    {
        match self.units.checked_add(rhs.units) {
            Some(units) => Ok(Balance { units }),
            None => Err(FloatErr::Infinite),
        }
    }

    /// The difference of two balances; `Negative` where `rhs` is the larger.
    pub fn try_sub(&self, rhs: Balance) -> (r: Result<Balance, FloatErr>)
        ensures
            rhs@ <= self@ ==> r is Ok && r->Ok_0@ == self@ - rhs@,
            rhs@ <= self@ ==> r == Ok::<Balance, FloatErr>(Balance::from_nat((self@ - rhs@) as nat)),
            rhs@ > self@ ==> r == Err::<Balance, FloatErr>(FloatErr::Negative),
    {
        if rhs.units <= self.units {
            Ok(Balance { units: self.units - rhs.units })
        } else {
            Err(FloatErr::Negative)
        }
    }

    /// The balance of `n` units, for `n` that fits.
    pub closed spec fn from_nat(n: nat) -> Balance {
        Balance { units: n as u64 }
    }

    /// The decimal text of this balance, without trailing zeros.
    pub fn to_text(&self) -> (r: String)
        ensures
            r@ == decimal_text_of(self@, SCALE as nat),
    {
        decimal_text(self.units, SCALE)
    }
}

/// A balance built from `n` units has the value `n`.
pub broadcast proof fn lemma_from_nat(n: nat)
    requires
        n <= u64::MAX,
    ensures
        (#[trigger] Balance::from_nat(n))@ == n,
{
}

/// Whether `s` holds an exponent marker.
fn has_exponent(s: &str) -> (r: bool)
    ensures
        r == (s@.contains('e') || s@.contains('E')),
{
    let n = s.unicode_len();
    let mut i: usize = 0;
    while i < n
        invariant
            i <= n,
            n == s@.len(),
            forall|j: int| 0 <= j < i ==> s@[j] != 'e' && s@[j] != 'E',
        decreases n - i,
    {
        let c = s.get_char(i);
        if c == 'e' || c == 'E' {
            return true;
        }
        i = i + 1;
    }
    false
}

} // verus!

//! Fixed-point decimal numbers as the API carries them: a signed mantissa of
//! at most 96 bits and a power-of-ten scale of at most 28.
//!
//! Numeric comparison, rounding and rendering are computed by `rust_decimal`.

use vstd::prelude::*;

use crate::text::{digit_char, nat_text};

verus! {

/// Largest scale (number of fractional digits) a decimal may carry.
pub const MAX_SCALE: u32 = 28u32;

/// Largest magnitude of a mantissa: `2^96 - 1`.
pub const MAX_MANTISSA: i128 = 79228162514264337593543950335i128;

/// `10^n`.
pub open spec fn pow10(n: nat) -> int
    decreases n,
{
    if n == 0 {
        1
    } else {
        10 * pow10((n - 1) as nat)
    }
}

/// The mathematical content of a decimal: `mantissa * 10^(-scale)`.
pub struct DecimalView {
    pub mantissa: int,
    pub scale: nat,
}

impl DecimalView {
    /// The number in units of `10^-28`; two decimals are numerically equal
    /// exactly when these integers are equal.
    pub open spec fn value(self) -> int {
        self.mantissa * pow10((MAX_SCALE - self.scale) as nat)
    }

    pub open spec fn in_range(self) -> bool {
        &&& self.scale <= MAX_SCALE
        &&& -MAX_MANTISSA <= self.mantissa <= MAX_MANTISSA
    }
}

/// The view of a decimal given by its parts.
pub open spec fn parts_view(mantissa: i128, scale: u32) -> DecimalView {
    DecimalView { mantissa: mantissa as int, scale: scale as nat }
}

/// `-1`, `0` or `1` as `a` is below, equal to or above `b`.
pub open spec fn sign_of_difference(a: int, b: int) -> i8 {
    if a < b {
        -1i8
    } else if a == b {
        0i8
    } else {
        1i8
    }
}

/// Rounding of `mantissa * 10^-scale` to `dp` fractional digits, halves to
/// the even neighbour; the result as `(mantissa, scale)`.
pub open spec fn round_dp_spec(mantissa: int, scale: nat, dp: nat) -> (int, nat) {
    if scale <= dp {
        (mantissa, scale)
    } else {
        let p = pow10((scale - dp) as nat);
        let magnitude = if mantissa < 0 { -mantissa } else { mantissa };
        let q = magnitude / p;
        let r = magnitude % p;
        let half = p / 2;
        let rounded = if r > half || (r == half && q % 2 == 1) { q + 1 } else { q };
        (if mantissa < 0 { -rounded } else { rounded }, dp)
    }
}

/// A decimal number `mantissa * 10^(-scale)`.
#[derive(Clone, Copy, Debug)]
pub struct Decimal {
    mantissa: i128,
    scale: u32,
}

impl View for Decimal {
    type V = DecimalView;

    closed spec fn view(&self) -> DecimalView {
        DecimalView { mantissa: self.mantissa as int, scale: self.scale as nat }
    }
}

pub proof fn lemma_pow10_positive(n: nat)
    ensures
        pow10(n) >= 1,
    decreases n,
{
    if n > 0 {
        lemma_pow10_positive((n - 1) as nat);
    }
}

/// Numeric comparison by `rust_decimal`'s `Ord for Decimal`.
///
/// The contract states that the comparison is numeric: the result orders the
/// two numbers `mantissa * 10^-scale`, scaled here to a common scale of 28.
#[verifier::external_body]
fn rust_decimal_compare(a_mantissa: i128, a_scale: u32, b_mantissa: i128, b_scale: u32) -> (r: i8)
    requires
        parts_view(a_mantissa, a_scale).in_range(),
        parts_view(b_mantissa, b_scale).in_range(),
    ensures
        r == sign_of_difference(parts_view(a_mantissa, a_scale).value(), parts_view(b_mantissa, b_scale).value()),
{
    let a = rust_decimal::Decimal::from_i128_with_scale(a_mantissa, a_scale);
    let b = rust_decimal::Decimal::from_i128_with_scale(b_mantissa, b_scale);
    match a.cmp(&b) {
        std::cmp::Ordering::Less => -1,
        std::cmp::Ordering::Equal => 0,
        std::cmp::Ordering::Greater => 1,
    }
}

/// `rust_decimal::Decimal::round_dp`: rounds to `dp` fractional digits with
/// the "bankers rounding" rule (halves go to the even neighbour); a number
/// with at most `dp` fractional digits is returned unchanged.
#[verifier::external_body]
fn rust_decimal_round_dp(mantissa: i128, scale: u32, dp: u32) -> (r: (i128, u32))
    requires
        (DecimalView { mantissa: mantissa as int, scale: scale as nat }).in_range(),
    ensures
        (r.0 as int, r.1 as nat) == round_dp_spec(mantissa as int, scale as nat, dp as nat),
{
    let d = rust_decimal::Decimal::from_i128_with_scale(mantissa, scale).round_dp(dp);
    (d.mantissa(), d.scale())
}

/// The last `count` decimal digits of `n`, most significant first (with
/// leading zeros where `n` has fewer digits).
pub open spec fn low_digits(n: nat, count: nat) -> Seq<char>
    decreases count,
{
    if count == 0 {
        seq![]
    } else {
        low_digits(n / 10, (count - 1) as nat).push(digit_char((n % 10) as int))
    }
}

/// The rendering of a decimal: a minus sign when the mantissa is negative,
/// the integer part, and, when the scale is positive, a point followed by
/// exactly `scale` fractional digits.
pub open spec fn decimal_text(v: DecimalView) -> Seq<char> {
    let magnitude: int = if v.mantissa < 0 { -v.mantissa } else { v.mantissa };
    let sign: Seq<char> = if v.mantissa < 0 { seq!['-'] } else { seq![] };
    let whole = nat_text((magnitude / pow10(v.scale)) as nat);
    if v.scale == 0 {
        sign + whole
    } else {
        sign + whole + seq!['.'] + low_digits(magnitude as nat, v.scale)
    }
}

/// `Display for rust_decimal::Decimal` (through `to_string`): the digits of
/// the mantissa with the point `scale` places from the right, a `0` before
/// the point when there is no integer digit, and `-` for a negative number.
#[verifier::external_body]
fn rust_decimal_text(mantissa: i128, scale: u32) -> (s: String)
    requires
        parts_view(mantissa, scale).in_range(),
    ensures
        s@ == decimal_text(parts_view(mantissa, scale)),
{
    rust_decimal::Decimal::from_i128_with_scale(mantissa, scale).to_string()
}

impl Decimal {
    #[verifier::type_invariant]
    spec fn well_formed(self) -> bool {
        self@.in_range()
    }

    /// `mantissa * 10^(-scale)`.
    pub fn new(mantissa: i64, scale: u32) -> (d: Decimal)
        requires
            scale <= MAX_SCALE,
        ensures
            d@ == (DecimalView { mantissa: mantissa as int, scale: scale as nat }),
    {
        Decimal { mantissa: mantissa as i128, scale }
    }

    /// `mantissa * 10^(-scale)` for a mantissa of at most 96 bits.
    pub fn from_i128_with_scale(mantissa: i128, scale: u32) -> (d: Decimal)
        requires
            (DecimalView { mantissa: mantissa as int, scale: scale as nat }).in_range(),
        ensures
            d@ == (DecimalView { mantissa: mantissa as int, scale: scale as nat }),
    {
        Decimal { mantissa, scale }
    }

    /// `mantissa * 10^(-scale)`, or `None` when the scale exceeds 28 or the
    /// mantissa exceeds 96 bits.
    pub fn try_from_i128_with_scale(mantissa: i128, scale: u32) -> (d: Option<Decimal>)
        ensures
            d is Some <==> (DecimalView { mantissa: mantissa as int, scale: scale as nat }).in_range(),
            d matches Some(x) ==> x@ == (DecimalView { mantissa: mantissa as int, scale: scale as nat }),
    {
        if scale <= MAX_SCALE && -MAX_MANTISSA <= mantissa && mantissa <= MAX_MANTISSA {
            Some(Decimal { mantissa, scale })
        } else {
            None
        }
    }

    /// The number zero (scale 0).
    pub fn zero() -> (d: Decimal)
        ensures
            d@ == (DecimalView { mantissa: 0, scale: 0 }),
    {
        Decimal { mantissa: 0, scale: 0 }
    }

    pub fn mantissa(&self) -> (m: i128)
        ensures
            m == self@.mantissa,
    {
        self.mantissa
    }

    pub fn scale(&self) -> (s: u32)
        ensures
            s == self@.scale,
    {
        self.scale
    }

    /// Numeric comparison: `-1`, `0` or `1` as `self` is below, equal to or
    /// above `other`.
    pub fn compare(&self, other: &Decimal) -> (r: i8)
        ensures
            r == sign_of_difference(self@.value(), other@.value()),
    {
        proof {
            use_type_invariant(self);
            use_type_invariant(other);
        }
        rust_decimal_compare(self.mantissa, self.scale, other.mantissa, other.scale)
    }

    /// Whether `self > 0`.
    pub fn is_positive(&self) -> (b: bool)
        ensures
            b == (self@.value() > 0),
    {
        let zero = Decimal::zero();
        assert(zero@.value() == 0) by {
            vstd::arithmetic::mul::lemma_mul_basics(pow10(28));
        }
        self.compare(&zero) == 1
    }

    /// Numeric equality.
    pub fn num_eq(&self, other: &Decimal) -> (b: bool)
        ensures
            b == (self@.value() == other@.value()),
    {
        self.compare(other) == 0
    }

    /// Numeric `<`.
    pub fn num_lt(&self, other: &Decimal) -> (b: bool)
        ensures
            b == (self@.value() < other@.value()),
    {
        self.compare(other) == -1
    }

    /// The decimal rendering of the number, with all `scale` fractional
    /// digits (`Display`).
    pub fn to_string(&self) -> (s: String)
        ensures
            s@ == decimal_text(self@),
    {
        proof {
            use_type_invariant(self);
        }
        rust_decimal_text(self.mantissa, self.scale)
    }

    /// Rounds to `dp` fractional digits, halves to the even neighbour.
    pub fn round_dp(&self, dp: u32) -> (d: Decimal)
        ensures
            (d@.mantissa, d@.scale) == round_dp_spec(self@.mantissa, self@.scale, dp as nat),
    {
        proof {
            use_type_invariant(self);
        }
        let (m, s) = rust_decimal_round_dp(self.mantissa, self.scale, dp);
        proof {
            lemma_round_dp_in_range(self.mantissa as int, self.scale as nat, dp as nat);
        }
        Decimal { mantissa: m, scale: s }
    }
}

/// Rounding never leaves the representable range.
proof fn lemma_round_dp_in_range(mantissa: int, scale: nat, dp: nat)
    requires
        (DecimalView { mantissa, scale }).in_range(),
    ensures
        ({
            let r = round_dp_spec(mantissa, scale, dp);
            (DecimalView { mantissa: r.0, scale: r.1 }).in_range()
        }),
{
    if scale > dp {
        let d = (scale - dp) as nat;
        let p = pow10(d);
        lemma_pow10_positive((d - 1) as nat);
        assert(p >= 10);
        let magnitude = if mantissa < 0 { -mantissa } else { mantissa };
        vstd::arithmetic::div_mod::lemma_div_is_ordered_by_denominator(magnitude, 10, p);
        vstd::arithmetic::div_mod::lemma_div_pos_is_pos(magnitude, p);
        assert(magnitude / 10 <= MAX_MANTISSA / 10);
        assert(magnitude / p + 1 <= MAX_MANTISSA);
    }
}

} // verus!

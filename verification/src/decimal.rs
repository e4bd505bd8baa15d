//! A fixed-point base-10 amount: an integer mantissa together with a scale,
//! denoting the number `mantissa / 10^scale`. The representation mirrors the
//! backing decimal library: the mantissa fits in 96 bits and the scale is at
//! most [`MAX_SCALE`]. Arithmetic is exact; operands whose exact result would
//! leave the representable range are excluded by precondition, as the backing
//! library stops on them.

use vstd::prelude::*;
use vstd::arithmetic::power::{pow, lemma_pow0, lemma_pow_adds, lemma_pow_positive, lemma_pow_increases, lemma_pow1};

verus! {

/// Largest admissible scale (fraction digits) of an amount.
pub const MAX_SCALE: u32 = 28;

/// Strict bound on the magnitude of a mantissa: 2^96.
pub const MANTISSA_LIMIT: i128 = 0x1_0000_0000_0000_0000_0000_0000;

#[derive(Debug, Clone, Copy, Eq)]
pub struct Decimal {
    pub mantissa: i128,
    pub scale: u32,
}

/// The decimal with the given parts.
pub open spec fn dec(m: i128, s: u32) -> Decimal {
    Decimal { mantissa: m, scale: s }
}

/// A mantissa magnitude the representation can hold.
pub open spec fn fits(m: int) -> bool {
    -(MANTISSA_LIMIT as int) < m < MANTISSA_LIMIT as int
}

/// The larger of the two scales.
pub open spec fn larger_scale(a: Decimal, b: Decimal) -> u32 {
    if a.scale >= b.scale {
        a.scale
    } else {
        b.scale
    }
}

/// `m`, read at scale `from`, brought to the larger scale `to`.
pub open spec fn rescaled(m: int, from: u32, to: u32) -> int {
    m * pow(10, (to - from) as nat)
}

/// Two representations denote the same number exactly when the cross-scaled
/// mantissas agree: `a.m / 10^a.s == b.m / 10^b.s` iff
/// `a.m * 10^b.s == b.m * 10^a.s`.
pub open spec fn same_value(a: Decimal, b: Decimal) -> bool {
    a.mantissa * pow(10, b.scale as nat) == b.mantissa * pow(10, a.scale as nat)
}

/// Mantissa of a sum. A zero operand leaves the other one unchanged (the
/// first one is checked first); otherwise both mantissas are brought to the
/// larger scale and added exactly.
pub open spec fn sum_mantissa(a: Decimal, b: Decimal) -> int {
    if a.mantissa == 0 {
        b.mantissa as int
    } else if b.mantissa == 0 {
        a.mantissa as int
    } else {
        rescaled(a.mantissa as int, a.scale, larger_scale(a, b)) + rescaled(
            b.mantissa as int,
            b.scale,
            larger_scale(a, b),
        )
    }
}

/// Scale of a sum: the untouched operand's scale when the other is zero,
/// otherwise the larger of the two.
pub open spec fn sum_scale(a: Decimal, b: Decimal) -> u32 {
    if a.mantissa == 0 {
        b.scale
    } else if b.mantissa == 0 {
        a.scale
    } else {
        larger_scale(a, b)
    }
}

/// Mantissa of a difference; zero operands short-circuit as in the sum, with
/// the left one checked first.
pub open spec fn diff_mantissa(a: Decimal, b: Decimal) -> int {
    if a.mantissa == 0 {
        -(b.mantissa as int)
    } else if b.mantissa == 0 {
        a.mantissa as int
    } else {
        rescaled(a.mantissa as int, a.scale, larger_scale(a, b)) - rescaled(
            b.mantissa as int,
            b.scale,
            larger_scale(a, b),
        )
    }
}

/// Scale of a difference.
pub open spec fn diff_scale(a: Decimal, b: Decimal) -> u32 {
    if a.mantissa == 0 {
        b.scale
    } else if b.mantissa == 0 {
        a.scale
    } else {
        larger_scale(a, b)
    }
}

/// Mantissa of a product: the exact product of the mantissas, except that a
/// zero operand gives the canonical zero.
pub open spec fn prod_mantissa(a: Decimal, b: Decimal) -> int {
    if a.mantissa == 0 || b.mantissa == 0 {
        0
    } else {
        a.mantissa * b.mantissa
    }
}

/// Scale of a product: the scales add up; a zero product has scale zero.
pub open spec fn prod_scale(a: Decimal, b: Decimal) -> u32 {
    if a.mantissa == 0 || b.mantissa == 0 {
        0
    } else {
        (a.scale + b.scale) as u32
    }
}

/// The sum, as a decimal; its mantissa is exact whenever [`add_in_range`]
/// holds.
pub open spec fn sum_of(a: Decimal, b: Decimal) -> Decimal {
    dec(sum_mantissa(a, b) as i128, sum_scale(a, b))
}

/// The difference, as a decimal; exact whenever [`sub_in_range`] holds.
pub open spec fn diff_of(a: Decimal, b: Decimal) -> Decimal {
    dec(diff_mantissa(a, b) as i128, diff_scale(a, b))
}

/// The product, as a decimal; exact whenever [`mul_in_range`] holds.
pub open spec fn prod_of(a: Decimal, b: Decimal) -> Decimal {
    dec(prod_mantissa(a, b) as i128, prod_scale(a, b))
}

/// The exact sum stays representable: both mantissas, once brought to the
/// common scale, and the sum itself stay within 96 bits. Vacuous when an
/// operand is zero, since then nothing is rescaled.
pub open spec fn add_in_range(a: Decimal, b: Decimal) -> bool {
    a.mantissa != 0 && b.mantissa != 0 ==> {
        &&& fits(rescaled(a.mantissa as int, a.scale, larger_scale(a, b)))
        &&& fits(rescaled(b.mantissa as int, b.scale, larger_scale(a, b)))
        &&& fits(sum_mantissa(a, b))
    }
}

/// The exact difference stays representable.
pub open spec fn sub_in_range(a: Decimal, b: Decimal) -> bool {
    a.mantissa != 0 && b.mantissa != 0 ==> {
        &&& fits(rescaled(a.mantissa as int, a.scale, larger_scale(a, b)))
        &&& fits(rescaled(b.mantissa as int, b.scale, larger_scale(a, b)))
        &&& fits(diff_mantissa(a, b))
    }
}

/// The exact product stays representable: the scales add up to at most
/// [`MAX_SCALE`] and the product of the mantissas stays within 96 bits.
/// Vacuous when an operand is zero.
pub open spec fn mul_in_range(a: Decimal, b: Decimal) -> bool {
    a.mantissa != 0 && b.mantissa != 0 ==> {
        &&& a.scale + b.scale <= MAX_SCALE
        &&& fits(prod_mantissa(a, b))
    }
}

impl Decimal {
    /// The representation invariant: scale at most [`MAX_SCALE`], mantissa
    /// within 96 bits.
    pub open spec fn wf(self) -> bool {
        &&& self.scale <= MAX_SCALE
        &&& fits(self.mantissa as int)
    }

    /// Builds the number `num / 10^scale`.
    pub fn new(num: i64, scale: u32) -> (r: Decimal)
        requires
            scale <= MAX_SCALE,
        ensures
            r.mantissa == num,
            r.scale == scale,
            r.wf(),
    {
        Decimal { mantissa: num as i128, scale }
    }

    /// The stored mantissa.
    pub fn mantissa(&self) -> (r: i128)
        ensures
            r == self.mantissa,
    {
        self.mantissa
    }

    /// The stored scale.
    pub fn scale(&self) -> (r: u32)
        ensures
            r == self.scale,
    {
        self.scale
    }
}

/// 10^e, for exponents up to [`MAX_SCALE`].
pub(crate) fn pow10_i128(e: u32) -> (r: i128)
    requires
        e <= MAX_SCALE,
    ensures
        r == pow(10, e as nat),
{
    let mut r: i128 = 1;
    let mut i: u32 = 0;
    proof {
        lemma_pow0(10);
    }
    while i < e
        invariant
            i <= e <= MAX_SCALE,
            r == pow(10, i as nat),
        decreases e - i,
    {
        proof {
            lemma_pow10_max_value();
            lemma_pow1(10);
            lemma_pow_positive(10, i as nat);
            lemma_pow_adds(10, i as nat, 1);
            lemma_pow_increases(10, (i + 1) as nat, MAX_SCALE as nat);
            assert(pow(10, (i + 1) as nat) == r * 10);
        }
        r = r * 10;
        i = i + 1;
    }
    r
}

/// 10^28 written out, so that bounds on smaller powers become plain numbers.
proof fn lemma_pow10_max_value()
    ensures
        pow(10, MAX_SCALE as nat) == 10000000000000000000000000000,
{
    reveal_with_fuel(pow, 29);
}

/// For scales in order, the cross-scale value equality collapses to a single
/// rescaling of the smaller-scale mantissa.
proof fn lemma_same_value_iff_rescaled(a: Decimal, b: Decimal)
    requires
        a.scale <= b.scale,
    ensures
        same_value(a, b) <==> a.mantissa * pow(10, (b.scale - a.scale) as nat) == b.mantissa,
{
    let ds = (b.scale - a.scale) as nat;
    let ps = pow(10, a.scale as nat);
    lemma_pow_adds(10, a.scale as nat, ds);
    lemma_pow_positive(10, a.scale as nat);
    assert((a.mantissa * (ps * pow(10, ds)) == b.mantissa * ps) <==> (a.mantissa * pow(10, ds)
        == b.mantissa)) by (nonlinear_arith)
        requires
            ps >= 1,
    ;
    assert(a.mantissa * pow(10, b.scale as nat) == a.mantissa * (ps * pow(10, ds)));
}

/// Two representations with zero mantissa denote the same number, whatever
/// their scales.
pub(crate) proof fn lemma_zero_same_value(a: Decimal, b: Decimal)
    requires
        a.mantissa == 0,
        b.mantissa == 0,
    ensures
        same_value(a, b),
{
    assert(a.mantissa * pow(10, b.scale as nat) == 0) by (nonlinear_arith)
        requires
            a.mantissa == 0,
    ;
    assert(b.mantissa * pow(10, a.scale as nat) == 0) by (nonlinear_arith)
        requires
            b.mantissa == 0,
    ;
}

/// Scaling by an exact sum of factors distributes over the sum: the product
/// with the summed factor denotes the same number as the exact sum of the
/// two products.
pub(crate) proof fn lemma_prod_with_sum_distributes(a: Decimal, k1: Decimal, k2: Decimal)
    requires
        a.wf(),
        k1.wf(),
        k2.wf(),
        add_in_range(k1, k2),
        mul_in_range(a, k1),
        mul_in_range(a, k2),
        mul_in_range(a, sum_of(k1, k2)),
    ensures
        same_value(prod_of(a, sum_of(k1, k2)), sum_of(prod_of(a, k1), prod_of(a, k2))),
{
    let s = sum_of(k1, k2);
    let p1 = prod_of(a, k1);
    let p2 = prod_of(a, k2);
    let lhs = prod_of(a, s);
    let rhs = sum_of(p1, p2);
    if a.mantissa == 0 {
        // zero times anything is the canonical zero on both sides
        lemma_zero_same_value(lhs, rhs);
    } else if k1.mantissa == 0 && k2.mantissa == 0 {
        // both factors are zero: both sides are the canonical zero
        lemma_zero_same_value(lhs, rhs);
    } else if k1.mantissa == 0 {
        // the summed factor is the second one, and the zero first product
        // leaves the second one as the sum
        assert(s == k2);
        assert(lhs == p2);
        assert(rhs == p2);
    } else if k2.mantissa == 0 {
        // here the sum keeps the first product, which must be known nonzero
        assert(a.mantissa * k1.mantissa != 0) by (nonlinear_arith)
            requires
                a.mantissa != 0,
                k1.mantissa != 0,
        ;
        assert(s == k1);
        assert(lhs == p1);
        assert(rhs == p1);
    } else {
        let e1: int = pow(10, (larger_scale(k1, k2) - k1.scale) as nat);
        let e2: int = pow(10, (larger_scale(k1, k2) - k2.scale) as nat);
        let sumk: int = k1.mantissa * e1 + k2.mantissa * e2;
        assert(s.mantissa == sumk);
        assert(a.mantissa * k1.mantissa != 0) by (nonlinear_arith)
            requires
                a.mantissa != 0,
                k1.mantissa != 0,
        ;
        assert(a.mantissa * k2.mantissa != 0) by (nonlinear_arith)
            requires
                a.mantissa != 0,
                k2.mantissa != 0,
        ;
        // the two products are apart by the very exponents of their factors
        assert(larger_scale(p1, p2) == (a.scale + larger_scale(k1, k2)) as u32);
        assert((larger_scale(p1, p2) - p1.scale) as nat == (larger_scale(k1, k2) - k1.scale)
            as nat);
        assert((larger_scale(p1, p2) - p2.scale) as nat == (larger_scale(k1, k2) - k2.scale)
            as nat);
        assert(sum_mantissa(p1, p2) == (a.mantissa * k1.mantissa) * e1 + (a.mantissa
            * k2.mantissa) * e2);
        assert((a.mantissa * k1.mantissa) * e1 + (a.mantissa * k2.mantissa) * e2 == a.mantissa
            * sumk) by (nonlinear_arith)
            requires
                sumk == k1.mantissa * e1 + k2.mantissa * e2,
        ;
        if s.mantissa == 0 {
            assert(a.mantissa * sumk == 0) by (nonlinear_arith)
                requires
                    sumk == 0,
            ;
            lemma_zero_same_value(lhs, rhs);
        } else {
            assert(lhs.mantissa == a.mantissa * sumk);
            assert(lhs == rhs);
        }
    }
}

impl PartialEq for Decimal {
    fn eq(&self, other: &Decimal) -> (r: bool) {
        let a_wf = self.scale <= MAX_SCALE && -MANTISSA_LIMIT < self.mantissa && self.mantissa
            < MANTISSA_LIMIT;
        let b_wf = other.scale <= MAX_SCALE && -MANTISSA_LIMIT < other.mantissa && other.mantissa
            < MANTISSA_LIMIT;
        if !a_wf || !b_wf {
            self.mantissa == other.mantissa && self.scale == other.scale
        } else {
            let (m_lo, m_hi, ds) = if self.scale <= other.scale {
                (self.mantissa, other.mantissa, other.scale - self.scale)
            } else {
                (other.mantissa, self.mantissa, self.scale - other.scale)
            };
            proof {
                if self.scale <= other.scale {
                    lemma_same_value_iff_rescaled(*self, *other);
                } else {
                    lemma_same_value_iff_rescaled(*other, *self);
                }
            }
            let p = pow10_i128(ds);
            match m_lo.checked_mul(p) {
                Some(v) => v == m_hi,
                None => false,
            }
        }
    }
}

impl vstd::std_specs::cmp::PartialEqSpecImpl for Decimal {
    open spec fn obeys_eq_spec() -> bool {
        true
    }

    /// Well-formed representations compare by the number they denote;
    /// representations outside the supported range compare by their parts.
    open spec fn eq_spec(&self, other: &Decimal) -> bool {
        if self.wf() && other.wf() {
            same_value(*self, *other)
        } else {
            self.mantissa == other.mantissa && self.scale == other.scale
        }
    }
}

/// The character of a single decimal digit.
pub open spec fn digit_char(d: int) -> char {
    if d == 0 {
        '0'
    } else if d == 1 {
        '1'
    } else if d == 2 {
        '2'
    } else if d == 3 {
        '3'
    } else if d == 4 {
        '4'
    } else if d == 5 {
        '5'
    } else if d == 6 {
        '6'
    } else if d == 7 {
        '7'
    } else if d == 8 {
        '8'
    } else {
        '9'
    }
}

/// The decimal digits of `n`, most significant first; `0` is written `"0"`.
pub open spec fn dec_digits(n: nat) -> Seq<char>
    decreases n,
{
    if n < 10 {
        seq![digit_char(n as int)]
    } else {
        dec_digits(n / 10).push(digit_char((n % 10) as int))
    }
}

/// The number `m / 10^s` written with exactly two fraction digits: an
/// optional minus sign, the digits of the integer part, a point, and the
/// first two fraction digits, zero-padded when the scale is below two and
/// cut off (not rounded) when it is above.
pub open spec fn two_places(m: int, s: nat) -> Seq<char> {
    let u = if m < 0 {
        -m
    } else {
        m
    };
    let t = if s <= 2 {
        u * pow(10, (2 - s) as nat)
    } else {
        u / pow(10, (s - 2) as nat)
    };
    let sign = if m < 0 {
        seq!['-']
    } else {
        Seq::<char>::empty()
    };
    sign + dec_digits((t / 100) as nat) + seq!['.'] + seq![
        digit_char(t / 10 % 10),
        digit_char(t % 10),
    ]
}

/// Relies on rust_decimal: formatting a decimal with `"{:.2}"` writes a
/// leading minus for a negative value, then the digits of the integer part,
/// a point, and exactly two fraction digits, padding the fraction with zeros
/// when the scale is below two and cutting it off without rounding when it
/// is above.
#[verifier::external_body]
pub(crate) fn dec_format_two(m: i128, s: u32) -> (r: String)
    requires
        dec(m, s).wf(),
    ensures
        r@ == two_places(m as int, s as nat),
{
    let d = rust_decimal::Decimal::from_i128_with_scale(m, s);
    format!("{:.2}", d)
}

/// Relies on rust_decimal: `Decimal::from_i128_with_scale` stores mantissa
/// and scale verbatim for in-range arguments, `+` returns the other operand
/// unchanged when one is zero (left checked first) and otherwise the exact
/// sum of both mantissas brought to the larger scale, and `mantissa` /
/// `scale` read the parts back.
#[verifier::external_body]
pub(crate) fn dec_add_raw(m1: i128, s1: u32, m2: i128, s2: u32) -> (r: (i128, u32))
    requires
        dec(m1, s1).wf(),
        dec(m2, s2).wf(),
        add_in_range(dec(m1, s1), dec(m2, s2)),
    ensures
        r.0 == sum_mantissa(dec(m1, s1), dec(m2, s2)),
        r.1 == sum_scale(dec(m1, s1), dec(m2, s2)),
{
    let a = rust_decimal::Decimal::from_i128_with_scale(m1, s1);
    let b = rust_decimal::Decimal::from_i128_with_scale(m2, s2);
    let d = a + b;
    (d.mantissa(), d.scale())
}

/// Relies on rust_decimal: `-` mirrors `+`: it hands back the left operand
/// when the right one is zero, the negated right operand when the left one is
/// zero, and otherwise the exact difference at the larger scale.
#[verifier::external_body]
pub(crate) fn dec_sub_raw(m1: i128, s1: u32, m2: i128, s2: u32) -> (r: (i128, u32))
    requires
        dec(m1, s1).wf(),
        dec(m2, s2).wf(),
        sub_in_range(dec(m1, s1), dec(m2, s2)),
    ensures
        r.0 == diff_mantissa(dec(m1, s1), dec(m2, s2)),
        r.1 == diff_scale(dec(m1, s1), dec(m2, s2)),
{
    let a = rust_decimal::Decimal::from_i128_with_scale(m1, s1);
    let b = rust_decimal::Decimal::from_i128_with_scale(m2, s2);
    let d = a - b;
    (d.mantissa(), d.scale())
}

/// Relies on rust_decimal: `*` returns the canonical zero when either operand
/// is zero, and otherwise the exact product of the mantissas at the sum of
/// the scales, as long as both stay representable.
#[verifier::external_body]
pub(crate) fn dec_mul_raw(m1: i128, s1: u32, m2: i128, s2: u32) -> (r: (i128, u32))
    requires
        dec(m1, s1).wf(),
        dec(m2, s2).wf(),
        mul_in_range(dec(m1, s1), dec(m2, s2)),
    ensures
        r.0 == prod_mantissa(dec(m1, s1), dec(m2, s2)),
        r.1 == prod_scale(dec(m1, s1), dec(m2, s2)),
{
    let a = rust_decimal::Decimal::from_i128_with_scale(m1, s1);
    let b = rust_decimal::Decimal::from_i128_with_scale(m2, s2);
    let d = a * b;
    (d.mantissa(), d.scale())
}

} // verus!

//! An immutable pair of a decimal amount and a currency. Arithmetic between
//! two monetary values demands that the currencies agree and reports a
//! mismatch as an explicit error value; every successful operation returns a
//! new value with the exact decimal result.

use vstd::prelude::*;
use vstd::std_specs::cmp::PartialEqSpec;
use vstd::string::StringExecFns;

use crate::currency::Currency;
use crate::decimal::{
    add_in_range, dec, dec_add_raw, dec_format_two, dec_mul_raw, dec_sub_raw, diff_mantissa,
    diff_of, lemma_zero_same_value, mul_in_range, prod_of, same_value, sub_in_range,
    sum_mantissa, sum_of, two_places, Decimal,
};

verus! {

/// The text reported when two currencies should agree but do not.
pub open spec fn mismatch_message(a: Currency, b: Currency) -> Seq<char> {
    "Currency mismatch: "@ + a.code@ + " vs "@ + b.code@
}

#[derive(Debug, Clone, Eq)]
pub struct Money {
    pub amount: Decimal,
    pub currency: Currency,
}

impl Money {
    /// A monetary value is well formed when its amount is.
    pub open spec fn wf(self) -> bool {
        self.amount.wf()
    }

    /// Builds a monetary value, storing amount and currency verbatim.
    pub fn new(amount: Decimal, currency: Currency) -> (m: Money)
        ensures
            m.amount == amount,
            m.currency == currency,
    {
        Money { amount, currency }
    }

    /// The stored amount, unchanged.
    pub fn amount(&self) -> (r: Decimal)
        ensures
            r == self.amount,
    {
        self.amount
    }

    /// A view of the stored currency.
    pub fn currency(&self) -> (r: &Currency)
        ensures
            *r == self.currency,
    {
        &self.currency
    }

    /// Checks that both values carry the same currency, reporting the
    /// mismatch text otherwise.
    fn ensure_same_currency(&self, other: &Money) -> (r: Result<(), String>)
        ensures
            r is Ok <==> self.currency.eq_spec(&other.currency),
            r matches Err(e) ==> e@ == mismatch_message(self.currency, other.currency),
    {
        if self.currency == other.currency {
            Ok(())
        } else {
            Err(
                String::from_str("Currency mismatch: ").concat(self.currency.code.as_str()).concat(
                    " vs ",
                ).concat(other.currency.code.as_str()),
            )
        }
    }

    /// Adds two amounts of the same currency exactly; fails with the
    /// mismatch text exactly when the currencies differ.
    pub fn add(self, other: Money) -> (r: Result<Money, String>)
        requires
            self.wf(),
            other.wf(),
            self.currency.eq_spec(&other.currency) ==> add_in_range(self.amount, other.amount),
        ensures
            r is Ok <==> self.currency.eq_spec(&other.currency),
            r matches Ok(m) ==> {
                &&& m.amount == sum_of(self.amount, other.amount)
                &&& m.currency == self.currency
                &&& m.wf()
            },
            r matches Err(e) ==> e@ == mismatch_message(self.currency, other.currency),
    {
        match self.ensure_same_currency(&other) {
            Err(e) => Err(e),
            Ok(()) => {
                let (m, s) = dec_add_raw(
                    self.amount.mantissa,
                    self.amount.scale,
                    other.amount.mantissa,
                    other.amount.scale,
                );
                Ok(Money { amount: Decimal { mantissa: m, scale: s }, currency: self.currency })
            },
        }
    }

    /// Subtracts an amount of the same currency exactly; negative results
    /// are valid. Fails with the mismatch text exactly when the currencies
    /// differ.
    pub fn subtract(self, other: Money) -> (r: Result<Money, String>)
        requires
            self.wf(),
            other.wf(),
            self.currency.eq_spec(&other.currency) ==> sub_in_range(self.amount, other.amount),
        ensures
            r is Ok <==> self.currency.eq_spec(&other.currency),
            r matches Ok(m) ==> {
                &&& m.amount == diff_of(self.amount, other.amount)
                &&& m.currency == self.currency
                &&& m.wf()
            },
            r matches Err(e) ==> e@ == mismatch_message(self.currency, other.currency),
    {
        match self.ensure_same_currency(&other) {
            Err(e) => Err(e),
            Ok(()) => {
                let (m, s) = dec_sub_raw(
                    self.amount.mantissa,
                    self.amount.scale,
                    other.amount.mantissa,
                    other.amount.scale,
                );
                Ok(Money { amount: Decimal { mantissa: m, scale: s }, currency: self.currency })
            },
        }
    }

    /// Scales the amount by a bare decimal factor; a scalar carries no
    /// currency, so this cannot fail.
    pub fn multiply_scalar(self, scalar: Decimal) -> (r: Money)
        requires
            self.wf(),
            scalar.wf(),
            mul_in_range(self.amount, scalar),
        ensures
            r.amount == prod_of(self.amount, scalar),
            r.currency == self.currency,
            r.wf(),
    {
        let (m, s) = dec_mul_raw(
            self.amount.mantissa,
            self.amount.scale,
            scalar.mantissa,
            scalar.scale,
        );
        Money { amount: Decimal { mantissa: m, scale: s }, currency: self.currency }
    }

    /// Multiplies two amounts of the same currency exactly; the scales add
    /// up. Fails with the mismatch text exactly when the currencies differ.
    pub fn multiply(self, other: Money) -> (r: Result<Money, String>)
        requires
            self.wf(),
            other.wf(),
            self.currency.eq_spec(&other.currency) ==> mul_in_range(self.amount, other.amount),
        ensures
            r is Ok <==> self.currency.eq_spec(&other.currency),
            r matches Ok(m) ==> {
                &&& m.amount == prod_of(self.amount, other.amount)
                &&& m.currency == self.currency
                &&& m.wf()
            },
            r matches Err(e) ==> e@ == mismatch_message(self.currency, other.currency),
    {
        match self.ensure_same_currency(&other) {
            Err(e) => Err(e),
            Ok(()) => {
                let (m, s) = dec_mul_raw(
                    self.amount.mantissa,
                    self.amount.scale,
                    other.amount.mantissa,
                    other.amount.scale,
                );
                Ok(Money { amount: Decimal { mantissa: m, scale: s }, currency: self.currency })
            },
        }
    }

    /// Renders the value as `"<symbol> <amount>"` with exactly two fraction
    /// digits, whatever the currency's natural subdivision.
    pub fn display(&self) -> (r: String)
        requires
            self.wf(),
        ensures
            r@ == self.currency.symbol@ + " "@ + two_places(
                self.amount.mantissa as int,
                self.amount.scale as nat,
            ),
    {
        let num = dec_format_two(self.amount.mantissa, self.amount.scale);
        self.currency.symbol.clone().concat(" ").concat(num.as_str())
    }
}

/// Law: adding a zero amount of the same currency leaves the amount's value
/// unchanged; together with the contract of [`Money::add`] this covers
/// `add(m, z).amount == m.amount` for every zero-amount `z`.
pub proof fn lemma_add_zero_keeps_value(m: Money, z: Money)
    requires
        m.wf(),
        z.wf(),
        m.currency.eq_spec(&z.currency),
        z.amount.mantissa == 0,
    ensures
        same_value(sum_of(m.amount, z.amount), m.amount),
{
    if m.amount.mantissa != 0 {
        assert(sum_of(m.amount, z.amount) == m.amount);
    } else {
        lemma_zero_same_value(sum_of(m.amount, z.amount), m.amount);
    }
}

/// Law: subtracting a monetary value from itself yields an amount that
/// denotes zero; together with the contract of [`Money::subtract`] this
/// covers `subtract(m, m).amount == 0`.
pub proof fn lemma_subtract_self_is_zero(m: Money)
    requires
        m.wf(),
    ensures
        diff_mantissa(m.amount, m.amount) == 0,
        same_value(diff_of(m.amount, m.amount), dec(0, 0)),
{
    lemma_zero_same_value(diff_of(m.amount, m.amount), dec(0, 0));
}

/// Law: addition of same-currency amounts is commutative: both orders give
/// the same exact mantissa, and the two results denote the same number.
pub proof fn lemma_add_commutative(m1: Money, m2: Money)
    requires
        m1.wf(),
        m2.wf(),
        m1.currency.eq_spec(&m2.currency),
    ensures
        sum_mantissa(m1.amount, m2.amount) == sum_mantissa(m2.amount, m1.amount),
        same_value(sum_of(m1.amount, m2.amount), sum_of(m2.amount, m1.amount)),
{
    let a = m1.amount;
    let b = m2.amount;
    if a.mantissa == 0 && b.mantissa == 0 {
        lemma_zero_same_value(sum_of(a, b), sum_of(b, a));
    } else {
        assert(sum_of(a, b) == sum_of(b, a));
    }
}

/// Law: scaling a monetary value by the exact sum of two decimal factors
/// yields the same amount value as adding the two scaled values; together
/// with the contracts of [`Money::multiply_scalar`] and [`Money::add`] this
/// covers `multiply_scalar(m, k1 + k2).amount ==
/// (multiply_scalar(m, k1).amount + multiply_scalar(m, k2).amount)`.
pub proof fn lemma_multiply_scalar_distributes(m: Money, k1: Decimal, k2: Decimal)
    requires
        m.wf(),
        k1.wf(),
        k2.wf(),
        add_in_range(k1, k2),
        mul_in_range(m.amount, k1),
        mul_in_range(m.amount, k2),
        mul_in_range(m.amount, sum_of(k1, k2)),
    ensures
        same_value(
            prod_of(m.amount, sum_of(k1, k2)),
            sum_of(prod_of(m.amount, k1), prod_of(m.amount, k2)),
        ),
{
    crate::decimal::lemma_prod_with_sum_distributes(m.amount, k1, k2);
}

impl PartialEq for Money {
    fn eq(&self, other: &Money) -> (r: bool) {
        self.currency == other.currency && self.amount == other.amount
    }
}

impl vstd::std_specs::cmp::PartialEqSpecImpl for Money {
    open spec fn obeys_eq_spec() -> bool {
        true
    }

    /// Monetary values are equal when the currencies agree and the amounts
    /// denote the same number.
    open spec fn eq_spec(&self, other: &Money) -> bool {
        vstd::std_specs::cmp::PartialEqSpec::eq_spec(&self.currency, &other.currency)
            && vstd::std_specs::cmp::PartialEqSpec::eq_spec(&self.amount, &other.amount)
    }
}

} // verus!

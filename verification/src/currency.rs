//! An immutable descriptor of a monetary unit: a short textual code together
//! with a display symbol. Two currencies are equal exactly when both fields
//! agree, so `Currency` values can serve as map keys.

use vstd::prelude::*;
use vstd::std_specs::cmp::PartialEqSpec;
use vstd::string::StringExecFns;

verus! {

#[derive(Debug, Clone, Eq, Hash)]
pub struct Currency {
    pub code: String,
    pub symbol: String,
}

impl Currency {
    /// Builds a currency from a code and a symbol, storing both verbatim.
    /// No validation is performed: any pair of strings is accepted.
    pub fn new(code: &str, symbol: &str) -> (c: Currency)
        ensures
            c.code@ == code@,
            c.symbol@ == symbol@,
    {
        Currency { code: code.to_owned(), symbol: symbol.to_owned() }
    }

    /// The United States dollar.
    pub fn usd() -> (c: Currency)
        ensures
            c.code@ == "USD"@,
            c.symbol@ == "$"@,
    {
        Currency::new("USD", "$")
    }

    /// The euro.
    pub fn eur() -> (c: Currency)
        ensures
            c.code@ == "EUR"@,
            c.symbol@ == "€"@,
    {
        Currency::new("EUR", "€")
    }

    /// The Japanese yen.
    pub fn jpy() -> (c: Currency)
        ensures
            c.code@ == "JPY"@,
            c.symbol@ == "¥"@,
    {
        Currency::new("JPY", "¥")
    }

    /// The Chinese yuan. Its canonical symbol here is the hanzi sign.
    pub fn cny() -> (c: Currency)
        ensures
            c.code@ == "CNY"@,
            c.symbol@ == "元"@,
    {
        Currency::new("CNY", "元")
    }

    /// The pound sterling.
    pub fn gbp() -> (c: Currency)
        ensures
            c.code@ == "GBP"@,
            c.symbol@ == "£"@,
    {
        Currency::new("GBP", "£")
    }

    /// Renders the currency as `"<symbol> (<code>)"`.
    pub fn display(&self) -> (r: String)
        ensures
            r@ == self.symbol@ + " ("@ + self.code@ + ")"@,
    {
        self.symbol.clone().concat(" (").concat(self.code.as_str()).concat(")")
    }
}

impl PartialEq for Currency {
    fn eq(&self, other: &Currency) -> (r: bool) {
        self.code == other.code && self.symbol == other.symbol
    }
}

impl vstd::std_specs::cmp::PartialEqSpecImpl for Currency {
    open spec fn obeys_eq_spec() -> bool {
        true
    }

    open spec fn eq_spec(&self, other: &Currency) -> bool {
        self.code@ == other.code@ && self.symbol@ == other.symbol@
    }
}

/// Law: equality of currencies is structural. A currency built from another
/// one's code and symbol is equal to it; in particular, for any currency `c`,
/// `Currency::new(&c.code, &c.symbol) == c` follows from the contract of
/// `Currency::new`.
pub proof fn lemma_currency_rebuilt_eq(a: Currency, b: Currency)
    requires
        a.code@ == b.code@,
        a.symbol@ == b.symbol@,
    ensures
        a.eq_spec(&b),
        b.eq_spec(&a),
{
}

} // verus!

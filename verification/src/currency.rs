//! The currency selection: a display symbol and a conversion from
//! reference-currency amounts into the display currency. The conversion
//! rate is held as a fraction, numerator over denominator, and applied
//! with flooring integer division.

use vstd::prelude::*;

verus! {

/// A display-currency selection: a short symbol and a conversion rate
/// from the reference currency, held as the fraction `num / den`.
#[derive(Debug)]
pub struct Currency {
    symbol: String,
    num: u64,
    den: u64,
}

impl Currency {
    #[verifier::type_invariant]
    pub closed spec fn inv(self) -> bool {
        self.den >= 1
    }

    /// The display symbol, as given at construction.
    pub closed spec fn spec_symbol(self) -> Seq<char> {
        self.symbol@
    }

    /// The numerator of the conversion rate.
    pub closed spec fn spec_num(self) -> int {
        self.num as int
    }

    /// The denominator of the conversion rate.
    pub closed spec fn spec_den(self) -> int {
        self.den as int
    }

    /// The display amount for a reference amount: floor(amount * num / den).
    pub open spec fn spec_convert(self, amount: int) -> int {
        amount * self.spec_num() / self.spec_den()
    }

    /// A currency selection with the given symbol and conversion rate.
    pub fn new(symbol: String, num: u64, den: u64) -> (c: Currency)
        requires
            den >= 1,
        ensures
            c.spec_symbol() == symbol@,
            c.spec_num() == num as int,
            c.spec_den() == den as int,
    {
        Currency { symbol, num, den }
    }

    /// The display symbol of this currency.
    pub fn get_symbol(&self) -> (s: &str)
        ensures
            s@ == self.spec_symbol(),
    {
        self.symbol.as_str()
    }

    /// Convert a reference-currency amount into the display currency.
    pub fn convert(&self, amount: u64) -> (r: u128)
        ensures
            r as int == self.spec_convert(amount as int),
    {
        proof {
            use_type_invariant(self);
            assert((amount as int) * (self.num as int) <= (u64::MAX as int) * (
            u64::MAX as int)) by (nonlinear_arith)
                requires
                    amount as int <= u64::MAX as int,
                    self.num as int <= u64::MAX as int,
                    amount as int >= 0,
                    self.num as int >= 0,
            ;
        }
        ((amount as u128) * (self.num as u128)) / (self.den as u128)
    }
}

} // verus!

//! One asset's market snapshot, and its currency-aware accessors.

use vstd::prelude::*;
use crate::currency::Currency;

verus! {

/// One asset's market snapshot. `price` and `market_cap` are whole units
/// of the reference currency; the two percent changes are in tenths of a
/// percent. `rank` is the caller-supplied display order.
#[derive(Clone, Debug)]
pub struct Record {
    pub rank: u64,
    pub name: String,
    pub price: u64,
    pub market_cap: u64,
    pub percent_24: i64,
    pub percent_1: i64,
}

impl Record {
    /// A record with the given fields.
    pub fn new(
        rank: u64,
        name: String,
        price: u64,
        market_cap: u64,
        percent_24: i64,
        percent_1: i64,
    ) -> (r: Record)
        ensures
            r == (Record { rank, name, price, market_cap, percent_24, percent_1 }),
    {
        Record { rank, name, price, market_cap, percent_24, percent_1 }
    }

    /// The price expressed in the display currency.
    pub fn get_price(&self, currency: &Currency) -> (p: u128)
        ensures
            p as int == currency.spec_convert(self.price as int),
    {
        currency.convert(self.price)
    }

    /// The market capitalization expressed in the display currency.
    pub fn get_market_cap(&self, currency: &Currency) -> (m: u128)
        ensures
            m as int == currency.spec_convert(self.market_cap as int),
    {
        currency.convert(self.market_cap)
    }

    /// The 24-hour percent change, in tenths of a percent.
    pub fn get_percent_24(&self) -> (v: i64)
        ensures
            v == self.percent_24,
    {
        self.percent_24
    }

    /// The 1-hour percent change, in tenths of a percent.
    pub fn get_percent_1(&self) -> (v: i64)
        ensures
            v == self.percent_1,
    {
        self.percent_1
    }
}

} // verus!

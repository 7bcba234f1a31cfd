//! Market-data capability providers: a single market price per ticker, a
//! flat volatility surface, a fixed zero rate and an actual/365 day-count
//! from a fixed valuation date.
use vstd::prelude::*;

use crate::calendar::Date;
use crate::expr::Expr;

verus! {

/// Maps a date to the year fraction since the valuation date, with an
/// actual/365 day count.
#[derive(Debug, Clone, Copy, PartialEq, Eq, Structural)]
pub struct FixedValuationDatePeriodProvider {
    pub valuation_date: Date,
}

impl FixedValuationDatePeriodProvider {
    pub fn new(valuation_date: Date) -> (r: Self)
        ensures
            r == (FixedValuationDatePeriodProvider { valuation_date }),
    {
        Self { valuation_date }
    }

    /// The year fraction from the valuation date to `dt`: whole days over
    /// 365.
    pub fn period_in_year(&self, dt: Date) -> (r: Expr)
        requires
            self.valuation_date.wf(),
            dt.wf(),
        ensures
            r == Expr::YearFraction(
                (dt.spec_day_number() - self.valuation_date.spec_day_number()) as i64,
            ),
    {
        let days: i64 = dt.day_number() - self.valuation_date.day_number();
        Expr::YearFraction(days)
    }
}

/// A constant market price, held as a double bit pattern.
#[derive(Debug, Clone, Copy, PartialEq, Eq, Structural)]
pub struct SinglePriceProvider {
    pub price: u64,
}

impl SinglePriceProvider {
    pub fn new(price: u64) -> (r: Self)
        ensures
            r == (SinglePriceProvider { price }),
    {
        Self { price }
    }

    pub fn eval(&self) -> (r: Expr)
        ensures
            r == Expr::Num(self.price),
    {
        Expr::Num(self.price)
    }
}

/// A discount rate that is always zero.
#[derive(Debug, Clone, Copy, PartialEq, Eq, Structural)]
pub struct FixedZeroRateProvider;

impl FixedZeroRateProvider {
    pub fn eval(&self) -> (r: Expr)
        ensures
            r == Expr::Num(crate::expr::BITS_ZERO),
    {
        Expr::Num(crate::expr::BITS_ZERO)
    }
}

/// A flat volatility surface: the same vol whatever the spot, strike and
/// time to expiry.
#[derive(Debug, Clone, Copy, PartialEq, Eq, Structural)]
pub struct FixedVolSurface {
    pub vol: u64,
}

impl FixedVolSurface {
    pub fn new(vol: u64) -> (r: Self)
        ensures
            r == (FixedVolSurface { vol }),
    {
        Self { vol }
    }

    pub fn eval(&self, _spot: &Expr, _strike: u64, _tte: &Expr) -> (r: Expr)
        ensures
            r == Expr::Num(self.vol),
    {
        Expr::Num(self.vol)
    }
}

} // verus!

//! The stock calculator: market price for `Price`, the same value for
//! `Exposure` (linear scaling happens later), nothing else.
use vstd::prelude::*;

use crate::error::{MarketDataKind, PricerError, PricerErrorView};
use crate::expr::Expr;
use crate::instrument::{Instrument, InstrumentView, Stock};
use crate::pricingctx::{
    spec_instrument_rank,
    spec_market_price,
    spec_measure_rank,
    spec_price,
    CtxView,
    Measure,
    PricingCtx,
};

verus! {

/// The market price of a stock as an expression, or the missing-market-data
/// error for its ticker.
pub open spec fn spec_price_stock_price(ctx: CtxView, t: Seq<char>) -> Result<
    Expr,
    PricerErrorView,
> {
    match spec_market_price(ctx, InstrumentView::Stock(t)) {
        Some(b) => Ok(Expr::Num(b)),
        None => Err(
            PricerErrorView::MissingMarketDataError {
                market_data_kind: MarketDataKind::Price,
                ticker: t,
            },
        ),
    }
}

/// What the stock calculator yields: a value for `Price` and `Exposure`,
/// "not handled" for every other measure.
pub open spec fn spec_price_stock(ctx: CtxView, m: Measure, t: Seq<char>) -> Result<
    Option<Expr>,
    PricerErrorView,
>
    decreases
        spec_instrument_rank(InstrumentView::Stock(t)),
        spec_measure_rank(m),
        1int,
        0int,
{
    match m {
        Measure::Price => match spec_price_stock_price(ctx, t) {
            Ok(e) => Ok(Some(e)),
            Err(e) => Err(e),
        },
        Measure::Exposure => match spec_price(ctx, Measure::Price, InstrumentView::Stock(t)) {
            Ok(e) => Ok(Some(e)),
            Err(e) => Err(e),
        },
        _ => Ok(None),
    }
}

fn price_stock_price(ctx: &PricingCtx, stock: &Stock) -> (r: Result<Expr, PricerError>)
    ensures
        crate::error::view_res(r) == spec_price_stock_price(ctx@, stock@),
{
    if let Some(mprv) = ctx.market_price_provider(&Instrument::Stock(stock.clone())) {
        Ok(mprv.eval())
    } else {
        Err(
            PricerError::MissingMarketDataError {
                market_data_kind: MarketDataKind::Price,
                ticker: stock.ticker.clone(),
            },
        )
    }
}

pub fn price_stock(ctx: &PricingCtx, measure: Measure, stock: &Stock) -> (r: Result<
    Option<Expr>,
    PricerError,
>)
    requires
        ctx@.wf(),
    ensures
        crate::error::view_res(r) == spec_price_stock(ctx@, measure, stock@),
    decreases
        spec_instrument_rank(InstrumentView::Stock(stock@)),
        spec_measure_rank(measure),
        1int,
{
    match measure {
        Measure::Price => match price_stock_price(ctx, stock) {
            Ok(e) => Ok(Some(e)),
            Err(e) => Err(e),
        },
        Measure::Exposure => match ctx.price(Measure::Price, &Instrument::Stock(stock.clone())) {
            Ok(e) => Ok(Some(e)),
            Err(e) => Err(e),
        },
        _ => Ok(None),
    }
}

} // verus!

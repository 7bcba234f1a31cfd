//! Measure dispatch: the instrument-kind calculator first, then the generic
//! calculator for whatever the former does not handle.
use vstd::prelude::*;

use crate::error::{PricerError, PricerErrorView};
use crate::expr::Expr;
use crate::genericpricer::{price_generic, spec_price_generic};
use crate::instrument::{Instrument, InstrumentView};
use crate::optionpricer::{price_option, spec_price_option};
use crate::pricingctx::{spec_instrument_rank, spec_measure_rank, CtxView, Measure, PricingCtx};
use crate::stockpricer::{price_stock, spec_price_stock};

verus! {

/// The value the dispatcher produces, before shift processing.
pub open spec fn spec_dispatch_measure(ctx: CtxView, m: Measure, iv: InstrumentView) -> Result<
    Expr,
    PricerErrorView,
>
    decreases spec_instrument_rank(iv), spec_measure_rank(m), 2int, 0int,
{
    let first = match iv {
        InstrumentView::Option(o) => spec_price_option(ctx, m, o),
        InstrumentView::Stock(t) => spec_price_stock(ctx, m, t),
    };
    match first {
        Err(e) => Err(e),
        Ok(Some(pr)) => Ok(pr),
        Ok(None) => spec_price_generic(ctx, m, iv),
    }
}

pub fn dispatch_measure(ctx: &PricingCtx, measure: Measure, instrument: &Instrument) -> (r: Result<
    Expr,
    PricerError,
>)
    requires
        ctx@.wf(),
        instrument@.wf(),
    ensures
        crate::error::view_res(r) == spec_dispatch_measure(ctx@, measure, instrument@),
    decreases spec_instrument_rank(instrument@), spec_measure_rank(measure), 2int,
{
    let m = match instrument {
        Instrument::Option(option) => price_option(ctx, measure, option),
        Instrument::Stock(stock) => price_stock(ctx, measure, stock),
    };
    match m {
        Err(e) => Err(e),
        Ok(Some(pr)) => Ok(pr),
        Ok(None) => price_generic(ctx, measure, instrument),
    }
}

} // verus!

//! The option calculator.  `Price` recursively evaluates the underlying
//! price, rate, vol and time to expiry through the same context — so
//! scenarios targeting those sub-measures apply transparently — and hands
//! them to the Black–Scholes kernel.
use vstd::prelude::*;
use vstd::string::StringExecFns;

use crate::bsmodel::{black_scholes, spec_black_scholes, BlackScholesParams};
use crate::error::{PricerError, PricerErrorView};
use crate::expr::{Expr, BITS_ZERO};
use crate::instrument::{Instrument, InstrumentView, StockOption, StockOptionView};
use crate::pricingctx::{
    spec_instrument_rank,
    spec_measure_rank,
    spec_price,
    spec_valuation_date,
    spec_vol,
    CtxView,
    Measure,
    PricingCtx,
};

verus! {

/// The valuation date a well-formed context resolves to is itself a
/// calendar date.
pub proof fn lemma_valuation_date_wf(ctx: CtxView)
    requires
        ctx.wf(),
    ensures
        spec_valuation_date(ctx).wf(),
    decreases ctx,
{
    match ctx {
        CtxView::Lookup(_) => {},
        CtxView::Shifted(base, _) => {
            lemma_valuation_date_wf(*base);
        },
    }
}

/// The time to expiry of an option under a context: whole days from the
/// valuation date to expiry, over 365.
pub open spec fn spec_time_to_expiry(ctx: CtxView, o: StockOptionView) -> Expr {
    Expr::YearFraction(
        (o.expiry.spec_day_number() - spec_valuation_date(ctx).spec_day_number()) as i64,
    )
}

/// The Black–Scholes price of the option, from sub-measures evaluated
/// through the context.
pub open spec fn spec_price_option_price(ctx: CtxView, o: StockOptionView) -> Result<
    Expr,
    PricerErrorView,
>
    decreases
        spec_instrument_rank(InstrumentView::Option(o)),
        spec_measure_rank(Measure::Price),
        0int,
        0int,
{
    let iv = InstrumentView::Option(o);
    match spec_price(ctx, Measure::UnderlyingPrice, iv) {
        Err(e) => Err(e),
        Ok(undprice) => match spec_price(ctx, Measure::Rate, iv) {
            Err(e) => Err(e),
            Ok(rate) => match spec_price(ctx, Measure::Vol, iv) {
                Err(e) => Err(e),
                Ok(vol) => match spec_price(ctx, Measure::TimeToExpiry, iv) {
                    Err(e) => Err(e),
                    Ok(tte) => Ok(
                        spec_black_scholes(
                            BlackScholesParams {
                                spot: undprice,
                                strike: o.strike,
                                tte: tte,
                                r: rate,
                                vol: vol,
                            },
                            o.option_type,
                        ),
                    ),
                },
            },
        },
    }
}

/// The exposure of the option: underlying price times delta.
pub open spec fn spec_price_option_exposure(ctx: CtxView, o: StockOptionView) -> Result<
    Expr,
    PricerErrorView,
>
    decreases
        spec_instrument_rank(InstrumentView::Option(o)),
        spec_measure_rank(Measure::Exposure),
        0int,
        0int,
{
    let iv = InstrumentView::Option(o);
    match spec_price(ctx, Measure::UnderlyingPrice, iv) {
        Err(e) => Err(e),
        Ok(uprice) => match spec_price(ctx, Measure::Delta, iv) {
            Err(e) => Err(e),
            Ok(delta) => Ok(Expr::Mul(Box::new(uprice), Box::new(delta))),
        },
    }
}

/// What the option calculator yields for each measure, or "not handled".
pub open spec fn spec_price_option(ctx: CtxView, m: Measure, o: StockOptionView) -> Result<
    Option<Expr>,
    PricerErrorView,
>
    decreases
        spec_instrument_rank(InstrumentView::Option(o)),
        spec_measure_rank(m),
        1int,
        0int,
{
    let iv = InstrumentView::Option(o);
    match m {
        Measure::Price => match spec_price_option_price(ctx, o) {
            Err(e) => Err(e),
            Ok(e) => Ok(Some(e)),
        },
        Measure::Exposure => match spec_price_option_exposure(ctx, o) {
            Err(e) => Err(e),
            Ok(e) => Ok(Some(e)),
        },
        Measure::UnderlyingPrice => match spec_price(
            ctx,
            Measure::Price,
            InstrumentView::Stock(o.underlying),
        ) {
            Err(e) => Err(e),
            Ok(e) => Ok(Some(e)),
        },
        Measure::Vol => match spec_vol(ctx, iv) {
            None => Err(PricerErrorView::InfrastructureError("No vol provider found"@)),
            Some(vb) => match spec_price(ctx, Measure::UnderlyingPrice, iv) {
                Err(e) => Err(e),
                Ok(_spot) => match spec_price(ctx, Measure::TimeToExpiry, iv) {
                    Err(e) => Err(e),
                    Ok(_tte) => Ok(Some(Expr::Num(vb))),
                },
            },
        },
        Measure::Rate => Ok(Some(Expr::Num(BITS_ZERO))),
        Measure::TimeToExpiry => Ok(Some(spec_time_to_expiry(ctx, o))),
        _ => Ok(None),
    }
}

fn price_option_price(ctx: &PricingCtx, option: &StockOption) -> (r: Result<Expr, PricerError>)
    requires
        ctx@.wf(),
        option.expiry.wf(),
    ensures
        crate::error::view_res(r) == spec_price_option_price(ctx@, option@),
    decreases
        spec_instrument_rank(InstrumentView::Option(option@)),
        spec_measure_rank(Measure::Price),
        0int,
{
    let insref = Instrument::Option(option.clone());
    let undprice = match ctx.price(Measure::UnderlyingPrice, &insref) {
        Ok(v) => v,
        Err(e) => {
            return Err(e);
        },
    };
    let rate = match ctx.price(Measure::Rate, &insref) {
        Ok(v) => v,
        Err(e) => {
            return Err(e);
        },
    };
    let vol = match ctx.price(Measure::Vol, &insref) {
        Ok(v) => v,
        Err(e) => {
            return Err(e);
        },
    };
    let tte = match ctx.price(Measure::TimeToExpiry, &insref) {
        Ok(v) => v,
        Err(e) => {
            return Err(e);
        },
    };
    let price = black_scholes(
        BlackScholesParams::new(undprice, option.strike, tte, rate, vol),
        option.option_type,
    );
    Ok(price)
}

fn price_option_underlying_price(ctx: &PricingCtx, option: &StockOption) -> (r: Result<
    Expr,
    PricerError,
>)
    requires
        ctx@.wf(),
    ensures
        crate::error::view_res(r) == match spec_price(
            ctx@,
            Measure::Price,
            InstrumentView::Stock(option.underlying@),
        ) {
            Ok(e) => Ok::<Expr, PricerErrorView>(e),
            Err(e) => Err(e),
        },
    decreases
        spec_instrument_rank(InstrumentView::Option(option@)),
        spec_measure_rank(Measure::UnderlyingPrice),
        0int,
{
    let underlying_ref = Instrument::Stock(option.underlying.clone());
    ctx.price(Measure::Price, &underlying_ref)
}

fn price_option_exposure(ctx: &PricingCtx, option: &StockOption) -> (r: Result<Expr, PricerError>)
    requires
        ctx@.wf(),
        option.expiry.wf(),
    ensures
        crate::error::view_res(r) == spec_price_option_exposure(ctx@, option@),
    decreases
        spec_instrument_rank(InstrumentView::Option(option@)),
        spec_measure_rank(Measure::Exposure),
        0int,
{
    let instrument = Instrument::Option(option.clone());
    let uprice = match ctx.price(Measure::UnderlyingPrice, &instrument) {
        Ok(v) => v,
        Err(e) => {
            return Err(e);
        },
    };
    let delta = match ctx.price(Measure::Delta, &instrument) {
        Ok(v) => v,
        Err(e) => {
            return Err(e);
        },
    };
    Ok(Expr::Mul(Box::new(uprice), Box::new(delta)))
}

pub fn price_option(ctx: &PricingCtx, measure: Measure, option: &StockOption) -> (r: Result<
    Option<Expr>,
    PricerError,
>)
    requires
        ctx@.wf(),
        option.expiry.wf(),
    ensures
        crate::error::view_res(r) == spec_price_option(ctx@, measure, option@),
    decreases
        spec_instrument_rank(InstrumentView::Option(option@)),
        spec_measure_rank(measure),
        1int,
{
    let insref = Instrument::Option(option.clone());
    match measure {
        Measure::Price => match price_option_price(ctx, option) {
            Ok(e) => Ok(Some(e)),
            Err(e) => Err(e),
        },
        Measure::Exposure => match price_option_exposure(ctx, option) {
            Ok(e) => Ok(Some(e)),
            Err(e) => Err(e),
        },
        Measure::UnderlyingPrice => match price_option_underlying_price(ctx, option) {
            Ok(e) => Ok(Some(e)),
            Err(e) => Err(e),
        },
        Measure::Vol => {
            if let Some(vp) = ctx.vol_provider(&insref) {
                let spot = match ctx.price(Measure::UnderlyingPrice, &insref) {
                    Ok(v) => v,
                    Err(e) => {
                        return Err(e);
                    },
                };
                let tte = match ctx.price(Measure::TimeToExpiry, &insref) {
                    Ok(v) => v,
                    Err(e) => {
                        return Err(e);
                    },
                };
                Ok(Some(vp.eval(&spot, option.strike, &tte)))
            } else {
                Err(PricerError::InfrastructureError(String::from_str("No vol provider found")))
            }
        },
        Measure::Rate => {
            if let Some(irp) = ctx.ir_provider(&insref) {
                Ok(Some(irp.eval()))
            } else {
                Err(PricerError::InfrastructureError(String::from_str("No rate provider found")))
            }
        },
        Measure::TimeToExpiry => {
            if let Some(dtp) = ctx.period_provider(&insref) {
                proof {
                    lemma_valuation_date_wf(ctx@);
                }
                Ok(Some(dtp.period_in_year(option.expiry)))
            } else {
                Err(PricerError::InfrastructureError(String::from_str("No period provider found")))
            }
        },
        _ => Ok(None),
    }
}

} // verus!

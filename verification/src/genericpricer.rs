//! The generic calculator: finite-difference greeks for any instrument, and
//! the missing-calculator failure for everything else.
//!
//! Delta and Gamma price the instrument across a transient three-point
//! relative-shift ladder on the equity risk factor, `rel ∈ {−0.01, 0, 0.01}`
//! targeting `Price`, and difference the results.  The bump is `h = V·0.01`
//! — a relative-shift bump rescaled by the price itself, a deliberate
//! convention of this library's greeks.  The zero-price checks are part of
//! the resulting expression, so the failure they guard surfaces when the
//! expression is evaluated.
use vstd::prelude::*;
use vstd::string::StringExecFns;

use crate::error::{PricerError, PricerErrorView};
use crate::expr::{Expr, BITS_CENT, BITS_EPSILON, BITS_NEG_CENT, BITS_TWO, BITS_ZERO};
use crate::instrument::{Instrument, InstrumentView};
use crate::pricingctx::{
    spec_instrument_rank,
    spec_measure_rank,
    Axis,
    CtxView,
    Measure,
    PricingCtx,
};
use crate::stackedvectorctx::{
    spec_new_stacked,
    spec_stacked_upto,
    spec_total,
    StackedCtxView,
    StackedVectorizedPricingCtx,
};
use crate::transform::{
    InstrumentFilter,
    InstrumentFilterView,
    RiskFactor,
    ShiftTargetView,
    TransformDefView,
    TransformDefinition,
};

verus! {

/// The three-point equity ladder used for both greeks.
pub open spec fn spec_greek_transform() -> TransformDefView {
    TransformDefView {
        target: ShiftTargetView::SingleMeasureTarget(Measure::Price),
        filter: InstrumentFilterView::RiskFactorFilter(RiskFactor::Equity),
        rels: seq![BITS_NEG_CENT, BITS_ZERO, BITS_CENT],
        abss: seq![BITS_ZERO, BITS_ZERO, BITS_ZERO],
    }
}

/// The transient stacked context that evaluates the ladder over a base
/// context.
pub open spec fn spec_greek_ctx(ctx: CtxView) -> StackedCtxView {
    spec_new_stacked(Axis { axis_id: 0, dim: 3 }, ctx, None, spec_greek_transform())
}

/// The delta expression from the ladder `[vdown, v, vup]`: when `v` is zero
/// the greek is zero if the ladder is flat to within machine epsilon and a
/// zero-price failure otherwise; else `(vup − vdown) / (2·h)` with
/// `h = v·0.01`.
pub open spec fn spec_delta_expr(vdown: Expr, v: Expr, vup: Expr) -> Expr {
    Expr::IfEq(
        Box::new(v),
        Box::new(Expr::Num(BITS_ZERO)),
        Box::new(
            Expr::IfLt(
                Box::new(Expr::Abs(Box::new(Expr::Sub(Box::new(vup), Box::new(vdown))))),
                Box::new(Expr::Num(BITS_EPSILON)),
                Box::new(Expr::Num(BITS_ZERO)),
                Box::new(Expr::ZeroPriceFailure),
            ),
        ),
        Box::new(
            Expr::Div(
                Box::new(Expr::Sub(Box::new(vup), Box::new(vdown))),
                Box::new(
                    Expr::Mul(
                        Box::new(Expr::Num(BITS_TWO)),
                        Box::new(Expr::Mul(Box::new(v), Box::new(Expr::Num(BITS_CENT)))),
                    ),
                ),
            ),
        ),
    )
}

/// The gamma expression from the ladder: `(vup − 2·v + vdown) / h²` with
/// `h = v·0.01`, under the same zero-price guard as delta.
pub open spec fn spec_gamma_expr(vdown: Expr, v: Expr, vup: Expr) -> Expr {
    Expr::IfEq(
        Box::new(v),
        Box::new(Expr::Num(BITS_ZERO)),
        Box::new(
            Expr::IfLt(
                Box::new(Expr::Abs(Box::new(Expr::Sub(Box::new(vup), Box::new(vdown))))),
                Box::new(Expr::Num(BITS_EPSILON)),
                Box::new(Expr::Num(BITS_ZERO)),
                Box::new(Expr::ZeroPriceFailure),
            ),
        ),
        Box::new(
            Expr::Div(
                Box::new(
                    Expr::Add(
                        Box::new(
                            Expr::Sub(
                                Box::new(vup),
                                Box::new(
                                    Expr::Mul(Box::new(Expr::Num(BITS_TWO)), Box::new(v)),
                                ),
                            ),
                        ),
                        Box::new(vdown),
                    ),
                ),
                Box::new(
                    Expr::Powf(
                        Box::new(Expr::Mul(Box::new(v), Box::new(Expr::Num(BITS_CENT)))),
                        Box::new(Expr::Num(BITS_TWO)),
                    ),
                ),
            ),
        ),
    )
}

/// Delta through the three-point ladder.
pub open spec fn spec_price_equity_delta(ctx: CtxView, iv: InstrumentView) -> Result<
    Expr,
    PricerErrorView,
>
    decreases spec_instrument_rank(iv), spec_measure_rank(Measure::Delta), 0int, 0int,
{
    match spec_stacked_upto(spec_greek_ctx(ctx), Measure::Price, iv, 3) {
        Err(e) => Err(e),
        Ok(vals) => Ok(spec_delta_expr(vals[0], vals[1], vals[2])),
    }
}

/// Gamma through the three-point ladder.
pub open spec fn spec_price_equity_gamma(ctx: CtxView, iv: InstrumentView) -> Result<
    Expr,
    PricerErrorView,
>
    decreases spec_instrument_rank(iv), spec_measure_rank(Measure::Gamma), 0int, 0int,
{
    match spec_stacked_upto(spec_greek_ctx(ctx), Measure::Price, iv, 3) {
        Err(e) => Err(e),
        Ok(vals) => Ok(spec_gamma_expr(vals[0], vals[1], vals[2])),
    }
}

/// What the generic calculator yields: finite-difference greeks for Delta
/// and Gamma, the missing-calculator error otherwise.
pub open spec fn spec_price_generic(ctx: CtxView, m: Measure, iv: InstrumentView) -> Result<
    Expr,
    PricerErrorView,
>
    decreases spec_instrument_rank(iv), spec_measure_rank(m), 1int, 0int,
{
    match m {
        Measure::Delta => spec_price_equity_delta(ctx, iv),
        Measure::Gamma => spec_price_equity_gamma(ctx, iv),
        _ => Err(PricerErrorView::MissingCalculatorError(m)),
    }
}

/// Builds the transient ladder context shared by both greeks.
fn greek_ladder_ctx(ctx: &PricingCtx) -> (r: StackedVectorizedPricingCtx)
    requires
        ctx@.wf(),
    ensures
        r@ == spec_greek_ctx(ctx@),
        r@.wf(),
        spec_total(r@.shape) == 3,
{
    let abs_shifts = vec![BITS_ZERO, BITS_ZERO, BITS_ZERO];
    let rel_shifts = vec![BITS_NEG_CENT, BITS_ZERO, BITS_CENT];
    proof {
        assert(abs_shifts@ =~= seq![BITS_ZERO, BITS_ZERO, BITS_ZERO]);
        assert(rel_shifts@ =~= seq![BITS_NEG_CENT, BITS_ZERO, BITS_CENT]);
    }
    let transform_def = match TransformDefinition::new_vector_measure_transform(
        Measure::Price,
        InstrumentFilter::RiskFactorFilter(RiskFactor::Equity),
        abs_shifts,
        rel_shifts,
    ) {
        Ok(td) => td,
        Err(e) => {
            // the shift vectors have equal length, so construction succeeds
            proof {
                assert(false);
            }
            vstd::pervasive::unreached()
        },
    };
    let vcxt = StackedVectorizedPricingCtx::shift_base_ctx(ctx, transform_def);
    proof {
        assert(vcxt@.td == spec_greek_transform());
        assert(vcxt@ == spec_greek_ctx(ctx@));
        assert(vcxt@.shape =~= seq![3usize]);
        assert(spec_total(vcxt@.shape) == 3);
    }
    vcxt
}

fn price_equity_delta(ctx: &PricingCtx, instrument: &Instrument) -> (r: Result<Expr, PricerError>)
    requires
        ctx@.wf(),
        instrument@.wf(),
    ensures
        crate::error::view_res(r) == spec_price_equity_delta(ctx@, instrument@),
    decreases spec_instrument_rank(instrument@), spec_measure_rank(Measure::Delta), 0int,
{
    let vcxt = greek_ladder_ctx(ctx);
    let vres = match vcxt.price(Measure::Price, instrument) {
        Ok(v) => v,
        Err(e) => {
            return Err(e);
        },
    };
    proof {
        crate::stackedvectorctx::lemma_upto_len(
            vcxt@,
            Measure::Price,
            instrument@,
            3,
        );
    }
    let view = match vres.resultview_1d() {
        Ok(v) => v,
        Err(e) => {
            return Err(e);
        },
    };
    if view.len() == 3 {
        let vdown = view[0].clone();
        let v = view[1].clone();
        let vup = view[2].clone();
        Ok(delta_formula(vdown, v, vup))
    } else {
        Err(
            PricerError::ShiftExecutionError {
                ins: instrument.clone(),
                message: String::from_str("unknown scenario dimension"),
            },
        )
    }
}

fn delta_formula(vdown: Expr, v: Expr, vup: Expr) -> (r: Expr)
    ensures
        r == spec_delta_expr(vdown, v, vup),
{
    let diff = Expr::Sub(Box::new(vup.clone()), Box::new(vdown.clone()));
    let guard = Expr::IfLt(
        Box::new(Expr::Abs(Box::new(Expr::Sub(Box::new(vup.clone()), Box::new(vdown))))),
        Box::new(Expr::Num(BITS_EPSILON)),
        Box::new(Expr::Num(BITS_ZERO)),
        Box::new(Expr::ZeroPriceFailure),
    );
    let h = Expr::Mul(Box::new(v.clone()), Box::new(Expr::Num(BITS_CENT)));
    Expr::IfEq(
        Box::new(v),
        Box::new(Expr::Num(BITS_ZERO)),
        Box::new(guard),
        Box::new(
            Expr::Div(
                Box::new(diff),
                Box::new(Expr::Mul(Box::new(Expr::Num(BITS_TWO)), Box::new(h))),
            ),
        ),
    )
}

fn price_equity_gamma(ctx: &PricingCtx, instrument: &Instrument) -> (r: Result<Expr, PricerError>)
    requires
        ctx@.wf(),
        instrument@.wf(),
    ensures
        crate::error::view_res(r) == spec_price_equity_gamma(ctx@, instrument@),
    decreases spec_instrument_rank(instrument@), spec_measure_rank(Measure::Gamma), 0int,
{
    let vcxt = greek_ladder_ctx(ctx);
    let vres = match vcxt.price(Measure::Price, instrument) {
        Ok(v) => v,
        Err(e) => {
            return Err(e);
        },
    };
    proof {
        crate::stackedvectorctx::lemma_upto_len(
            vcxt@,
            Measure::Price,
            instrument@,
            3,
        );
    }
    let view = match vres.resultview_1d() {
        Ok(v) => v,
        Err(e) => {
            return Err(e);
        },
    };
    if view.len() == 3 {
        let vdown = view[0].clone();
        let v = view[1].clone();
        let vup = view[2].clone();
        Ok(gamma_formula(vdown, v, vup))
    } else {
        Err(
            PricerError::ShiftExecutionError {
                ins: instrument.clone(),
                message: String::from_str("unknown scenario dimension"),
            },
        )
    }
}

fn gamma_formula(vdown: Expr, v: Expr, vup: Expr) -> (r: Expr)
    ensures
        r == spec_gamma_expr(vdown, v, vup),
{
    let guard = Expr::IfLt(
        Box::new(
            Expr::Abs(Box::new(Expr::Sub(Box::new(vup.clone()), Box::new(vdown.clone())))),
        ),
        Box::new(Expr::Num(BITS_EPSILON)),
        Box::new(Expr::Num(BITS_ZERO)),
        Box::new(Expr::ZeroPriceFailure),
    );
    let h = Expr::Mul(Box::new(v.clone()), Box::new(Expr::Num(BITS_CENT)));
    let numer = Expr::Add(
        Box::new(
            Expr::Sub(
                Box::new(vup),
                Box::new(Expr::Mul(Box::new(Expr::Num(BITS_TWO)), Box::new(v.clone()))),
            ),
        ),
        Box::new(vdown),
    );
    Expr::IfEq(
        Box::new(v),
        Box::new(Expr::Num(BITS_ZERO)),
        Box::new(guard),
        Box::new(
            Expr::Div(
                Box::new(numer),
                Box::new(Expr::Powf(Box::new(h), Box::new(Expr::Num(BITS_TWO)))),
            ),
        ),
    )
}

pub fn price_generic(ctx: &PricingCtx, measure: Measure, instrument: &Instrument) -> (r: Result<
    Expr,
    PricerError,
>)
    requires
        ctx@.wf(),
        instrument@.wf(),
    ensures
        crate::error::view_res(r) == spec_price_generic(ctx@, measure, instrument@),
    decreases spec_instrument_rank(instrument@), spec_measure_rank(measure), 1int,
{
    match measure {
        Measure::Delta => price_equity_delta(ctx, instrument),
        Measure::Gamma => price_equity_gamma(ctx, instrument),
        _ => Err(PricerError::MissingCalculatorError(measure)),
    }
}

} // verus!

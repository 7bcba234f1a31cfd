//! Measures, scenario axes and the scalar pricing context.
use vstd::prelude::*;
use vstd::string::StringExecFns;

use crate::error::PricerError;
use crate::expr::Expr;
use crate::instrument::{Instrument, InstrumentView};
use crate::lookupctx::{LookupCtx, LookupCtxView};
use crate::marketdataproviders::{
    FixedValuationDatePeriodProvider,
    FixedVolSurface,
    FixedZeroRateProvider,
    SinglePriceProvider,
};
use crate::stackedvectorctx::ShiftedExecutor;
use crate::text::str_eq;
use crate::transform::{ShiftItem, ShiftItemView};

verus! {

/// A named scalar quantity computable from an instrument and a context.
#[derive(Debug, PartialEq, Eq, Structural, Clone, Copy, Hash)]
pub enum Measure {
    Price,
    Exposure,
    UnderlyingPrice,
    Vol,
    Rate,
    TimeToExpiry,
    Delta,
    Gamma,
}

/// How a per-instrument value translates to a per-position value.
#[derive(Debug, PartialEq, Eq, Structural, Clone, Copy)]
pub enum PositionScaling {
    NoScaling,
    Linear,
}

/// The snake_case name of a measure.
pub open spec fn spec_measure_name(m: Measure) -> Seq<char> {
    match m {
        Measure::Price => "price"@,
        Measure::Exposure => "exposure"@,
        Measure::UnderlyingPrice => "underlying_price"@,
        Measure::Vol => "vol"@,
        Measure::Rate => "rate"@,
        Measure::TimeToExpiry => "time_to_expiry"@,
        Measure::Delta => "delta"@,
        Measure::Gamma => "gamma"@,
    }
}

/// What parsing a measure name yields.
pub open spec fn spec_parse_measure(s: Seq<char>) -> Result<
    Measure,
    crate::error::PricerErrorView,
> {
    if s == "price"@ {
        Ok(Measure::Price)
    } else if s == "exposure"@ {
        Ok(Measure::Exposure)
    } else if s == "underlying_price"@ {
        Ok(Measure::UnderlyingPrice)
    } else if s == "vol"@ {
        Ok(Measure::Vol)
    } else if s == "rate"@ {
        Ok(Measure::Rate)
    } else if s == "time_to_expiry"@ {
        Ok(Measure::TimeToExpiry)
    } else if s == "delta"@ {
        Ok(Measure::Delta)
    } else if s == "gamma"@ {
        Ok(Measure::Gamma)
    } else {
        Err(crate::error::PricerErrorView::InvalidMeasureError(s))
    }
}

/// The scaling policy of each measure: exposure scales linearly with the
/// position size, everything else is size-independent.
pub open spec fn spec_position_scaling(m: Measure) -> PositionScaling {
    match m {
        Measure::Exposure => PositionScaling::Linear,
        _ => PositionScaling::NoScaling,
    }
}

impl Measure {
    pub fn parse_measure(s: &str) -> (r: Result<Measure, PricerError>)
        ensures
            crate::error::view_res(r) == spec_parse_measure(s@),
    {
        if str_eq(s, "price") {
            Ok(Measure::Price)
        } else if str_eq(s, "exposure") {
            Ok(Measure::Exposure)
        } else if str_eq(s, "underlying_price") {
            Ok(Measure::UnderlyingPrice)
        } else if str_eq(s, "vol") {
            Ok(Measure::Vol)
        } else if str_eq(s, "rate") {
            Ok(Measure::Rate)
        } else if str_eq(s, "time_to_expiry") {
            Ok(Measure::TimeToExpiry)
        } else if str_eq(s, "delta") {
            Ok(Measure::Delta)
        } else if str_eq(s, "gamma") {
            Ok(Measure::Gamma)
        } else {
            Err(PricerError::InvalidMeasureError(s.to_owned()))
        }
    }

    /// The snake_case name of the measure, as a fresh string.
    pub fn to_string(&self) -> (r: String)
        ensures
            r@ == spec_measure_name(*self),
    {
        match self {
            Measure::Price => String::from_str("price"),
            Measure::Exposure => String::from_str("exposure"),
            Measure::UnderlyingPrice => String::from_str("underlying_price"),
            Measure::Vol => String::from_str("vol"),
            Measure::Rate => String::from_str("rate"),
            Measure::TimeToExpiry => String::from_str("time_to_expiry"),
            Measure::Delta => String::from_str("delta"),
            Measure::Gamma => String::from_str("gamma"),
        }
    }

    pub fn position_scaling(&self) -> (r: PositionScaling)
        ensures
            r == spec_position_scaling(*self),
    {
        match self {
            Measure::Price => PositionScaling::NoScaling,
            Measure::UnderlyingPrice => PositionScaling::NoScaling,
            Measure::Vol => PositionScaling::NoScaling,
            Measure::Rate => PositionScaling::NoScaling,
            Measure::TimeToExpiry => PositionScaling::NoScaling,
            Measure::Delta => PositionScaling::NoScaling,
            Measure::Gamma => PositionScaling::NoScaling,
            Measure::Exposure => PositionScaling::Linear,
        }
    }
}

/// A scenario dimension: an integer identity and a length.
#[derive(Clone, Copy, Debug, PartialEq, Eq, Structural)]
pub struct Axis {
    pub axis_id: usize,
    pub dim: usize,
}

impl Axis {
    pub fn new_base_axis(dim: usize) -> (r: Self)
        ensures
            r == (Axis { axis_id: 0, dim }),
    {
        Axis::new(0, dim)
    }

    pub fn new(axis_id: usize, dim: usize) -> (r: Self)
        ensures
            r == (Axis { axis_id, dim }),
    {
        Self { axis_id, dim }
    }

    pub fn new_from_parent(parent_axis: Axis, dim: usize) -> (r: Self)
        requires
            parent_axis.axis_id < usize::MAX,
        ensures
            r == (Axis { axis_id: (parent_axis.axis_id + 1) as usize, dim }),
    {
        let axis_id = parent_axis.axis_id + 1;
        Axis::new(axis_id, dim)
    }
}


/// A scalar pricing context: either the base lookup context or a
/// shift-processing wrapper around a deeper context.
pub enum PricingCtx {
    LookupExecutor(LookupCtx),
    ShiftedExecutor(ShiftedExecutor),
}

/// The mathematical content of a pricing context: a lookup table at the
/// root, wrapped by any number of shift lists.
pub enum CtxView {
    Lookup(LookupCtxView),
    Shifted(Box<CtxView>, Seq<ShiftItemView>),
}

/// The views of a list of shift items.
pub open spec fn spec_items_view(s: Seq<ShiftItem>) -> Seq<ShiftItemView> {
    Seq::new(s.len(), |i: int| s[i]@)
}

/// The view of a pricing context.
pub open spec fn spec_ctx_view(ctx: PricingCtx) -> CtxView
    decreases ctx,
{
    match ctx {
        PricingCtx::LookupExecutor(lc) => CtxView::Lookup(lc@),
        PricingCtx::ShiftedExecutor(se) => CtxView::Shifted(
            Box::new(spec_ctx_view(*se.base_ctx)),
            spec_items_view(se.shifts@),
        ),
    }
}

impl View for PricingCtx {
    type V = CtxView;

    open spec fn view(&self) -> CtxView {
        spec_ctx_view(*self)
    }
}

impl CtxView {
    /// The valuation date at the root is a calendar date.
    pub open spec fn wf(self) -> bool
        decreases self,
    {
        match self {
            CtxView::Lookup(lc) => lc.valuation_date.wf(),
            CtxView::Shifted(base, _) => base.wf(),
        }
    }
}

/// The market price bits an instrument resolves to, if any: shift wrappers
/// defer to the base context.
pub open spec fn spec_market_price(ctx: CtxView, iv: InstrumentView) -> Option<u64>
    decreases ctx,
{
    match ctx {
        CtxView::Lookup(lc) => crate::lookupctx::spec_lookup(
            lc.prices,
            crate::lookupctx::spec_underlying_ticker(iv),
        ),
        CtxView::Shifted(base, _) => spec_market_price(*base, iv),
    }
}

/// The flat vol bits an instrument resolves to, if any.
pub open spec fn spec_vol(ctx: CtxView, iv: InstrumentView) -> Option<u64>
    decreases ctx,
{
    match ctx {
        CtxView::Lookup(lc) => crate::lookupctx::spec_lookup(
            lc.vols,
            crate::lookupctx::spec_underlying_ticker(iv),
        ),
        CtxView::Shifted(base, _) => spec_vol(*base, iv),
    }
}

/// The valuation date of the base lookup context.
pub open spec fn spec_valuation_date(ctx: CtxView) -> crate::calendar::Date
    decreases ctx,
{
    match ctx {
        CtxView::Lookup(lc) => lc.valuation_date,
        CtxView::Shifted(base, _) => spec_valuation_date(*base),
    }
}

/// Applies the first `k` items of a shift list to a value: each item whose
/// target covers the measure and whose filter accepts the instrument wraps
/// the value with `(1 + rel) * v + abs`, in list order.
pub open spec fn spec_apply_shift_items(
    items: Seq<ShiftItemView>,
    m: Measure,
    iv: InstrumentView,
    e: Expr,
    k: int,
) -> Expr
    decreases k,
{
    if k <= 0 {
        e
    } else {
        let prev = spec_apply_shift_items(items, m, iv, e, k - 1);
        let si = items[k - 1];
        if crate::transform::spec_is_target(si.shift_target, m) && crate::transform::spec_accept(
            si.instrument_filter,
            iv,
        ) {
            crate::expr::spec_shifted(prev, si.rel_shift, si.abs_shift)
        } else {
            prev
        }
    }
}

/// Shift processing: the base context's shifts apply first, then this
/// context's items in insertion order.
pub open spec fn spec_process_shifts(ctx: CtxView, m: Measure, iv: InstrumentView, e: Expr) -> Expr
    decreases ctx,
{
    match ctx {
        CtxView::Lookup(_) => e,
        CtxView::Shifted(base, items) => {
            let inner = spec_process_shifts(*base, m, iv, e);
            spec_apply_shift_items(items, m, iv, inner, items.len() as int)
        },
    }
}

impl PricingCtx {
    /// Runs a freshly computed value through this context's shift pipeline.
    pub fn process_shifts(&self, measure: Measure, instrument: &Instrument, v: Expr) -> (r: Expr)
        ensures
            r == spec_process_shifts(self@, measure, instrument@, v),
        decreases *self,
    {
        match self {
            PricingCtx::LookupExecutor(_) => v,
            PricingCtx::ShiftedExecutor(se) => se.process(measure, instrument, v),
        }
    }

    pub fn vol_provider(&self, instrument: &Instrument) -> (r: Option<FixedVolSurface>)
        ensures
            match spec_vol(self@, instrument@) {
                Some(b) => r == Some(FixedVolSurface { vol: b }),
                None => r is None,
            },
        decreases *self,
    {
        match self {
            PricingCtx::LookupExecutor(le) => le.vol_provider(instrument),
            PricingCtx::ShiftedExecutor(se) => se.base_ctx.vol_provider(instrument),
        }
    }

    pub fn market_price_provider(&self, instrument: &Instrument) -> (r: Option<
        SinglePriceProvider,
    >)
        ensures
            match spec_market_price(self@, instrument@) {
                Some(b) => r == Some(SinglePriceProvider { price: b }),
                None => r is None,
            },
        decreases *self,
    {
        match self {
            PricingCtx::LookupExecutor(le) => le.market_price_provider(instrument),
            PricingCtx::ShiftedExecutor(se) => se.base_ctx.market_price_provider(instrument),
        }
    }

    pub fn ir_provider(&self, instrument: &Instrument) -> (r: Option<FixedZeroRateProvider>)
        ensures
            r == Some(FixedZeroRateProvider),
        decreases *self,
    {
        match self {
            PricingCtx::LookupExecutor(le) => le.ir_provider(instrument),
            PricingCtx::ShiftedExecutor(se) => se.base_ctx.ir_provider(instrument),
        }
    }

    pub fn period_provider(&self, instrument: &Instrument) -> (r: Option<
        FixedValuationDatePeriodProvider,
    >)
        ensures
            r == Some(
                FixedValuationDatePeriodProvider {
                    valuation_date: spec_valuation_date(self@),
                },
            ),
        decreases *self,
    {
        match self {
            PricingCtx::LookupExecutor(le) => le.period_provider(instrument),
            PricingCtx::ShiftedExecutor(se) => se.base_ctx.period_provider(instrument),
        }
    }
}

/// An N-dimensional result tensor: a row-major vector of expressions under
/// a shape.
#[derive(Debug)]
pub struct VectorResult {
    pub shape: Vec<usize>,
    pub values: Vec<Expr>,
}

impl VectorResult {
    pub fn new(shape: Vec<usize>, values: Vec<Expr>) -> (r: Self)
        ensures
            r == (VectorResult { shape, values }),
    {
        Self { shape, values }
    }

    pub fn dimensionality(&self) -> (r: usize)
        ensures
            r == self.shape@.len(),
    {
        self.shape.len()
    }

    /// The flat values when the tensor is one-dimensional, or a shape
    /// error.
    pub fn resultview_1d(&self) -> (r: Result<&Vec<Expr>, PricerError>)
        ensures
            self.shape@.len() == 1 ==> (r matches Ok(v) && v == &self.values),
            self.shape@.len() != 1 ==> (r matches Err(e) && e@
                == crate::error::PricerErrorView::ShapeError(
                "vector result is not 1d. shape "@ + crate::text::spec_decimal(
                    self.shape@.len() as int,
                ),
            )),
    {
        if self.shape.len() == 1 {
            Ok(&self.values)
        } else {
            let mut msg = String::from_str("vector result is not 1d. shape ");
            let n = crate::text::u64_to_string(self.shape.len() as u64);
            msg.append(n.as_str());
            Err(PricerError::ShapeError(msg))
        }
    }

    /// The dimensions when the tensor is two-dimensional (the values stay
    /// row-major in `values`), or a shape error.
    pub fn resultview_2d(&self) -> (r: Result<(usize, usize), PricerError>)
        ensures
            self.shape@.len() == 2 ==> (r matches Ok(d) && d.0 == self.shape@[0] && d.1
                == self.shape@[1]),
            self.shape@.len() != 2 ==> (r matches Err(e) && e@
                == crate::error::PricerErrorView::ShapeError(
                "vector result is not 2d. shape "@ + crate::text::spec_decimal(
                    self.shape@.len() as int,
                ),
            )),
    {
        if self.shape.len() == 2 {
            Ok((self.shape[0], self.shape[1]))
        } else {
            let mut msg = String::from_str("vector result is not 2d. shape ");
            let n = crate::text::u64_to_string(self.shape.len() as u64);
            msg.append(n.as_str());
            Err(PricerError::ShapeError(msg))
        }
    }
}

/// The per-position rescale of a measure value: exposure multiplies by the
/// position size, every other measure by one.
pub open spec fn spec_scale_factor(m: Measure, size: Expr) -> Expr {
    match spec_position_scaling(m) {
        PositionScaling::Linear => size,
        PositionScaling::NoScaling => Expr::Num(crate::expr::BITS_ONE),
    }
}

/// The scaled value: `factor * v`.
pub open spec fn spec_scaled(m: Measure, size: Expr, e: Expr) -> Expr {
    Expr::Mul(Box::new(spec_scale_factor(m, size)), Box::new(e))
}

/// The ordering on measures that makes the pricing recursion well-founded:
/// a measure only recurses into strictly smaller ones on the same
/// instrument, or into any measure on the option's underlying.
pub open spec fn spec_measure_rank(m: Measure) -> int {
    match m {
        Measure::TimeToExpiry => 0,
        Measure::Rate => 1,
        Measure::UnderlyingPrice => 2,
        Measure::Vol => 3,
        Measure::Price => 4,
        Measure::Delta => 5,
        Measure::Gamma => 5,
        Measure::Exposure => 6,
    }
}

/// Options rank above stocks: option measures recurse into underlying-stock
/// measures but never back.
pub open spec fn spec_instrument_rank(iv: InstrumentView) -> int {
    match iv {
        InstrumentView::Stock(_) => 0,
        InstrumentView::Option(_) => 1,
    }
}

/// What pricing a measure yields: the dispatched value, run through the
/// context's shift pipeline.
pub open spec fn spec_price(ctx: CtxView, m: Measure, iv: InstrumentView) -> Result<
    Expr,
    crate::error::PricerErrorView,
>
    decreases spec_instrument_rank(iv), spec_measure_rank(m), 3int, 0int,
{
    match crate::dispatcher::spec_dispatch_measure(ctx, m, iv) {
        Err(e) => Err(e),
        Ok(v) => Ok(spec_process_shifts(ctx, m, iv, v)),
    }
}

impl PricingCtx {
    /// Evaluates a measure for a whole position: the instrument value,
    /// rescaled by the position size under the measure's scaling policy.
    pub fn price_position(&self, measure: Measure, position: &crate::portfolio::Position) -> (r:
        Result<Expr, PricerError>)
        requires
            self@.wf(),
            position.instrument@.wf(),
        ensures
            crate::error::view_res(r) == match spec_price(
                self@,
                measure,
                position.instrument@,
            ) {
                Ok(e) => Ok::<Expr, crate::error::PricerErrorView>(
                    spec_scaled(measure, position.size, e),
                ),
                Err(e) => Err(e),
            },
    {
        let v = match self.price(measure, &position.instrument) {
            Ok(v) => v,
            Err(e) => {
                return Err(e);
            },
        };
        let position_scaler = crate::positioncalculator::PositionScaler::new(measure, position);
        Ok(position_scaler.scale(v))
    }

    /// Evaluates a measure on an instrument through this context.
    pub fn price(&self, measure: Measure, instrument: &Instrument) -> (r: Result<
        Expr,
        PricerError,
    >)
        requires
            self@.wf(),
            instrument@.wf(),
        ensures
            crate::error::view_res(r) == spec_price(self@, measure, instrument@),
        decreases spec_instrument_rank(instrument@), spec_measure_rank(measure), 3int,
    {
        let v = match crate::dispatcher::dispatch_measure(self, measure, instrument) {
            Ok(v) => v,
            Err(e) => {
                return Err(e);
            },
        };
        Ok(self.process_shifts(measure, instrument, v))
    }
}

impl Clone for PricingCtx {
    fn clone(&self) -> (r: PricingCtx)
        ensures
            r@ == self@,
        decreases *self,
    {
        match self {
            PricingCtx::LookupExecutor(lc) => PricingCtx::LookupExecutor(lc.clone()),
            PricingCtx::ShiftedExecutor(se) => PricingCtx::ShiftedExecutor(se.clone()),
        }
    }
}

} // verus!

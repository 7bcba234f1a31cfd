//! Scenario transforms: instrument filters, shift targets and shift
//! definitions along one axis.
use vstd::prelude::*;
use vstd::string::StringExecFns;

use crate::error::PricerError;
use crate::instrument::{Instrument, InstrumentView, Ticker};
use crate::pricingctx::Measure;
use crate::text::str_eq;

verus! {

/// The risk-factor classification of instruments.
#[derive(Debug, PartialEq, Eq, Structural, Clone, Copy, Hash)]
pub enum RiskFactor {
    Equity,
}

/// What parsing a risk-factor name yields.
pub open spec fn spec_parse_risk_factor(s: Seq<char>) -> Result<
    RiskFactor,
    crate::error::PricerErrorView,
> {
    if s == "equity"@ {
        Ok(RiskFactor::Equity)
    } else {
        Err(crate::error::PricerErrorView::InvalidRiskFactorError(s))
    }
}

impl RiskFactor {
    pub fn parse_risk_factor(s: &str) -> (r: Result<RiskFactor, PricerError>)
        ensures
            crate::error::view_res(r) == spec_parse_risk_factor(s@),
    {
        if str_eq(s, "equity") {
            Ok(RiskFactor::Equity)
        } else {
            Err(PricerError::InvalidRiskFactorError(s.to_owned()))
        }
    }
}

/// Which instruments a shift applies to.
pub enum InstrumentFilter {
    Passthrough,
    TickerFilter(Ticker),
    RiskFactorFilter(RiskFactor),
}

/// The mathematical content of an instrument filter.
pub enum InstrumentFilterView {
    Passthrough,
    TickerFilter(Seq<char>),
    RiskFactorFilter(RiskFactor),
}

impl View for InstrumentFilter {
    type V = InstrumentFilterView;

    open spec fn view(&self) -> InstrumentFilterView {
        match self {
            InstrumentFilter::Passthrough => InstrumentFilterView::Passthrough,
            InstrumentFilter::TickerFilter(t) => InstrumentFilterView::TickerFilter(t@),
            InstrumentFilter::RiskFactorFilter(rf) => InstrumentFilterView::RiskFactorFilter(*rf),
        }
    }
}

impl Clone for InstrumentFilter {
    fn clone(&self) -> (r: InstrumentFilter)
        ensures
            r@ == self@,
    {
        match self {
            InstrumentFilter::Passthrough => InstrumentFilter::Passthrough,
            InstrumentFilter::TickerFilter(t) => InstrumentFilter::TickerFilter(t.clone()),
            InstrumentFilter::RiskFactorFilter(rf) => InstrumentFilter::RiskFactorFilter(*rf),
        }
    }
}

/// Whether a filter accepts an instrument.  A ticker filter matches stock
/// variants only: an option is not matched even when its underlying carries
/// the ticker — risk-factor filtering serves that purpose.
pub open spec fn spec_accept(f: InstrumentFilterView, i: InstrumentView) -> bool {
    match f {
        InstrumentFilterView::Passthrough => true,
        InstrumentFilterView::TickerFilter(t) => match i {
            InstrumentView::Stock(s) => s == t,
            _ => false,
        },
        InstrumentFilterView::RiskFactorFilter(rf) => match rf {
            RiskFactor::Equity => i matches InstrumentView::Stock(_),
        },
    }
}

impl InstrumentFilter {
    pub fn accept(&self, instrument: &Instrument) -> (r: bool)
        ensures
            r == spec_accept(self@, instrument@),
    {
        match self {
            InstrumentFilter::TickerFilter(ticker) => match instrument {
                Instrument::Stock(s) => s.ticker == *ticker,
                _ => false,
            },
            InstrumentFilter::Passthrough => true,
            InstrumentFilter::RiskFactorFilter(rf) => match rf {
                RiskFactor::Equity => matches!(instrument, Instrument::Stock(_)),
            },
        }
    }
}

/// The measures a shift applies to.
pub enum ShiftTarget {
    SingleMeasureTarget(Measure),
    MultiTarget(Vec<Measure>),
}

/// The mathematical content of a shift target.
pub enum ShiftTargetView {
    SingleMeasureTarget(Measure),
    MultiTarget(Seq<Measure>),
}

impl View for ShiftTarget {
    type V = ShiftTargetView;

    open spec fn view(&self) -> ShiftTargetView {
        match self {
            ShiftTarget::SingleMeasureTarget(m) => ShiftTargetView::SingleMeasureTarget(*m),
            ShiftTarget::MultiTarget(ms) => ShiftTargetView::MultiTarget(ms@),
        }
    }
}

impl Clone for ShiftTarget {
    fn clone(&self) -> (r: ShiftTarget)
        ensures
            r@ == self@,
    {
        match self {
            ShiftTarget::SingleMeasureTarget(m) => ShiftTarget::SingleMeasureTarget(*m),
            ShiftTarget::MultiTarget(ms) => {
                let mut c: Vec<Measure> = Vec::new();
                let mut k: usize = 0;
                while k < ms.len()
                    invariant
                        0 <= k <= ms@.len(),
                        c@ =~= ms@.take(k as int),
                    decreases ms@.len() - k,
                {
                    c.push(ms[k]);
                    k += 1;
                }
                assert(c@ =~= ms@);
                ShiftTarget::MultiTarget(c)
            },
        }
    }
}

/// Whether a target covers a measure.
pub open spec fn spec_is_target(t: ShiftTargetView, m: Measure) -> bool {
    match t {
        ShiftTargetView::SingleMeasureTarget(tm) => tm == m,
        ShiftTargetView::MultiTarget(tms) => tms.contains(m),
    }
}

impl ShiftTarget {
    pub fn is_target(&self, m: Measure) -> (r: bool)
        ensures
            r == spec_is_target(self@, m),
    {
        match self {
            ShiftTarget::SingleMeasureTarget(tm) => *tm == m,
            ShiftTarget::MultiTarget(tms) => {
                let mut k: usize = 0;
                while k < tms.len()
                    invariant
                        0 <= k <= tms@.len(),
                        forall|j: int| 0 <= j < k ==> tms@[j] != m,
                        self@ == ShiftTargetView::MultiTarget(tms@),
                    decreases tms@.len() - k,
                {
                    if tms[k] == m {
                        assert(tms@.contains(m));
                        return true;
                    }
                    k += 1;
                }
                assert(forall|j: int| 0 <= j < tms@.len() ==> tms@[j] != m);
                false
            },
        }
    }
}

/// One shift for one scenario coordinate: filter, target and the relative
/// and absolute components as double bit patterns.
pub struct ShiftItem {
    pub instrument_filter: InstrumentFilter,
    pub shift_target: ShiftTarget,
    pub rel_shift: u64,
    pub abs_shift: u64,
}

/// The mathematical content of a shift item.
pub struct ShiftItemView {
    pub instrument_filter: InstrumentFilterView,
    pub shift_target: ShiftTargetView,
    pub rel_shift: u64,
    pub abs_shift: u64,
}

impl View for ShiftItem {
    type V = ShiftItemView;

    open spec fn view(&self) -> ShiftItemView {
        ShiftItemView {
            instrument_filter: self.instrument_filter@,
            shift_target: self.shift_target@,
            rel_shift: self.rel_shift,
            abs_shift: self.abs_shift,
        }
    }
}

impl DeepView for ShiftItem {
    type V = ShiftItemView;

    open spec fn deep_view(&self) -> ShiftItemView {
        self@
    }
}

impl ShiftItem {
    pub fn new(
        instrument_filter: &InstrumentFilter,
        shift_target: &ShiftTarget,
        rel_shift: u64,
        abs_shift: u64,
    ) -> (r: Self)
        ensures
            r@ == (ShiftItemView {
                instrument_filter: instrument_filter@,
                shift_target: shift_target@,
                rel_shift,
                abs_shift,
            }),
    {
        Self {
            instrument_filter: instrument_filter.clone(),
            shift_target: shift_target.clone(),
            rel_shift,
            abs_shift,
        }
    }
}

/// A filter with parallel vectors of relative and absolute shifts.
pub struct ShiftDefinition {
    pub instrument_filter: InstrumentFilter,
    pub rel_shifts: Vec<u64>,
    pub abs_shifts: Vec<u64>,
}

impl ShiftDefinition {
    pub fn new(
        instrument_filter: InstrumentFilter,
        rel_shifts: Vec<u64>,
        abs_shifts: Vec<u64>,
    ) -> (r: Result<Self, PricerError>)
        ensures
            rel_shifts@.len() != abs_shifts@.len() ==> (r matches Err(e) && e@
                == crate::error::PricerErrorView::InvalidScenario(
                "abs and rel shift lengths differ!"@,
            )),
            rel_shifts@.len() == abs_shifts@.len() ==> (r matches Ok(sd) && sd
                == (ShiftDefinition { instrument_filter, rel_shifts, abs_shifts })),
    {
        if rel_shifts.len() != abs_shifts.len() {
            return Err(
                PricerError::InvalidScenario(
                    String::from_str("abs and rel shift lengths differ!"),
                ),
            );
        }
        Ok(Self { instrument_filter, rel_shifts, abs_shifts })
    }

    pub fn len(&self) -> (r: usize)
        ensures
            r == self.rel_shifts@.len(),
    {
        self.rel_shifts.len()
    }
}

/// A shift definition together with the measures it targets.
pub struct TransformDefinition {
    pub shift_target: ShiftTarget,
    pub shift_definition: ShiftDefinition,
}

/// The mathematical content of a transform definition.
pub struct TransformDefView {
    pub target: ShiftTargetView,
    pub filter: InstrumentFilterView,
    pub rels: Seq<u64>,
    pub abss: Seq<u64>,
}

impl View for TransformDefinition {
    type V = TransformDefView;

    open spec fn view(&self) -> TransformDefView {
        TransformDefView {
            target: self.shift_target@,
            filter: self.shift_definition.instrument_filter@,
            rels: self.shift_definition.rel_shifts@,
            abss: self.shift_definition.abs_shifts@,
        }
    }
}

/// The shift item a transform contributes at a coordinate, or the
/// out-of-range error.
pub open spec fn spec_shift_item_at(td: TransformDefView, i: int) -> Result<
    ShiftItemView,
    crate::error::PricerErrorView,
> {
    if i >= td.rels.len() {
        Err(
            crate::error::PricerErrorView::InvalidScenario(
                "accessing shift definition outside bounds"@,
            ),
        )
    } else {
        Ok(
            ShiftItemView {
                instrument_filter: td.filter,
                shift_target: td.target,
                rel_shift: td.rels[i],
                abs_shift: td.abss[i],
            },
        )
    }
}

impl Clone for TransformDefinition {
    fn clone(&self) -> (r: TransformDefinition)
        ensures
            r@ == self@,
    {
        TransformDefinition {
            shift_target: self.shift_target.clone(),
            shift_definition: ShiftDefinition {
                instrument_filter: self.shift_definition.instrument_filter.clone(),
                rel_shifts: crate::copy_vec(&self.shift_definition.rel_shifts),
                abs_shifts: crate::copy_vec(&self.shift_definition.abs_shifts),
            },
        }
    }
}

impl TransformDefinition {
    /// The definition is coherent: the parallel shift vectors agree in
    /// length.
    pub open spec fn wf(&self) -> bool {
        self.shift_definition.rel_shifts@.len() == self.shift_definition.abs_shifts@.len()
    }

    pub fn len(&self) -> (r: usize)
        ensures
            r == self.shift_definition.rel_shifts@.len(),
    {
        self.shift_definition.len()
    }

    pub fn is_empty(&self) -> (r: bool)
        ensures
            r == (self.shift_definition.rel_shifts@.len() == 0),
    {
        self.len() == 0
    }

    pub fn new_scalar_measure_transform(
        target: Measure,
        filter: InstrumentFilter,
        abs_shift: u64,
        rel_shift: u64,
    ) -> (r: Result<TransformDefinition, PricerError>)
        ensures
            r matches Ok(td) && {
                &&& td.wf()
                &&& td.shift_target@ == ShiftTargetView::SingleMeasureTarget(target)
                &&& td.shift_definition.instrument_filter@ == filter@
                &&& td.shift_definition.rel_shifts@ == seq![rel_shift]
                &&& td.shift_definition.abs_shifts@ == seq![abs_shift]
            },
    {
        let rel_shifts = vec![rel_shift];
        let abs_shifts = vec![abs_shift];
        assert(rel_shifts@ =~= seq![rel_shift]);
        assert(abs_shifts@ =~= seq![abs_shift]);
        let shift_definition = match ShiftDefinition::new(filter, rel_shifts, abs_shifts) {
            Ok(sd) => sd,
            Err(e) => {
                return Err(e);
            },
        };
        let shift_target = ShiftTarget::SingleMeasureTarget(target);
        let td = TransformDefinition { shift_target, shift_definition };
        Ok(td)
    }

    pub fn new_vector_measure_transform(
        target: Measure,
        filter: InstrumentFilter,
        abs_shifts: Vec<u64>,
        rel_shifts: Vec<u64>,
    ) -> (r: Result<TransformDefinition, PricerError>)
        ensures
            rel_shifts@.len() != abs_shifts@.len() ==> (r matches Err(e) && e@
                == crate::error::PricerErrorView::InvalidScenario(
                "abs and rel shift lengths differ!"@,
            )),
            rel_shifts@.len() == abs_shifts@.len() ==> (r matches Ok(td) && {
                &&& td.wf()
                &&& td.shift_target@ == ShiftTargetView::SingleMeasureTarget(target)
                &&& td.shift_definition.instrument_filter@ == filter@
                &&& td.shift_definition.rel_shifts@ == rel_shifts@
                &&& td.shift_definition.abs_shifts@ == abs_shifts@
            }),
    {
        let shift_definition = match ShiftDefinition::new(filter, rel_shifts, abs_shifts) {
            Ok(sd) => sd,
            Err(e) => {
                return Err(e);
            },
        };
        let shift_target = ShiftTarget::SingleMeasureTarget(target);
        let td = TransformDefinition { shift_target, shift_definition };
        Ok(td)
    }

    pub fn shift_item_at(&self, i: usize) -> (r: Result<ShiftItem, PricerError>)
        requires
            self.wf(),
        ensures
            crate::error::deep_view_res(r) == spec_shift_item_at(self@, i as int),
    {
        if i >= self.shift_definition.len() {
            return Err(
                PricerError::InvalidScenario(
                    String::from_str("accessing shift definition outside bounds"),
                ),
            );
        }
        let abs_shift = self.shift_definition.abs_shifts[i];
        let rel_shift = self.shift_definition.rel_shifts[i];
        let si = ShiftItem::new(
            &self.shift_definition.instrument_filter,
            &self.shift_target,
            rel_shift,
            abs_shift,
        );
        Ok(si)
    }
}

/// How a further transform composes with a stacked context.
#[derive(Debug, Clone, Copy)]
pub enum TransformAlignment {
    Stacked,
    Orthogonal,
}

} // verus!

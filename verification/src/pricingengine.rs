//! The engine surface the surrounding driver talks to: dated market-data
//! observations, scenario definitions, and portfolio-wide pricing calls.
use vstd::prelude::*;

use crate::calendar::Date;
use crate::error::{PricerError, PricerErrorView};
use crate::expr::Expr;
use crate::instrument::Ticker;
use crate::lookupctx::{spec_pairs, LookupCtx, LookupCtxView};
use crate::pricingctx::{
    spec_measure_name,
    spec_parse_measure,
    spec_price,
    spec_scaled,
    Axis,
    CtxView,
    Measure,
    PricingCtx,
    VectorResult,
};
use crate::portfolio::{Portfolio, Position, PositionId};
use crate::stackedvectorctx::{
    spec_new_stacked,
    spec_stacked_upto,
    spec_total,
    StackedCtxView,
    StackedVectorizedPricingCtx,
};
use crate::transform::{
    InstrumentFilter,
    InstrumentFilterView,
    RiskFactor,
    TransformAlignment,
    TransformDefView,
    TransformDefinition,
};

verus! {

/// One date's market snapshot: ticker-keyed spot and vol tables.
#[derive(Debug)]
pub struct MarketDataObservation {
    pub market_prices: Vec<(Ticker, u64)>,
    pub vols: Vec<(Ticker, u64)>,
}

impl MarketDataObservation {
    pub fn new() -> (r: Self)
        ensures
            r.market_prices@ == Seq::<(Ticker, u64)>::empty(),
            r.vols@ == Seq::<(Ticker, u64)>::empty(),
    {
        Self { market_prices: Vec::new(), vols: Vec::new() }
    }
}

/// The base context a snapshot induces at a valuation date.
pub open spec fn spec_obs_ctx(obs: MarketDataObservation, date: Date) -> CtxView {
    CtxView::Lookup(
        LookupCtxView {
            vols: spec_pairs(obs.vols@),
            prices: spec_pairs(obs.market_prices@),
            valuation_date: date,
        },
    )
}

/// The index of a date among observations, if present.
pub open spec fn spec_find_date(s: Seq<(Date, MarketDataObservation)>, d: Date) -> Option<int>
    decreases s.len(),
{
    if s.len() == 0 {
        None
    } else if s.first().0 == d {
        Some(0)
    } else {
        match spec_find_date(s.drop_first(), d) {
            None => None,
            Some(i) => Some(i + 1),
        }
    }
}

/// Market snapshots keyed by observation date.
#[derive(Debug)]
pub struct MarketData {
    pub observations: Vec<(Date, MarketDataObservation)>,
}

impl MarketData {
    pub fn new() -> (r: Self)
        ensures
            r.observations@ == Seq::<(Date, MarketDataObservation)>::empty(),
    {
        Self { observations: Vec::new() }
    }

    fn find_date(&self, date: Date) -> (r: Option<usize>)
        ensures
            match spec_find_date(self.observations@, date) {
                Some(i) => r matches Some(k) && k == i && 0 <= i < self.observations@.len()
                    && self.observations@[i].0 == date,
                None => r is None,
            },
    {
        let mut k: usize = 0;
        while k < self.observations.len()
            invariant
                0 <= k <= self.observations@.len(),
                forall|j: int| 0 <= j < k ==> self.observations@[j].0 != date,
            decreases self.observations@.len() - k,
        {
            if self.observations[k].0 == date {
                proof {
                    lemma_find_date_at(self.observations@, date, k as int);
                }
                return Some(k);
            }
            k += 1;
        }
        proof {
            lemma_find_date_none(self.observations@, date);
        }
        None
    }

    /// Loads one market-data row: the spot and vol of a ticker on a date.
    /// A new date opens a new observation; within a date, a later row for
    /// the same ticker wins.
    pub fn load_market_data_row(&mut self, date: Date, ticker: Ticker, spot: u64, vol: u64)
        ensures
            match spec_find_date(old(self).observations@, date) {
                Some(i) => {
                    &&& final(self).observations@.len() == old(self).observations@.len()
                    &&& forall|j: int| #![all_triggers] 0 <= j < old(self).observations@.len()
                        && j != i ==> final(self).observations@[j] == old(self).observations@[j]
                    &&& final(self).observations@[i].0 == date
                    &&& final(self).observations@[i].1.market_prices@ == old(
                        self,
                    ).observations@[i].1.market_prices@.push((ticker, spot))
                    &&& final(self).observations@[i].1.vols@ == old(
                        self,
                    ).observations@[i].1.vols@.push((ticker, vol))
                },
                None => {
                    &&& final(self).observations@.len() == old(self).observations@.len() + 1
                    &&& forall|j: int| #![all_triggers] 0 <= j < old(self).observations@.len()
                        ==> final(self).observations@[j] == old(self).observations@[j]
                    &&& final(self).observations@.last().0 == date
                    &&& final(self).observations@.last().1.market_prices@ == seq![
                        (ticker, spot),
                    ]
                    &&& final(self).observations@.last().1.vols@ == seq![(ticker, vol)]
                },
            },
    {
        match self.find_date(date) {
            Some(idx) => {
                // swap the stored observation out, extend it, and swap it back
                let ghost before = self.observations@;
                let mut entry = (Date::from_ymd(1, 1, 1), MarketDataObservation::new());
                vstd::pervasive::VecAdditionalExecFns::set_and_swap(
                    &mut self.observations,
                    idx,
                    &mut entry,
                );
                entry.1.market_prices.push((ticker.clone(), spot));
                entry.1.vols.push((ticker, vol));
                let ghost modified = entry;
                vstd::pervasive::VecAdditionalExecFns::set_and_swap(
                    &mut self.observations,
                    idx,
                    &mut entry,
                );
                proof {
                    assert(self.observations@ =~= before.update(idx as int, modified));
                }
            },
            None => {
                let mut obs = MarketDataObservation::new();
                obs.market_prices.push((ticker.clone(), spot));
                obs.vols.push((ticker, vol));
                proof {
                    assert(obs.market_prices@ =~= seq![(ticker, spot)]);
                    assert(obs.vols@ =~= seq![(ticker, vol)]);
                }
                self.observations.push((date, obs));
            },
        }
    }

    /// The observation for a date, if any.
    pub fn get(&self, date: Date) -> (r: Option<&MarketDataObservation>)
        ensures
            match spec_find_date(self.observations@, date) {
                Some(i) => r matches Some(o) && 0 <= i < self.observations@.len() && *o
                    == self.observations@[i].1,
                None => r is None,
            },
    {
        match self.find_date(date) {
            Some(idx) => Some(&self.observations[idx].1),
            None => None,
        }
    }
}

/// A match at index `k`, with no earlier match, is what the search finds.
proof fn lemma_find_date_at(s: Seq<(Date, MarketDataObservation)>, d: Date, k: int)
    requires
        0 <= k < s.len(),
        s[k].0 == d,
        forall|j: int| 0 <= j < k ==> s[j].0 != d,
    ensures
        spec_find_date(s, d) == Some(k),
    decreases s.len(),
{
    if k > 0 {
        assert(forall|j: int| 0 <= j < k - 1 ==> s.drop_first()[j] == s[j + 1]);
        lemma_find_date_at(s.drop_first(), d, k - 1);
    }
}

/// No match anywhere means the search fails.
proof fn lemma_find_date_none(s: Seq<(Date, MarketDataObservation)>, d: Date)
    requires
        forall|j: int| 0 <= j < s.len() ==> s[j].0 != d,
    ensures
        spec_find_date(s, d) is None,
    decreases s.len(),
{
    if s.len() > 0 {
        lemma_find_date_none(s.drop_first(), d);
    }
}


/// An engine-level failure: a missing snapshot, an empty scenario, or a
/// pricing failure.
#[derive(Debug)]
pub enum EngineError {
    NoMarketData(Date),
    NoShifts,
    Pricer(PricerError),
}

/// The mathematical content of an engine error.
pub enum EngineErrorView {
    NoMarketData(Date),
    NoShifts,
    Pricer(PricerErrorView),
}

impl View for EngineError {
    type V = EngineErrorView;

    open spec fn view(&self) -> EngineErrorView {
        match self {
            EngineError::NoMarketData(d) => EngineErrorView::NoMarketData(*d),
            EngineError::NoShifts => EngineErrorView::NoShifts,
            EngineError::Pricer(e) => EngineErrorView::Pricer(e@),
        }
    }
}

/// A named instrument filter, as the driver builds it.
pub struct FilterDef {
    pub filter: InstrumentFilter,
}

impl FilterDef {
    /// Builds a filter from its kind name and criterion.  An unknown kind
    /// yields `None`, for the driver to report in its own terms.
    pub fn new(filter_kind: &str, criteria: &str) -> (r: Result<Option<FilterDef>, PricerError>)
        ensures
            filter_kind@ == "risk_factor_filter"@ ==> (match crate::transform::spec_parse_risk_factor(
                criteria@,
            ) {
                Ok(rf) => r matches Ok(f) && f matches Some(fd) && fd.filter@
                    == InstrumentFilterView::RiskFactorFilter(rf),
                Err(e) => r matches Err(pe) && pe@ == e,
            }),
            filter_kind@ == "ticker_filter"@ ==> (r matches Ok(f) && f matches Some(fd)
                && fd.filter@ == InstrumentFilterView::TickerFilter(criteria@)),
            filter_kind@ != "risk_factor_filter"@ && filter_kind@ != "ticker_filter"@ ==> (r
                matches Ok(f) && f is None),
    {
        proof {
            reveal_strlit("risk_factor_filter");
            reveal_strlit("ticker_filter");
            assert("risk_factor_filter"@.len() == 18);
            assert("ticker_filter"@.len() == 13);
        }
        if crate::text::str_eq(filter_kind, "risk_factor_filter") {
            let rf = match RiskFactor::parse_risk_factor(criteria) {
                Ok(rf) => rf,
                Err(e) => {
                    return Err(e);
                },
            };
            Ok(Some(FilterDef { filter: InstrumentFilter::RiskFactorFilter(rf) }))
        } else if crate::text::str_eq(filter_kind, "ticker_filter") {
            let t = Ticker(criteria.to_owned());
            Ok(Some(FilterDef { filter: InstrumentFilter::TickerFilter(t) }))
        } else {
            Ok(None)
        }
    }

    pub fn new_passthrough() -> (r: Self)
        ensures
            r.filter@ == InstrumentFilterView::Passthrough,
    {
        Self { filter: InstrumentFilter::Passthrough }
    }
}

/// One scenario transform, as the driver states it: a target measure, a
/// filter, and the parallel shift vectors as double bit patterns.
pub struct ScenarioShift {
    pub target_measure: Measure,
    pub filter_def: FilterDef,
    pub abs_shifts: Vec<u64>,
    pub rel_shifts: Vec<u64>,
}

impl ScenarioShift {
    pub fn new(
        target_measure: &str,
        filter_def: FilterDef,
        abs_shifts: Vec<u64>,
        rel_shifts: Vec<u64>,
    ) -> (r: Result<Self, PricerError>)
        ensures
            match spec_parse_measure(target_measure@) {
                Ok(m) => r matches Ok(ss) && ss.target_measure == m && ss.filter_def.filter@
                    == filter_def.filter@ && ss.abs_shifts@ == abs_shifts@ && ss.rel_shifts@
                    == rel_shifts@,
                Err(e) => r matches Err(pe) && pe@ == e,
            },
    {
        let tm = match Measure::parse_measure(target_measure) {
            Ok(m) => m,
            Err(e) => {
                return Err(e);
            },
        };
        Ok(Self { target_measure: tm, filter_def, abs_shifts, rel_shifts })
    }
}

/// An ordered list of scenario transforms; the flag beside each transform
/// chooses orthogonal (true) or stacked (false) composition.
pub struct ScenarioDefinition {
    pub shifts: Vec<(ScenarioShift, bool)>,
}

impl ScenarioDefinition {
    pub fn new(shifts: Vec<(ScenarioShift, bool)>) -> (r: Self)
        ensures
            r.shifts == shifts,
    {
        Self { shifts }
    }
}

/// The transform a scenario shift induces.
pub open spec fn spec_shift_td(ss: ScenarioShift) -> TransformDefView {
    TransformDefView {
        target: crate::transform::ShiftTargetView::SingleMeasureTarget(ss.target_measure),
        filter: ss.filter_def.filter@,
        rels: ss.rel_shifts@,
        abss: ss.abs_shifts@,
    }
}

/// The stacked context the first `k` scenario shifts compose to (`k ≥ 1`):
/// the first shift wraps the base, each further shift opens a new axis when
/// orthogonal and reuses the previous axis when stacked.  Mismatched shift
/// vectors fail.
pub open spec fn spec_scenario_fold(
    base: CtxView,
    shifts: Seq<(ScenarioShift, bool)>,
    k: int,
) -> Result<StackedCtxView, PricerErrorView>
    decreases k,
{
    if k <= 1 {
        let ss = shifts[0].0;
        if ss.rel_shifts@.len() != ss.abs_shifts@.len() {
            Err(PricerErrorView::InvalidScenario("abs and rel shift lengths differ!"@))
        } else {
            Ok(
                spec_new_stacked(
                    Axis { axis_id: 0, dim: ss.rel_shifts@.len() as usize },
                    base,
                    None,
                    spec_shift_td(ss),
                ),
            )
        }
    } else {
        match spec_scenario_fold(base, shifts, k - 1) {
            Err(e) => Err(e),
            Ok(prev) => {
                let ss = shifts[k - 1].0;
                if ss.rel_shifts@.len() != ss.abs_shifts@.len() {
                    Err(
                        PricerErrorView::InvalidScenario(
                            "abs and rel shift lengths differ!"@,
                        ),
                    )
                } else {
                    let axis = if shifts[k - 1].1 {
                        Axis {
                            axis_id: (prev.axis.axis_id + 1) as usize,
                            dim: ss.rel_shifts@.len() as usize,
                        }
                    } else {
                        prev.axis
                    };
                    Ok(spec_new_stacked(axis, base, Some(prev), spec_shift_td(ss)))
                }
            },
        }
    }
}

/// A failing prefix decides the whole scenario fold.
proof fn lemma_fold_extend_err(
    base: CtxView,
    shifts: Seq<(ScenarioShift, bool)>,
    k: int,
    n: int,
)
    requires
        1 <= k <= n,
        spec_scenario_fold(base, shifts, k) is Err,
    ensures
        spec_scenario_fold(base, shifts, n) == spec_scenario_fold(base, shifts, k),
    decreases n,
{
    if k < n {
        lemma_fold_extend_err(base, shifts, k, n - 1);
    }
}

/// Builds the stacked context for a scenario over the snapshot of the
/// valuation date.
pub fn make_vector_ctx(
    valuation_date: Date,
    marketdata: &MarketData,
    scenario_def: &ScenarioDefinition,
) -> (r: Result<StackedVectorizedPricingCtx, EngineError>)
    requires
        valuation_date.wf(),
    ensures
        match spec_find_date(marketdata.observations@, valuation_date) {
            None => r matches Err(e) && e@ == EngineErrorView::NoMarketData(valuation_date),
            Some(i) => {
                let base = spec_obs_ctx(marketdata.observations@[i].1, valuation_date);
                if scenario_def.shifts@.len() == 0 {
                    r matches Err(e) && e@ == EngineErrorView::NoShifts
                } else {
                    match spec_scenario_fold(
                        base,
                        scenario_def.shifts@,
                        scenario_def.shifts@.len() as int,
                    ) {
                        Ok(sv) => r matches Ok(c) && c@ == sv && c@.wf(),
                        Err(pe) => r matches Err(e) && e@ == EngineErrorView::Pricer(pe),
                    }
                }
            },
        },
{
    let obs = match marketdata.get(valuation_date) {
        Some(o) => o,
        None => {
            return Err(EngineError::NoMarketData(valuation_date));
        },
    };
    let pctx = LookupCtx::new_from_prices_and_vols(
        valuation_date,
        &obs.market_prices,
        &obs.vols,
    );
    let ghost base = pctx@;
    let ghost shifts = scenario_def.shifts@;
    let mut vctx: Option<StackedVectorizedPricingCtx> = None;
    let mut k: usize = 0;
    while k < scenario_def.shifts.len()
        invariant
            0 <= k <= shifts.len(),
            shifts == scenario_def.shifts@,
            base == pctx@,
            pctx@.wf(),
            k == 0 ==> vctx is None,
            k > 0 ==> (vctx matches Some(c) && spec_scenario_fold(base, shifts, k as int)
                == Ok::<StackedCtxView, PricerErrorView>(c@) && c@.wf() && c@.base == base
                && c@.axis.axis_id < k),
            spec_find_date(marketdata.observations@, valuation_date) matches Some(i) && 0 <= i
                < marketdata.observations@.len() && base == spec_obs_ctx(
                marketdata.observations@[i].1,
                valuation_date,
            ),
        decreases shifts.len() - k,
    {
        let ss = &scenario_def.shifts[k].0;
        let is_ortho = scenario_def.shifts[k].1;
        let td = match TransformDefinition::new_vector_measure_transform(
            ss.target_measure,
            ss.filter_def.filter.clone(),
            crate::copy_vec(&ss.abs_shifts),
            crate::copy_vec(&ss.rel_shifts),
        ) {
            Ok(td) => td,
            Err(e) => {
                proof {
                    lemma_fold_extend_err(base, shifts, k as int + 1, shifts.len() as int);
                }
                return Err(EngineError::Pricer(e));
            },
        };
        match &vctx {
            Some(vc) => {
                let alignment = if is_ortho {
                    TransformAlignment::Orthogonal
                } else {
                    TransformAlignment::Stacked
                };
                let next = StackedVectorizedPricingCtx::shift_vector_ctx(vc, td, alignment);
                vctx = Some(next);
            },
            None => {
                let next = StackedVectorizedPricingCtx::shift_base_ctx(&pctx, td);
                vctx = Some(next);
            },
        }
        k += 1;
    }
    match vctx {
        Some(vc) => Ok(vc),
        None => Err(EngineError::NoShifts),
    }
}

/// One row of a scalar pricing table.
#[derive(Debug)]
pub struct PriceRow {
    pub trade_id: String,
    pub measure: String,
    pub value: Expr,
}

/// The mathematical content of a pricing row.
pub struct PriceRowView {
    pub trade_id: Seq<char>,
    pub measure: Seq<char>,
    pub value: Expr,
}

impl View for PriceRow {
    type V = PriceRowView;

    open spec fn view(&self) -> PriceRowView {
        PriceRowView { trade_id: self.trade_id@, measure: self.measure@, value: self.value }
    }
}

/// The views of the measure names handed to the engine.
pub open spec fn spec_name_views(names: Seq<String>) -> Seq<Seq<char>> {
    Seq::new(names.len(), |i: int| names[i]@)
}

/// What parsing the first `k` measure names yields; the first failure
/// aborts.
pub open spec fn spec_parse_measures(names: Seq<Seq<char>>, k: int) -> Result<
    Seq<Measure>,
    PricerErrorView,
>
    decreases k,
{
    if k <= 0 {
        Ok(Seq::empty())
    } else {
        match spec_parse_measures(names, k - 1) {
            Err(e) => Err(e),
            Ok(pre) => match spec_parse_measure(names[k - 1]) {
                Err(e) => Err(e),
                Ok(m) => Ok(pre.push(m)),
            },
        }
    }
}

/// A failing prefix decides the whole measure parse.
proof fn lemma_parse_measures_extend_err(names: Seq<Seq<char>>, k: int, n: int)
    requires
        0 <= k <= n,
        spec_parse_measures(names, k) is Err,
    ensures
        spec_parse_measures(names, n) == spec_parse_measures(names, k),
    decreases n,
{
    if k < n {
        lemma_parse_measures_extend_err(names, k, n - 1);
    }
}

fn parse_measures(measures: &Vec<String>) -> (r: Result<Vec<Measure>, PricerError>)
    ensures
        match spec_parse_measures(spec_name_views(measures@), measures@.len() as int) {
            Ok(ms) => r matches Ok(v) && v@ == ms,
            Err(e) => r matches Err(pe) && pe@ == e,
        },
{
    let ghost names = spec_name_views(measures@);
    let mut out: Vec<Measure> = Vec::new();
    let mut k: usize = 0;
    while k < measures.len()
        invariant
            0 <= k <= measures@.len(),
            names == spec_name_views(measures@),
            spec_parse_measures(names, k as int) matches Ok(ms) && out@ == ms,
        decreases measures@.len() - k,
    {
        match Measure::parse_measure(measures[k].as_str()) {
            Ok(m) => {
                out.push(m);
            },
            Err(e) => {
                proof {
                    lemma_parse_measures_extend_err(names, k as int + 1, names.len() as int);
                }
                return Err(e);
            },
        }
        k += 1;
    }
    Ok(out)
}

/// The scalar pricing rows of one position over a list of measures.
pub open spec fn spec_rows_for_pos(
    ctx: CtxView,
    pid: Seq<char>,
    pos: Position,
    ms: Seq<Measure>,
    k: int,
) -> Result<Seq<PriceRowView>, PricerErrorView>
    decreases k,
{
    if k <= 0 {
        Ok(Seq::empty())
    } else {
        match spec_rows_for_pos(ctx, pid, pos, ms, k - 1) {
            Err(e) => Err(e),
            Ok(pre) => match spec_price(ctx, ms[k - 1], pos.instrument@) {
                Err(e) => Err(e),
                Ok(v) => Ok(
                    pre.push(
                        PriceRowView {
                            trade_id: pid,
                            measure: spec_measure_name(ms[k - 1]),
                            value: spec_scaled(ms[k - 1], pos.size, v),
                        },
                    ),
                ),
            },
        }
    }
}

/// The scalar pricing rows of the first `k` positions.
pub open spec fn spec_scalar_rows(
    ctx: CtxView,
    ps: Seq<(PositionId, Position)>,
    ms: Seq<Measure>,
    k: int,
) -> Result<Seq<PriceRowView>, PricerErrorView>
    decreases k,
{
    if k <= 0 {
        Ok(Seq::empty())
    } else {
        match spec_scalar_rows(ctx, ps, ms, k - 1) {
            Err(e) => Err(e),
            Ok(pre) => match spec_rows_for_pos(
                ctx,
                ps[k - 1].0@,
                ps[k - 1].1,
                ms,
                ms.len() as int,
            ) {
                Err(e) => Err(e),
                Ok(rows) => Ok(pre + rows),
            },
        }
    }
}

proof fn lemma_rows_for_pos_extend_err(
    ctx: CtxView,
    pid: Seq<char>,
    pos: Position,
    ms: Seq<Measure>,
    k: int,
    n: int,
)
    requires
        0 <= k <= n,
        spec_rows_for_pos(ctx, pid, pos, ms, k) is Err,
    ensures
        spec_rows_for_pos(ctx, pid, pos, ms, n) == spec_rows_for_pos(ctx, pid, pos, ms, k),
    decreases n,
{
    if k < n {
        lemma_rows_for_pos_extend_err(ctx, pid, pos, ms, k, n - 1);
    }
}

proof fn lemma_scalar_rows_extend_err(
    ctx: CtxView,
    ps: Seq<(PositionId, Position)>,
    ms: Seq<Measure>,
    k: int,
    n: int,
)
    requires
        0 <= k <= n,
        spec_scalar_rows(ctx, ps, ms, k) is Err,
    ensures
        spec_scalar_rows(ctx, ps, ms, n) == spec_scalar_rows(ctx, ps, ms, k),
    decreases n,
{
    if k < n {
        lemma_scalar_rows_extend_err(ctx, ps, ms, k, n - 1);
    }
}

/// The pricing engine: portfolio-wide scalar and scenario pricing.
pub struct PricingEngine {}

impl PricingEngine {
    pub fn new() -> (r: Self) {
        Self {  }
    }

    /// Prices every position of the portfolio for every named measure at a
    /// valuation date, as rows of (trade id, measure, value).
    pub fn price(
        &self,
        measures: &Vec<String>,
        valuation_date: Date,
        portfolio: &Portfolio,
        marketdata: &MarketData,
    ) -> (r: Result<Vec<PriceRow>, EngineError>)
        requires
            valuation_date.wf(),
            portfolio.wf(),
        ensures
            match spec_parse_measures(
                spec_name_views(measures@),
                measures@.len() as int,
            ) {
                Err(e) => r matches Err(pe) && pe@ == EngineErrorView::Pricer(e),
                Ok(ms) => match spec_find_date(marketdata.observations@, valuation_date) {
                    None => r matches Err(e) && e@ == EngineErrorView::NoMarketData(
                        valuation_date,
                    ),
                    Some(i) => {
                        let base = spec_obs_ctx(
                            marketdata.observations@[i].1,
                            valuation_date,
                        );
                        match spec_scalar_rows(
                            base,
                            portfolio.spec_positions(),
                            ms,
                            portfolio.spec_positions().len() as int,
                        ) {
                            Ok(rows) => r matches Ok(v) && v@.len() == rows.len() && (forall|
                                t: int,
                            |
                                #![all_triggers]
                                0 <= t < rows.len() ==> v@[t]@ == rows[t]),
                            Err(e) => r matches Err(pe) && pe@ == EngineErrorView::Pricer(e),
                        }
                    },
                },
            },
    {
        let measure_vec = match parse_measures(measures) {
            Ok(v) => v,
            Err(e) => {
                return Err(EngineError::Pricer(e));
            },
        };
        let obs = match marketdata.get(valuation_date) {
            Some(o) => o,
            None => {
                return Err(EngineError::NoMarketData(valuation_date));
            },
        };
        let pctx = LookupCtx::new_from_prices_and_vols(
            valuation_date,
            &obs.market_prices,
            &obs.vols,
        );
        let ghost base = pctx@;
        let ghost ms = spec_parse_measures(
            spec_name_views(measures@),
            measures@.len() as int,
        )->Ok_0;
        let positions = portfolio.positions_in_order();
        let ghost ps = portfolio.spec_positions();
        proof {
            portfolio.lemma_wf_instruments();
        }
        let mut rows: Vec<PriceRow> = Vec::new();
        let mut k: usize = 0;
        while k < positions.len()
            invariant
                0 <= k <= ps.len(),
                positions@ == ps,
                measure_vec@ == ms,
                base == pctx@,
                pctx@.wf(),
                spec_find_date(marketdata.observations@, valuation_date) matches Some(i) && 0 <= i
                    < marketdata.observations@.len() && base == spec_obs_ctx(
                    marketdata.observations@[i].1,
                    valuation_date,
                ),
                spec_parse_measures(spec_name_views(measures@), measures@.len() as int) == Ok::<
                    Seq<Measure>,
                    PricerErrorView,
                >(ms),
                ps == portfolio.spec_positions(),
                forall|t: int| #![all_triggers] 0 <= t < ps.len() ==> ps[t].1.instrument@.wf(),
                spec_scalar_rows(base, ps, ms, k as int) matches Ok(rs) && rows@.len()
                    == rs.len() && (forall|t: int| #![all_triggers] 0 <= t < rs.len()
                    ==> rows@[t]@ == rs[t]),
            decreases ps.len() - k,
        {
            let pid = &positions[k].0;
            let pos = &positions[k].1;
            let ghost pre = spec_scalar_rows(base, ps, ms, k as int)->Ok_0;
            let mut j: usize = 0;
            while j < measure_vec.len()
                invariant
                    0 <= j <= ms.len(),
                    0 <= k < ps.len(),
                    positions@ == ps,
                    measure_vec@ == ms,
                    base == pctx@,
                    pctx@.wf(),
                    pid == &ps[k as int].0,
                    pos == &ps[k as int].1,
                    spec_find_date(marketdata.observations@, valuation_date) matches Some(i) && 0
                        <= i < marketdata.observations@.len() && base == spec_obs_ctx(
                        marketdata.observations@[i].1,
                        valuation_date,
                    ),
                    spec_parse_measures(spec_name_views(measures@), measures@.len() as int)
                        == Ok::<Seq<Measure>, PricerErrorView>(ms),
                    ps == portfolio.spec_positions(),
                    forall|t: int| #![all_triggers] 0 <= t < ps.len()
                        ==> ps[t].1.instrument@.wf(),
                    pre == spec_scalar_rows(base, ps, ms, k as int)->Ok_0,
                    spec_scalar_rows(base, ps, ms, k as int) is Ok,
                    spec_rows_for_pos(base, ps[k as int].0@, ps[k as int].1, ms, j as int)
                        matches Ok(rs) && rows@.len() == pre.len() + rs.len() && (forall|t: int|
                        #![all_triggers]
                        0 <= t < pre.len() ==> rows@[t]@ == pre[t]) && (forall|t: int|
                        #![all_triggers]
                        0 <= t < rs.len() ==> rows@[pre.len() + t]@ == rs[t]),
                decreases ms.len() - j,
            {
                let m = measure_vec[j];
                let x = match pctx.price_position(m, pos) {
                    Ok(x) => x,
                    Err(e) => {
                        proof {
                            lemma_rows_for_pos_extend_err(
                                base,
                                ps[k as int].0@,
                                ps[k as int].1,
                                ms,
                                j as int + 1,
                                ms.len() as int,
                            );
                            lemma_scalar_rows_extend_err(
                                base,
                                ps,
                                ms,
                                k as int + 1,
                                ps.len() as int,
                            );
                        }
                        return Err(EngineError::Pricer(e));
                    },
                };
                let row = PriceRow { trade_id: pid.to_string(), measure: m.to_string(), value: x };
                rows.push(row);
                j += 1;
            }
            k += 1;
        }
        Ok(rows)
    }
}


/// One row of a ladder table: a tensor entry together with the shift that
/// produced it.
#[derive(Debug)]
pub struct LadderRow {
    pub trade_id: String,
    pub measure: String,
    pub measure_value: Expr,
    pub rel_shift: u64,
    pub abs_shift: u64,
}

/// The mathematical content of a ladder row.
pub struct LadderRowView {
    pub trade_id: Seq<char>,
    pub measure: Seq<char>,
    pub measure_value: Expr,
    pub rel_shift: u64,
    pub abs_shift: u64,
}

impl View for LadderRow {
    type V = LadderRowView;

    open spec fn view(&self) -> LadderRowView {
        LadderRowView {
            trade_id: self.trade_id@,
            measure: self.measure@,
            measure_value: self.measure_value,
            rel_shift: self.rel_shift,
            abs_shift: self.abs_shift,
        }
    }
}

/// The ladder rows of one position over the first `k` measures: each
/// measure contributes one row per ladder point, pairing the tensor entry
/// with the shift that produced it.
pub open spec fn spec_ladder_rows_for_pos(
    sctx: StackedCtxView,
    pid: Seq<char>,
    pos: Position,
    ms: Seq<Measure>,
    k: int,
) -> Result<Seq<LadderRowView>, PricerErrorView>
    decreases k,
{
    if k <= 0 {
        Ok(Seq::empty())
    } else {
        match spec_ladder_rows_for_pos(sctx, pid, pos, ms, k - 1) {
            Err(e) => Err(e),
            Ok(pre) => match spec_stacked_upto(
                sctx,
                ms[k - 1],
                pos.instrument@,
                spec_total(sctx.shape),
            ) {
                Err(e) => Err(e),
                Ok(vals) => Ok(
                    pre + Seq::new(
                        vals.len(),
                        |i: int| LadderRowView {
                            trade_id: pid,
                            measure: spec_measure_name(ms[k - 1]),
                            measure_value: spec_scaled(ms[k - 1], pos.size, vals[i]),
                            rel_shift: sctx.td.rels[i],
                            abs_shift: sctx.td.abss[i],
                        },
                    ),
                ),
            },
        }
    }
}

/// The ladder rows of the first `k` positions.
pub open spec fn spec_ladder_rows(
    sctx: StackedCtxView,
    ps: Seq<(PositionId, Position)>,
    ms: Seq<Measure>,
    k: int,
) -> Result<Seq<LadderRowView>, PricerErrorView>
    decreases k,
{
    if k <= 0 {
        Ok(Seq::empty())
    } else {
        match spec_ladder_rows(sctx, ps, ms, k - 1) {
            Err(e) => Err(e),
            Ok(pre) => match spec_ladder_rows_for_pos(
                sctx,
                ps[k - 1].0@,
                ps[k - 1].1,
                ms,
                ms.len() as int,
            ) {
                Err(e) => Err(e),
                Ok(rows) => Ok(pre + rows),
            },
        }
    }
}

proof fn lemma_ladder_pos_extend_err(
    sctx: StackedCtxView,
    pid: Seq<char>,
    pos: Position,
    ms: Seq<Measure>,
    k: int,
    n: int,
)
    requires
        0 <= k <= n,
        spec_ladder_rows_for_pos(sctx, pid, pos, ms, k) is Err,
    ensures
        spec_ladder_rows_for_pos(sctx, pid, pos, ms, n) == spec_ladder_rows_for_pos(
            sctx,
            pid,
            pos,
            ms,
            k,
        ),
    decreases n,
{
    if k < n {
        lemma_ladder_pos_extend_err(sctx, pid, pos, ms, k, n - 1);
    }
}

proof fn lemma_ladder_rows_extend_err(
    sctx: StackedCtxView,
    ps: Seq<(PositionId, Position)>,
    ms: Seq<Measure>,
    k: int,
    n: int,
)
    requires
        0 <= k <= n,
        spec_ladder_rows(sctx, ps, ms, k) is Err,
    ensures
        spec_ladder_rows(sctx, ps, ms, n) == spec_ladder_rows(sctx, ps, ms, k),
    decreases n,
{
    if k < n {
        lemma_ladder_rows_extend_err(sctx, ps, ms, k, n - 1);
    }
}

/// The per-position tensors of the first `k` positions, scaled and laid
/// end to end.
pub open spec fn spec_portfolio_tensor(
    sv: StackedCtxView,
    ps: Seq<(PositionId, Position)>,
    m: Measure,
    k: int,
) -> Result<Seq<Expr>, PricerErrorView>
    decreases k,
{
    if k <= 0 {
        Ok(Seq::empty())
    } else {
        match spec_portfolio_tensor(sv, ps, m, k - 1) {
            Err(e) => Err(e),
            Ok(pre) => match spec_stacked_upto(
                sv,
                m,
                ps[k - 1].1.instrument@,
                spec_total(sv.shape),
            ) {
                Err(e) => Err(e),
                Ok(vals) => Ok(
                    pre + Seq::new(
                        vals.len(),
                        |i: int| spec_scaled(m, ps[k - 1].1.size, vals[i]),
                    ),
                ),
            },
        }
    }
}

proof fn lemma_portfolio_tensor_extend_err(
    sv: StackedCtxView,
    ps: Seq<(PositionId, Position)>,
    m: Measure,
    k: int,
    n: int,
)
    requires
        0 <= k <= n,
        spec_portfolio_tensor(sv, ps, m, k) is Err,
    ensures
        spec_portfolio_tensor(sv, ps, m, n) == spec_portfolio_tensor(sv, ps, m, k),
    decreases n,
{
    if k < n {
        lemma_portfolio_tensor_extend_err(sv, ps, m, k, n - 1);
    }
}

impl PricingEngine {
    /// Prices a one-transform ladder over the portfolio: one row per
    /// position, measure and ladder point, carrying the shift alongside the
    /// value.
    pub fn price_ladder(
        &self,
        measures: &Vec<String>,
        valuation_date: Date,
        portfolio: &Portfolio,
        marketdata: &MarketData,
        ladder_definition: &ScenarioShift,
    ) -> (r: Result<Vec<LadderRow>, EngineError>)
        requires
            valuation_date.wf(),
            portfolio.wf(),
        ensures
            match spec_parse_measures(
                spec_name_views(measures@),
                measures@.len() as int,
            ) {
                Err(e) => r matches Err(pe) && pe@ == EngineErrorView::Pricer(e),
                Ok(ms) => match spec_find_date(marketdata.observations@, valuation_date) {
                    None => r matches Err(e) && e@ == EngineErrorView::NoMarketData(
                        valuation_date,
                    ),
                    Some(i) => {
                        let base = spec_obs_ctx(
                            marketdata.observations@[i].1,
                            valuation_date,
                        );
                        if ladder_definition.rel_shifts@.len()
                            != ladder_definition.abs_shifts@.len() {
                            r matches Err(pe) && pe@ == EngineErrorView::Pricer(
                                PricerErrorView::InvalidScenario(
                                    "abs and rel shift lengths differ!"@,
                                ),
                            )
                        } else {
                            let sctx = spec_new_stacked(
                                Axis {
                                    axis_id: 0,
                                    dim: ladder_definition.rel_shifts@.len() as usize,
                                },
                                base,
                                None,
                                spec_shift_td(*ladder_definition),
                            );
                            match spec_ladder_rows(
                                sctx,
                                portfolio.spec_positions(),
                                ms,
                                portfolio.spec_positions().len() as int,
                            ) {
                                Ok(rows) => r matches Ok(v) && v@.len() == rows.len() && (
                                forall|t: int|
                                    #![all_triggers]
                                    0 <= t < rows.len() ==> v@[t]@ == rows[t]),
                                Err(e) => r matches Err(pe) && pe@ == EngineErrorView::Pricer(
                                    e,
                                ),
                            }
                        }
                    },
                },
            },
    {
        let measure_vec = match parse_measures(measures) {
            Ok(v) => v,
            Err(e) => {
                return Err(EngineError::Pricer(e));
            },
        };
        let obs = match marketdata.get(valuation_date) {
            Some(o) => o,
            None => {
                return Err(EngineError::NoMarketData(valuation_date));
            },
        };
        let pctx = LookupCtx::new_from_prices_and_vols(
            valuation_date,
            &obs.market_prices,
            &obs.vols,
        );
        let ghost base = pctx@;
        let td = match TransformDefinition::new_vector_measure_transform(
            ladder_definition.target_measure,
            ladder_definition.filter_def.filter.clone(),
            crate::copy_vec(&ladder_definition.abs_shifts),
            crate::copy_vec(&ladder_definition.rel_shifts),
        ) {
            Ok(td) => td,
            Err(e) => {
                return Err(EngineError::Pricer(e));
            },
        };
        let dim = ladder_definition.rel_shifts.len();
        let vctx = StackedVectorizedPricingCtx::shift_base_ctx(&pctx, td);
        let ghost sctx = vctx@;
        proof {
            assert(vctx@.shape =~= seq![dim]);
            assert(spec_total(vctx@.shape) == dim);
        }
        let ghost ms = spec_parse_measures(
            spec_name_views(measures@),
            measures@.len() as int,
        )->Ok_0;
        let positions = portfolio.positions_in_order();
        let ghost ps = portfolio.spec_positions();
        proof {
            portfolio.lemma_wf_instruments();
        }
        let mut rows: Vec<LadderRow> = Vec::new();
        let mut k: usize = 0;
        while k < positions.len()
            invariant
                0 <= k <= ps.len(),
                positions@ == ps,
                measure_vec@ == ms,
                ps == portfolio.spec_positions(),
                sctx == vctx@,
                vctx@.wf(),
                spec_parse_measures(spec_name_views(measures@), measures@.len() as int) == Ok::<
                    Seq<Measure>,
                    PricerErrorView,
                >(ms),
                spec_find_date(marketdata.observations@, valuation_date) matches Some(i) && 0 <= i
                    < marketdata.observations@.len() && base == spec_obs_ctx(
                    marketdata.observations@[i].1,
                    valuation_date,
                ),
                sctx == spec_new_stacked(
                    Axis { axis_id: 0, dim: ladder_definition.rel_shifts@.len() as usize },
                    base,
                    None,
                    spec_shift_td(*ladder_definition),
                ),
                spec_total(sctx.shape) == dim,
                dim == ladder_definition.rel_shifts@.len(),
                dim == ladder_definition.abs_shifts@.len(),
                sctx.td.rels == ladder_definition.rel_shifts@,
                sctx.td.abss == ladder_definition.abs_shifts@,
                forall|t: int| #![all_triggers] 0 <= t < ps.len() ==> ps[t].1.instrument@.wf(),
                spec_ladder_rows(sctx, ps, ms, k as int) matches Ok(rs) && rows@.len()
                    == rs.len() && (forall|t: int| #![all_triggers] 0 <= t < rs.len()
                    ==> rows@[t]@ == rs[t]),
            decreases ps.len() - k,
        {
            let pid = &positions[k].0;
            let pos = &positions[k].1;
            let ghost pre = spec_ladder_rows(sctx, ps, ms, k as int)->Ok_0;
            let mut j: usize = 0;
            while j < measure_vec.len()
                invariant
                    0 <= j <= ms.len(),
                    0 <= k < ps.len(),
                    positions@ == ps,
                    measure_vec@ == ms,
                    ps == portfolio.spec_positions(),
                    sctx == vctx@,
                    vctx@.wf(),
                    spec_parse_measures(spec_name_views(measures@), measures@.len() as int) == Ok::<
                        Seq<Measure>,
                        PricerErrorView,
                    >(ms),
                    spec_find_date(marketdata.observations@, valuation_date) matches Some(i) && 0 <= i
                        < marketdata.observations@.len() && base == spec_obs_ctx(
                        marketdata.observations@[i].1,
                        valuation_date,
                    ),
                    sctx == spec_new_stacked(
                        Axis { axis_id: 0, dim: ladder_definition.rel_shifts@.len() as usize },
                        base,
                        None,
                        spec_shift_td(*ladder_definition),
                    ),
                    spec_total(sctx.shape) == dim,
                    dim == ladder_definition.rel_shifts@.len(),
                    dim == ladder_definition.abs_shifts@.len(),
                    sctx.td.rels == ladder_definition.rel_shifts@,
                    sctx.td.abss == ladder_definition.abs_shifts@,
                    pid == &ps[k as int].0,
                    pos == &ps[k as int].1,
                    forall|t: int| #![all_triggers] 0 <= t < ps.len()
                        ==> ps[t].1.instrument@.wf(),
                    pre == spec_ladder_rows(sctx, ps, ms, k as int)->Ok_0,
                    spec_ladder_rows(sctx, ps, ms, k as int) is Ok,
                    spec_ladder_rows_for_pos(sctx, ps[k as int].0@, ps[k as int].1, ms, j as int)
                        matches Ok(rs) && rows@.len() == pre.len() + rs.len() && (forall|t: int|
                        #![all_triggers]
                        0 <= t < pre.len() ==> rows@[t]@ == pre[t]) && (forall|t: int|
                        #![all_triggers]
                        0 <= t < rs.len() ==> rows@[pre.len() + t]@ == rs[t]),
                decreases ms.len() - j,
            {
                let m = measure_vec[j];
                let x = match vctx.price_position(m, pos) {
                    Ok(x) => x,
                    Err(e) => {
                        proof {
                            lemma_ladder_pos_extend_err(
                                sctx,
                                ps[k as int].0@,
                                ps[k as int].1,
                                ms,
                                j as int + 1,
                                ms.len() as int,
                            );
                            lemma_ladder_rows_extend_err(
                                sctx,
                                ps,
                                ms,
                                k as int + 1,
                                ps.len() as int,
                            );
                        }
                        return Err(EngineError::Pricer(e));
                    },
                };
                proof {
                    crate::stackedvectorctx::lemma_upto_len(
                        sctx,
                        m,
                        ps[k as int].1.instrument@,
                        spec_total(sctx.shape),
                    );
                }
                let ghost vals = spec_stacked_upto(
                    sctx,
                    m,
                    ps[k as int].1.instrument@,
                    spec_total(sctx.shape),
                )->Ok_0;
                let ghost rowspre = spec_ladder_rows_for_pos(
                    sctx,
                    ps[k as int].0@,
                    ps[k as int].1,
                    ms,
                    j as int,
                )->Ok_0;
                let mut v: usize = 0;
                while v < x.values.len()
                    invariant
                        0 <= v <= x.values@.len(),
                        x.values@.len() == dim,
                        dim == ladder_definition.rel_shifts@.len(),
                        dim == ladder_definition.abs_shifts@.len(),
                        sctx.td.rels == ladder_definition.rel_shifts@,
                        sctx.td.abss == ladder_definition.abs_shifts@,
                        0 <= k < ps.len(),
                        0 <= j < ms.len(),
                        measure_vec@ == ms,
                        m == ms[j as int],
                        pid == &ps[k as int].0,
                        pos == &ps[k as int].1,
                        forall|t: int| #![all_triggers] 0 <= t < x.values@.len() ==> x.values@[t]
                            == spec_scaled(m, ps[k as int].1.size, vals[t]),
                        rows@.len() == pre.len() + rowspre.len() + v,
                        forall|t: int| #![all_triggers] 0 <= t < pre.len() ==> rows@[t]@
                            == pre[t],
                        forall|t: int| #![all_triggers] 0 <= t < rowspre.len() ==> rows@[pre.len()
                            + t]@ == rowspre[t],
                        forall|t: int| #![all_triggers] 0 <= t < v ==> rows@[pre.len()
                            + rowspre.len() + t]@ == (LadderRowView {
                            trade_id: ps[k as int].0@,
                            measure: spec_measure_name(m),
                            measure_value: spec_scaled(m, ps[k as int].1.size, vals[t]),
                            rel_shift: sctx.td.rels[t],
                            abs_shift: sctx.td.abss[t],
                        }),
                    decreases x.values@.len() - v,
                {
                    let row = LadderRow {
                        trade_id: pid.to_string(),
                        measure: m.to_string(),
                        measure_value: x.values[v].clone(),
                        rel_shift: ladder_definition.rel_shifts[v],
                        abs_shift: ladder_definition.abs_shifts[v],
                    };
                    rows.push(row);
                    v += 1;
                }
                proof {
                    let contributed = Seq::new(
                        vals.len(),
                        |i: int| LadderRowView {
                            trade_id: ps[k as int].0@,
                            measure: spec_measure_name(ms[j as int]),
                            measure_value: spec_scaled(ms[j as int], ps[k as int].1.size, vals[i]),
                            rel_shift: sctx.td.rels[i],
                            abs_shift: sctx.td.abss[i],
                        },
                    );
                    assert(spec_ladder_rows_for_pos(
                        sctx,
                        ps[k as int].0@,
                        ps[k as int].1,
                        ms,
                        j as int + 1,
                    ) == Ok::<Seq<LadderRowView>, PricerErrorView>(rowspre + contributed));
                    assert(forall|t: int| #![all_triggers] 0 <= t < contributed.len()
                        ==> rows@[pre.len() + rowspre.len() + t]@ == contributed[t]);
                    assert(forall|t: int| #![all_triggers] 0 <= t < (rowspre + contributed).len()
                        ==> rows@[pre.len() + t]@ == (rowspre + contributed)[t]);
                }
                j += 1;
            }
            k += 1;
        }
        Ok(rows)
    }

    /// Prices every position under a composed scenario and stacks the
    /// per-position tensors along a new leading axis, in portfolio order.
    pub fn price_portfolio_scenario(
        &self,
        measure: &str,
        valuation_date: Date,
        portfolio: &Portfolio,
        marketdata: &MarketData,
        scenario_def: &ScenarioDefinition,
    ) -> (r: Result<VectorResult, EngineError>)
        requires
            valuation_date.wf(),
            portfolio.wf(),
            match spec_find_date(marketdata.observations@, valuation_date) {
                Some(i) => scenario_def.shifts@.len() > 0 ==> (match spec_scenario_fold(
                    spec_obs_ctx(marketdata.observations@[i].1, valuation_date),
                    scenario_def.shifts@,
                    scenario_def.shifts@.len() as int,
                ) {
                    Ok(sv) => spec_total(sv.shape) <= usize::MAX,
                    Err(_) => true,
                }),
                None => true,
            },
        ensures
            match spec_parse_measure(measure@) {
                Err(e) => r matches Err(pe) && pe@ == EngineErrorView::Pricer(e),
                Ok(m) => match spec_find_date(marketdata.observations@, valuation_date) {
                    None => r matches Err(e) && e@ == EngineErrorView::NoMarketData(
                        valuation_date,
                    ),
                    Some(i) => {
                        let base = spec_obs_ctx(
                            marketdata.observations@[i].1,
                            valuation_date,
                        );
                        if scenario_def.shifts@.len() == 0 {
                            r matches Err(e) && e@ == EngineErrorView::NoShifts
                        } else {
                            match spec_scenario_fold(
                                base,
                                scenario_def.shifts@,
                                scenario_def.shifts@.len() as int,
                            ) {
                                Err(pe) => r matches Err(e) && e@ == EngineErrorView::Pricer(
                                    pe,
                                ),
                                Ok(sv) => match spec_portfolio_tensor(
                                    sv,
                                    portfolio.spec_positions(),
                                    m,
                                    portfolio.spec_positions().len() as int,
                                ) {
                                    Ok(vals) => r matches Ok(vr) && vr.shape@ == seq![
                                        portfolio.spec_positions().len() as usize,
                                    ] + sv.shape && vr.values@ == vals,
                                    Err(e) => r matches Err(pe) && pe@
                                        == EngineErrorView::Pricer(e),
                                },
                            }
                        }
                    },
                },
            },
    {
        let m = match Measure::parse_measure(measure) {
            Ok(m) => m,
            Err(e) => {
                return Err(EngineError::Pricer(e));
            },
        };
        let vctx = match make_vector_ctx(valuation_date, marketdata, scenario_def) {
            Ok(v) => v,
            Err(e) => {
                return Err(e);
            },
        };
        let ghost sv = vctx@;
        let positions = portfolio.positions_in_order();
        let ghost ps = portfolio.spec_positions();
        proof {
            portfolio.lemma_wf_instruments();
        }
        let mut values: Vec<Expr> = Vec::new();
        let mut k: usize = 0;
        while k < positions.len()
            invariant
                0 <= k <= ps.len(),
                positions@ == ps,
                ps == portfolio.spec_positions(),
                sv == vctx@,
                vctx@.wf(),
                spec_total(sv.shape) <= usize::MAX,
                spec_parse_measure(measure@) == Ok::<Measure, crate::error::PricerErrorView>(m),
                scenario_def.shifts@.len() > 0,
                spec_find_date(marketdata.observations@, valuation_date) matches Some(i)
                    && spec_scenario_fold(
                    spec_obs_ctx(marketdata.observations@[i].1, valuation_date),
                    scenario_def.shifts@,
                    scenario_def.shifts@.len() as int,
                ) == Ok::<StackedCtxView, crate::error::PricerErrorView>(sv),
                forall|t: int| #![all_triggers] 0 <= t < ps.len() ==> ps[t].1.instrument@.wf(),
                spec_portfolio_tensor(sv, ps, m, k as int) matches Ok(vals) && values@ == vals,
            decreases ps.len() - k,
        {
            let pos = &positions[k].1;
            let x = match vctx.price_position(m, pos) {
                Ok(x) => x,
                Err(e) => {
                    proof {
                        lemma_portfolio_tensor_extend_err(sv, ps, m, k as int + 1, ps.len() as int);
                    }
                    return Err(EngineError::Pricer(e));
                },
            };
            proof {
                crate::stackedvectorctx::lemma_total_nonneg(sv.shape);
                crate::stackedvectorctx::lemma_upto_len(
                    sv,
                    m,
                    ps[k as int].1.instrument@,
                    spec_total(sv.shape),
                );
            }
            let ghost vals = spec_stacked_upto(
                sv,
                m,
                ps[k as int].1.instrument@,
                spec_total(sv.shape),
            )->Ok_0;
            let ghost before = values@;
            let mut x2 = x;
            values.append(&mut x2.values);
            proof {
                let scaledvals = Seq::new(
                    vals.len(),
                    |i: int| spec_scaled(m, ps[k as int].1.size, vals[i]),
                );
                assert(spec_portfolio_tensor(sv, ps, m, k as int + 1) == Ok::<
                    Seq<Expr>,
                    PricerErrorView,
                >(before + scaledvals));
                assert(values@ =~= before + scaledvals);
            }
            k += 1;
        }
        let mut shape: Vec<usize> = Vec::new();
        shape.push(positions.len());
        let mut rest = crate::copy_vec(&vctx.shape);
        shape.append(&mut rest);
        proof {
            assert(shape@ =~= seq![ps.len() as usize] + sv.shape);
        }
        Ok(VectorResult::new(shape, values))
    }
}

} // verus!

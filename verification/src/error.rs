//! The error taxonomy of the pricing core.
use vstd::prelude::*;

use crate::instrument::{Instrument, InstrumentView, Ticker};
use crate::pricingctx::Measure;

verus! {

/// Which kind of market data a lookup failed for.
#[derive(Debug, PartialEq, Eq, Structural, Clone, Copy, Hash)]
pub enum MarketDataKind {
    Price,
    Vol,
}

/// Everything that can go wrong while composing scenarios or pricing.
#[derive(Debug)]
pub enum PricerError {
    /// A malformed transform definition or an out-of-range shift access.
    InvalidScenario(String),
    /// A risk-factor name that does not parse.
    InvalidRiskFactorError(String),
    /// An option-type name that does not parse.
    InvalidOptionTypeError(String),
    /// A measure name that does not parse.
    InvalidMeasureError(String),
    /// A vector result with an unexpected dimensionality.
    ShapeError(String),
    /// No calculator handles this measure on the given instrument.
    MissingCalculatorError(Measure),
    /// A provider lookup failed for a ticker.
    MissingMarketDataError { market_data_kind: MarketDataKind, ticker: Ticker },
    /// An error bubbled up from the valuation model.
    ModelError(String),
    /// A numeric pathology while executing a shift scenario.
    ShiftExecutionError { ins: Instrument, message: String },
    /// A provider-absence sentinel.
    InfrastructureError(String),
}

/// The mathematical content of a pricer error.
pub enum PricerErrorView {
    InvalidScenario(Seq<char>),
    InvalidRiskFactorError(Seq<char>),
    InvalidOptionTypeError(Seq<char>),
    InvalidMeasureError(Seq<char>),
    ShapeError(Seq<char>),
    MissingCalculatorError(Measure),
    MissingMarketDataError { market_data_kind: MarketDataKind, ticker: Seq<char> },
    ModelError(Seq<char>),
    ShiftExecutionError { ins: InstrumentView, message: Seq<char> },
    InfrastructureError(Seq<char>),
}

impl View for PricerError {
    type V = PricerErrorView;

    open spec fn view(&self) -> PricerErrorView {
        match self {
            PricerError::InvalidScenario(m) => PricerErrorView::InvalidScenario(m@),
            PricerError::InvalidRiskFactorError(m) => PricerErrorView::InvalidRiskFactorError(m@),
            PricerError::InvalidOptionTypeError(m) => PricerErrorView::InvalidOptionTypeError(m@),
            PricerError::InvalidMeasureError(m) => PricerErrorView::InvalidMeasureError(m@),
            PricerError::ShapeError(m) => PricerErrorView::ShapeError(m@),
            PricerError::MissingCalculatorError(m) => PricerErrorView::MissingCalculatorError(*m),
            PricerError::MissingMarketDataError { market_data_kind, ticker } => (
            PricerErrorView::MissingMarketDataError {
                market_data_kind: *market_data_kind,
                ticker: ticker@,
            }),
            PricerError::ModelError(m) => PricerErrorView::ModelError(m@),
            PricerError::ShiftExecutionError { ins, message } => (
            PricerErrorView::ShiftExecutionError { ins: ins@, message: message@ }),
            PricerError::InfrastructureError(m) => PricerErrorView::InfrastructureError(m@),
        }
    }
}

/// Lifts a result whose error side is a `PricerError` to the view level.
pub open spec fn view_res<T>(r: Result<T, PricerError>) -> Result<T, PricerErrorView> {
    match r {
        Ok(t) => Ok(t),
        Err(e) => Err(e@),
    }
}

/// Lifts a result to the view level on both sides.
pub open spec fn deep_view_res<T: View>(r: Result<T, PricerError>) -> Result<
    T::V,
    PricerErrorView,
> {
    match r {
        Ok(t) => Ok(t@),
        Err(e) => Err(e@),
    }
}

} // verus!

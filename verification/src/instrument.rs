//! Instruments: tickers, stocks and European stock options.
//!
//! Real-valued fields (the strike) are carried as IEEE-754 double bit
//! patterns; the pricing core treats them symbolically and never performs
//! floating-point arithmetic itself.
use vstd::prelude::*;

use crate::calendar::Date;
use crate::error::PricerError;
use crate::text::str_eq;

verus! {

/// An opaque ticker identity.
#[derive(Debug, Eq, Hash)]
pub struct Ticker(pub String);

impl View for Ticker {
    type V = Seq<char>;

    open spec fn view(&self) -> Seq<char> {
        self.0@
    }
}

impl Clone for Ticker {
    fn clone(&self) -> (r: Ticker)
        ensures
            r == *self,
    {
        Ticker(self.0.clone())
    }
}

impl PartialEq for Ticker {
    fn eq(&self, other: &Ticker) -> (r: bool) {
        str_eq(self.0.as_str(), other.0.as_str())
    }
}

impl vstd::std_specs::cmp::PartialEqSpecImpl for Ticker {
    open spec fn obeys_eq_spec() -> bool {
        true
    }

    open spec fn eq_spec(&self, other: &Ticker) -> bool {
        self.0@ == other.0@
    }
}

/// A listed equity.
#[derive(Debug, Eq, Hash, PartialEq)]
pub struct Stock {
    pub ticker: Ticker,
}

impl View for Stock {
    type V = Seq<char>;

    open spec fn view(&self) -> Seq<char> {
        self.ticker@
    }
}

impl Clone for Stock {
    fn clone(&self) -> (r: Stock)
        ensures
            r == *self,
    {
        Stock { ticker: self.ticker.clone() }
    }
}

impl Stock {
    pub fn new(ticker: Ticker) -> (r: Self)
        ensures
            r == (Stock { ticker }),
    {
        Self { ticker }
    }
}

/// Call or put.
#[derive(Debug, PartialEq, Eq, Structural, Clone, Copy, Hash)]
pub enum OptionType {
    Call,
    Put,
}

/// The snake_case name of an option type.
pub open spec fn spec_option_type_name(t: OptionType) -> Seq<char> {
    match t {
        OptionType::Call => "call"@,
        OptionType::Put => "put"@,
    }
}

/// What parsing an option-type name yields.
pub open spec fn spec_parse_option_type(s: Seq<char>) -> Result<
    OptionType,
    crate::error::PricerErrorView,
> {
    if s == "call"@ {
        Ok(OptionType::Call)
    } else if s == "put"@ {
        Ok(OptionType::Put)
    } else {
        Err(crate::error::PricerErrorView::InvalidOptionTypeError(s))
    }
}

impl OptionType {
    pub fn parse_option_type(s: &str) -> (r: Result<OptionType, PricerError>)
        ensures
            crate::error::view_res(r) == spec_parse_option_type(s@),
    {
        if str_eq(s, "call") {
            Ok(OptionType::Call)
        } else if str_eq(s, "put") {
            Ok(OptionType::Put)
        } else {
            Err(PricerError::InvalidOptionTypeError(s.to_owned()))
        }
    }
}

/// A European option on a stock.  The strike holds the bit pattern of an
/// IEEE-754 double.
#[derive(Debug)]
pub struct StockOption {
    pub underlying: Stock,
    pub strike: u64,
    pub expiry: Date,
    pub option_type: OptionType,
}

/// The mathematical content of a stock option.
pub struct StockOptionView {
    pub underlying: Seq<char>,
    pub strike: u64,
    pub expiry: Date,
    pub option_type: OptionType,
}

impl View for StockOption {
    type V = StockOptionView;

    open spec fn view(&self) -> StockOptionView {
        StockOptionView {
            underlying: self.underlying@,
            strike: self.strike,
            expiry: self.expiry,
            option_type: self.option_type,
        }
    }
}

impl Clone for StockOption {
    fn clone(&self) -> (r: StockOption)
        ensures
            r == *self,
    {
        StockOption {
            underlying: self.underlying.clone(),
            strike: self.strike,
            expiry: self.expiry,
            option_type: self.option_type,
        }
    }
}

impl StockOption {
    pub fn new(underlying: Stock, strike: u64, expiry: Date, option_type: OptionType) -> (r: Self)
        ensures
            r == (StockOption { underlying, strike, expiry, option_type }),
    {
        Self { underlying, strike, expiry, option_type }
    }
}

/// A two-variant instrument sum.
#[derive(Debug)]
pub enum Instrument {
    Option(StockOption),
    Stock(Stock),
}

/// The mathematical content of an instrument.
pub enum InstrumentView {
    Option(StockOptionView),
    Stock(Seq<char>),
}

impl View for Instrument {
    type V = InstrumentView;

    open spec fn view(&self) -> InstrumentView {
        match self {
            Instrument::Option(o) => InstrumentView::Option(o@),
            Instrument::Stock(s) => InstrumentView::Stock(s@),
        }
    }
}

impl Clone for Instrument {
    fn clone(&self) -> (r: Instrument)
        ensures
            r == *self,
    {
        match self {
            Instrument::Option(o) => Instrument::Option(o.clone()),
            Instrument::Stock(s) => Instrument::Stock(s.clone()),
        }
    }
}

impl InstrumentView {
    /// Dates inside the instrument are in calendar range.
    pub open spec fn wf(self) -> bool {
        match self {
            InstrumentView::Option(o) => o.expiry.wf(),
            InstrumentView::Stock(_) => true,
        }
    }
}

} // verus!

use pricingcore::error::PricerError;
use pricingcore::instrument::OptionType;
use pricingcore::pricingctx::Measure;
use pricingcore::pricingengine::FilterDef;
use pricingcore::transform::{InstrumentFilter, RiskFactor};

#[test]
fn measure_roundtrip() -> Result<(), PricerError> {
    let tte = Measure::TimeToExpiry;
    let tte_str = tte.to_string();
    assert_eq!(tte_str, "time_to_expiry");
    let tte_rt = Measure::parse_measure(&tte_str)?;
    assert_eq!(tte, tte_rt);
    Ok(())
}

#[test]
fn measure_roundtrip_all() {
    let all = [
        Measure::Price,
        Measure::Exposure,
        Measure::UnderlyingPrice,
        Measure::Vol,
        Measure::Rate,
        Measure::TimeToExpiry,
        Measure::Delta,
        Measure::Gamma,
    ];
    for m in all {
        let name = m.to_string();
        let back = Measure::parse_measure(&name).expect("own name parses");
        assert_eq!(m, back);
    }
}

#[test]
fn measure_parse_rejects_unknown() {
    let r = Measure::parse_measure("volatility");
    match r {
        Err(PricerError::InvalidMeasureError(s)) => assert_eq!(s, "volatility"),
        _ => panic!("expected an invalid-measure error"),
    }
}

#[test]
fn option_type_parse() {
    assert_eq!(OptionType::parse_option_type("call").unwrap(), OptionType::Call);
    assert_eq!(OptionType::parse_option_type("put").unwrap(), OptionType::Put);
    match OptionType::parse_option_type("straddle") {
        Err(PricerError::InvalidOptionTypeError(s)) => assert_eq!(s, "straddle"),
        _ => panic!("expected an invalid-option-type error"),
    }
}

#[test]
fn risk_factor_parse() {
    assert_eq!(RiskFactor::parse_risk_factor("equity").unwrap(), RiskFactor::Equity);
    match RiskFactor::parse_risk_factor("credit") {
        Err(PricerError::InvalidRiskFactorError(s)) => assert_eq!(s, "credit"),
        _ => panic!("expected an invalid-risk-factor error"),
    }
}

#[test]
fn filter_def_kinds() {
    let rf = FilterDef::new("risk_factor_filter", "equity").unwrap().unwrap();
    assert!(matches!(rf.filter, InstrumentFilter::RiskFactorFilter(RiskFactor::Equity)));
    let tk = FilterDef::new("ticker_filter", "AAPL").unwrap().unwrap();
    match tk.filter {
        InstrumentFilter::TickerFilter(t) => assert_eq!(t.0, "AAPL"),
        _ => panic!("expected a ticker filter"),
    }
    assert!(FilterDef::new("sector_filter", "tech").unwrap().is_none());
    assert!(matches!(
        FilterDef::new("risk_factor_filter", "credit"),
        Err(PricerError::InvalidRiskFactorError(_))
    ));
    let pt = FilterDef::new_passthrough();
    assert!(matches!(pt.filter, InstrumentFilter::Passthrough));
}

#[test]
fn calendar_day_numbers() {
    let epoch = pricingcore::calendar::Date::from_ymd(1970, 1, 1);
    assert_eq!(epoch.day_number(), 0);
    let a = pricingcore::calendar::Date::from_ymd(2021, 8, 31);
    let b = pricingcore::calendar::Date::from_ymd(2022, 8, 31);
    assert_eq!(b.day_number() - a.day_number(), 365);
    let c = pricingcore::calendar::Date::from_ymd(2020, 2, 28);
    let d = pricingcore::calendar::Date::from_ymd(2020, 3, 1);
    assert_eq!(d.day_number() - c.day_number(), 2);
}

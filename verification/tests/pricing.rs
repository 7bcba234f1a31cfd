use statrs::distribution::{ContinuousCDF, Normal};

use pricingcore::bsmodel::{black_scholes, BlackScholesParams};
use pricingcore::calendar::Date;
use pricingcore::error::{MarketDataKind, PricerError};
use pricingcore::expr::Expr;
use pricingcore::instrument::{Instrument, OptionType, Stock, StockOption, Ticker};
use pricingcore::lookupctx::LookupCtx;
use pricingcore::portfolio::Position;
use pricingcore::pricingctx::{Measure, PricingCtx};
use pricingcore::stackedvectorctx::StackedVectorizedPricingCtx;
use pricingcore::transform::{
    InstrumentFilter, RiskFactor, TransformAlignment, TransformDefinition,
};

#[derive(Debug)]
enum EvalError {
    ZeroPriceInRelShift,
}

/// Evaluates a symbolic expression with ordinary double arithmetic, mapping
/// each node to the matching float operation.
fn eval(e: &Expr) -> Result<f64, EvalError> {
    Ok(match e {
        Expr::Num(b) => f64::from_bits(*b),
        Expr::YearFraction(d) => *d as f64 / 365.0,
        Expr::Add(a, b) => eval(a)? + eval(b)?,
        Expr::Sub(a, b) => eval(a)? - eval(b)?,
        Expr::Mul(a, b) => eval(a)? * eval(b)?,
        Expr::Div(a, b) => eval(a)? / eval(b)?,
        Expr::Neg(a) => -eval(a)?,
        Expr::Abs(a) => f64::abs(eval(a)?),
        Expr::Ln(a) => f64::ln(eval(a)?),
        Expr::Sqrt(a) => f64::sqrt(eval(a)?),
        Expr::Exp(a) => f64::exp(eval(a)?),
        Expr::Powi(a, n) => f64::powi(eval(a)?, *n),
        Expr::Powf(a, b) => f64::powf(eval(a)?, eval(b)?),
        Expr::NormCdf(a) => {
            let n = Normal::new(0.0, 1.0).expect("standard normal");
            n.cdf(eval(a)?)
        }
        Expr::IfEq(a, b, t, f) => {
            if eval(a)? == eval(b)? {
                eval(t)?
            } else {
                eval(f)?
            }
        }
        Expr::IfLt(a, b, t, f) => {
            if eval(a)? < eval(b)? {
                eval(t)?
            } else {
                eval(f)?
            }
        }
        Expr::ZeroPriceFailure => return Err(EvalError::ZeroPriceInRelShift),
    })
}

fn assert_close(a: f64, b: f64, eps: f64) {
    assert!((a - b).abs() < eps, "{} is not within {} of {}", a, eps, b);
}

fn aapl_stock_ctx(spot: f64) -> PricingCtx {
    let prices = vec![(Ticker("AAPL".to_string()), spot.to_bits())];
    LookupCtx::new_market_price_only(Date::from_ymd(2021, 8, 31), &prices)
}

fn aapl_option_ctx(spot: f64, vol: f64) -> PricingCtx {
    let prices = vec![(Ticker("AAPL".to_string()), spot.to_bits())];
    let vols = vec![(Ticker("AAPL".to_string()), vol.to_bits())];
    LookupCtx::new_from_prices_and_vols(Date::from_ymd(2021, 8, 31), &prices, &vols)
}

fn aapl_call(strike: f64) -> StockOption {
    StockOption::new(
        Stock::new(Ticker("AAPL".to_string())),
        strike.to_bits(),
        Date::from_ymd(2022, 8, 31),
        OptionType::Call,
    )
}

#[test]
fn price_stock() -> Result<(), PricerError> {
    let stock = Stock::new(Ticker("AAPL".to_string()));
    let ctx = aapl_stock_ctx(105.0);
    let ins = Instrument::Stock(stock);
    let price = eval(&ctx.price(Measure::Price, &ins)?).unwrap();
    let price_delta = eval(&ctx.price(Measure::Delta, &ins)?).unwrap();
    let price_gamma = eval(&ctx.price(Measure::Gamma, &ins)?).unwrap();
    assert_close(price, 105.0, 1e-9);
    assert_close(price_delta, 1.0, 0.0001);
    assert_close(price_gamma, 0.0, 0.0001);
    Ok(())
}

#[test]
fn price_call() -> Result<(), PricerError> {
    let option = aapl_call(100.0);
    let ctx = aapl_option_ctx(100.0, 0.2);
    let ins = Instrument::Option(option);
    let price = eval(&ctx.price(Measure::Price, &ins)?).unwrap();
    let price_delta = eval(&ctx.price(Measure::Delta, &ins)?).unwrap();
    let price_gamma = eval(&ctx.price(Measure::Gamma, &ins)?).unwrap();
    assert_close(price, 7.965567455405804, 1e-9);
    assert_close(price_delta, 6.776394149722663, 1e-9);
    assert_close(price_gamma, 3.1275067301709396, 1e-9);
    Ok(())
}

#[test]
fn atm_call() {
    let pars = BlackScholesParams::new(
        Expr::Num(100f64.to_bits()),
        100f64.to_bits(),
        Expr::Num(1f64.to_bits()),
        Expr::Num(0f64.to_bits()),
        Expr::Num(0.2f64.to_bits()),
    );
    let p = eval(&black_scholes(pars, OptionType::Call)).unwrap();
    assert_close(p, 7.965567455405804, 1e-9);
}

fn equity_ladder() -> TransformDefinition {
    TransformDefinition::new_vector_measure_transform(
        Measure::Price,
        InstrumentFilter::RiskFactorFilter(RiskFactor::Equity),
        vec![0f64.to_bits(), 0f64.to_bits(), 0f64.to_bits()],
        vec![(-0.05f64).to_bits(), 0f64.to_bits(), 0.05f64.to_bits()],
    )
    .unwrap()
}

#[test]
fn price_call_shift_equites_up_down() -> Result<(), PricerError> {
    let option = aapl_call(100.0);
    let ctx = aapl_option_ctx(100.0, 0.2);
    let vctx = StackedVectorizedPricingCtx::shift_base_ctx(&ctx, equity_ladder());
    let price = vctx.price(Measure::Price, &Instrument::Option(option))?;
    assert_eq!(price.shape, vec![3]);
    let expected = [5.519541063676968, 7.965567455405804, 10.905593471555477];
    for (i, want) in expected.iter().enumerate() {
        assert_close(eval(&price.values[i]).unwrap(), *want, 1e-9);
    }
    Ok(())
}

#[test]
fn price_call_shift_equites_up_down_vol_up_down_orto() -> Result<(), PricerError> {
    let option = aapl_call(100.0);
    let ctx = aapl_option_ctx(100.0, 0.2);
    let vctx = StackedVectorizedPricingCtx::shift_base_ctx(&ctx, equity_ladder());
    let vctx = StackedVectorizedPricingCtx::shift_vector_ctx(
        &vctx,
        TransformDefinition::new_vector_measure_transform(
            Measure::Vol,
            InstrumentFilter::Passthrough,
            vec![(-0.1f64).to_bits(), 0f64.to_bits(), 0.2f64.to_bits()],
            vec![0f64.to_bits(), 0f64.to_bits(), 0f64.to_bits()],
        )?,
        TransformAlignment::Orthogonal,
    );
    let price = vctx.price(Measure::Price, &Instrument::Option(option))?;
    assert_eq!(price.shape, vec![3, 3]);
    let expected = [
        [1.8880632480607211, 5.519541063676968, 13.080826657108283],
        [3.987761167674492, 7.965567455405804, 15.851941887820608],
        [7.064019137898839, 10.905593471555477, 18.867330893095627],
    ];
    for r in 0..3 {
        for c in 0..3 {
            assert_close(eval(&price.values[3 * r + c]).unwrap(), expected[r][c], 1e-9);
        }
    }
    Ok(())
}

#[test]
fn price_call_shift_uprice() -> Result<(), PricerError> {
    let option = aapl_call(100.0);
    let ctx = aapl_option_ctx(100.0, 0.2);
    let transform_def = TransformDefinition::new_scalar_measure_transform(
        Measure::UnderlyingPrice,
        InstrumentFilter::Passthrough,
        0f64.to_bits(),
        0.05f64.to_bits(),
    )?;
    let vctx = StackedVectorizedPricingCtx::shift_base_ctx(&ctx, transform_def);
    let ins = Instrument::Option(option);
    let price = vctx.price(Measure::Price, &ins)?;
    let price_delta = vctx.price(Measure::Delta, &ins)?;
    assert_eq!(price.shape, vec![1]);
    assert_close(eval(&price.values[0]).unwrap(), 10.905593471555477, 1e-9);
    assert_eq!(price_delta.shape, vec![1]);
    assert_close(eval(&price_delta.values[0]).unwrap(), 6.108762769889156, 1e-9);
    Ok(())
}

#[test]
fn pure_passthrough_vector() -> Result<(), PricerError> {
    // a passthrough transform with zero shifts of length four prices every
    // entry to the unshifted scalar value
    let option = aapl_call(100.0);
    let ctx = aapl_option_ctx(100.0, 0.2);
    let ins = Instrument::Option(option);
    let scalar = eval(&ctx.price(Measure::Price, &ins)?).unwrap();
    let zeros = vec![0f64.to_bits(); 4];
    let td = TransformDefinition::new_vector_measure_transform(
        Measure::Price,
        InstrumentFilter::Passthrough,
        zeros.clone(),
        zeros,
    )?;
    let vctx = StackedVectorizedPricingCtx::shift_base_ctx(&ctx, td);
    let tensor = vctx.price(Measure::Price, &ins)?;
    assert_eq!(tensor.shape, vec![4]);
    assert_eq!(tensor.values.len(), 4);
    for v in tensor.values.iter() {
        assert_close(eval(v).unwrap(), scalar, 1e-9);
    }
    Ok(())
}

#[test]
fn orthogonal_independence_outer_product() -> Result<(), PricerError> {
    // transforms on disjoint measures: the 2-D tensor equals the outer
    // composition of the independent 1-D tensors
    let option = aapl_call(100.0);
    let ctx = aapl_option_ctx(100.0, 0.2);
    let ins = Instrument::Option(option);
    let t1 = || equity_ladder();
    let t2 = || {
        TransformDefinition::new_vector_measure_transform(
            Measure::Vol,
            InstrumentFilter::Passthrough,
            vec![(-0.1f64).to_bits(), 0f64.to_bits(), 0.2f64.to_bits()],
            vec![0f64.to_bits(), 0f64.to_bits(), 0f64.to_bits()],
        )
        .unwrap()
    };
    let both = StackedVectorizedPricingCtx::shift_vector_ctx(
        &StackedVectorizedPricingCtx::shift_base_ctx(&ctx, t1()),
        t2(),
        TransformAlignment::Orthogonal,
    );
    let grid = both.price(Measure::Price, &ins)?;
    // independent evaluation: apply t2 alone over a t1-only context, one
    // equity point at a time
    for i in 0..3 {
        let rel = [-0.05f64, 0.0, 0.05][i];
        let one_point = TransformDefinition::new_scalar_measure_transform(
            Measure::Price,
            InstrumentFilter::RiskFactorFilter(RiskFactor::Equity),
            0f64.to_bits(),
            rel.to_bits(),
        )?;
        let inner = StackedVectorizedPricingCtx::shift_vector_ctx(
            &StackedVectorizedPricingCtx::shift_base_ctx(&ctx, one_point),
            t2(),
            TransformAlignment::Orthogonal,
        );
        let row = inner.price(Measure::Price, &ins)?;
        assert_eq!(row.shape, vec![1, 3]);
        for j in 0..3 {
            assert_close(
                eval(&grid.values[3 * i + j]).unwrap(),
                eval(&row.values[j]).unwrap(),
                1e-9,
            );
        }
    }
    Ok(())
}

#[test]
fn stacked_superposition_scalar() -> Result<(), PricerError> {
    // two stacked transforms along the same axis superpose in insertion
    // order: v -> (1 + 0.05) * v, then -> v' + 3
    let stock = Stock::new(Ticker("AAPL".to_string()));
    let ctx = aapl_stock_ctx(100.0);
    let first = TransformDefinition::new_scalar_measure_transform(
        Measure::Price,
        InstrumentFilter::Passthrough,
        0f64.to_bits(),
        0.05f64.to_bits(),
    )?;
    let second = TransformDefinition::new_scalar_measure_transform(
        Measure::Price,
        InstrumentFilter::Passthrough,
        3f64.to_bits(),
        0f64.to_bits(),
    )?;
    let vctx = StackedVectorizedPricingCtx::shift_vector_ctx(
        &StackedVectorizedPricingCtx::shift_base_ctx(&ctx, first),
        second,
        TransformAlignment::Stacked,
    );
    let tensor = vctx.price(Measure::Price, &Instrument::Stock(stock))?;
    assert_eq!(tensor.shape, vec![1]);
    assert_close(eval(&tensor.values[0]).unwrap(), 1.05 * 100.0 + 3.0, 1e-9);
    Ok(())
}

#[test]
fn linear_scaling_of_positions() -> Result<(), PricerError> {
    // exposure scales linearly with the position size; price does not
    let ctx = aapl_option_ctx(100.0, 0.2);
    let sized = |s: f64| Position {
        size: Expr::Num(s.to_bits()),
        instrument: Instrument::Option(aapl_call(100.0)),
    };
    let exp1 = eval(&ctx.price_position(Measure::Exposure, &sized(1.0))?).unwrap();
    let exp3 = eval(&ctx.price_position(Measure::Exposure, &sized(3.0))?).unwrap();
    assert_close(exp3, 3.0 * exp1, 1e-9);
    let p1 = eval(&ctx.price_position(Measure::Price, &sized(1.0))?).unwrap();
    let p3 = eval(&ctx.price_position(Measure::Price, &sized(3.0))?).unwrap();
    assert_close(p3, p1, 1e-12);
    Ok(())
}

#[test]
fn missing_market_data() {
    let ctx = aapl_stock_ctx(105.0);
    let msft = Instrument::Stock(Stock::new(Ticker("MSFT".to_string())));
    match ctx.price(Measure::Price, &msft) {
        Err(PricerError::MissingMarketDataError { market_data_kind, ticker }) => {
            assert_eq!(market_data_kind, MarketDataKind::Price);
            assert_eq!(ticker.0, "MSFT");
        }
        _ => panic!("expected a missing-market-data error"),
    }
}

#[test]
fn missing_calculator() {
    let ctx = aapl_stock_ctx(105.0);
    let aapl = Instrument::Stock(Stock::new(Ticker("AAPL".to_string())));
    match ctx.price(Measure::TimeToExpiry, &aapl) {
        Err(PricerError::MissingCalculatorError(m)) => assert_eq!(m, Measure::TimeToExpiry),
        _ => panic!("expected a missing-calculator error"),
    }
}

#[test]
fn missing_vol_provider() {
    let option = aapl_call(100.0);
    let ctx = aapl_stock_ctx(100.0);
    match ctx.price(Measure::Vol, &Instrument::Option(option)) {
        Err(PricerError::InfrastructureError(msg)) => {
            assert_eq!(msg, "No vol provider found")
        }
        _ => panic!("expected an infrastructure error"),
    }
}

#[test]
fn shift_out_of_range_is_invalid_scenario() -> Result<(), PricerError> {
    // a stacked transform whose length disagrees with the parent's axis
    // fails at evaluation time with an invalid-scenario error
    let stock = Stock::new(Ticker("AAPL".to_string()));
    let ctx = aapl_stock_ctx(100.0);
    let two = TransformDefinition::new_vector_measure_transform(
        Measure::Price,
        InstrumentFilter::Passthrough,
        vec![0f64.to_bits(), 0f64.to_bits()],
        vec![0f64.to_bits(), 0f64.to_bits()],
    )?;
    let one = TransformDefinition::new_scalar_measure_transform(
        Measure::Price,
        InstrumentFilter::Passthrough,
        0f64.to_bits(),
        0f64.to_bits(),
    )?;
    let vctx = StackedVectorizedPricingCtx::shift_vector_ctx(
        &StackedVectorizedPricingCtx::shift_base_ctx(&ctx, two),
        one,
        TransformAlignment::Stacked,
    );
    match vctx.price(Measure::Price, &Instrument::Stock(stock)) {
        Err(PricerError::InvalidScenario(msg)) => {
            assert_eq!(msg, "accessing shift definition outside bounds")
        }
        _ => panic!("expected an invalid-scenario error"),
    }
    Ok(())
}

#[test]
fn mismatched_shift_vectors_rejected() {
    let r = TransformDefinition::new_vector_measure_transform(
        Measure::Price,
        InstrumentFilter::Passthrough,
        vec![0f64.to_bits()],
        vec![0f64.to_bits(), 0f64.to_bits()],
    );
    match r {
        Err(PricerError::InvalidScenario(msg)) => {
            assert_eq!(msg, "abs and rel shift lengths differ!")
        }
        _ => panic!("expected an invalid-scenario error"),
    }
}

#[test]
fn ticker_filter_excludes_options() -> Result<(), PricerError> {
    // a ticker filter never wraps the option's own value: only the
    // stock-price dispatches inside its recursion match, so the option
    // reprices as if the spot were shifted, with no shift on top
    let ctx = aapl_option_ctx(100.0, 0.2);
    let td = || {
        TransformDefinition::new_scalar_measure_transform(
            Measure::Price,
            InstrumentFilter::TickerFilter(Ticker("AAPL".to_string())),
            7f64.to_bits(),
            0f64.to_bits(),
        )
        .unwrap()
    };
    let vctx = StackedVectorizedPricingCtx::shift_base_ctx(&ctx, td());
    let stock = Instrument::Stock(Stock::new(Ticker("AAPL".to_string())));
    let shifted_stock = vctx.price(Measure::Price, &stock)?;
    assert_close(eval(&shifted_stock.values[0]).unwrap(), 107.0, 1e-9);
    let option = Instrument::Option(aapl_call(100.0));
    let repriced = eval(
        &aapl_option_ctx(107.0, 0.2).price(Measure::Price, &option)?,
    )
    .unwrap();
    let shifted_option = vctx.price(Measure::Price, &option)?;
    assert_close(eval(&shifted_option.values[0]).unwrap(), repriced, 1e-9);
    Ok(())
}

#[test]
fn option_sub_measures() -> Result<(), PricerError> {
    let option = aapl_call(100.0);
    let ctx = aapl_option_ctx(100.0, 0.2);
    let ins = Instrument::Option(option);
    assert_close(eval(&ctx.price(Measure::UnderlyingPrice, &ins)?).unwrap(), 100.0, 1e-12);
    assert_close(eval(&ctx.price(Measure::Rate, &ins)?).unwrap(), 0.0, 1e-12);
    assert_close(eval(&ctx.price(Measure::Vol, &ins)?).unwrap(), 0.2, 1e-12);
    assert_close(eval(&ctx.price(Measure::TimeToExpiry, &ins)?).unwrap(), 1.0, 1e-12);
    Ok(())
}

#[test]
fn option_exposure_is_spot_times_delta() -> Result<(), PricerError> {
    let option = aapl_call(100.0);
    let ctx = aapl_option_ctx(100.0, 0.2);
    let ins = Instrument::Option(option);
    let spot = eval(&ctx.price(Measure::UnderlyingPrice, &ins)?).unwrap();
    let delta = eval(&ctx.price(Measure::Delta, &ins)?).unwrap();
    let exposure = eval(&ctx.price(Measure::Exposure, &ins)?).unwrap();
    assert_close(exposure, spot * delta, 1e-9);
    Ok(())
}

#[test]
fn put_call_parity_atm_zero_rate() -> Result<(), PricerError> {
    // with r = 0 and strike at spot, C - P = S - K = 0
    let ctx = aapl_option_ctx(100.0, 0.2);
    let call = Instrument::Option(aapl_call(100.0));
    let put = Instrument::Option(StockOption::new(
        Stock::new(Ticker("AAPL".to_string())),
        100f64.to_bits(),
        Date::from_ymd(2022, 8, 31),
        OptionType::Put,
    ));
    let c = eval(&ctx.price(Measure::Price, &call)?).unwrap();
    let p = eval(&ctx.price(Measure::Price, &put)?).unwrap();
    assert_close(c - p, 0.0, 1e-9);
    assert_close(c, 7.965567455405804, 1e-9);
    Ok(())
}

#[test]
fn zero_price_underlying_fails_greeks() {
    // a zero spot makes every ladder point zero: delta evaluates to the
    // flat-ladder zero, not a failure
    let stock = Stock::new(Ticker("AAPL".to_string()));
    let ctx = aapl_stock_ctx(0.0);
    let delta = ctx
        .price(Measure::Delta, &Instrument::Stock(stock))
        .expect("the ladder itself prices");
    assert_close(eval(&delta).unwrap(), 0.0, 1e-12);
}


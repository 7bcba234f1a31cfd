use pricingcore::calendar::Date;
use pricingcore::expr::Expr;
use pricingcore::instrument::{Instrument, Stock, Ticker};
use pricingcore::portfolio::{Portfolio, PositionId};
use pricingcore::pricingengine::{
    EngineError, FilterDef, MarketData, PricingEngine, ScenarioDefinition, ScenarioShift,
};

/// Evaluates the stock-only expressions the engine tests produce.
fn eval_plain(e: &Expr) -> f64 {
    match e {
        Expr::Num(b) => f64::from_bits(*b),
        Expr::YearFraction(d) => *d as f64 / 365.0,
        Expr::Add(a, b) => eval_plain(a) + eval_plain(b),
        Expr::Mul(a, b) => eval_plain(a) * eval_plain(b),
        _ => panic!("unexpected node in a stock-only expression"),
    }
}

fn close(a: f64, b: f64) -> bool {
    (a - b).abs() < 1e-9
}

fn sample_market() -> MarketData {
    let mut md = MarketData::new();
    md.load_market_data_row(
        Date::from_ymd(2021, 8, 31),
        Ticker("AAPL".to_string()),
        105f64.to_bits(),
        0.2f64.to_bits(),
    );
    md.load_market_data_row(
        Date::from_ymd(2021, 8, 31),
        Ticker("MSFT".to_string()),
        50f64.to_bits(),
        0.3f64.to_bits(),
    );
    md
}

#[test]
fn portfolio_accumulates_stock_trades() {
    let mut p = Portfolio::new();
    let aapl = Instrument::Stock(Stock::new(Ticker("AAPL".to_string())));
    p.add_trade(&aapl, 1f64.to_bits()).unwrap();
    p.add_trade(&aapl, 2f64.to_bits()).unwrap();
    let msft = Instrument::Stock(Stock::new(Ticker("MSFT".to_string())));
    p.add_trade(&msft, 5f64.to_bits()).unwrap();
    assert_eq!(p.positions_in_order().len(), 2);
    assert_eq!(p.equity_pos_len(), 2);
    assert_eq!(p.option_trades_len(), 0);
    assert_eq!(p.position_ids.len(), 2);
    assert_eq!(p.position_ids[0].to_string(), "AAPL");
    assert_eq!(p.position_ids[1].to_string(), "MSFT");
    let pos = p.get_position(&PositionId("AAPL".to_string())).unwrap();
    assert!(close(eval_plain(&pos.size), 3.0));
}

#[test]
fn portfolio_option_trades_stand_alone() {
    let mut p = Portfolio::new();
    let option = Instrument::Option(pricingcore::instrument::StockOption::new(
        Stock::new(Ticker("AAPL".to_string())),
        100f64.to_bits(),
        Date::from_ymd(2022, 8, 31),
        pricingcore::instrument::OptionType::Call,
    ));
    p.add_trade(&option, 1f64.to_bits()).unwrap();
    p.add_trade(&option, 1f64.to_bits()).unwrap();
    assert_eq!(p.option_trades_len(), 2);
    assert_eq!(p.position_ids.len(), 2);
    assert_eq!(p.position_ids[0].to_string(), "AAPL20220831C_0");
    assert_eq!(p.position_ids[1].to_string(), "AAPL20220831C_1");
    let data = p.get_position_data();
    assert_eq!(data.len(), 2);
    assert_eq!(data[0].ticker.0, "AAPL");
    assert_eq!(data[0].strike, Some(100f64.to_bits()));
}

#[test]
fn engine_prices_portfolio_rows() {
    let mut p = Portfolio::new();
    let aapl = Instrument::Stock(Stock::new(Ticker("AAPL".to_string())));
    let msft = Instrument::Stock(Stock::new(Ticker("MSFT".to_string())));
    p.add_trade(&aapl, 2f64.to_bits()).unwrap();
    p.add_trade(&msft, 4f64.to_bits()).unwrap();
    let md = sample_market();
    let engine = PricingEngine::new();
    let measures = vec!["price".to_string(), "exposure".to_string()];
    let rows = engine
        .price(&measures, Date::from_ymd(2021, 8, 31), &p, &md)
        .unwrap();
    assert_eq!(rows.len(), 4);
    assert_eq!(rows[0].trade_id, "AAPL");
    assert_eq!(rows[0].measure, "price");
    assert!(close(eval_plain(&rows[0].value), 105.0));
    assert_eq!(rows[1].measure, "exposure");
    assert!(close(eval_plain(&rows[1].value), 2.0 * 105.0));
    assert_eq!(rows[2].trade_id, "MSFT");
    assert!(close(eval_plain(&rows[2].value), 50.0));
    assert!(close(eval_plain(&rows[3].value), 4.0 * 50.0));
}

#[test]
fn engine_reports_missing_market_data_date() {
    let p = Portfolio::new();
    let md = sample_market();
    let engine = PricingEngine::new();
    let r = engine.price(
        &vec!["price".to_string()],
        Date::from_ymd(2021, 9, 1),
        &p,
        &md,
    );
    match r {
        Err(EngineError::NoMarketData(d)) => assert_eq!(d, Date::from_ymd(2021, 9, 1)),
        _ => panic!("expected a no-market-data error"),
    }
}

#[test]
fn engine_price_ladder_rows() {
    let mut p = Portfolio::new();
    let aapl = Instrument::Stock(Stock::new(Ticker("AAPL".to_string())));
    p.add_trade(&aapl, 1f64.to_bits()).unwrap();
    let md = sample_market();
    let engine = PricingEngine::new();
    let ladder = ScenarioShift::new(
        "price",
        FilterDef::new("risk_factor_filter", "equity").unwrap().unwrap(),
        vec![0f64.to_bits(), 0f64.to_bits(), 0f64.to_bits()],
        vec![(-0.1f64).to_bits(), 0f64.to_bits(), 0.1f64.to_bits()],
    )
    .unwrap();
    let rows = engine
        .price_ladder(
            &vec!["price".to_string()],
            Date::from_ymd(2021, 8, 31),
            &p,
            &md,
            &ladder,
        )
        .unwrap();
    assert_eq!(rows.len(), 3);
    let expected = [105.0 * 0.9, 105.0, 105.0 * 1.1];
    for (i, want) in expected.iter().enumerate() {
        assert_eq!(rows[i].trade_id, "AAPL");
        assert_eq!(rows[i].measure, "price");
        assert!(close(eval_plain(&rows[i].measure_value), *want));
        assert_eq!(rows[i].abs_shift, 0f64.to_bits());
    }
    assert_eq!(rows[0].rel_shift, (-0.1f64).to_bits());
    assert_eq!(rows[2].rel_shift, 0.1f64.to_bits());
}

#[test]
fn engine_portfolio_scenario_tensor() {
    let mut p = Portfolio::new();
    let aapl = Instrument::Stock(Stock::new(Ticker("AAPL".to_string())));
    let msft = Instrument::Stock(Stock::new(Ticker("MSFT".to_string())));
    p.add_trade(&aapl, 1f64.to_bits()).unwrap();
    p.add_trade(&msft, 1f64.to_bits()).unwrap();
    let md = sample_market();
    let engine = PricingEngine::new();
    let shift = ScenarioShift::new(
        "price",
        FilterDef::new_passthrough(),
        vec![0f64.to_bits(), 0f64.to_bits()],
        vec![(-0.5f64).to_bits(), 0.5f64.to_bits()],
    )
    .unwrap();
    let scenario = ScenarioDefinition::new(vec![(shift, true)]);
    let tensor = engine
        .price_portfolio_scenario(
            "price",
            Date::from_ymd(2021, 8, 31),
            &p,
            &md,
            &scenario,
        )
        .unwrap();
    assert_eq!(tensor.shape, vec![2, 2]);
    let expected = [52.5, 157.5, 25.0, 75.0];
    for (i, want) in expected.iter().enumerate() {
        assert!(close(eval_plain(&tensor.values[i]), *want));
    }
}

#[test]
fn engine_empty_scenario_is_rejected() {
    let p = Portfolio::new();
    let md = sample_market();
    let engine = PricingEngine::new();
    let scenario = ScenarioDefinition::new(vec![]);
    let r = engine.price_portfolio_scenario(
        "price",
        Date::from_ymd(2021, 8, 31),
        &p,
        &md,
        &scenario,
    );
    assert!(matches!(r, Err(EngineError::NoShifts)));
}

#[test]
fn option_trade_ids_pad_dates() {
    let mut p = Portfolio::new();
    let option = Instrument::Option(pricingcore::instrument::StockOption::new(
        Stock::new(Ticker("AAPL".to_string())),
        95f64.to_bits(),
        Date::from_ymd(2022, 1, 5),
        pricingcore::instrument::OptionType::Put,
    ));
    p.add_trade(&option, 1f64.to_bits()).unwrap();
    assert_eq!(p.position_ids[0].to_string(), "AAPL20220105P_0");
}

#[test]
fn market_data_later_rows_win() {
    let mut md = MarketData::new();
    let date = Date::from_ymd(2021, 8, 31);
    md.load_market_data_row(date, Ticker("AAPL".to_string()), 100f64.to_bits(), 0.2f64.to_bits());
    md.load_market_data_row(date, Ticker("AAPL".to_string()), 101f64.to_bits(), 0.3f64.to_bits());
    let mut p = Portfolio::new();
    let aapl = Instrument::Stock(Stock::new(Ticker("AAPL".to_string())));
    p.add_trade(&aapl, 1f64.to_bits()).unwrap();
    let engine = PricingEngine::new();
    let rows = engine
        .price(&vec!["price".to_string()], date, &p, &md)
        .unwrap();
    assert!(close(eval_plain(&rows[0].value), 101.0));
}


use fmp_polling::auth_config::{AuthConfig, Config, ConfigHeader, WebsocketConfig};
use fmp_polling::financial::{all_statements, statement_request, Statement};
use fmp_polling::json::{JsonNumber, JsonValue};
use fmp_polling::options::{EconomicIndicatorType, FetchType};
use fmp_polling::request::{ApiRequest, ApiVersion, HTTPClient};
use fmp_polling::{commodity, economic_data, forex, market, search, stock, technical_indicators};

fn client() -> HTTPClient {
    HTTPClient::with_config(Config {
        header: ConfigHeader::new("h".to_string()),
        auth: AuthConfig { token: "tok".to_string() },
        websocket: WebsocketConfig {
            concurrency_limit: 2,
            batch_size: 3,
            retry_attempts: 2,
            backoff_ms: 10,
            rate_limit_per_second: 1,
            cache_ttl: 60,
        },
    })
}

fn pairs(v: &[(&str, &str)]) -> Vec<(String, String)> {
    v.iter().map(|(a, b)| (a.to_string(), b.to_string())).collect()
}

fn check(r: &ApiRequest, version: ApiVersion, path: &str, query: Option<Vec<(String, String)>>) {
    assert_eq!(r.version, version);
    assert_eq!(r.path, path);
    assert_eq!(r.query, query);
}

fn obj(entries: Vec<(&str, JsonValue)>) -> JsonValue {
    JsonValue::Object(entries.into_iter().map(|(k, v)| (k.to_string(), v)).collect())
}

fn s(x: &str) -> JsonValue {
    JsonValue::String(x.to_string())
}

#[test]
fn stock_validation() {
    let ok = stock::validate_tickers(vec!["A".to_string()], 1).unwrap();
    assert_eq!(ok, vec!["A"]);
    match stock::validate_tickers(vec!["A".to_string(), "B".to_string()], 1) {
        Err(stock::StockError::TooManyTickersError(m)) => assert_eq!(m, "Too many tickers: 2"),
        other => panic!("{:?}", other),
    }
    match stock::validate_tickers(vec![], 0) {
        Err(e @ stock::StockError::VoidTickersError(_)) => {
            assert_eq!(e.to_string(), "No tickers provided: No tickers provided")
        },
        other => panic!("{:?}", other),
    }
}

#[test]
fn stock_poll_arguments() {
    let args = obj(vec![
        ("tickers", JsonValue::Array(vec![s("AAPL"), JsonValue::Null, s("MSFT")])),
        ("fetch_type", s("profile")),
    ]);
    let (t, f) = stock::parse_poll_args(&args).unwrap();
    assert_eq!(t, vec!["AAPL", "MSFT"]);
    assert_eq!(f, FetchType::Profile);
    match stock::parse_poll_args(&obj(vec![("fetch_type", s("quote"))])) {
        Err(stock::StockError::ParseError(m)) => assert_eq!(m, "Missing 'tickers' field"),
        other => panic!("{:?}", other),
    }
    match stock::parse_poll_args(&obj(vec![("tickers", JsonValue::Array(vec![]))])) {
        Err(stock::StockError::ParseError(m)) => assert_eq!(m, "Missing 'fetch_type' field"),
        other => panic!("{:?}", other),
    }
}

fn endpoint(f: stock::StockFetch) -> (String, ApiRequest, String) {
    match f {
        stock::StockFetch::Endpoint { fetch, context } => (fetch.cache_key, fetch.request, context),
        stock::StockFetch::Financial { .. } => panic!("expected an endpoint"),
    }
}

#[test]
fn stock_endpoints() {
    let c = client();
    let (k, r, ctx) = endpoint(stock::quote_fetch(&c, "AAPL"));
    assert_eq!(k, "quote/AAPL");
    check(&r, ApiVersion::V3, "quote/AAPL", None);
    assert_eq!(ctx, "Failed to fetch quote for AAPL");
    let (k, r, _) = endpoint(stock::profile_fetch(&c, "AAPL"));
    assert_eq!(k, "stock/AAPL");
    check(&r, ApiVersion::V3, "profile/AAPL", None);
    let (k, r, _) = endpoint(stock::outlook_fetch(&c, "AAPL"));
    assert_eq!(k, "outlook/AAPL");
    check(&r, ApiVersion::V4, "company-outlook", Some(pairs(&[("symbol", "AAPL")])));
    let (k, r, _) = endpoint(stock::history_fetch(
        &c,
        "AAPL",
        Some("2024-01-01".to_string()),
        None,
        Some("line".to_string()),
        Some(5),
    ));
    assert_eq!(k, "history/AAPL");
    check(
        &r,
        ApiVersion::V3,
        "historical-price-full/AAPL",
        Some(pairs(&[("from", "2024-01-01"), ("serietype", "line")])),
    );
    let (_, r, _) = endpoint(stock::dividend_history_fetch(&c, "AAPL"));
    check(&r, ApiVersion::V3, "historical-price-full/stock_dividend/AAPL", None);
    let (k, r, _) = endpoint(stock::split_history_fetch("AAPL"));
    assert_eq!(k, "split_history/AAPL");
    check(&r, ApiVersion::V3, "stock_split", None);
    let (k, r, ctx) = endpoint(stock::list_fetch());
    assert_eq!(k, "stock/list");
    check(&r, ApiVersion::V3, "stock/list", None);
    assert_eq!(ctx, "Failed to fetch stock list");
}

#[test]
fn stock_task_dispatch() {
    let c = client();
    match stock::plan_ticker_fetch(&c, "IBM", FetchType::Financial).unwrap() {
        stock::StockFetch::Financial { cache_key, context } => {
            assert_eq!(cache_key, "financial/IBM");
            assert_eq!(context, "Failed to fetch financial data for IBM");
        },
        other => panic!("{:?}", other),
    }
    let (_, r, _) = endpoint(stock::plan_ticker_fetch(&c, "IBM", FetchType::Rating).unwrap());
    check(&r, ApiVersion::V3, "company/rating/IBM", None);
    let (_, r, _) = endpoint(stock::plan_ticker_fetch(&c, "IBM", FetchType::History).unwrap());
    check(&r, ApiVersion::V3, "historical-price-full/IBM", Some(vec![]));
    match stock::plan_ticker_fetch(&c, "IBM", FetchType::SectorPERatio) {
        Err(stock::StockError::TaskError(m)) => assert_eq!(m, "Invalid task: Sector PERatio"),
        other => panic!("{:?}", other),
    }
}

#[test]
fn stock_error_wrapping() {
    let e = stock::fetch_failure("Failed to fetch quote for X", "timeout");
    assert_eq!(e.to_string(), "Failed to fetch data: Failed to fetch quote for X: timeout");
    let w = stock::rewrap(&e);
    assert_eq!(w.to_string(), "Failed to fetch data: Failed to fetch data: Failed to fetch quote for X: timeout");
    let outcomes: Vec<Option<Result<u32, stock::StockError>>> = vec![
        Some(Ok(1)),
        None,
        Some(Err(stock::StockError::TaskError("bad".to_string()))),
        Some(Err(stock::StockError::ParseError("later".to_string()))),
    ];
    match stock::merge_batch_outcomes(outcomes) {
        Err(stock::StockError::FetchError(m)) => assert_eq!(m, "Task encountered an error: bad"),
        other => panic!("{:?}", other),
    }
    let fine: Vec<Option<Result<u32, stock::StockError>>> = vec![Some(Ok(1)), None, Some(Ok(3))];
    assert_eq!(stock::merge_batch_outcomes(fine).unwrap(), vec![1, 3]);
}

#[test]
fn financial_statements() {
    let c = client();
    check(
        &statement_request(&c, "AAPL", Statement::Income, None),
        ApiVersion::V3,
        "income-statement/AAPL",
        Some(pairs(&[("period", "annual")])),
    );
    check(
        &statement_request(&c, "AAPL", Statement::CompanyValue, None),
        ApiVersion::V3,
        "enterprise-values/AAPL",
        Some(pairs(&[("period", "quarter")])),
    );
    check(
        &statement_request(&c, "AAPL", Statement::Balance, Some("quarter".to_string())),
        ApiVersion::V3,
        "balance-sheet-statement/AAPL",
        Some(pairs(&[("period", "quarter")])),
    );
    check(&statement_request(&c, "AAPL", Statement::Metrics, None), ApiVersion::V3, "key-metrics-ttm", None);
    check(&statement_request(&c, "AAPL", Statement::Ratios, None), ApiVersion::V3, "ratios-ttm/AAPL", None);
    check(
        &statement_request(&c, "AAPL", Statement::Dcf, None),
        ApiVersion::V4,
        "advanced_discounted_cash_flow",
        Some(pairs(&[("symbol", "AAPL")])),
    );
    let names: Vec<String> = all_statements().into_iter().map(|(n, _)| n).collect();
    assert_eq!(names, vec!["income", "balance", "cashflow", "metrics", "growth", "company_value", "ratios", "dcf"]);
}

#[test]
fn market_plans() {
    let c = client();
    let args = obj(vec![
        ("fetch_type", s("sector_pe_ratio")),
        ("exchange", s("NYSE")),
        ("limit", JsonValue::Number(JsonNumber::PosInt(4_294_967_297))),
    ]);
    let a = market::parse_poll_args(&args).unwrap();
    assert_eq!(a.fetch_type, FetchType::SectorPERatio);
    assert_eq!(a.limit, Some(1));
    let f = market::plan_market_fetch(&c, &a, "2024-05-06 07:08:09").unwrap();
    assert_eq!(f.cache_key, "market_sector_peratio/NYSE");
    check(
        &f.request,
        ApiVersion::V4,
        "sector_price_earning_ratio",
        Some(pairs(&[("date", "2024-05-06"), ("exchange", "NYSE")])),
    );
    let a = market::parse_poll_args(&obj(vec![("fetch_type", s("industry_pe_ratio")), ("date", s("2020-01-01"))])).unwrap();
    let f = market::plan_market_fetch(&c, &a, "2024-05-06 07:08:09").unwrap();
    assert_eq!(f.cache_key, "market_industry_peratio/");
    check(&f.request, ApiVersion::V4, "industry_price_earning_ratio", Some(pairs(&[("date", "2020-01-01")])));
    let a = market::parse_poll_args(&obj(vec![("fetch_type", s("gainers"))])).unwrap();
    let f = market::plan_market_fetch(&c, &a, "x").unwrap();
    assert_eq!(f.cache_key, "market_gainers");
    check(&f.request, ApiVersion::V3, "stock_market/gainers", None);
    let a = market::parse_poll_args(&obj(vec![("fetch_type", s("sector_historical_performance")), ("from", s("a")), ("limit", JsonValue::Number(JsonNumber::PosInt(3)))])).unwrap();
    let f = market::plan_market_fetch(&c, &a, "x").unwrap();
    check(&f.request, ApiVersion::V3, "historical-sectors-performance", Some(pairs(&[("from", "a")])));
    let a = market::parse_poll_args(&obj(vec![("fetch_type", s("quote"))])).unwrap();
    match market::plan_market_fetch(&c, &a, "x") {
        Err(market::MarketError::TaskError(m)) => assert_eq!(m, "Invalid fetch type"),
        other => panic!("{:?}", other),
    }
    match market::parse_poll_args(&obj(vec![])) {
        Err(market::MarketError::ParseError(m)) => assert_eq!(m, "Fetch type not defined"),
        other => panic!("{:?}", other),
    }
}

#[test]
fn economic_plans() {
    let c = client();
    let a = economic_data::parse_poll_args(&obj(vec![("fetch_type", s("market_indicator")), ("indicator", s("CPI"))])).unwrap();
    assert_eq!(a.indicator, Some(EconomicIndicatorType::CPI));
    let f = economic_data::plan_economic_fetch(&c, &a).unwrap();
    assert_eq!(f.cache_key, "CPI");
    check(&f.request, ApiVersion::V4, "economic", Some(pairs(&[("name", "CPI")])));
    let a = economic_data::parse_poll_args(&obj(vec![("fetch_type", s("market_indicator")), ("indicator", s("nonsense"))])).unwrap();
    match economic_data::plan_economic_fetch(&c, &a) {
        Err(economic_data::EconomicDataError::FetchError(m)) => {
            let expected = [
                "Indicator type is required by this ",
                "task but is  not provided",
            ]
            .concat();
            assert_eq!(m, expected)
        },
        other => panic!("{:?}", other),
    }
    let a = economic_data::parse_poll_args(&obj(vec![("fetch_type", s("treasury_rate")), ("from", s("2024-01-01"))])).unwrap();
    let f = economic_data::plan_economic_fetch(&c, &a).unwrap();
    assert_eq!(f.cache_key, "tresaury_rates-2024-01-01-");
    check(&f.request, ApiVersion::V4, "treasury", Some(pairs(&[("from", "2024-01-01")])));
    let a = economic_data::parse_poll_args(&obj(vec![("fetch_type", s("market_calendar")), ("to", s("b"))])).unwrap();
    let f = economic_data::plan_economic_fetch(&c, &a).unwrap();
    assert_eq!(f.cache_key, "calendar--b");
    check(&f.request, ApiVersion::V3, "economic_calendar", Some(pairs(&[("to", "b")])));
    let a = economic_data::parse_poll_args(&obj(vec![("fetch_type", s("market_risk_premium"))])).unwrap();
    let f = economic_data::plan_economic_fetch(&c, &a).unwrap();
    check(&f.request, ApiVersion::V4, "market_risk_premium", None);
    let a = economic_data::parse_poll_args(&obj(vec![("fetch_type", s("gainers"))])).unwrap();
    match economic_data::plan_economic_fetch(&c, &a) {
        Err(e @ economic_data::EconomicDataError::TaskError(_)) => {
            assert_eq!(e.to_string(), "Task encountered an error: Invalid Task: Gainers")
        },
        other => panic!("{:?}", other),
    }
    match economic_data::parse_poll_args(&obj(vec![])) {
        Err(economic_data::EconomicDataError::ParseError(m)) => assert_eq!(m, "Fetch type is not provided"),
        other => panic!("{:?}", other),
    }
    assert_eq!(
        economic_data::EconomicDataError::VoidEconomicDataError("x".to_string()).to_string(),
        "No economic data provided: x"
    );
}

#[test]
fn indicator_plans() {
    let c = client();
    let args = obj(vec![
        ("tickers", JsonValue::Array(vec![s("AAPL")])),
        ("fetch_type", s("technical_indicator")),
        ("indicator", s("EMA")),
        ("period", JsonValue::Number(JsonNumber::PosInt(14))),
        ("timeframe", s("1hour")),
        ("from", s("2024-01-02 10:20:30:400")),
    ]);
    let a = technical_indicators::parse_poll_args(&args).unwrap();
    let f = technical_indicators::plan_indicator_fetch(
        &c, "AAPL", a.fetch_type, &a.indicator, &a.timeframe, a.period, &a.from, &a.to,
    )
    .unwrap();
    assert_eq!(
        f.cache_key,
        "AAPL-ema-1hour-14-Some(DateTime { year: \"2024\", month: \"01\", day: \"02\", hour: Some(\"10\"), minute: Some(\"20\"), second: Some(\"30\"), millisecond: Some(\"400\") })-None"
    );
    check(
        &f.request,
        ApiVersion::V3,
        "technical_indicator/1hour/AAPL",
        Some(pairs(&[("from", "2024-01-02"), ("period", "14"), ("type", "ema")])),
    );
    let f = technical_indicators::plan_indicator_fetch(
        &c, "X", FetchType::TechnicalIndicator, "unknown", "7min", 3, &None, &None,
    )
    .unwrap();
    assert_eq!(f.cache_key, "X-sma-1day-3-None-None");
    match technical_indicators::plan_indicator_fetch(&c, "X", FetchType::Quote, "sma", "1day", 3, &None, &None) {
        Err(technical_indicators::IndicatorError::FetchError(m)) => assert_eq!(m, "Invalid fetch type"),
        other => panic!("{:?}", other),
    }
    let missing = obj(vec![("tickers", JsonValue::Array(vec![])), ("fetch_type", s("x")), ("indicator", s("sma"))]);
    match technical_indicators::parse_poll_args(&missing) {
        Err(technical_indicators::IndicatorError::ParseError(m)) => assert_eq!(m, "Missing 'period' field"),
        other => panic!("{:?}", other),
    }
    let e = technical_indicators::task_failure(&technical_indicators::rewrap(&technical_indicators::fetch_failure("boom")));
    assert_eq!(e.to_string(), "Task encountered an error: Failed to fetch data: Failed to fetch data: boom");
}

#[test]
fn forex_normalisation_and_plans() {
    assert_eq!(forex::normalize_symbol("eur"), "EURUSD");
    assert_eq!(forex::normalize_symbol("usdjpy"), "USDJPY");
    assert_eq!(forex::normalize_symbol(&forex::normalize_symbol("gbp")), "GBPUSD");
    let c = client();
    let args = obj(vec![("tickers", JsonValue::Array(vec![s("eur"), s("USDCAD")])), ("fetch_type", s("intraday")), ("from", s("2024-01-02 01:02:03:004"))]);
    let a = forex::parse_poll_args(&args).unwrap();
    assert_eq!(a.tickers, vec!["EURUSD", "USDCAD"]);
    let f = forex::plan_forex_fetch(&c, &a.tickers[0], a.fetch_type, &a.timeframe, &a.from, &a.to).unwrap();
    assert_eq!(f.cache_key, "EURUSD--2024-01-02 01:02:03:004-");
    check(&f.request, ApiVersion::V3, "history-chart/5min/EURUSD", Some(pairs(&[("from", "2024-01-02 01:02:03:004")])));
    let f = forex::plan_forex_fetch(&c, "jpy", FetchType::Daily, &None, &None, &None).unwrap();
    assert_eq!(f.cache_key, "forex_daily_jpy");
    check(&f.request, ApiVersion::V3, "historical-price-full/JPYUSD", None);
    match forex::plan_forex_fetch(&c, "jpy", FetchType::DividendHistory, &None, &None, &None) {
        Err(forex::ForexError::TaskError(m)) => assert_eq!(m, "Invalid fecth type: DividendHistory"),
        other => panic!("{:?}", other),
    }
    check(&forex::list_request(), ApiVersion::V3, "symbol/available-forex-currency-pairs", None);
    let reports = forex::report_outcomes::<u8>(vec![
        Some(Ok(5)),
        Some(Err(forex::ForexError::InvalidTicker("Q".to_string()))),
        None,
    ]);
    assert!(matches!(reports[0], fmp_polling::utils::Reported::Value(5)));
    assert!(matches!(&reports[1], fmp_polling::utils::Reported::Error(m) if m == "Invalid ticker: Q"));
    assert!(matches!(&reports[2], fmp_polling::utils::Reported::Error(m) if m == "Task panicked"));
}

#[test]
fn commodity_plans() {
    let c = client();
    check(&commodity::list_request(), ApiVersion::V3, "symbol/available-commodities", None);
    let r = commodity::plan_symbol_fetch(&c, "GCUSD", FetchType::IntraDay, "1hour", &None, &Some("2024-01-02 00:00:00:000".to_string())).unwrap();
    check(&r, ApiVersion::V3, "historical-chart/1hour/GCUSD", Some(pairs(&[("to", "2024-01-02 00:00:00:000")])));
    let r = commodity::plan_symbol_fetch(&c, "GCUSD", FetchType::Daily, "x", &None, &None).unwrap();
    check(&r, ApiVersion::V3, "historical-price-full/GCUSD", None);
    assert!(commodity::plan_symbol_fetch(&c, "GCUSD", FetchType::Quote, "x", &None, &None).is_none());
    assert!(commodity::validate_tickers(vec!["a".to_string(); 4], 3).is_err());
    assert_eq!(commodity::fetch_failure("net").to_string(), "Failed to fetch data: net");
}

#[test]
fn search_plan() {
    let c = client();
    let a = search::parse_find_args(&obj(vec![("keyword", s("apple")), ("limit", JsonValue::Number(JsonNumber::PosInt(10))), ("exchange", s("NASDAQ"))])).unwrap();
    assert_eq!(a.limit, Some(10));
    check(
        &search::search_request(&c, &a),
        ApiVersion::V3,
        "search",
        Some(pairs(&[("exchange", "NASDAQ"), ("query", "apple")])),
    );
    match search::parse_find_args(&obj(vec![])) {
        Err(e) => assert_eq!(e.to_string(), "Failed to fetch data: Missing 'keyword' field"),
        Ok(_) => panic!("expected an error"),
    }
}

#[test]
fn economic_cache_keys_differ_between_kinds() {
    let c = client();
    let kinds = [
        vec![("fetch_type", s("market_indicator")), ("indicator", s("consumerSentiment"))],
        vec![("fetch_type", s("market_indicator")), ("indicator", s("CPI"))],
        vec![("fetch_type", s("treasury_rate"))],
        vec![("fetch_type", s("market_risk_premium"))],
        vec![("fetch_type", s("market_calendar"))],
    ];
    let mut keys = Vec::new();
    for k in kinds {
        let a = economic_data::parse_poll_args(&obj(k)).unwrap();
        keys.push(economic_data::plan_economic_fetch(&c, &a).unwrap().cache_key);
    }
    for i in 0..keys.len() {
        for j in 0..keys.len() {
            if i != j {
                assert_ne!(keys[i], keys[j]);
            }
        }
    }
    assert_eq!(keys[2], "tresaury_rates--");
    assert_eq!(keys[4], "calendar--");
}

#[test]
fn ticker_outcomes_merge_in_order() {
    let ok: Vec<Result<Result<u32, stock::StockError>, String>> = vec![Ok(Ok(1)), Ok(Ok(2))];
    assert_eq!(stock::merge_ticker_outcomes(ok).unwrap(), vec![1, 2]);
    let first_error = vec![
        Ok(Ok(1)),
        Ok(Err(stock::StockError::TaskError("bad".to_string()))),
        Err("task 3 panicked".to_string()),
    ];
    match stock::merge_ticker_outcomes(first_error) {
        Err(stock::StockError::TaskError(m)) => assert_eq!(m, "bad"),
        other => panic!("unexpected {:?}", other),
    }
    let panicked_first: Vec<Result<Result<u32, stock::StockError>, String>> = vec![
        Err("task 1 panicked".to_string()),
        Ok(Err(stock::StockError::TaskError("bad".to_string()))),
    ];
    match stock::merge_ticker_outcomes(panicked_first) {
        Err(stock::StockError::FetchError(m)) => assert_eq!(m, "task 1 panicked"),
        other => panic!("unexpected {:?}", other),
    }
}

use fmp_polling::options::{
    reprint, DateTime, EconomicData, EconomicIndicatorType, Either, FetchType, IndicatorType,
    TimeFrame,
};

#[test]
fn time_frame_names_round_trip() {
    let all = [
        TimeFrame::OneMinute,
        TimeFrame::FiveMinutes,
        TimeFrame::FifteenMinutes,
        TimeFrame::ThirtyMinutes,
        TimeFrame::OneHour,
        TimeFrame::FourHours,
        TimeFrame::OneDay,
    ];
    for t in all {
        assert_eq!(TimeFrame::from_str(t.to_str()), Some(t));
        assert_eq!(t.to_string(), t.to_str());
    }
    assert_eq!(TimeFrame::OneHour.to_str(), "1hour");
    assert_eq!(TimeFrame::from_str("15min"), Some(TimeFrame::FifteenMinutes));
    assert_eq!(TimeFrame::from_str("2min"), None);
    assert_eq!(TimeFrame::from_str("1MIN"), None);
}

#[test]
fn date_time_parses_full_timestamp() {
    let d = DateTime::from_str("2024-01-02 10:20:30:400").unwrap();
    assert_eq!(d.year, "2024");
    assert_eq!(d.month, "01");
    assert_eq!(d.day, "02");
    assert_eq!(d.hour.as_deref(), Some("10"));
    assert_eq!(d.minute.as_deref(), Some("20"));
    assert_eq!(d.second.as_deref(), Some("30"));
    assert_eq!(d.millisecond.as_deref(), Some("400"));
    assert_eq!(d.to_string(), "2024-01-02 10:20:30:400");
    assert_eq!(d.year_month_and_day(), "2024-01-02");
    assert_eq!(d.display_text(), "2024-01-02 2024-01-02 10:20:30:400");
}

#[test]
fn date_time_round_trip_through_text() {
    let d = DateTime::from_str("1999-12-31 23:59:59:999").unwrap();
    let again = DateTime::from_str(&d.to_string()).unwrap();
    assert_eq!(again.to_string(), d.to_string());
    assert_eq!(again.millisecond, d.millisecond);
}

#[test]
fn date_time_rejects_incomplete_text() {
    let msg = "Invalid date time format. Use `YYYY-MM-DD HH:MM:SS.MS`";
    assert_eq!(DateTime::from_str("2024-01-02").unwrap_err(), msg);
    assert_eq!(DateTime::from_str("2024-01-02 10:20:30.400").unwrap_err(), msg);
    assert_eq!(DateTime::from_str("").unwrap_err(), msg);
    assert_eq!(DateTime::from_str("24-01-02 10:20:30:400").unwrap_err(), msg);
    assert_eq!(DateTime::from_str("2024-1-02 10:20:30:400").unwrap_err(), msg);
}

#[test]
fn date_time_takes_seven_dash_parts_without_time() {
    let d = DateTime::from_str("2024-01-02-10-20-30-400").unwrap();
    assert_eq!(d.hour.as_deref(), Some("10"));
    assert_eq!(d.millisecond.as_deref(), Some("400"));
}

#[test]
fn date_time_from_slice_checks_lengths() {
    let parts: Vec<String> = ["2024", "01", "02", "1", "2", "3", "4", "extra"]
        .iter()
        .map(|s| s.to_string())
        .collect();
    let d = DateTime::from_slice(parts).unwrap();
    assert_eq!(d.to_string(), "2024-01-02 1:2:3:4");
    let short: Vec<String> = ["2024", "01", "02"].iter().map(|s| s.to_string()).collect();
    assert!(DateTime::from_slice(short).is_none());
    let wide: Vec<String> = ["2024", "001", "02", "1", "2", "3", "4"]
        .iter()
        .map(|s| s.to_string())
        .collect();
    assert!(DateTime::from_slice(wide).is_none());
}

#[test]
fn date_time_debug_text_matches_derive() {
    let d = DateTime::from_str("2024-01-02 10:20:30:400").unwrap();
    assert_eq!(d.debug_string(), format!("{:?}", d));
}

#[test]
fn reprint_normalises_dates() {
    assert_eq!(reprint(&Some("2024-01-02-10-20-30-400".to_string())).as_deref(), Some("2024-01-02 10:20:30:400"));
    assert_eq!(reprint(&None), None);
}

#[test]
fn fetch_type_names() {
    assert_eq!(FetchType::from_str("quote"), FetchType::Quote);
    assert_eq!(FetchType::from_str("dividend_history"), FetchType::DividendHistory);
    assert_eq!(FetchType::from_str("sector_performance"), FetchType::Performance);
    assert_eq!(FetchType::from_str("market_calendar"), FetchType::MarketCalendar);
    assert_eq!(FetchType::from_str("Quote"), FetchType::Unknownn);
    assert_eq!(FetchType::from_str(""), FetchType::Unknownn);
    assert_eq!(FetchType::DividendHistory.to_string(), "Dividend History");
    assert_eq!(FetchType::Unknownn.to_string(), "Unknown");
    assert_eq!(FetchType::IndustryPERatio.to_string(), "Industry PERatio");
    assert_eq!(FetchType::DividendHistory.debug_string(), "DividendHistory");
    assert_eq!(FetchType::Unknownn.debug_string(), format!("{:?}", FetchType::Unknownn));
}

#[test]
fn either_splits_and_trims() {
    match Either::from_str(" AAPL , MSFT,GOOG ") {
        Either::Array(v) => assert_eq!(v, vec!["AAPL", "MSFT", "GOOG"]),
        Either::Single(_) => panic!("expected a list"),
    }
    match Either::from_str("  AAPL\t") {
        Either::Single(s) => assert_eq!(s, "AAPL"),
        Either::Array(_) => panic!("expected one symbol"),
    }
    match Either::from_str("A,") {
        Either::Array(v) => assert_eq!(v, vec!["A", ""]),
        Either::Single(_) => panic!("expected a list"),
    }
    assert_eq!(Either::from_str("X, Y").into_iter(), vec!["X", "Y"]);
}

#[test]
fn either_from_vec_keeps_items() {
    let one = Either::from_vec(vec!["BTC".to_string()]);
    assert!(matches!(one, Either::Single(ref s) if s == "BTC"));
    assert_eq!(one.into_iter(), vec!["BTC"]);
    let none = Either::from_vec(vec![]);
    assert!(matches!(none, Either::Array(ref v) if v.is_empty()));
    let two = Either::from_vec(vec!["A".to_string(), "B".to_string()]);
    assert_eq!(two.into_iter(), vec!["A", "B"]);
}

#[test]
fn indicator_names_ignore_case() {
    assert_eq!(IndicatorType::from_str("SMA"), Some(IndicatorType::sma));
    assert_eq!(IndicatorType::from_str("Williams"), Some(IndicatorType::williams));
    assert_eq!(IndicatorType::from_str("macd"), None);
    assert_eq!(IndicatorType::from_lowercase("rsi"), Some(IndicatorType::rsi));
    assert_eq!(IndicatorType::adx.as_str(), "adx");
    assert_eq!(IndicatorType::tema.to_string(), "tema");
}

#[test]
fn indicator_standard_deviation_never_parses() {
    assert_eq!(IndicatorType::standardDeviation.as_str(), "standardDeviation");
    assert_eq!(IndicatorType::from_str("standardDeviation"), None);
    assert_eq!(IndicatorType::from_lowercase("standardDeviation"), Some(IndicatorType::standardDeviation));
}

#[test]
fn indicator_round_trip_except_standard_deviation() {
    let all = [
        IndicatorType::sma,
        IndicatorType::ema,
        IndicatorType::wma,
        IndicatorType::dema,
        IndicatorType::tema,
        IndicatorType::williams,
        IndicatorType::rsi,
        IndicatorType::adx,
    ];
    for t in all {
        assert_eq!(IndicatorType::from_str(t.as_str()), Some(t));
    }
}

#[test]
fn economic_indicator_names() {
    assert_eq!(EconomicIndicatorType::from_str("GDP"), Some(EconomicIndicatorType::GDP));
    assert_eq!(EconomicIndicatorType::from_str("realgdp"), Some(EconomicIndicatorType::realGDP));
    assert_eq!(EconomicIndicatorType::from_str("CPI"), Some(EconomicIndicatorType::CPI));
    assert_eq!(
        EconomicIndicatorType::from_str("UnemploymentRate"),
        Some(EconomicIndicatorType::unemploymentRate)
    );
    assert_eq!(EconomicIndicatorType::from_str("realGDPPerCapita"), None);
    assert_eq!(
        EconomicIndicatorType::from_str("realgdpcapita"),
        Some(EconomicIndicatorType::realGDPPerCapita)
    );
    assert_eq!(EconomicIndicatorType::realGDPPerCapita.as_str(), "realGDPPerCapita");
    assert_eq!(EconomicIndicatorType::inflation.to_string(), "inflation");
}

#[test]
fn economic_data_names() {
    assert_eq!(EconomicData::from_str("Treasury"), Some(EconomicData::Treasury));
    assert_eq!(EconomicData::from_str("riskPremium"), Some(EconomicData::RiskPremium));
    assert_eq!(EconomicData::from_str("risk_premium"), None);
    assert_eq!(EconomicData::RiskPremium.as_str(), "riskPremium");
    assert_eq!(EconomicData::Indicator.to_string(), "indicator");
}

#[test]
fn indicator_lookups_ignore_ascii_case() {
    for name in ["RSI", "Sma", "eMa", "WILLIAMS", "adx", "macd", "StandardDeviation"] {
        assert_eq!(IndicatorType::from_str(name), IndicatorType::from_str(&name.to_lowercase()));
    }
    assert_eq!(IndicatorType::from_str("RSI"), Some(IndicatorType::rsi));
    assert_eq!(IndicatorType::from_str("macd"), None);
    for name in ["gdp", "RealGDP", "cpi", "INFLATION", "realgdpcapita", "unknown"] {
        assert_eq!(
            EconomicIndicatorType::from_str(name),
            EconomicIndicatorType::from_str(&name.to_lowercase())
        );
    }
    assert_eq!(
        EconomicIndicatorType::from_str("RealGDPCapita"),
        Some(EconomicIndicatorType::realGDPPerCapita)
    );
}

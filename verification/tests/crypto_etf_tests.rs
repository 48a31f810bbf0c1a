use fmp_polling::auth_config::{AuthConfig, Config, ConfigHeader, WebsocketConfig};
use fmp_polling::options::FetchType;
use fmp_polling::request::{ApiVersion, HTTPClient};
use fmp_polling::{crypto, crypto_batch, etf};

fn client() -> HTTPClient {
    HTTPClient::with_config(Config {
        header: ConfigHeader::new("h".to_string()),
        auth: AuthConfig { token: "tok".to_string() },
        websocket: WebsocketConfig {
            concurrency_limit: 1,
            batch_size: 2,
            retry_attempts: 1,
            backoff_ms: 1,
            rate_limit_per_second: 1,
            cache_ttl: 1,
        },
    })
}

fn strings(v: &[&str]) -> Vec<String> {
    v.iter().map(|s| s.to_string()).collect()
}

#[test]
fn crypto_symbols_and_keys() {
    assert_eq!(crypto::normalize_symbol("btc"), "BTCUSD");
    let keys = crypto::quote_cache_keys(&crypto::Either::Array(strings(&["btc", "ethusd"])));
    assert_eq!(keys, vec!["BTCUSD", "ETHUSD"]);
    let keys = crypto::quote_cache_keys(&crypto::Either::Single("sol".to_string()));
    assert_eq!(keys, vec!["SOLUSD"]);
    let k = crypto::history_cache_key(
        &crypto::Either::Array(strings(&["btc", "eth"])),
        &None,
        &Some("2024".to_string()),
        &None,
        Some(-5),
    );
    assert_eq!(k, "history:BTCUSD,ETHUSD::2024::-5");
    let k = crypto::history_cache_key(&crypto::Either::Single("btc".to_string()), &None, &None, &None, None);
    assert_eq!(k, "history:BTCUSD::::0");
}

#[test]
fn crypto_listed_check() {
    let listed = strings(&["BTCUSD", "ETHUSD"]);
    assert_eq!(crypto::validate_tickers(Some(strings(&["ETHUSD"])), &listed).unwrap(), vec!["ETHUSD"]);
    match crypto::validate_tickers(Some(strings(&["BTCUSD", "X\"Y", "Z"])), &listed) {
        Err(e @ crypto::CryptoError::ParseError(_)) => {
            let expected_msg = format!("Invalid ticker symbols: {:?}", vec!["X\"Y", "Z"]);
            assert_eq!(e.to_string(), format!("ParseError({:?})", expected_msg));
        },
        other => panic!("{:?}", other),
    }
    match crypto::validate_tickers(None, &listed) {
        Err(e) => assert_eq!(e.to_string(), "VoidTickersError(\"No tickers provided\")"),
        Ok(_) => panic!("expected an error"),
    }
    assert_eq!(crypto::fetch_failure("a").to_string(), "FetchError(\"a\")");
}

#[test]
fn etf_keys_and_lifetimes() {
    let k = etf::EtfHistory::Prices.cache_key("SPY", &Some("2024-01-01".to_string()), &None, &None, Some(-3));
    assert_eq!(k, format!("history_SPY_{:?}_{:?}_{:?}_{:?}", Some("2024-01-01"), None::<&str>, None::<&str>, Some(-3)));
    let k = etf::EtfHistory::Dividends.cache_key("QQQ", &None, &None, &Some("line".to_string()), None);
    assert_eq!(k, "dividend_QQQ_None_None_Some(\"line\")_None");
    assert_eq!(etf::EtfHistory::Prices.ttl_secs(), 300);
    assert_eq!(etf::EtfHistory::Splits.ttl_secs(), 3600);
    assert!(matches!(etf::validate_tickers(Some(vec![])), Err(etf::EtfError::VoidTickersError(_))));
    assert!(matches!(etf::validate_tickers(None), Err(etf::EtfError::VoidTickersError(_))));
    assert_eq!(etf::validate_tickers(Some(strings(&["SPY"]))).unwrap(), vec!["SPY"]);
    assert_eq!(etf::EtfError::TaskError("t\n".to_string()).to_string(), "TaskError(\"t\\n\")");
}

#[test]
fn batched_crypto() {
    assert_eq!(crypto_batch::normalize_symbol("eth"), "ETHUSD");
    assert_eq!(crypto_batch::normalize_symbol("usdteth"), "USDTETHUSD");
    assert_eq!(crypto_batch::normalize_symbol("btcusd"), "BTCUSD");
    match crypto_batch::validate_tickers(&strings(&["a", "b", "c"]), 2) {
        Err(e) => assert_eq!(e.to_string(), "Too many tickers: 3"),
        Ok(_) => panic!("expected an error"),
    }
    match crypto_batch::validate_tickers(&vec![], 2) {
        Err(e) => assert_eq!(e.to_string(), "No tickers provided"),
        Ok(_) => panic!("expected an error"),
    }
    let c = client();
    let r = crypto_batch::plan_symbol_fetch(&c, "BTCUSD", FetchType::IntraDay, &None, &None, &None).unwrap();
    assert_eq!(r.path, "history-chart/5min/BTCUSD");
    assert_eq!(r.query, Some(vec![]));
    let r = crypto_batch::plan_symbol_fetch(&c, "BTCUSD", FetchType::Daily, &None, &None, &None).unwrap();
    assert_eq!(r.version, ApiVersion::V3);
    assert_eq!(r.path, "historical-price-full/BTCUSD");
    match crypto_batch::plan_symbol_fetch(&c, "BTCUSD", FetchType::Quote, &None, &None, &None) {
        Err(e) => assert_eq!(e.to_string(), "Task error: Invalid fetch type"),
        Ok(_) => panic!("expected an error"),
    }
    assert_eq!(crypto_batch::list_request().path, "available-forex-currency-pairs");
    assert_eq!(crypto_batch::CryptoError::ParseError("p".to_string()).to_string(), "Parsing error: p");
}

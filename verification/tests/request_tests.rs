use fmp_polling::auth_config::{AuthConfig, BatchConfig, Config, ConfigHeader, WebsocketConfig};
use fmp_polling::json::{JsonNumber, JsonValue};
use fmp_polling::request::{ApiVersion, HTTPClient};
use std::time::Duration;

fn config(token: &str) -> Config {
    Config {
        header: ConfigHeader::new("poller settings".to_string()),
        auth: AuthConfig { token: token.to_string() },
        websocket: WebsocketConfig {
            concurrency_limit: 4,
            batch_size: 10,
            retry_attempts: 3,
            backoff_ms: 250,
            rate_limit_per_second: 5,
            cache_ttl: 90,
        },
    }
}

#[test]
fn batch_config_from_settings() {
    let c = config("t");
    let b = BatchConfig::from_config(&c);
    assert_eq!(b.concurrency_limit, 4);
    assert_eq!(b.batch_size, 10);
    assert_eq!(b.retry_attempts, 3);
    assert_eq!(b.backoff_ms, 250);
    assert_eq!(b.rate_limit_per_second, 5);
    assert_eq!(b.cache_ttl, Duration::from_secs(90));
    assert_eq!(c.display_text(), "poller settings");
}

#[test]
fn urls_join_base_and_path() {
    let client = HTTPClient::with_config(config("KEY"));
    assert_eq!(
        client.url(ApiVersion::V3, "/quote/AAPL"),
        "https://financialmodelingprep.com/api/v3/quote/AAPL"
    );
    assert_eq!(
        client.url(ApiVersion::V4, "treasury"),
        "https://financialmodelingprep.com/api/v4/treasury"
    );
}

#[test]
fn join_trims_slashes() {
    let client = HTTPClient::with_config(config("KEY"));
    let parts = vec!["/historical-price-full/".to_string(), "stock_dividend".to_string(), "AAPL/".to_string()];
    assert_eq!(client.join(&parts), "historical-price-full/stock_dividend/AAPL");
    assert_eq!(client.join2("company/rating", "MSFT"), "company/rating/MSFT");
    assert_eq!(client.join(&vec![]), "");
}

#[test]
fn queries_end_with_the_api_key() {
    let client = HTTPClient::with_config(config("demo-token"));
    assert_eq!(client.query_for(None), vec![("apikey".to_string(), "demo-token".to_string())]);
    let q = client.query_for(Some(vec![("period".to_string(), "annual".to_string())]));
    assert_eq!(
        q,
        vec![
            ("period".to_string(), "annual".to_string()),
            ("apikey".to_string(), "demo-token".to_string())
        ]
    );
    let b = client.build_query(vec![]);
    assert_eq!(b, vec![("apikey".to_string(), "demo-token".to_string())]);
}

#[test]
fn only_string_members_become_query_pairs() {
    let client = HTTPClient::with_config(config("KEY"));
    let obj = JsonValue::Object(vec![
        ("from".to_string(), JsonValue::String("2024-01-01".to_string())),
        ("limit".to_string(), JsonValue::Number(JsonNumber::PosInt(5))),
        ("to".to_string(), JsonValue::Null),
        ("type".to_string(), JsonValue::String("sma".to_string())),
    ]);
    assert_eq!(
        client.build_query_from_value(&obj),
        vec![
            ("from".to_string(), "2024-01-01".to_string()),
            ("type".to_string(), "sma".to_string())
        ]
    );
}

#[test]
fn set_header_replaces_value() {
    let mut client = HTTPClient::with_config(config("KEY"));
    client.set_header("Accept", "text/plain");
    client.set_header("Accept", "application/json");
    client.set_header("User-Agent", "poller");
    assert_eq!(client.url(ApiVersion::V3, "x"), "https://financialmodelingprep.com/api/v3/x");
}

#[test]
fn distinct_member_names_give_distinct_query_keys() {
    let client = HTTPClient::with_config(config("KEY"));
    let obj = JsonValue::Object(vec![
        ("from".to_string(), JsonValue::String("2024-01-01".to_string())),
        ("limit".to_string(), JsonValue::Number(JsonNumber::PosInt(5))),
        ("to".to_string(), JsonValue::String("2024-02-01".to_string())),
        ("type".to_string(), JsonValue::String("sma".to_string())),
    ]);
    let q = client.build_query_from_value(&obj);
    let keys: Vec<&str> = q.iter().map(|(k, _)| k.as_str()).collect();
    assert_eq!(keys, vec!["from", "to", "type"]);
    for i in 0..keys.len() {
        for j in (i + 1)..keys.len() {
            assert_ne!(keys[i], keys[j]);
        }
    }
}

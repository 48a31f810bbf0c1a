//! Cryptocurrencies (batched poller): the error type, symbol normalisation,
//! ticker validation and the request of each fetch.

use vstd::prelude::*;

use crate::json::JsonValue;
use crate::options::{date_ok, reprint, reprinted, FetchType};
use crate::request::{
    concat_str, entry_view, has_prefix, joined_path, lemma_joined_prefix, lemma_joined_prefix3,
    plain_request, present_pairs, request_is, ApiRequest, ApiVersion, HTTPClient,
};
use crate::text::{
    decimal, decimal_spec, ends_with, ends_with_spec, opt_view, to_uppercase, trim_by,
    unicode_uppercase,
};

verus! {

/// A listed cryptocurrency.
#[derive(Debug, Clone)]
pub struct Crypto {
    pub symbol: String,
    pub name: String,
    pub currency: String,
    pub stock_exchange: String,
    pub exchange_short_name: String,
}

/// Failures of batched cryptocurrency polling.
#[derive(Debug)]
pub enum CryptoError {
    FetchError(String),
    TaskError(String),
    ParseError(String),
    VoidTickersError,
    TooManyTickersError(usize),
}

/// The text that `Display` writes for each error.
pub open spec fn crypto_error_text(e: CryptoError) -> Seq<char> {
    match e {
        CryptoError::FetchError(m) => "Failed to fetch data: "@ + m@,
        CryptoError::TaskError(m) => "Task error: "@ + m@,
        CryptoError::ParseError(m) => "Parsing error: "@ + m@,
        CryptoError::VoidTickersError => "No tickers provided"@,
        CryptoError::TooManyTickersError(n) => "Too many tickers: "@ + decimal_spec(n as nat),
    }
}

impl CryptoError {
    /// The text that `Display` writes.
    pub fn to_string(&self) -> (r: String)
        ensures
            r@ == crypto_error_text(*self),
    {
        match self {
            CryptoError::FetchError(m) => concat_str("Failed to fetch data: ", m.as_str()),
            CryptoError::TaskError(m) => concat_str("Task error: ", m.as_str()),
            CryptoError::ParseError(m) => concat_str("Parsing error: ", m.as_str()),
            CryptoError::VoidTickersError => "No tickers provided".to_owned(),
            CryptoError::TooManyTickersError(n) => concat_str("Too many tickers: ", decimal(*n as u64).as_str()),
        }
    }
}

/// A symbol in upper case, ending in `USD`.
pub open spec fn normalized_symbol(s: Seq<char>) -> Seq<char> {
    let upper = unicode_uppercase(s);
    if ends_with_spec(upper, "USD"@) {
        upper
    } else {
        upper + "USD"@
    }
}

/// Upper-cases the symbol and appends `USD` unless it already ends so.
pub fn normalize_symbol(symbol: &str) -> (r: String)
    ensures
        r@ == normalized_symbol(symbol@),
        ends_with_spec(r@, "USD"@),
{
    let upper = to_uppercase(symbol);
    proof {
        reveal_strlit("USD");
    }
    if !ends_with(upper.as_str(), "USD") {
        let mut r = upper;
        let ghost u = r@;
        r.append("USD");
        assert(r@.subrange(r@.len() - 3, r@.len() as int) =~= "USD"@);
        r
    } else {
        upper
    }
}

/// The tickers of a request, if their number is between one and the batch
/// size.
pub fn validate_tickers(tickers: &Vec<String>, batch_size: usize) -> (r: Result<
    Vec<String>,
    CryptoError,
>)
    ensures
        match r {
            Ok(t) => 1 <= tickers@.len() <= batch_size && t@ == tickers@,
            Err(CryptoError::VoidTickersError) => tickers@.len() == 0,
            Err(CryptoError::TooManyTickersError(n)) => n == tickers@.len() && n > batch_size
                && n > 0,
            Err(_) => false,
        },
{
    let len = tickers.len();
    if len == 0 {
        Err(CryptoError::VoidTickersError)
    } else if len > batch_size {
        Err(CryptoError::TooManyTickersError(len))
    } else {
        Ok(tickers.clone())
    }
}

/// The list of pairs this poller reads.
pub fn list_request() -> (r: ApiRequest)
    ensures
        request_is(r, ApiVersion::V3, "available-forex-currency-pairs"@, None),
{
    plain_request(ApiVersion::V3, "available-forex-currency-pairs")
}

/// The intraday request of a symbol: the time frame and symbol as given, the
/// dates re-printed.
pub open spec fn intraday_plan(
    r: ApiRequest,
    symbol: Seq<char>,
    timeframe: Seq<char>,
    from: Option<Seq<char>>,
    to: Option<Seq<char>>,
) -> bool {
    request_is(
        r,
        ApiVersion::V3,
        joined_path(seq!["history-chart"@, timeframe, symbol]),
        Some(present_pairs(seq![("from"@, reprinted(from)), ("to"@, reprinted(to))])),
    )
}

/// The daily request of a symbol.
pub open spec fn daily_plan(r: ApiRequest, symbol: Seq<char>) -> bool {
    request_is(r, ApiVersion::V3, joined_path(seq!["historical-price-full"@, symbol]), None)
}

pub fn intraday_request(
    client: &HTTPClient,
    symbol: &str,
    timeframe: &str,
    from: &Option<String>,
    to: &Option<String>,
) -> (r: ApiRequest)
    requires
        date_ok(opt_view(*from)),
        date_ok(opt_view(*to)),
    ensures
        intraday_plan(r, symbol@, timeframe@, opt_view(*from), opt_view(*to)),
{
    let entries = vec![
        ("from".to_owned(), JsonValue::from_opt_str(reprint(from))),
        ("to".to_owned(), JsonValue::from_opt_str(reprint(to))),
    ];
    let ghost e = entries@;
    let q = client.query_of(entries);
    assert(e.map_values(|x: (String, JsonValue)| entry_view(x)) =~= seq![
        ("from"@, reprinted(opt_view(*from))),
        ("to"@, reprinted(opt_view(*to))),
    ]);
    let path = client.join3("history-chart", timeframe, symbol);
    ApiRequest { version: ApiVersion::V3, path, query: Some(q) }
}

pub fn daily_request(client: &HTTPClient, symbol: &str) -> (r: ApiRequest)
    ensures
        daily_plan(r, symbol@),
{
    let path = client.join2("historical-price-full", symbol);
    ApiRequest { version: ApiVersion::V3, path, query: None }
}

/// The request of a symbol task: intraday (time frame `5min` when absent) or
/// daily data; other fetch types are refused.
pub open spec fn crypto_symbol_plan(
    r: Result<ApiRequest, CryptoError>,
    symbol: Seq<char>,
    fetch_type: FetchType,
    timeframe: Option<Seq<char>>,
    from: Option<Seq<char>>,
    to: Option<Seq<char>>,
) -> bool {
    match fetch_type {
        FetchType::IntraDay => r matches Ok(q) && intraday_plan(
            q,
            symbol,
            match timeframe {
                Some(t) => t,
                None => "5min"@,
            },
            from,
            to,
        ),
        FetchType::Daily => r matches Ok(q) && daily_plan(q, symbol),
        _ => r matches Err(CryptoError::TaskError(m)) && m@ == "Invalid fetch type"@,
    }
}

/// Each cryptocurrency fetch is served from its own endpoint: intraday data
/// from `history-chart/<time frame>/<symbol>` (`history-chart/5min/` when no
/// time frame is given), daily data from `historical-price-full/<symbol>`,
/// segments without slashes at their ends; any other fetch type is refused.
pub proof fn crypto_fetch_endpoints(
    r: Result<ApiRequest, CryptoError>,
    symbol: Seq<char>,
    fetch_type: FetchType,
    timeframe: Option<Seq<char>>,
    from: Option<Seq<char>>,
    to: Option<Seq<char>>,
)
    requires
        crypto_symbol_plan(r, symbol, fetch_type, timeframe, from, to),
    ensures
        match fetch_type {
            FetchType::IntraDay => r matches Ok(q) && q.version == ApiVersion::V3 && q.path@
                == "history-chart"@ + "/"@ + trim_by(
                match timeframe {
                    Some(t) => t,
                    None => "5min"@,
                },
                |c: char| c == '/',
            ) + "/"@ + trim_by(symbol, |c: char| c == '/') && (timeframe is None ==> has_prefix(
                q.path@,
                "history-chart"@ + "/"@ + "5min"@ + "/"@,
            )),
            FetchType::Daily => r matches Ok(q) && q.version == ApiVersion::V3 && q.path@
                == "historical-price-full"@ + "/"@ + trim_by(symbol, |c: char| c == '/')
                && q.query is None,
            _ => r is Err,
        },
{
    reveal_strlit("history-chart");
    reveal_strlit("historical-price-full");
    reveal_strlit("5min");
    assert("history-chart"@[0] != '/' && "history-chart"@.last() != '/');
    assert("historical-price-full"@[0] != '/' && "historical-price-full"@.last() != '/');
    assert("5min"@[0] != '/' && "5min"@.last() != '/');
    let tf = match timeframe {
        Some(t) => t,
        None => "5min"@,
    };
    lemma_joined_prefix3("history-chart"@, tf, symbol);
    lemma_joined_prefix("historical-price-full"@, symbol);
}

/// The request of a symbol task: intraday (time frame `5min` when absent) or
/// daily data; other fetch types are refused.
pub fn plan_symbol_fetch(
    client: &HTTPClient,
    symbol: &str,
    fetch_type: FetchType,
    timeframe: &Option<String>,
    from: &Option<String>,
    to: &Option<String>,
) -> (r: Result<ApiRequest, CryptoError>)
    requires
        fetch_type == FetchType::IntraDay ==> date_ok(opt_view(*from)) && date_ok(opt_view(*to)),
    ensures
        match fetch_type {
            FetchType::IntraDay => r matches Ok(q) && intraday_plan(
                q,
                symbol@,
                match opt_view(*timeframe) {
                    Some(t) => t,
                    None => "5min"@,
                },
                opt_view(*from),
                opt_view(*to),
            ),
            FetchType::Daily => r matches Ok(q) && daily_plan(q, symbol@),
            _ => r matches Err(CryptoError::TaskError(m)) && m@ == "Invalid fetch type"@,
        },
        crypto_symbol_plan(r, symbol@, fetch_type, opt_view(*timeframe), opt_view(*from), opt_view(*to)),
{
    match fetch_type {
        FetchType::IntraDay => {
            let tf: &str = match timeframe {
                Some(t) => t.as_str(),
                None => "5min",
            };
            Ok(intraday_request(client, symbol, tf, from, to))
        },
        FetchType::Daily => Ok(daily_request(client, symbol)),
        _ => Err(CryptoError::TaskError("Invalid fetch type".to_owned())),
    }
}

/// The error of a failed request: a fetch error with the failure text.
pub fn fetch_failure(detail: &str) -> (r: CryptoError)
    ensures
        r matches CryptoError::FetchError(m) && m@ == detail@,
{
    CryptoError::FetchError(detail.to_owned())
}

} // verus!

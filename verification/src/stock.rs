//! Stock data: the error type, argument parsing, ticker validation and the
//! plan of each stock endpoint (cache key, request, failure context).

use vstd::prelude::*;

use crate::json::{json_str_field, json_string_list_field, JsonValue};
use crate::options::{fetch_type_parse, fetch_type_text, FetchType};
use crate::request::{
    concat_str, entry_view, joined_path, lemma_joined_prefix, lemma_joined_prefix3, opt_pair_views,
    plain_request, present_pairs, request_is, ApiRequest, ApiVersion, CachedFetch, HTTPClient,
};
use crate::text::{decimal, decimal_spec, opt_view, trim_by, views};

verus! {

/// A listed stock.
#[derive(Debug, Clone)]
pub struct Stock {
    pub symbol: String,
    pub exchange: String,
    pub exchange_short_name: String,
    pub price: String,
    pub name: String,
}

/// Failures of stock polling.
#[derive(Debug)]
pub enum StockError {
    FetchError(String),
    TaskError(String),
    ParseError(String),
    VoidTickersError(String),
    InvalidTicker(String),
    TooManyTickersError(String),
}

/// The text that `Display` writes for each error.
pub open spec fn stock_error_text(e: StockError) -> Seq<char> {
    match e {
        StockError::FetchError(m) => "Failed to fetch data: "@ + m@,
        StockError::TaskError(m) => "Task encountered an error: "@ + m@,
        StockError::ParseError(m) => "Failed to parse data: "@ + m@,
        StockError::VoidTickersError(m) => "No tickers provided: "@ + m@,
        StockError::InvalidTicker(m) => "Invalid ticker: "@ + m@,
        StockError::TooManyTickersError(m) => "Too many tickers: "@ + m@,
    }
}

impl StockError {
    /// The text that `Display` writes.
    pub fn to_string(&self) -> (r: String)
        ensures
            r@ == stock_error_text(*self),
    {
        match self {
            StockError::FetchError(m) => concat_str("Failed to fetch data: ", m.as_str()),
            StockError::TaskError(m) => concat_str("Task encountered an error: ", m.as_str()),
            StockError::ParseError(m) => concat_str("Failed to parse data: ", m.as_str()),
            StockError::VoidTickersError(m) => concat_str("No tickers provided: ", m.as_str()),
            StockError::InvalidTicker(m) => concat_str("Invalid ticker: ", m.as_str()),
            StockError::TooManyTickersError(m) => concat_str("Too many tickers: ", m.as_str()),
        }
    }
}

/// The tickers of a request, if their number is between one and the batch
/// size.
pub fn validate_tickers(tickers: Vec<String>, batch_size: usize) -> (r: Result<Vec<String>, StockError>)
    ensures
        match r {
            Ok(t) => 1 <= tickers@.len() <= batch_size && t@ == tickers@,
            Err(StockError::TooManyTickersError(m)) => tickers@.len() > batch_size && m@
                == "Too many tickers: "@ + decimal_spec(tickers@.len()),
            Err(StockError::VoidTickersError(m)) => tickers@.len() == 0 && m@ == "No tickers provided"@,
            Err(_) => false,
        },
{
    if tickers.len() > batch_size {
        let count = decimal(tickers.len() as u64);
        return Err(StockError::TooManyTickersError(concat_str("Too many tickers: ", count.as_str())));
    } else if tickers.len() == 0 {
        return Err(StockError::VoidTickersError("No tickers provided".to_owned()));
    }
    Ok(tickers)
}

/// The tickers and the fetch type of a poll request: `tickers` must be an
/// array (its non-string elements are skipped) and `fetch_type` a string.
pub fn parse_poll_args(args: &JsonValue) -> (r: Result<(Vec<String>, FetchType), StockError>)
    ensures
        match r {
            Ok((t, f)) => {
                &&& json_string_list_field(*args, "tickers"@) == Some(views(t@))
                &&& json_str_field(*args, "fetch_type"@) matches Some(s) && f == fetch_type_parse(s)
            },
            Err(StockError::ParseError(m)) => (json_string_list_field(*args, "tickers"@) is None
                && m@ == "Missing 'tickers' field"@) || (json_string_list_field(*args, "tickers"@) is Some
                && json_str_field(*args, "fetch_type"@) is None && m@
                == "Missing 'fetch_type' field"@),
            Err(_) => false,
        },
{
    let tickers = match args.string_list_field("tickers") {
        Some(t) => t,
        None => {
            return Err(StockError::ParseError("Missing 'tickers' field".to_owned()));
        },
    };
    let fetch_type_str = match args.str_field("fetch_type") {
        Some(s) => s,
        None => {
            return Err(StockError::ParseError("Missing 'fetch_type' field".to_owned()));
        },
    };
    let fetch_type = FetchType::from_str(fetch_type_str.as_str());
    Ok((tickers, fetch_type))
}

/// What one stock task fetches: a single endpoint through the cache, or all
/// financial statements of the symbol under one cache key. `context` starts
/// the message of a failed fetch.
#[derive(Debug)]
pub enum StockFetch {
    Endpoint { fetch: CachedFetch, context: String },
    Financial { cache_key: String, context: String },
}

/// `f` fetches `path` of generation `version` with `query`, cached under
/// `key`, failures starting with `ctx`.
pub open spec fn is_endpoint(
    f: StockFetch,
    key: Seq<char>,
    version: ApiVersion,
    path: Seq<char>,
    query: Option<Seq<(Seq<char>, Seq<char>)>>,
    ctx: Seq<char>,
) -> bool {
    match f {
        StockFetch::Endpoint { fetch, context } => fetch.cache_key@ == key && request_is(
            fetch.request,
            version,
            path,
            query,
        ) && context@ == ctx,
        _ => false,
    }
}

pub open spec fn list_plan(f: StockFetch) -> bool {
    is_endpoint(f, "stock/list"@, ApiVersion::V3, "stock/list"@, None, "Failed to fetch stock list"@)
}

pub open spec fn profile_plan(f: StockFetch, s: Seq<char>) -> bool {
    is_endpoint(
        f,
        "stock/"@ + s,
        ApiVersion::V3,
        joined_path(seq!["profile"@, s]),
        None,
        "Failed to fetch stock profile for "@ + s,
    )
}

pub open spec fn quote_plan(f: StockFetch, s: Seq<char>) -> bool {
    is_endpoint(
        f,
        "quote/"@ + s,
        ApiVersion::V3,
        joined_path(seq!["quote"@, s]),
        None,
        "Failed to fetch quote for "@ + s,
    )
}

pub open spec fn financial_plan(f: StockFetch, s: Seq<char>) -> bool {
    match f {
        StockFetch::Financial { cache_key, context } => cache_key@ == "financial/"@ + s && context@
            == "Failed to fetch financial data for "@ + s,
        _ => false,
    }
}

pub open spec fn rating_plan(f: StockFetch, s: Seq<char>) -> bool {
    is_endpoint(
        f,
        "rating/"@ + s,
        ApiVersion::V3,
        joined_path(seq!["company/rating"@, s]),
        None,
        "Failed to fetch rating for "@ + s,
    )
}

pub open spec fn outlook_plan(f: StockFetch, s: Seq<char>) -> bool {
    is_endpoint(
        f,
        "outlook/"@ + s,
        ApiVersion::V4,
        "company-outlook"@,
        Some(seq![("symbol"@, s)]),
        "Failed to fetch outlook for "@ + s,
    )
}

pub open spec fn history_plan(
    f: StockFetch,
    s: Seq<char>,
    start: Option<Seq<char>>,
    end: Option<Seq<char>>,
    data_type: Option<Seq<char>>,
) -> bool {
    is_endpoint(
        f,
        "history/"@ + s,
        ApiVersion::V3,
        joined_path(seq!["historical-price-full"@, s]),
        Some(
            present_pairs(
                seq![("from"@, start), ("serietype"@, data_type), ("timeseries"@, None), ("to"@, end)],
            ),
        ),
        "Failed to fetch history for "@ + s,
    )
}

pub open spec fn dividend_history_plan(f: StockFetch, s: Seq<char>) -> bool {
    is_endpoint(
        f,
        "dividend_history/"@ + s,
        ApiVersion::V3,
        joined_path(seq!["historical-price-full"@, "stock_dividend"@, s]),
        None,
        "Failed to fetch dividend history for "@ + s,
    )
}

/// The split history goes to the bare `stock_split` path: the symbol is in
/// the cache key and the message only.
pub open spec fn split_history_plan(f: StockFetch, s: Seq<char>) -> bool {
    is_endpoint(
        f,
        "split_history/"@ + s,
        ApiVersion::V3,
        "stock_split"@,
        None,
        "Failed to fetch split history for "@ + s,
    )
}

fn endpoint(key: String, request: ApiRequest, context: String) -> (r: StockFetch)
    ensures
        r == (StockFetch::Endpoint { fetch: CachedFetch { cache_key: key, request }, context }),
{
    StockFetch::Endpoint { fetch: CachedFetch { cache_key: key, request }, context }
}

pub fn list_fetch() -> (r: StockFetch)
    ensures
        list_plan(r),
{
    endpoint(
        "stock/list".to_owned(),
        plain_request(ApiVersion::V3, "stock/list"),
        "Failed to fetch stock list".to_owned(),
    )
}

pub fn profile_fetch(client: &HTTPClient, symbol: &str) -> (r: StockFetch)
    ensures
        profile_plan(r, symbol@),
{
    let path = client.join2("profile", symbol);
    endpoint(
        concat_str("stock/", symbol),
        ApiRequest { version: ApiVersion::V3, path, query: None },
        concat_str("Failed to fetch stock profile for ", symbol),
    )
}

pub fn quote_fetch(client: &HTTPClient, symbol: &str) -> (r: StockFetch)
    ensures
        quote_plan(r, symbol@),
{
    let path = client.join2("quote", symbol);
    endpoint(
        concat_str("quote/", symbol),
        ApiRequest { version: ApiVersion::V3, path, query: None },
        concat_str("Failed to fetch quote for ", symbol),
    )
}

pub fn financial_fetch(symbol: &str) -> (r: StockFetch)
    ensures
        financial_plan(r, symbol@),
{
    StockFetch::Financial {
        cache_key: concat_str("financial/", symbol),
        context: concat_str("Failed to fetch financial data for ", symbol),
    }
}

pub fn rating_fetch(client: &HTTPClient, symbol: &str) -> (r: StockFetch)
    ensures
        rating_plan(r, symbol@),
{
    let path = client.join2("company/rating", symbol);
    endpoint(
        concat_str("rating/", symbol),
        ApiRequest { version: ApiVersion::V3, path, query: None },
        concat_str("Failed to fetch rating for ", symbol),
    )
}

pub fn outlook_fetch(client: &HTTPClient, symbol: &str) -> (r: StockFetch)
    ensures
        outlook_plan(r, symbol@),
{
    let entries = vec![("symbol".to_owned(), JsonValue::String(symbol.to_owned()))];
    let ghost e = entries@;
    let query = client.query_of(entries);
    assert(e.map_values(|x: (String, JsonValue)| entry_view(x)) =~= seq![("symbol"@, Some(symbol@))]);
    assert(present_pairs(seq![("symbol"@, Some(symbol@))]) =~= seq![("symbol"@, symbol@)]) by {
        let one = seq![("symbol"@, Some(symbol@))];
        assert(one.drop_last() =~= Seq::<(Seq<char>, Option<Seq<char>>)>::empty());
        assert(present_pairs(one.drop_last()) =~= Seq::<(Seq<char>, Seq<char>)>::empty());
    }
    endpoint(
        concat_str("outlook/", symbol),
        ApiRequest { version: ApiVersion::V4, path: "company-outlook".to_owned(), query: Some(query) },
        concat_str("Failed to fetch outlook for ", symbol),
    )
}

pub fn history_fetch(
    client: &HTTPClient,
    symbol: &str,
    start_date: Option<String>,
    end_date: Option<String>,
    data_type: Option<String>,
    limit: Option<i32>,
) -> (r: StockFetch)
    ensures
        history_plan(r, symbol@, opt_view(start_date), opt_view(end_date), opt_view(data_type)),
{
    let ghost (s, e, d) = (opt_view(start_date), opt_view(end_date), opt_view(data_type));
    let limit64: Option<i64> = match limit {
        Some(l) => Some(l as i64),
        None => None,
    };
    let entries = vec![
        ("from".to_owned(), JsonValue::from_opt_str(start_date)),
        ("serietype".to_owned(), JsonValue::from_opt_str(data_type)),
        ("timeseries".to_owned(), JsonValue::from_opt_i64(limit64)),
        ("to".to_owned(), JsonValue::from_opt_str(end_date)),
    ];
    let ghost ev = entries@;
    let query = client.query_of(entries);
    assert(ev.map_values(|x: (String, JsonValue)| entry_view(x)) =~= seq![
        ("from"@, s),
        ("serietype"@, d),
        ("timeseries"@, None::<Seq<char>>),
        ("to"@, e),
    ]);
    let path = client.join2("historical-price-full", symbol);
    endpoint(
        concat_str("history/", symbol),
        ApiRequest { version: ApiVersion::V3, path, query: Some(query) },
        concat_str("Failed to fetch history for ", symbol),
    )
}

pub fn dividend_history_fetch(client: &HTTPClient, symbol: &str) -> (r: StockFetch)
    ensures
        dividend_history_plan(r, symbol@),
{
    let path = client.join3("historical-price-full", "stock_dividend", symbol);
    endpoint(
        concat_str("dividend_history/", symbol),
        ApiRequest { version: ApiVersion::V3, path, query: None },
        concat_str("Failed to fetch dividend history for ", symbol),
    )
}

pub fn split_history_fetch(symbol: &str) -> (r: StockFetch)
    ensures
        split_history_plan(r, symbol@),
{
    endpoint(
        concat_str("split_history/", symbol),
        plain_request(ApiVersion::V3, "stock_split"),
        concat_str("Failed to fetch split history for ", symbol),
    )
}

/// What a ticker task fetches for each fetch type; history without any
/// optional argument. Other fetch types are refused.
pub open spec fn ticker_plan(r: Result<StockFetch, StockError>, symbol: Seq<char>, fetch_type: FetchType) -> bool {
    match fetch_type {
        FetchType::Quote => r matches Ok(f) && quote_plan(f, symbol),
        FetchType::Financial => r matches Ok(f) && financial_plan(f, symbol),
        FetchType::Profile => r matches Ok(f) && profile_plan(f, symbol),
        FetchType::Rating => r matches Ok(f) && rating_plan(f, symbol),
        FetchType::Outlook => r matches Ok(f) && outlook_plan(f, symbol),
        FetchType::History => r matches Ok(f) && history_plan(f, symbol, None, None, None),
        FetchType::DividendHistory => r matches Ok(f) && dividend_history_plan(f, symbol),
        FetchType::SplitHistory => r matches Ok(f) && split_history_plan(f, symbol),
        _ => r matches Err(StockError::TaskError(m)) && m@ == "Invalid task: "@
            + fetch_type_text(fetch_type),
    }
}

/// Each stock fetch type is served from its own endpoint: quotes from
/// `quote/<symbol>`, profiles from `profile/<symbol>`, ratings from
/// `company/rating/<symbol>`, price history from
/// `historical-price-full/<symbol>`, dividends from
/// `historical-price-full/stock_dividend/<symbol>`, splits from the bare
/// `stock_split` path and the outlook from the v4 `company-outlook` path with
/// the symbol as its query (`t` is the symbol without leading or trailing
/// `/`); each is cached under its own key, the financial report under
/// `financial/<symbol>`; any other fetch type is refused.
pub proof fn ticker_fetch_endpoints(r: Result<StockFetch, StockError>, symbol: Seq<char>, fetch_type: FetchType)
    requires
        ticker_plan(r, symbol, fetch_type),
    ensures
        ({
            let t = trim_by(symbol, |c: char| c == '/');
            match fetch_type {
            FetchType::Quote => r matches Ok(StockFetch::Endpoint { fetch, .. })
                && fetch.request.version == ApiVersion::V3 && fetch.request.path@ == "quote"@ + "/"@ + t
                && fetch.cache_key@ == "quote/"@ + symbol,
            FetchType::Profile => r matches Ok(StockFetch::Endpoint { fetch, .. })
                && fetch.request.version == ApiVersion::V3 && fetch.request.path@ == "profile"@ + "/"@ + t
                && fetch.cache_key@ == "stock/"@ + symbol,
            FetchType::Rating => r matches Ok(StockFetch::Endpoint { fetch, .. })
                && fetch.request.version == ApiVersion::V3 && fetch.request.path@ == "company/rating"@ + "/"@ + t
                && fetch.cache_key@ == "rating/"@ + symbol,
            FetchType::History => r matches Ok(StockFetch::Endpoint { fetch, .. })
                && fetch.request.version == ApiVersion::V3 && fetch.request.path@ == "historical-price-full"@ + "/"@ + t
                && fetch.cache_key@ == "history/"@ + symbol,
            FetchType::DividendHistory => r matches Ok(StockFetch::Endpoint { fetch, .. })
                && fetch.request.version == ApiVersion::V3 && fetch.request.path@ == "historical-price-full"@ + "/"@ + "stock_dividend"@ + "/"@ + t
                && fetch.cache_key@ == "dividend_history/"@ + symbol,
            FetchType::SplitHistory => r matches Ok(StockFetch::Endpoint { fetch, .. })
                && fetch.request.version == ApiVersion::V3 && fetch.request.path@ == "stock_split"@
                && fetch.cache_key@ == "split_history/"@ + symbol,
            FetchType::Outlook => r matches Ok(StockFetch::Endpoint { fetch, .. })
                && fetch.request.version == ApiVersion::V4 && fetch.request.path@ == "company-outlook"@
                && fetch.cache_key@ == "outlook/"@ + symbol,
            FetchType::Financial => r matches Ok(StockFetch::Financial { cache_key, .. })
                && cache_key@ == "financial/"@ + symbol,
            _ => r is Err,
        }
        }),
        fetch_type == FetchType::Outlook ==> (r matches Ok(StockFetch::Endpoint { fetch, .. })
            && opt_pair_views(fetch.request.query) == Some(seq![("symbol"@, symbol)])),
{
    reveal_strlit("quote");
    reveal_strlit("profile");
    reveal_strlit("company/rating");
    reveal_strlit("historical-price-full");
    reveal_strlit("stock_dividend");
    assert("quote"@[0] != '/' && "quote"@.last() != '/');
    assert("profile"@[0] != '/' && "profile"@.last() != '/');
    assert("company/rating"@[0] != '/' && "company/rating"@.last() != '/');
    assert("historical-price-full"@[0] != '/' && "historical-price-full"@.last() != '/');
    assert("stock_dividend"@[0] != '/' && "stock_dividend"@.last() != '/');
    lemma_joined_prefix("quote"@, symbol);
    lemma_joined_prefix("profile"@, symbol);
    lemma_joined_prefix("company/rating"@, symbol);
    lemma_joined_prefix("historical-price-full"@, symbol);
    lemma_joined_prefix3("historical-price-full"@, "stock_dividend"@, symbol);
}

/// What a ticker task fetches for each fetch type; history without any
/// optional argument. Other fetch types are refused.
pub fn plan_ticker_fetch(client: &HTTPClient, symbol: &str, fetch_type: FetchType) -> (r: Result<
    StockFetch,
    StockError,
>)
    ensures
        match fetch_type {
            FetchType::Quote => r matches Ok(f) && quote_plan(f, symbol@),
            FetchType::Financial => r matches Ok(f) && financial_plan(f, symbol@),
            FetchType::Profile => r matches Ok(f) && profile_plan(f, symbol@),
            FetchType::Rating => r matches Ok(f) && rating_plan(f, symbol@),
            FetchType::Outlook => r matches Ok(f) && outlook_plan(f, symbol@),
            FetchType::History => r matches Ok(f) && history_plan(f, symbol@, None, None, None),
            FetchType::DividendHistory => r matches Ok(f) && dividend_history_plan(f, symbol@),
            FetchType::SplitHistory => r matches Ok(f) && split_history_plan(f, symbol@),
            _ => r matches Err(StockError::TaskError(m)) && m@ == "Invalid task: "@
                + fetch_type_text(fetch_type),
        },
        ticker_plan(r, symbol@, fetch_type),
{
    match fetch_type {
        FetchType::Quote => Ok(quote_fetch(client, symbol)),
        FetchType::Financial => Ok(financial_fetch(symbol)),
        FetchType::Profile => Ok(profile_fetch(client, symbol)),
        FetchType::Rating => Ok(rating_fetch(client, symbol)),
        FetchType::Outlook => Ok(outlook_fetch(client, symbol)),
        FetchType::History => Ok(history_fetch(client, symbol, None, None, None, None)),
        FetchType::DividendHistory => Ok(dividend_history_fetch(client, symbol)),
        FetchType::SplitHistory => Ok(split_history_fetch(symbol)),
        _ => {
            let t = fetch_type.to_string();
            Err(StockError::TaskError(concat_str("Invalid task: ", t.as_str())))
        },
    }
}

/// The error of a failed fetch: its context, `: ` and the failure text.
pub fn fetch_failure(context: &str, detail: &str) -> (r: StockError)
    ensures
        r matches StockError::FetchError(m) && m@ == context@ + ": "@ + detail@,
{
    let mut m = context.to_owned();
    m.append(": ");
    m.append(detail);
    StockError::FetchError(m)
}

/// An error passed on by a wrapping layer: a fetch error carrying the text of
/// the error it wraps.
pub fn rewrap(e: &StockError) -> (r: StockError)
    ensures
        r matches StockError::FetchError(m) && m@ == stock_error_text(*e),
{
    StockError::FetchError(e.to_string())
}

/// The values of the batch tasks in order, tasks that did not finish being
/// skipped, or the text of the first error.
pub open spec fn batch_outcomes_spec<T>(outcomes: Seq<Option<Result<T, StockError>>>) -> Result<
    Seq<T>,
    Seq<char>,
>
    decreases outcomes.len(),
{
    if outcomes.len() == 0 {
        Ok(Seq::empty())
    } else {
        match outcomes[0] {
            None => batch_outcomes_spec(outcomes.drop_first()),
            Some(Err(e)) => Err(stock_error_text(e)),
            Some(Ok(v)) => match batch_outcomes_spec(outcomes.drop_first()) {
                Ok(vs) => Ok(seq![v] + vs),
                Err(m) => Err(m),
            },
        }
    }
}

/// Gathers the results of the batch tasks: a task that did not finish is
/// left out, the first error is returned as a fetch error carrying its text.
pub fn merge_batch_outcomes<T>(outcomes: Vec<Option<Result<T, StockError>>>) -> (r: Result<
    Vec<T>,
    StockError,
>)
    ensures
        match (r, batch_outcomes_spec(outcomes@)) {
            (Ok(v), Ok(s)) => v@ == s,
            (Err(StockError::FetchError(m)), Err(t)) => m@ == t,
            _ => false,
        },
{
    let mut rest = outcomes;
    let mut out: Vec<T> = Vec::new();
    while rest.len() > 0
        invariant
            match batch_outcomes_spec(outcomes@) {
                Ok(s) => batch_outcomes_spec(rest@) matches Ok(t) && s == out@ + t,
                Err(m) => batch_outcomes_spec(rest@) == Err::<Seq<T>, Seq<char>>(m),
            },
        decreases rest@.len(),
    {
        let ghost before = rest@;
        let first = rest.remove(0);
        assert(rest@ =~= before.drop_first());
        match first {
            None => {},
            Some(Ok(v)) => {
                let ghost o = out@;
                out.push(v);
                proof {
                    if let Ok(t) = batch_outcomes_spec(rest@) {
                        assert(out@ + t =~= o + (seq![v] + t));
                    }
                }
            },
            Some(Err(e)) => {
                return Err(rewrap(&e));
            },
        }
    }
    assert(out@ + Seq::<T>::empty() =~= out@);
    Ok(out)
}


/// The values of the ticker tasks in order, or the first failure: a ticker's
/// own error as it is, or, for a task that did not finish, a fetch error
/// carrying the text of why it did not.
pub open spec fn ticker_outcomes_spec<T>(outcomes: Seq<Result<Result<T, StockError>, String>>) -> Result<
    Seq<T>,
    StockError,
>
    decreases outcomes.len(),
{
    if outcomes.len() == 0 {
        Ok(Seq::empty())
    } else {
        match outcomes[0] {
            Err(m) => Err(StockError::FetchError(m)),
            Ok(Err(e)) => Err(e),
            Ok(Ok(v)) => match ticker_outcomes_spec(outcomes.drop_first()) {
                Ok(vs) => Ok(seq![v] + vs),
                Err(e) => Err(e),
            },
        }
    }
}

/// Gathers the results of the ticker tasks of a batch in order: the values,
/// or the first failure met (a ticker's error, or a fetch error with the
/// text of a task that did not finish).
pub fn merge_ticker_outcomes<T>(outcomes: Vec<Result<Result<T, StockError>, String>>) -> (r: Result<
    Vec<T>,
    StockError,
>)
    ensures
        match (r, ticker_outcomes_spec(outcomes@)) {
            (Ok(v), Ok(s)) => v@ == s,
            (Err(e), Err(f)) => e == f,
            _ => false,
        },
{
    let mut rest = outcomes;
    let mut out: Vec<T> = Vec::new();
    while rest.len() > 0
        invariant
            match ticker_outcomes_spec(outcomes@) {
                Ok(s) => ticker_outcomes_spec(rest@) matches Ok(t) && s == out@ + t,
                Err(e) => ticker_outcomes_spec(rest@) == Err::<Seq<T>, StockError>(e),
            },
        decreases rest@.len(),
    {
        let ghost before = rest@;
        let first = rest.remove(0);
        assert(rest@ =~= before.drop_first());
        match first {
            Ok(Ok(v)) => {
                let ghost o = out@;
                out.push(v);
                proof {
                    if let Ok(t) = ticker_outcomes_spec(rest@) {
                        assert(out@ + t =~= o + (seq![v] + t));
                    }
                }
            },
            Ok(Err(e)) => {
                return Err(e);
            },
            Err(m) => {
                return Err(StockError::FetchError(m));
            },
        }
    }
    assert(out@ + Seq::<T>::empty() =~= out@);
    Ok(out)
}

} // verus!

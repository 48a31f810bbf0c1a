//! Commodities: the error type, ticker validation and the request of each
//! commodity fetch.

use vstd::prelude::*;

use crate::json::JsonValue;
use crate::options::{
    date_ok, lemma_time_frame_text_segment, reprint, reprinted, time_frame_parse, time_frame_text,
    FetchType, TimeFrame,
};
use crate::request::{
    concat_str, entry_view, joined_path, lemma_joined_prefix, lemma_joined_prefix3, plain_request,
    present_pairs, request_is, ApiRequest, ApiVersion, HTTPClient,
};
use crate::text::{decimal, decimal_spec, opt_view, trim_by};

verus! {

/// Failures of commodity polling.
#[derive(Debug)]
pub enum CommodityError {
    FetchError(String),
    TaskError(String),
    ParseError(String),
    VoidTickersError(String),
    InvalidTicker(String),
    TooManyTickersError(String),
}

/// The text that `Display` writes for each error.
pub open spec fn commodity_error_text(e: CommodityError) -> Seq<char> {
    match e {
        CommodityError::FetchError(m) => "Failed to fetch data: "@ + m@,
        CommodityError::TaskError(m) => "Task encountered an error: "@ + m@,
        CommodityError::ParseError(m) => "Failed to parse data: "@ + m@,
        CommodityError::VoidTickersError(m) => "No tickers provided: "@ + m@,
        CommodityError::InvalidTicker(m) => "Invalid ticker: "@ + m@,
        CommodityError::TooManyTickersError(m) => "Too many tickers: "@ + m@,
    }
}

impl CommodityError {
    /// The text that `Display` writes.
    pub fn to_string(&self) -> (r: String)
        ensures
            r@ == commodity_error_text(*self),
    {
        match self {
            CommodityError::FetchError(m) => concat_str("Failed to fetch data: ", m.as_str()),
            CommodityError::TaskError(m) => concat_str("Task encountered an error: ", m.as_str()),
            CommodityError::ParseError(m) => concat_str("Failed to parse data: ", m.as_str()),
            CommodityError::VoidTickersError(m) => concat_str("No tickers provided: ", m.as_str()),
            CommodityError::InvalidTicker(m) => concat_str("Invalid ticker: ", m.as_str()),
            CommodityError::TooManyTickersError(m) => concat_str("Too many tickers: ", m.as_str()),
        }
    }
}

/// The tickers of a request, if their number is between one and the batch
/// size.
pub fn validate_tickers(tickers: Vec<String>, batch_size: usize) -> (r: Result<Vec<String>, CommodityError>)
    ensures
        match r {
            Ok(t) => 1 <= tickers@.len() <= batch_size && t@ == tickers@,
            Err(CommodityError::TooManyTickersError(m)) => tickers@.len() > batch_size && m@
                == "Too many tickers: "@ + decimal_spec(tickers@.len()),
            Err(CommodityError::VoidTickersError(m)) => tickers@.len() == 0 && m@ == "No tickers provided"@,
            Err(_) => false,
        },
{
    if tickers.len() > batch_size {
        let count = decimal(tickers.len() as u64);
        return Err(CommodityError::TooManyTickersError(concat_str("Too many tickers: ", count.as_str())));
    } else if tickers.len() == 0 {
        return Err(CommodityError::VoidTickersError("No tickers provided".to_owned()));
    }
    Ok(tickers)
}

/// The list of commodities.
pub fn list_request() -> (r: ApiRequest)
    ensures
        request_is(r, ApiVersion::V3, "symbol/available-commodities"@, None),
{
    plain_request(ApiVersion::V3, "symbol/available-commodities")
}

/// The time frame a name stands for, five minutes when it names none.
pub open spec fn time_frame_or_five(name: Seq<char>) -> TimeFrame {
    match time_frame_parse(name) {
        Some(t) => t,
        None => TimeFrame::FiveMinutes,
    }
}

/// The intraday request of a commodity: the time frame resolved (default
/// five minutes) and the dates re-printed.
pub open spec fn intraday_plan(
    r: ApiRequest,
    symbol: Seq<char>,
    timeframe: Seq<char>,
    from: Option<Seq<char>>,
    to: Option<Seq<char>>,
) -> bool {
    request_is(
        r,
        ApiVersion::V3,
        joined_path(
            seq!["historical-chart"@, time_frame_text(time_frame_or_five(timeframe)), symbol],
        ),
        Some(present_pairs(seq![("from"@, reprinted(from)), ("to"@, reprinted(to))])),
    )
}

/// The daily request of a commodity.
pub open spec fn daily_plan(r: ApiRequest, symbol: Seq<char>) -> bool {
    request_is(r, ApiVersion::V3, joined_path(seq!["historical-price-full"@, symbol]), None)
}

pub fn intraday_request(
    client: &HTTPClient,
    symbol: &str,
    timeframe: &str,
    from: &Option<String>,
    to: &Option<String>,
) -> (r: ApiRequest)
    requires
        date_ok(opt_view(*from)),
        date_ok(opt_view(*to)),
    ensures
        intraday_plan(r, symbol@, timeframe@, opt_view(*from), opt_view(*to)),
{
    let entries = vec![
        ("from".to_owned(), JsonValue::from_opt_str(reprint(from))),
        ("to".to_owned(), JsonValue::from_opt_str(reprint(to))),
    ];
    let ghost e = entries@;
    let q = client.query_of(entries);
    assert(e.map_values(|x: (String, JsonValue)| entry_view(x)) =~= seq![
        ("from"@, reprinted(opt_view(*from))),
        ("to"@, reprinted(opt_view(*to))),
    ]);
    let tf = match TimeFrame::from_str(timeframe) {
        Some(t) => t,
        None => TimeFrame::FiveMinutes,
    };
    let path = client.join3("historical-chart", tf.to_str(), symbol);
    ApiRequest { version: ApiVersion::V3, path, query: Some(q) }
}

pub fn daily_request(client: &HTTPClient, symbol: &str) -> (r: ApiRequest)
    ensures
        daily_plan(r, symbol@),
{
    let path = client.join2("historical-price-full", symbol);
    ApiRequest { version: ApiVersion::V3, path, query: None }
}

/// What a symbol fetch requests: intraday or daily data; any other fetch
/// type requests nothing.
pub open spec fn symbol_plan(
    r: Option<ApiRequest>,
    symbol: Seq<char>,
    fetch_type: FetchType,
    timeframe: Seq<char>,
    from: Option<Seq<char>>,
    to: Option<Seq<char>>,
) -> bool {
    match fetch_type {
        FetchType::IntraDay => r matches Some(q) && intraday_plan(q, symbol, timeframe, from, to),
        FetchType::Daily => r matches Some(q) && daily_plan(q, symbol),
        _ => r is None,
    }
}

/// Each commodity fetch is served from its own endpoint: intraday prices
/// from `historical-chart/<time frame>/<symbol>` (five minutes when the time
/// frame names none), daily prices from `historical-price-full/<symbol>`, the
/// symbol without slashes at its ends; any other fetch type requests nothing.
pub proof fn commodity_fetch_endpoints(
    r: Option<ApiRequest>,
    symbol: Seq<char>,
    fetch_type: FetchType,
    timeframe: Seq<char>,
    from: Option<Seq<char>>,
    to: Option<Seq<char>>,
)
    requires
        symbol_plan(r, symbol, fetch_type, timeframe, from, to),
    ensures
        match fetch_type {
            FetchType::IntraDay => r matches Some(q) && q.version == ApiVersion::V3 && q.path@
                == "historical-chart"@ + "/"@ + time_frame_text(time_frame_or_five(timeframe)) + "/"@
                + trim_by(symbol, |c: char| c == '/'),
            FetchType::Daily => r matches Some(q) && q.version == ApiVersion::V3 && q.path@
                == "historical-price-full"@ + "/"@ + trim_by(symbol, |c: char| c == '/')
                && q.query is None,
            _ => r is None,
        },
{
    reveal_strlit("historical-chart");
    reveal_strlit("historical-price-full");
    assert("historical-chart"@[0] != '/' && "historical-chart"@.last() != '/');
    assert("historical-price-full"@[0] != '/' && "historical-price-full"@.last() != '/');
    lemma_time_frame_text_segment(time_frame_or_five(timeframe));
    lemma_joined_prefix3("historical-chart"@, time_frame_text(time_frame_or_five(timeframe)), symbol);
    lemma_joined_prefix("historical-price-full"@, symbol);
}

/// What a symbol fetch requests: intraday or daily data; any other fetch
/// type requests nothing (and yields `null`).
pub fn plan_symbol_fetch(
    client: &HTTPClient,
    symbol: &str,
    fetch_type: FetchType,
    timeframe: &str,
    from: &Option<String>,
    to: &Option<String>,
) -> (r: Option<ApiRequest>)
    requires
        fetch_type == FetchType::IntraDay ==> date_ok(opt_view(*from)) && date_ok(opt_view(*to)),
    ensures
        match fetch_type {
            FetchType::IntraDay => r matches Some(q) && intraday_plan(
                q,
                symbol@,
                timeframe@,
                opt_view(*from),
                opt_view(*to),
            ),
            FetchType::Daily => r matches Some(q) && daily_plan(q, symbol@),
            _ => r is None,
        },
        symbol_plan(r, symbol@, fetch_type, timeframe@, opt_view(*from), opt_view(*to)),
{
    match fetch_type {
        FetchType::IntraDay => Some(intraday_request(client, symbol, timeframe, from, to)),
        FetchType::Daily => Some(daily_request(client, symbol)),
        _ => None,
    }
}

/// The error of a failed request: a fetch error with the failure text.
pub fn fetch_failure(detail: &str) -> (r: CommodityError)
    ensures
        r matches CommodityError::FetchError(m) && m@ == detail@,
{
    CommodityError::FetchError(detail.to_owned())
}

} // verus!

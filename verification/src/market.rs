//! Market-wide data: the error type, argument parsing and the plan of each
//! market endpoint.

use vstd::prelude::*;

use crate::json::{json_str_field, json_u64_field, JsonValue};
use crate::options::{fetch_type_parse, FetchType};
use crate::request::{
    concat_str, entry_view, plain_request, present_pairs, request_is, ApiRequest, ApiVersion,
    CachedFetch, HTTPClient,
};
use crate::text::{opt_view, or_empty, split_spec, string_or_empty};
use crate::utils::date_of;

verus! {

/// Failures of market polling.
#[derive(Debug)]
pub enum MarketError {
    FetchError(String),
    TaskError(String),
    ParseError(String),
    VoidTickersError(String),
    InvalidTicker(String),
    TooManyTickersError(String),
}

/// The text that `Display` writes for each error.
pub open spec fn market_error_text(e: MarketError) -> Seq<char> {
    match e {
        MarketError::FetchError(m) => "Failed to fetch data: "@ + m@,
        MarketError::TaskError(m) => "Task encountered an error: "@ + m@,
        MarketError::ParseError(m) => "Failed to parse data: "@ + m@,
        MarketError::VoidTickersError(m) => "No tickers provided: "@ + m@,
        MarketError::InvalidTicker(m) => "Invalid ticker: "@ + m@,
        MarketError::TooManyTickersError(m) => "Too many tickers: "@ + m@,
    }
}

impl MarketError {
    /// The text that `Display` writes.
    pub fn to_string(&self) -> (r: String)
        ensures
            r@ == market_error_text(*self),
    {
        match self {
            MarketError::FetchError(m) => concat_str("Failed to fetch data: ", m.as_str()),
            MarketError::TaskError(m) => concat_str("Task encountered an error: ", m.as_str()),
            MarketError::ParseError(m) => concat_str("Failed to parse data: ", m.as_str()),
            MarketError::VoidTickersError(m) => concat_str("No tickers provided: ", m.as_str()),
            MarketError::InvalidTicker(m) => concat_str("Invalid ticker: ", m.as_str()),
            MarketError::TooManyTickersError(m) => concat_str("Too many tickers: ", m.as_str()),
        }
    }
}

/// The arguments of a market poll.
#[derive(Debug)]
pub struct MarketArgs {
    pub fetch_type: FetchType,
    pub date: Option<String>,
    pub from: Option<String>,
    pub to: Option<String>,
    pub exchange: Option<String>,
    pub limit: Option<u32>,
}

/// Reads `fetch_type` (required), `date`, `from`, `to`, `exchange` (strings)
/// and `limit` (a non-negative integer, kept modulo 2^32).
pub fn parse_poll_args(args: &JsonValue) -> (r: Result<MarketArgs, MarketError>)
    ensures
        match r {
            Ok(a) => {
                &&& json_str_field(*args, "fetch_type"@) matches Some(s) && a.fetch_type
                    == fetch_type_parse(s)
                &&& opt_view(a.date) == json_str_field(*args, "date"@)
                &&& opt_view(a.from) == json_str_field(*args, "from"@)
                &&& opt_view(a.to) == json_str_field(*args, "to"@)
                &&& opt_view(a.exchange) == json_str_field(*args, "exchange"@)
                &&& a.limit == match json_u64_field(*args, "limit"@) {
                    Some(l) => Some(l as u32),
                    None => None,
                }
            },
            Err(MarketError::ParseError(m)) => json_str_field(*args, "fetch_type"@) is None && m@
                == "Fetch type not defined"@,
            Err(_) => false,
        },
{
    let fetch_type = match args.str_field("fetch_type") {
        Some(s) => FetchType::from_str(s.as_str()),
        None => {
            return Err(MarketError::ParseError("Fetch type not defined".to_owned()));
        },
    };
    let limit = match args.u64_field("limit") {
        Some(l) => Some(l as u32),
        None => None,
    };
    Ok(
        MarketArgs {
            fetch_type,
            date: args.str_field("date"),
            from: args.str_field("from"),
            to: args.str_field("to"),
            exchange: args.str_field("exchange"),
            limit,
        },
    )
}

/// `f` caches `path` of generation `version` with `query` under `key`.
pub open spec fn fetch_is(
    f: CachedFetch,
    key: Seq<char>,
    version: ApiVersion,
    path: Seq<char>,
    query: Option<Seq<(Seq<char>, Seq<char>)>>,
) -> bool {
    f.cache_key@ == key && request_is(f.request, version, path, query)
}

/// The date a price-earnings request asks for: the one given, else the date
/// part of the current timestamp.
pub open spec fn date_or_today(date: Option<Seq<char>>, now: Seq<char>) -> Seq<char> {
    match date {
        Some(d) => d,
        None => split_spec(now, ' ')[0],
    }
}

/// What a market poll fetches for each fetch type; `now` is the current
/// timestamp (`YYYY-MM-DD HH:MM:SS`).
pub open spec fn market_plan(r: Result<CachedFetch, MarketError>, a: MarketArgs, now: Seq<char>) -> bool {
    let ex = opt_view(a.exchange);
    let pe_query = Some(
        present_pairs(seq![("date"@, Some(date_or_today(opt_view(a.date), now))), ("exchange"@, ex)]),
    );
    match a.fetch_type {
        FetchType::Gainers => r matches Ok(f) && fetch_is(
            f,
            "market_gainers"@,
            ApiVersion::V3,
            "stock_market/gainers"@,
            None,
        ),
        FetchType::Losers => r matches Ok(f) && fetch_is(
            f,
            "market_losers"@,
            ApiVersion::V3,
            "stock_market/losers"@,
            None,
        ),
        FetchType::Actives => r matches Ok(f) && fetch_is(
            f,
            "market_actives"@,
            ApiVersion::V3,
            "stock_market/active"@,
            None,
        ),
        FetchType::Performance => r matches Ok(f) && fetch_is(
            f,
            "market_performance"@,
            ApiVersion::V3,
            "sector-performance"@,
            None,
        ),
        FetchType::SectorHistorical => r matches Ok(f) && fetch_is(
            f,
            "market_sector_historical"@,
            ApiVersion::V3,
            "historical-sectors-performance"@,
            Some(
                present_pairs(
                    seq![("from"@, opt_view(a.from)), ("limit"@, None), ("to"@, opt_view(a.to))],
                ),
            ),
        ),
        FetchType::SectorPERatio => r matches Ok(f) && fetch_is(
            f,
            "market_sector_peratio/"@ + or_empty(ex),
            ApiVersion::V4,
            "sector_price_earning_ratio"@,
            pe_query,
        ),
        FetchType::IndustryPERatio => r matches Ok(f) && fetch_is(
            f,
            "market_industry_peratio/"@ + or_empty(ex),
            ApiVersion::V4,
            "industry_price_earning_ratio"@,
            pe_query,
        ),
        _ => r matches Err(MarketError::TaskError(m)) && m@ == "Invalid fetch type"@,
    }
}

fn cached(key: &str, request: ApiRequest) -> (r: CachedFetch)
    ensures
        r.cache_key@ == key@,
        r.request == request,
{
    CachedFetch { cache_key: key.to_owned(), request }
}

fn pe_ratio_query(
    client: &HTTPClient,
    date: &Option<String>,
    exchange: &Option<String>,
    now: &str,
) -> (r: Vec<(String, String)>)
    ensures
        crate::request::pair_views(r@) == present_pairs(
            seq![
                ("date"@, Some(date_or_today(opt_view(*date), now@))),
                ("exchange"@, opt_view(*exchange)),
            ],
        ),
{
    let d = match date {
        Some(d) => d.clone(),
        None => date_of(now),
    };
    let entries = vec![
        ("date".to_owned(), JsonValue::String(d)),
        ("exchange".to_owned(), JsonValue::from_opt_str(exchange.clone())),
    ];
    let ghost e = entries@;
    let q = client.query_of(entries);
    assert(e.map_values(|x: (String, JsonValue)| entry_view(x)) =~= seq![
        ("date"@, Some(date_or_today(opt_view(*date), now@))),
        ("exchange"@, opt_view(*exchange)),
    ]);
    q
}

/// Plans the fetch of a market poll.
pub fn plan_market_fetch(client: &HTTPClient, a: &MarketArgs, now: &str) -> (r: Result<
    CachedFetch,
    MarketError,
>)
    ensures
        market_plan(r, *a, now@),
{
    match a.fetch_type {
        FetchType::Gainers => Ok(
            cached("market_gainers", plain_request(ApiVersion::V3, "stock_market/gainers")),
        ),
        FetchType::Losers => Ok(
            cached("market_losers", plain_request(ApiVersion::V3, "stock_market/losers")),
        ),
        FetchType::Actives => Ok(
            cached("market_actives", plain_request(ApiVersion::V3, "stock_market/active")),
        ),
        FetchType::Performance => Ok(
            cached("market_performance", plain_request(ApiVersion::V3, "sector-performance")),
        ),
        FetchType::SectorHistorical => {
            let entries = vec![
                ("from".to_owned(), JsonValue::from_opt_str(a.from.clone())),
                ("limit".to_owned(), JsonValue::from_opt_u64(match a.limit {
                    Some(l) => Some(l as u64),
                    None => None,
                })),
                ("to".to_owned(), JsonValue::from_opt_str(a.to.clone())),
            ];
            let ghost e = entries@;
            let q = client.query_of(entries);
            assert(e.map_values(|x: (String, JsonValue)| entry_view(x)) =~= seq![
                ("from"@, opt_view(a.from)),
                ("limit"@, None::<Seq<char>>),
                ("to"@, opt_view(a.to)),
            ]);
            Ok(
                cached(
                    "market_sector_historical",
                    ApiRequest {
                        version: ApiVersion::V3,
                        path: "historical-sectors-performance".to_owned(),
                        query: Some(q),
                    },
                ),
            )
        },
        FetchType::SectorPERatio => {
            let key = concat_str("market_sector_peratio/", string_or_empty(&a.exchange).as_str());
            let q = pe_ratio_query(client, &a.date, &a.exchange, now);
            Ok(
                CachedFetch {
                    cache_key: key,
                    request: ApiRequest {
                        version: ApiVersion::V4,
                        path: "sector_price_earning_ratio".to_owned(),
                        query: Some(q),
                    },
                },
            )
        },
        FetchType::IndustryPERatio => {
            let key = concat_str("market_industry_peratio/", string_or_empty(&a.exchange).as_str());
            let q = pe_ratio_query(client, &a.date, &a.exchange, now);
            Ok(
                CachedFetch {
                    cache_key: key,
                    request: ApiRequest {
                        version: ApiVersion::V4,
                        path: "industry_price_earning_ratio".to_owned(),
                        query: Some(q),
                    },
                },
            )
        },
        _ => Err(MarketError::TaskError("Invalid fetch type".to_owned())),
    }
}

/// The error of a failed request: a fetch error with the failure text.
pub fn fetch_failure(detail: &str) -> (r: MarketError)
    ensures
        r matches MarketError::FetchError(m) && m@ == detail@,
{
    MarketError::FetchError(detail.to_owned())
}

/// The error the cache layer passes on: a fetch error with the text of the
/// error it wraps.
pub fn rewrap(e: &MarketError) -> (r: MarketError)
    ensures
        r matches MarketError::FetchError(m) && m@ == market_error_text(*e),
{
    MarketError::FetchError(e.to_string())
}

/// Each market fetch type is served from its own endpoint: the movers from
/// `stock_market/gainers`, `stock_market/losers` and `stock_market/active`,
/// sector performance and its history from their v3 paths, the price-earnings
/// ratios from their v4 paths; any other fetch type is refused.
pub proof fn market_fetch_endpoints(r: Result<CachedFetch, MarketError>, a: MarketArgs, now: Seq<char>)
    requires
        market_plan(r, a, now),
    ensures
        match a.fetch_type {
            FetchType::Gainers => r matches Ok(f) && f.request.version == ApiVersion::V3
                && f.request.path@ == "stock_market/gainers"@ && f.cache_key@ == "market_gainers"@,
            FetchType::Losers => r matches Ok(f) && f.request.version == ApiVersion::V3
                && f.request.path@ == "stock_market/losers"@ && f.cache_key@ == "market_losers"@,
            FetchType::Actives => r matches Ok(f) && f.request.version == ApiVersion::V3
                && f.request.path@ == "stock_market/active"@ && f.cache_key@ == "market_actives"@,
            FetchType::Performance => r matches Ok(f) && f.request.version == ApiVersion::V3
                && f.request.path@ == "sector-performance"@ && f.cache_key@ == "market_performance"@,
            FetchType::SectorHistorical => r matches Ok(f) && f.request.version == ApiVersion::V3
                && f.request.path@ == "historical-sectors-performance"@ && f.cache_key@ == "market_sector_historical"@,
            FetchType::SectorPERatio => r matches Ok(f) && f.request.version == ApiVersion::V4
                && f.request.path@ == "sector_price_earning_ratio"@,
            FetchType::IndustryPERatio => r matches Ok(f) && f.request.version == ApiVersion::V4
                && f.request.path@ == "industry_price_earning_ratio"@,
            _ => r is Err,
        },
{
}

/// Distinct market fetch types never share a request: their paths differ
/// (the losers are never fetched from the gainers' path).
pub proof fn market_fetch_paths_distinct(
    r1: Result<CachedFetch, MarketError>,
    a1: MarketArgs,
    now1: Seq<char>,
    r2: Result<CachedFetch, MarketError>,
    a2: MarketArgs,
    now2: Seq<char>,
)
    requires
        market_plan(r1, a1, now1),
        market_plan(r2, a2, now2),
        r1 is Ok,
        r2 is Ok,
        a1.fetch_type != a2.fetch_type,
    ensures
        r1->Ok_0.request.path@ != r2->Ok_0.request.path@,
{
    market_fetch_endpoints(r1, a1, now1);
    market_fetch_endpoints(r2, a2, now2);
    reveal_strlit("stock_market/gainers");
    reveal_strlit("stock_market/losers");
    reveal_strlit("stock_market/active");
    reveal_strlit("sector-performance");
    reveal_strlit("historical-sectors-performance");
    reveal_strlit("sector_price_earning_ratio");
    reveal_strlit("industry_price_earning_ratio");
    assert("stock_market/gainers"@.len() == 20 && "stock_market/gainers"@[13] == 'g');
    assert("stock_market/losers"@.len() == 19 && "stock_market/losers"@[13] == 'l');
    assert("stock_market/active"@.len() == 19 && "stock_market/active"@[13] == 'a');
    assert("sector-performance"@.len() == 18 && "sector-performance"@[13] == 'm');
    assert("historical-sectors-performance"@.len() == 30 && "historical-sectors-performance"@[13] == 'c');
    assert("sector_price_earning_ratio"@.len() == 26 && "sector_price_earning_ratio"@[13] == 'e');
    assert("industry_price_earning_ratio"@.len() == 28 && "industry_price_earning_ratio"@[13] == 'e');
}

} // verus!

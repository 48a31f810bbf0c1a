//! Foreign exchange: the error type, symbol normalisation, argument parsing,
//! ticker validation, the plan of each forex request and the report of a
//! batch.

use vstd::prelude::*;

use crate::json::{json_str_field, json_string_list_field, JsonValue};
use crate::options::{
    date_ok, reprint, reprinted,
    fetch_type_debug, fetch_type_parse, lemma_time_frame_text_segment, time_frame_parse,
    time_frame_round_trip, time_frame_text, FetchType, TimeFrame,
};
use crate::request::{
    concat_str, entry_view, has_prefix, joined_path, lemma_joined_prefix, lemma_joined_prefix3,
    plain_request, present_pairs, request_is, ApiRequest, ApiVersion, CachedFetch, HTTPClient,
};
use crate::text::{
    all_ascii, ascii_lower, ascii_upper, contains, contains_spec, decimal, decimal_spec, opt_view,
    or_empty, string_or_empty, to_lowercase, to_uppercase, unicode_lowercase, unicode_uppercase,
    trim_by, views,
};
use crate::utils::{reported_as, Reported};

verus! {

/// A listed currency pair.
#[derive(Debug, Clone)]
pub struct Forex {
    symbol: String,
    name: String,
    currency: String,
    stock_exchange: String,
    exchange_short_name: String,
}

impl Forex {
    pub fn new(
        symbol: String,
        name: String,
        currency: String,
        stock_exchange: String,
        exchange_short_name: String,
    ) -> (r: Forex)
        ensures
            r.symbol() == symbol@,
    {
        Forex { symbol, name, currency, stock_exchange, exchange_short_name }
    }

    pub closed spec fn symbol(&self) -> Seq<char> {
        self.symbol@
    }
}

/// Failures of forex polling.
#[derive(Debug)]
pub enum ForexError {
    FetchError(String),
    TaskError(String),
    ParseError(String),
    VoidTickersError(String),
    InvalidTicker(String),
    TooManyTickersError(String),
}

/// The text that `Display` writes for each error.
pub open spec fn forex_error_text(e: ForexError) -> Seq<char> {
    match e {
        ForexError::FetchError(m) => "Failed to fetch data: "@ + m@,
        ForexError::TaskError(m) => "Task encountered an error: "@ + m@,
        ForexError::ParseError(m) => "Failed to parse data: "@ + m@,
        ForexError::VoidTickersError(m) => "No tickers provided: "@ + m@,
        ForexError::InvalidTicker(m) => "Invalid ticker: "@ + m@,
        ForexError::TooManyTickersError(m) => "Too many tickers: "@ + m@,
    }
}

impl ForexError {
    /// The text that `Display` writes.
    pub fn to_string(&self) -> (r: String)
        ensures
            r@ == forex_error_text(*self),
    {
        match self {
            ForexError::FetchError(m) => concat_str("Failed to fetch data: ", m.as_str()),
            ForexError::TaskError(m) => concat_str("Task encountered an error: ", m.as_str()),
            ForexError::ParseError(m) => concat_str("Failed to parse data: ", m.as_str()),
            ForexError::VoidTickersError(m) => concat_str("No tickers provided: ", m.as_str()),
            ForexError::InvalidTicker(m) => concat_str("Invalid ticker: ", m.as_str()),
            ForexError::TooManyTickersError(m) => concat_str("Too many tickers: ", m.as_str()),
        }
    }
}

/// The tickers of a request, if their number is between one and the batch
/// size.
pub fn validate_tickers(tickers: Vec<String>, batch_size: usize) -> (r: Result<Vec<String>, ForexError>)
    ensures
        match r {
            Ok(t) => 1 <= tickers@.len() <= batch_size && t@ == tickers@,
            Err(ForexError::TooManyTickersError(m)) => tickers@.len() > batch_size && m@
                == "Too many tickers: "@ + decimal_spec(tickers@.len()),
            Err(ForexError::VoidTickersError(m)) => tickers@.len() == 0 && m@ == "No tickers provided"@,
            Err(_) => false,
        },
{
    if tickers.len() > batch_size {
        let count = decimal(tickers.len() as u64);
        return Err(ForexError::TooManyTickersError(concat_str("Too many tickers: ", count.as_str())));
    } else if tickers.len() == 0 {
        return Err(ForexError::VoidTickersError("No tickers provided".to_owned()));
    }
    Ok(tickers)
}

/// A symbol in upper case, with `USD` appended unless it already mentions
/// `usd` in any case.
pub open spec fn normalized_symbol(s: Seq<char>) -> Seq<char> {
    let upper = unicode_uppercase(s);
    if contains_spec(unicode_lowercase(upper), "usd"@) {
        upper
    } else {
        upper + "USD"@
    }
}

/// The same normalisation for ASCII symbols, with the ASCII case mappings.
pub open spec fn ascii_normalized(s: Seq<char>) -> Seq<char> {
    let upper = s.map_values(|c: char| ascii_upper(c));
    if contains_spec(upper.map_values(|c: char| ascii_lower(c)), "usd"@) {
        upper
    } else {
        upper + "USD"@
    }
}

/// Upper-cases the symbol and appends `USD` unless it already mentions `usd`.
pub fn normalize_symbol(symbol: &str) -> (r: String)
    ensures
        r@ == normalized_symbol(symbol@),
        all_ascii(symbol@) ==> r@ == ascii_normalized(symbol@) && all_ascii(r@),
{
    let upper = to_uppercase(symbol);
    let lower = to_lowercase(upper.as_str());
    proof {
        reveal_strlit("USD");
        if all_ascii(symbol@) {
            assert(all_ascii(upper@));
        }
    }
    if !contains(lower.as_str(), "usd") {
        let mut r = upper;
        r.append("USD");
        proof {
            if all_ascii(symbol@) {
                assert(all_ascii(r@)) by {
                    assert forall|i: int| 0 <= i < r@.len() implies (#[trigger] r@[i] as u32) < 128 by {
                        if i >= upper@.len() {
                            assert(r@[i] == "USD"@[i - upper@.len()]);
                        } else {
                            assert(r@[i] == upper@[i]);
                        }
                    }
                }
            }
        }
        r
    } else {
        upper
    }
}

/// Normalising an ASCII symbol twice gives the same as normalising once.
pub proof fn normalize_idempotent(s: Seq<char>)
    requires
        all_ascii(s),
    ensures
        all_ascii(ascii_normalized(s)),
        ascii_normalized(ascii_normalized(s)) == ascii_normalized(s),
{
    reveal_strlit("USD");
    reveal_strlit("usd");
    let upper = s.map_values(|c: char| ascii_upper(c));
    let lower = upper.map_values(|c: char| ascii_lower(c));
    let n = ascii_normalized(s);
    assert(all_ascii(upper));
    assert(all_ascii(n)) by {
        assert forall|i: int| 0 <= i < n.len() implies (#[trigger] n[i] as u32) < 128 by {
            if i >= upper.len() {
                assert(n[i] == "USD"@[i - upper.len()]);
            }
        }
    }
    let upper2 = n.map_values(|c: char| ascii_upper(c));
    assert(upper2 =~= n) by {
        assert forall|i: int| 0 <= i < n.len() implies #[trigger] upper2[i] == n[i] by {
            if i < upper.len() {
                assert(n[i] == ascii_upper(s[i]));
            } else {
                assert(n[i] == "USD"@[i - upper.len()]);
            }
        }
    }
    let lower2 = n.map_values(|c: char| ascii_lower(c));
    if contains_spec(lower, "usd"@) {
        assert(n == upper);
    } else {
        assert(n == upper + "USD"@);
        let k = upper.len() as int;
        assert(lower2.subrange(k, k + 3) =~= "usd"@);
        assert(contains_spec(lower2, "usd"@));
    }
}

/// The arguments of a forex poll.
#[derive(Debug)]
pub struct ForexArgs {
    pub tickers: Vec<String>,
    pub fetch_type: FetchType,
    pub timeframe: Option<String>,
    pub from: Option<String>,
    pub to: Option<String>,
}

/// Reads `tickers` (required; each normalised), `fetch_type` (required),
/// `timeframe`, `from` and `to`.
pub fn parse_poll_args(args: &JsonValue) -> (r: Result<ForexArgs, ForexError>)
    ensures
        match r {
            Ok(a) => {
                &&& json_string_list_field(*args, "tickers"@) matches Some(t) && views(a.tickers@)
                    == t.map_values(|s: Seq<char>| normalized_symbol(s))
                &&& json_str_field(*args, "fetch_type"@) matches Some(s) && a.fetch_type
                    == fetch_type_parse(s)
                &&& opt_view(a.timeframe) == json_str_field(*args, "timeframe"@)
                &&& opt_view(a.from) == json_str_field(*args, "from"@)
                &&& opt_view(a.to) == json_str_field(*args, "to"@)
            },
            Err(ForexError::ParseError(m)) => (json_string_list_field(*args, "tickers"@) is None
                && m@ == "Missing 'tickers' field"@) || (json_string_list_field(*args, "tickers"@) is Some
                && json_str_field(*args, "fetch_type"@) is None && m@
                == "Missing 'fetch_type' field"@),
            Err(_) => false,
        },
{
    let raw = match args.string_list_field("tickers") {
        Some(t) => t,
        None => {
            return Err(ForexError::ParseError("Missing 'tickers' field".to_owned()));
        },
    };
    let n = raw.len();
    let mut tickers: Vec<String> = Vec::new();
    let mut i: usize = 0;
    while i < n
        invariant
            n == raw@.len(),
            i <= n,
            views(tickers@) == views(raw@).map_values(|s: Seq<char>| normalized_symbol(s)).take(
                i as int,
            ),
        decreases n - i,
    {
        let t = normalize_symbol(raw[i].as_str());
        let ghost before = tickers@;
        tickers.push(t);
        assert(views(tickers@) =~= views(before).push(t@));
        i = i + 1;
    }
    assert(views(raw@).map_values(|s: Seq<char>| normalized_symbol(s)).take(n as int)
        =~= views(raw@).map_values(|s: Seq<char>| normalized_symbol(s)));
    let fetch_type = match args.str_field("fetch_type") {
        Some(s) => FetchType::from_str(s.as_str()),
        None => {
            return Err(ForexError::ParseError("Missing 'fetch_type' field".to_owned()));
        },
    };
    Ok(
        ForexArgs {
            tickers,
            fetch_type,
            timeframe: args.str_field("timeframe"),
            from: args.str_field("from"),
            to: args.str_field("to"),
        },
    )
}

/// The time frame a name stands for, five minutes when it names none.
pub open spec fn time_frame_or_five(name: Seq<char>) -> TimeFrame {
    match time_frame_parse(name) {
        Some(t) => t,
        None => TimeFrame::FiveMinutes,
    }
}

/// The intraday request of a symbol: the symbol is normalised, the time
/// frame resolved (default five minutes) and the dates re-printed.
pub open spec fn intraday_plan(
    r: ApiRequest,
    symbol: Seq<char>,
    timeframe: Seq<char>,
    from: Option<Seq<char>>,
    to: Option<Seq<char>>,
) -> bool {
    request_is(
        r,
        ApiVersion::V3,
        joined_path(
            seq![
                "history-chart"@,
                time_frame_text(time_frame_or_five(timeframe)),
                normalized_symbol(symbol),
            ],
        ),
        Some(present_pairs(seq![("from"@, reprinted(from)), ("to"@, reprinted(to))])),
    )
}

/// The daily request of a symbol.
pub open spec fn daily_plan(r: ApiRequest, symbol: Seq<char>) -> bool {
    request_is(
        r,
        ApiVersion::V3,
        joined_path(seq!["historical-price-full"@, normalized_symbol(symbol)]),
        None,
    )
}

pub fn intraday_request(
    client: &HTTPClient,
    symbol: &str,
    timeframe: &str,
    from: &Option<String>,
    to: &Option<String>,
) -> (r: ApiRequest)
    requires
        date_ok(opt_view(*from)),
        date_ok(opt_view(*to)),
    ensures
        intraday_plan(r, symbol@, timeframe@, opt_view(*from), opt_view(*to)),
{
    let symbol = normalize_symbol(symbol);
    let entries = vec![
        ("from".to_owned(), JsonValue::from_opt_str(reprint(from))),
        ("to".to_owned(), JsonValue::from_opt_str(reprint(to))),
    ];
    let ghost e = entries@;
    let q = client.query_of(entries);
    assert(e.map_values(|x: (String, JsonValue)| entry_view(x)) =~= seq![
        ("from"@, reprinted(opt_view(*from))),
        ("to"@, reprinted(opt_view(*to))),
    ]);
    let tf = match TimeFrame::from_str(timeframe) {
        Some(t) => t,
        None => TimeFrame::FiveMinutes,
    };
    let path = client.join3("history-chart", tf.to_str(), symbol.as_str());
    ApiRequest { version: ApiVersion::V3, path, query: Some(q) }
}

pub fn daily_request(client: &HTTPClient, symbol: &str) -> (r: ApiRequest)
    ensures
        daily_plan(r, symbol@),
{
    let symbol = normalize_symbol(symbol);
    let path = client.join2("historical-price-full", symbol.as_str());
    ApiRequest { version: ApiVersion::V3, path, query: None }
}

/// The list of currency pairs.
pub fn list_request() -> (r: ApiRequest)
    ensures
        request_is(r, ApiVersion::V3, "symbol/available-forex-currency-pairs"@, None),
{
    plain_request(ApiVersion::V3, "symbol/available-forex-currency-pairs")
}

/// What a symbol task fetches: intraday data (cache key of symbol, time
/// frame, dates; default time frame `5min`) or daily data; other fetch types
/// are refused.
pub open spec fn forex_plan(
    r: Result<CachedFetch, ForexError>,
    symbol: Seq<char>,
    fetch_type: FetchType,
    timeframe: Option<Seq<char>>,
    from: Option<Seq<char>>,
    to: Option<Seq<char>>,
) -> bool {
    match fetch_type {
        FetchType::IntraDay => r matches Ok(f) && f.cache_key@ == symbol + "-"@ + or_empty(
            timeframe,
        ) + "-"@ + or_empty(from) + "-"@ + or_empty(to) && intraday_plan(
            f.request,
            symbol,
            match timeframe {
                Some(t) => t,
                None => "5min"@,
            },
            from,
            to,
        ),
        FetchType::Daily => r matches Ok(f) && f.cache_key@ == "forex_daily_"@ + symbol
            && daily_plan(f.request, symbol),
        _ => r matches Err(ForexError::TaskError(m)) && m@ == "Invalid fecth type: "@
            + fetch_type_debug(fetch_type),
    }
}

/// Each forex fetch is served from its own endpoint: intraday rates from
/// `history-chart/<time frame>/<pair>` (the time frame `5min` when none is
/// given), daily rates from `historical-price-full/<pair>`, the pair being
/// the normalised symbol without slashes at its ends; the daily rates are
/// cached under `forex_daily_<symbol>`; any other fetch type is refused.
pub proof fn forex_fetch_endpoints(
    r: Result<CachedFetch, ForexError>,
    symbol: Seq<char>,
    fetch_type: FetchType,
    timeframe: Option<Seq<char>>,
    from: Option<Seq<char>>,
    to: Option<Seq<char>>,
)
    requires
        forex_plan(r, symbol, fetch_type, timeframe, from, to),
    ensures
        match fetch_type {
            FetchType::IntraDay => r matches Ok(f) && f.request.version == ApiVersion::V3
                && f.request.path@ == "history-chart"@ + "/"@ + time_frame_text(
                time_frame_or_five(
                    match timeframe {
                        Some(t) => t,
                        None => "5min"@,
                    },
                ),
            ) + "/"@ + trim_by(normalized_symbol(symbol), |c: char| c == '/') && (timeframe is None
                ==> has_prefix(f.request.path@, "history-chart"@ + "/"@ + "5min"@ + "/"@)),
            FetchType::Daily => r matches Ok(f) && f.request.version == ApiVersion::V3
                && f.request.path@ == "historical-price-full"@ + "/"@ + trim_by(
                normalized_symbol(symbol),
                |c: char| c == '/',
            ) && f.cache_key@ == "forex_daily_"@ + symbol,
            _ => r is Err,
        },
{
    reveal_strlit("history-chart");
    reveal_strlit("historical-price-full");
    assert("history-chart"@[0] != '/' && "history-chart"@.last() != '/');
    assert("historical-price-full"@[0] != '/' && "historical-price-full"@.last() != '/');
    let tf = time_frame_or_five(
        match timeframe {
            Some(t) => t,
            None => "5min"@,
        },
    );
    lemma_time_frame_text_segment(tf);
    lemma_joined_prefix3("history-chart"@, time_frame_text(tf), normalized_symbol(symbol));
    lemma_joined_prefix("historical-price-full"@, normalized_symbol(symbol));
    if timeframe is None {
        time_frame_round_trip(TimeFrame::FiveMinutes);
    }
}

/// Plans the fetch of one symbol.
pub fn plan_forex_fetch(
    client: &HTTPClient,
    symbol: &str,
    fetch_type: FetchType,
    timeframe: &Option<String>,
    from: &Option<String>,
    to: &Option<String>,
) -> (r: Result<CachedFetch, ForexError>)
    requires
        fetch_type == FetchType::IntraDay ==> date_ok(opt_view(*from)) && date_ok(opt_view(*to)),
    ensures
        forex_plan(r, symbol@, fetch_type, opt_view(*timeframe), opt_view(*from), opt_view(*to)),
{
    match fetch_type {
        FetchType::IntraDay => {
            let mut key = symbol.to_owned();
            key.append("-");
            key.append(string_or_empty(timeframe).as_str());
            key.append("-");
            key.append(string_or_empty(from).as_str());
            key.append("-");
            key.append(string_or_empty(to).as_str());
            let tf = match timeframe {
                Some(t) => t.clone(),
                None => TimeFrame::FiveMinutes.to_str().to_owned(),
            };
            let request = intraday_request(client, symbol, tf.as_str(), from, to);
            Ok(CachedFetch { cache_key: key, request })
        },
        FetchType::Daily => Ok(
            CachedFetch {
                cache_key: concat_str("forex_daily_", symbol),
                request: daily_request(client, symbol),
            },
        ),
        _ => {
            let t = fetch_type.debug_string();
            Err(ForexError::TaskError(concat_str("Invalid fecth type: ", t.as_str())))
        },
    }
}

/// The error of a failed request: a fetch error with the failure text.
pub fn fetch_failure(detail: &str) -> (r: ForexError)
    ensures
        r matches ForexError::FetchError(m) && m@ == detail@,
{
    ForexError::FetchError(detail.to_owned())
}

/// The error passed on by a wrapping layer: a fetch error carrying the text
/// of the error it wraps.
pub fn rewrap(e: &ForexError) -> (r: ForexError)
    ensures
        r matches ForexError::FetchError(m) && m@ == forex_error_text(*e),
{
    ForexError::FetchError(e.to_string())
}

/// The report of a batch of symbol tasks, in order: each value, the text of
/// each error, `Task panicked` for a task that did not finish.
pub fn report_outcomes<T>(outcomes: Vec<Option<Result<T, ForexError>>>) -> (r: Vec<Reported<T>>)
    ensures
        r@.len() == outcomes@.len(),
        forall|i: int|
            0 <= i < outcomes@.len() ==> reported_as(
                #[trigger] outcomes@[i],
                match outcomes@[i] {
                    Some(Err(e)) => forex_error_text(e),
                    _ => Seq::empty(),
                },
                r@[i],
            ),
{
    let mut rest = outcomes;
    let mut out: Vec<Reported<T>> = Vec::new();
    let ghost all = outcomes@;
    assert(all.skip(0) =~= all);
    while rest.len() > 0
        invariant
            out@.len() + rest@.len() == all.len(),
            rest@ == all.skip(out@.len() as int),
            forall|i: int|
                0 <= i < out@.len() ==> reported_as(
                    #[trigger] all[i],
                    match all[i] {
                        Some(Err(e)) => forex_error_text(e),
                        _ => Seq::empty(),
                    },
                    out@[i],
                ),
        decreases rest@.len(),
    {
        let ghost k = out@.len() as int;
        let ghost before = rest@;
        let first = rest.remove(0);
        assert(before[0] == all[k]);
        assert(rest@ =~= all.skip(k + 1));
        let rep = match first {
            Some(Ok(v)) => Reported::Value(v),
            Some(Err(e)) => Reported::Error(e.to_string()),
            None => Reported::Error("Task panicked".to_owned()),
        };
        out.push(rep);
    }
    out
}

} // verus!

//! Technical indicators: the error type, argument parsing, ticker validation
//! and the plan of one indicator request per ticker.

use vstd::prelude::*;

use crate::json::{json_str_field, json_string_list_field, json_u64_field, JsonValue};
use crate::options::{
    date_ok,
    date_time_parse, fetch_type_parse, indicatortype_from_lower, indicatortype_text,
    lemma_time_frame_text_segment, opt_date_time_debug, time_frame_parse, time_frame_text,
    ymd_text, DateTime,
    DateTimeView, FetchType, IndicatorType, TimeFrame, opt_date_time_debug_string,
};
use crate::request::{
    concat_str, entry_view, has_prefix, joined_path, lemma_joined_prefix3, opt_pair_views,
    present_pairs, request_is, ApiRequest, ApiVersion, CachedFetch, HTTPClient,
};
use crate::text::{decimal, decimal_spec, opt_view, trim_by, unicode_lowercase, views};

verus! {

/// Failures of technical indicator polling.
#[derive(Debug)]
pub enum IndicatorError {
    FetchError(String),
    TaskError(String),
    ParseError(String),
    VoidTickersError(String),
    InvalidTicker(String),
    TooManyTickersError(String),
}

/// The text that `Display` writes for each error.
pub open spec fn indicator_error_text(e: IndicatorError) -> Seq<char> {
    match e {
        IndicatorError::FetchError(m) => "Failed to fetch data: "@ + m@,
        IndicatorError::TaskError(m) => "Task encountered an error: "@ + m@,
        IndicatorError::ParseError(m) => "Failed to parse data: "@ + m@,
        IndicatorError::VoidTickersError(m) => "No tickers provided: "@ + m@,
        IndicatorError::InvalidTicker(m) => "Invalid ticker: "@ + m@,
        IndicatorError::TooManyTickersError(m) => "Too many tickers: "@ + m@,
    }
}

impl IndicatorError {
    /// The text that `Display` writes.
    pub fn to_string(&self) -> (r: String)
        ensures
            r@ == indicator_error_text(*self),
    {
        match self {
            IndicatorError::FetchError(m) => concat_str("Failed to fetch data: ", m.as_str()),
            IndicatorError::TaskError(m) => concat_str("Task encountered an error: ", m.as_str()),
            IndicatorError::ParseError(m) => concat_str("Failed to parse data: ", m.as_str()),
            IndicatorError::VoidTickersError(m) => concat_str("No tickers provided: ", m.as_str()),
            IndicatorError::InvalidTicker(m) => concat_str("Invalid ticker: ", m.as_str()),
            IndicatorError::TooManyTickersError(m) => concat_str("Too many tickers: ", m.as_str()),
        }
    }
}

/// The tickers of a request, if their number is between one and the batch
/// size.
pub fn validate_tickers(tickers: Vec<String>, batch_size: usize) -> (r: Result<Vec<String>, IndicatorError>)
    ensures
        match r {
            Ok(t) => 1 <= tickers@.len() <= batch_size && t@ == tickers@,
            Err(IndicatorError::TooManyTickersError(m)) => tickers@.len() > batch_size && m@
                == "Too many tickers: "@ + decimal_spec(tickers@.len()),
            Err(IndicatorError::VoidTickersError(m)) => tickers@.len() == 0 && m@ == "No tickers provided"@,
            Err(_) => false,
        },
{
    if tickers.len() > batch_size {
        let count = decimal(tickers.len() as u64);
        return Err(IndicatorError::TooManyTickersError(concat_str("Too many tickers: ", count.as_str())));
    } else if tickers.len() == 0 {
        return Err(IndicatorError::VoidTickersError("No tickers provided".to_owned()));
    }
    Ok(tickers)
}

/// The arguments of an indicator poll.
#[derive(Debug)]
pub struct IndicatorArgs {
    pub tickers: Vec<String>,
    pub fetch_type: FetchType,
    pub indicator: String,
    pub period: u64,
    pub timeframe: String,
    pub from: Option<String>,
    pub to: Option<String>,
}

/// The message of the first required argument that is missing, checked in
/// the order tickers, fetch type, indicator, period, time frame.
pub open spec fn missing_argument(args: JsonValue) -> Option<Seq<char>> {
    if json_string_list_field(args, "tickers"@) is None {
        Some("Missing 'tickers' field"@)
    } else if json_str_field(args, "fetch_type"@) is None {
        Some("Missing 'fetch_type' field"@)
    } else if json_str_field(args, "indicator"@) is None {
        Some("Missing 'indicator' field"@)
    } else if json_u64_field(args, "period"@) is None {
        Some("Missing 'period' field"@)
    } else if json_str_field(args, "timeframe"@) is None {
        Some("Missing 'timeframe' field"@)
    } else {
        None
    }
}

/// Reads the required `tickers`, `fetch_type`, `indicator`, `period` and
/// `timeframe`, and the optional `from` and `to`.
pub fn parse_poll_args(args: &JsonValue) -> (r: Result<IndicatorArgs, IndicatorError>)
    ensures
        match r {
            Ok(a) => {
                &&& missing_argument(*args) is None
                &&& json_string_list_field(*args, "tickers"@) == Some(views(a.tickers@))
                &&& json_str_field(*args, "fetch_type"@) matches Some(s) && a.fetch_type
                    == fetch_type_parse(s)
                &&& json_str_field(*args, "indicator"@) == Some(a.indicator@)
                &&& json_u64_field(*args, "period"@) == Some(a.period)
                &&& json_str_field(*args, "timeframe"@) == Some(a.timeframe@)
                &&& opt_view(a.from) == json_str_field(*args, "from"@)
                &&& opt_view(a.to) == json_str_field(*args, "to"@)
            },
            Err(IndicatorError::ParseError(m)) => missing_argument(*args) == Some(m@),
            Err(_) => false,
        },
{
    let tickers = match args.string_list_field("tickers") {
        Some(t) => t,
        None => {
            return Err(IndicatorError::ParseError("Missing 'tickers' field".to_owned()));
        },
    };
    let fetch_type = match args.str_field("fetch_type") {
        Some(s) => FetchType::from_str(s.as_str()),
        None => {
            return Err(IndicatorError::ParseError("Missing 'fetch_type' field".to_owned()));
        },
    };
    let indicator = match args.str_field("indicator") {
        Some(s) => s,
        None => {
            return Err(IndicatorError::ParseError("Missing 'indicator' field".to_owned()));
        },
    };
    let period = match args.u64_field("period") {
        Some(p) => p,
        None => {
            return Err(IndicatorError::ParseError("Missing 'period' field".to_owned()));
        },
    };
    let timeframe = match args.str_field("timeframe") {
        Some(s) => s,
        None => {
            return Err(IndicatorError::ParseError("Missing 'timeframe' field".to_owned()));
        },
    };
    Ok(
        IndicatorArgs {
            tickers,
            fetch_type,
            indicator,
            period,
            timeframe,
            from: args.str_field("from"),
            to: args.str_field("to"),
        },
    )
}

/// The indicator a name stands for, `sma` when it names none.
pub open spec fn indicator_or_sma(name: Seq<char>) -> IndicatorType {
    match indicatortype_from_lower(unicode_lowercase(name)) {
        Some(t) => t,
        None => IndicatorType::sma,
    }
}

/// The time frame a name stands for, one day when it names none.
pub open spec fn time_frame_or_day(name: Seq<char>) -> TimeFrame {
    match time_frame_parse(name) {
        Some(t) => t,
        None => TimeFrame::OneDay,
    }
}

/// The date-time an optional text parses to (the caller ensures it parses).
pub open spec fn parsed_date(o: Option<Seq<char>>) -> Option<DateTimeView> {
    match o {
        Some(s) => date_time_parse(s),
        None => None,
    }
}

pub open spec fn opt_ymd(o: Option<DateTimeView>) -> Option<Seq<char>> {
    match o {
        Some(d) => Some(ymd_text(d)),
        None => None,
    }
}

/// The indicator request of one ticker: the indicator (default `sma`), time
/// frame (default one day) and the dates are resolved; the cache key lists
/// ticker, indicator, time frame, period and the `Debug` texts of the dates.
pub open spec fn indicator_plan(
    f: CachedFetch,
    ticker: Seq<char>,
    indicator: Seq<char>,
    timeframe: Seq<char>,
    period: u64,
    from: Option<Seq<char>>,
    to: Option<Seq<char>>,
) -> bool {
    let ind = indicatortype_text(indicator_or_sma(indicator));
    let tf = time_frame_text(time_frame_or_day(timeframe));
    let fd = parsed_date(from);
    let td = parsed_date(to);
    &&& f.cache_key@ == ticker + "-"@ + ind + "-"@ + tf + "-"@ + decimal_spec(period as nat) + "-"@
        + opt_date_time_debug(fd) + "-"@ + opt_date_time_debug(td)
    &&& request_is(
        f.request,
        ApiVersion::V3,
        joined_path(seq!["technical_indicator"@, tf, ticker]),
        Some(
            present_pairs(
                seq![
                    ("from"@, opt_ymd(fd)),
                    ("period"@, Some(decimal_spec(period as nat))),
                    ("to"@, opt_ymd(td)),
                    ("type"@, Some(ind)),
                ],
            ),
        ),
    )
}

/// An optional pair as a sequence of at most one pair.
pub open spec fn optional_pair(key: Seq<char>, v: Option<Seq<char>>) -> Seq<(Seq<char>, Seq<char>)> {
    match v {
        Some(x) => seq![(key, x)],
        None => Seq::empty(),
    }
}

/// An indicator request goes to `technical_indicator/<time frame>/<ticker>`
/// (the ticker without slashes at its ends; one day when the time frame names
/// none) and sends the `from` date if given, the period in decimal, the `to`
/// date if given and the indicator's name as `type` (`sma` when the name
/// names none).
pub proof fn indicator_request_endpoint(
    f: CachedFetch,
    ticker: Seq<char>,
    indicator: Seq<char>,
    timeframe: Seq<char>,
    period: u64,
    from: Option<Seq<char>>,
    to: Option<Seq<char>>,
)
    requires
        indicator_plan(f, ticker, indicator, timeframe, period, from, to),
    ensures
        f.request.version == ApiVersion::V3,
        f.request.path@ == "technical_indicator"@ + "/"@ + time_frame_text(time_frame_or_day(timeframe))
            + "/"@ + trim_by(ticker, |c: char| c == '/'),
        time_frame_parse(timeframe) is None ==> has_prefix(
            f.request.path@,
            "technical_indicator"@ + "/"@ + "1day"@ + "/"@,
        ),
        opt_pair_views(f.request.query) == Some(
            optional_pair("from"@, opt_ymd(parsed_date(from))) + seq![
                ("period"@, decimal_spec(period as nat)),
            ] + optional_pair("to"@, opt_ymd(parsed_date(to))) + seq![
                ("type"@, indicatortype_text(indicator_or_sma(indicator))),
            ],
        ),
        indicatortype_from_lower(unicode_lowercase(indicator)) is None ==> opt_pair_views(
            f.request.query,
        )->0.last() == ("type"@, "sma"@),
{
    reveal_strlit("technical_indicator");
    assert("technical_indicator"@[0] != '/' && "technical_indicator"@.last() != '/');
    let tf = time_frame_text(time_frame_or_day(timeframe));
    lemma_time_frame_text_segment(time_frame_or_day(timeframe));
    lemma_joined_prefix3("technical_indicator"@, tf, ticker);
    let fy = opt_ymd(parsed_date(from));
    let ty = opt_ymd(parsed_date(to));
    let ind = indicatortype_text(indicator_or_sma(indicator));
    let dec = decimal_spec(period as nat);
    let e = seq![("from"@, fy), ("period"@, Some(dec)), ("to"@, ty), ("type"@, Some(ind))];
    let e3 = e.drop_last();
    let e2 = e3.drop_last();
    let e1 = e2.drop_last();
    assert(e1.drop_last() =~= Seq::<(Seq<char>, Option<Seq<char>>)>::empty());
    assert(present_pairs(e1.drop_last()) =~= Seq::<(Seq<char>, Seq<char>)>::empty());
    assert(e1.last() == ("from"@, fy));
    assert(e2.last() == ("period"@, Some(dec)));
    assert(e3.last() == ("to"@, ty));
    assert(e.last() == ("type"@, Some(ind)));
    assert(present_pairs(e1) =~= optional_pair("from"@, fy));
    assert(present_pairs(e2) =~= optional_pair("from"@, fy) + seq![("period"@, dec)]);
    assert(present_pairs(e3) =~= optional_pair("from"@, fy) + seq![("period"@, dec)]
        + optional_pair("to"@, ty));
    assert(present_pairs(e) =~= optional_pair("from"@, fy) + seq![("period"@, dec)]
        + optional_pair("to"@, ty) + seq![("type"@, ind)]);
    if time_frame_parse(timeframe) is None {
        reveal_strlit("1day");
        lemma_time_frame_text_segment(TimeFrame::OneDay);
    }
}

fn parse_opt_date(o: &Option<String>) -> (r: Option<DateTime>)
    requires
        date_ok(opt_view(*o)),
    ensures
        crate::options::opt_date_time_view(r) == parsed_date(opt_view(*o)),
{
    match o {
        Some(s) => match DateTime::from_str(s.as_str()) {
            Ok(d) => Some(d),
            Err(_) => None,
        },
        None => None,
    }
}

fn opt_ymd_string(o: &Option<DateTime>) -> (r: Option<String>)
    ensures
        opt_view(r) == opt_ymd(crate::options::opt_date_time_view(*o)),
{
    match o {
        Some(d) => Some(d.year_month_and_day()),
        None => None,
    }
}

/// Plans the indicator request of one ticker; only the technical indicator
/// fetch type is served.
pub fn plan_indicator_fetch(
    client: &HTTPClient,
    ticker: &str,
    fetch_type: FetchType,
    indicator: &str,
    timeframe: &str,
    period: u64,
    from: &Option<String>,
    to: &Option<String>,
) -> (r: Result<CachedFetch, IndicatorError>)
    requires
        fetch_type == FetchType::TechnicalIndicator ==> date_ok(opt_view(*from)) && date_ok(
            opt_view(*to),
        ),
    ensures
        match r {
            Ok(f) => fetch_type == FetchType::TechnicalIndicator && indicator_plan(
                f,
                ticker@,
                indicator@,
                timeframe@,
                period,
                opt_view(*from),
                opt_view(*to),
            ),
            Err(IndicatorError::FetchError(m)) => fetch_type != FetchType::TechnicalIndicator && m@
                == "Invalid fetch type"@,
            Err(_) => false,
        },
{
    if fetch_type != FetchType::TechnicalIndicator {
        return Err(IndicatorError::FetchError("Invalid fetch type".to_owned()));
    }
    let ind = match IndicatorType::from_str(indicator) {
        Some(t) => t,
        None => IndicatorType::sma,
    };
    let tf = match TimeFrame::from_str(timeframe) {
        Some(t) => t,
        None => TimeFrame::OneDay,
    };
    let from_date = parse_opt_date(from);
    let to_date = parse_opt_date(to);
    let period_text = decimal(period);
    let mut key = ticker.to_owned();
    key.append("-");
    key.append(ind.as_str());
    key.append("-");
    key.append(tf.to_str());
    key.append("-");
    key.append(period_text.as_str());
    key.append("-");
    key.append(opt_date_time_debug_string(&from_date).as_str());
    key.append("-");
    key.append(opt_date_time_debug_string(&to_date).as_str());
    let path = client.join3("technical_indicator", tf.to_str(), ticker);
    let entries = vec![
        ("from".to_owned(), JsonValue::from_opt_str(opt_ymd_string(&from_date))),
        ("period".to_owned(), JsonValue::String(period_text)),
        ("to".to_owned(), JsonValue::from_opt_str(opt_ymd_string(&to_date))),
        ("type".to_owned(), JsonValue::String(ind.as_str().to_owned())),
    ];
    let ghost e = entries@;
    let q = client.query_of(entries);
    assert(e.map_values(|x: (String, JsonValue)| entry_view(x)) =~= seq![
        ("from"@, opt_ymd(parsed_date(opt_view(*from)))),
        ("period"@, Some(decimal_spec(period as nat))),
        ("to"@, opt_ymd(parsed_date(opt_view(*to)))),
        ("type"@, Some(indicatortype_text(ind))),
    ]);
    Ok(
        CachedFetch {
            cache_key: key,
            request: ApiRequest { version: ApiVersion::V3, path, query: Some(q) },
        },
    )
}

/// The error of a failed request: a fetch error with the failure text.
pub fn fetch_failure(detail: &str) -> (r: IndicatorError)
    ensures
        r matches IndicatorError::FetchError(m) && m@ == detail@,
{
    IndicatorError::FetchError(detail.to_owned())
}

/// The error the cache layer passes on: a fetch error with the text of the
/// error it wraps.
pub fn rewrap(e: &IndicatorError) -> (r: IndicatorError)
    ensures
        r matches IndicatorError::FetchError(m) && m@ == indicator_error_text(*e),
{
    IndicatorError::FetchError(e.to_string())
}

/// The error of a ticker whose retries are exhausted: a task error with the
/// text of the last error.
pub fn task_failure(e: &IndicatorError) -> (r: IndicatorError)
    ensures
        r matches IndicatorError::TaskError(m) && m@ == indicator_error_text(*e),
{
    IndicatorError::TaskError(e.to_string())
}

} // verus!

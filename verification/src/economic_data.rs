//! Economic data: the error type, argument parsing and the plan of each
//! economic endpoint.

use vstd::prelude::*;

use crate::json::{json_str_field, JsonValue};
use crate::options::{
    economicindicatortype_from_lower, economicindicatortype_text, fetch_type_parse,
    fetch_type_text, EconomicIndicatorType, FetchType,
};
use crate::request::{
    concat_str, entry_view, opt_pair_views, pair_views, plain_request, present_pairs, request_is, ApiRequest,
    ApiVersion, CachedFetch, HTTPClient,
};
use crate::text::{opt_view, or_empty, string_or_empty, unicode_lowercase};

verus! {

/// Failures of economic data polling.
#[derive(Debug)]
pub enum EconomicDataError {
    FetchError(String),
    TaskError(String),
    ParseError(String),
    VoidEconomicDataError(String),
}

/// The text that `Display` writes for each error.
pub open spec fn economic_data_error_text(e: EconomicDataError) -> Seq<char> {
    match e {
        EconomicDataError::FetchError(m) => "Failed to fetch data: "@ + m@,
        EconomicDataError::TaskError(m) => "Task encountered an error: "@ + m@,
        EconomicDataError::ParseError(m) => "Failed to parse data: "@ + m@,
        EconomicDataError::VoidEconomicDataError(m) => "No economic data provided: "@ + m@,
    }
}

impl EconomicDataError {
    /// The text that `Display` writes.
    pub fn to_string(&self) -> (r: String)
        ensures
            r@ == economic_data_error_text(*self),
    {
        match self {
            EconomicDataError::FetchError(m) => concat_str("Failed to fetch data: ", m.as_str()),
            EconomicDataError::TaskError(m) => concat_str("Task encountered an error: ", m.as_str()),
            EconomicDataError::ParseError(m) => concat_str("Failed to parse data: ", m.as_str()),
            EconomicDataError::VoidEconomicDataError(m) => concat_str("No economic data provided: ", m.as_str()),
        }
    }
}

/// The arguments of an economic data poll.
#[derive(Debug)]
pub struct EconomicArgs {
    pub fetch_type: FetchType,
    pub indicator: Option<EconomicIndicatorType>,
    pub from: Option<String>,
    pub to: Option<String>,
}

/// The indicator a name stands for, looked up after lower-casing.
pub open spec fn indicator_of(name: Option<Seq<char>>) -> Option<EconomicIndicatorType> {
    match name {
        Some(s) => economicindicatortype_from_lower(unicode_lowercase(s)),
        None => None,
    }
}

/// Reads `fetch_type` (required), `indicator`, `from` and `to`.
pub fn parse_poll_args(args: &JsonValue) -> (r: Result<EconomicArgs, EconomicDataError>)
    ensures
        match r {
            Ok(a) => {
                &&& json_str_field(*args, "fetch_type"@) matches Some(s) && a.fetch_type
                    == fetch_type_parse(s)
                &&& a.indicator == indicator_of(json_str_field(*args, "indicator"@))
                &&& opt_view(a.from) == json_str_field(*args, "from"@)
                &&& opt_view(a.to) == json_str_field(*args, "to"@)
            },
            Err(EconomicDataError::ParseError(m)) => json_str_field(*args, "fetch_type"@) is None
                && m@ == "Fetch type is not provided"@,
            Err(_) => false,
        },
{
    let fetch_type = match args.str_field("fetch_type") {
        Some(s) => FetchType::from_str(s.as_str()),
        None => {
            return Err(EconomicDataError::ParseError("Fetch type is not provided".to_owned()));
        },
    };
    let indicator = match args.str_field("indicator") {
        Some(s) => EconomicIndicatorType::from_str(s.as_str()),
        None => None,
    };
    Ok(EconomicArgs { fetch_type, indicator, from: args.str_field("from"), to: args.str_field("to") })
}

pub open spec fn fetch_is(
    f: CachedFetch,
    key: Seq<char>,
    version: ApiVersion,
    path: Seq<char>,
    query: Option<Seq<(Seq<char>, Seq<char>)>>,
) -> bool {
    f.cache_key@ == key && request_is(f.request, version, path, query)
}

/// The message of an indicator request without an indicator.
pub open spec fn missing_indicator_text() -> Seq<char> {
    "Indicator type is required by this "@
        + "task but is  not provided"@
}

/// What an economic data poll fetches for each fetch type.
pub open spec fn economic_plan(r: Result<CachedFetch, EconomicDataError>, a: EconomicArgs) -> bool {
    let from = opt_view(a.from);
    let to = opt_view(a.to);
    let range = Some(present_pairs(seq![("from"@, from), ("to"@, to)]));
    match a.fetch_type {
        FetchType::MarketIndicator => match a.indicator {
            Some(t) => r matches Ok(f) && fetch_is(
                f,
                economicindicatortype_text(t),
                ApiVersion::V4,
                "economic"@,
                Some(seq![("name"@, economicindicatortype_text(t))]),
            ),
            None => r matches Err(EconomicDataError::FetchError(m)) && m@
                == missing_indicator_text(),
        },
        FetchType::TreasuryRate => r matches Ok(f) && fetch_is(
            f,
            "tresaury_rates-"@ + or_empty(from) + "-"@ + or_empty(to),
            ApiVersion::V4,
            "treasury"@,
            range,
        ),
        FetchType::MarketRiskPremium => r matches Ok(f) && fetch_is(
            f,
            "market_risk_premium"@,
            ApiVersion::V4,
            "market_risk_premium"@,
            None,
        ),
        FetchType::MarketCalendar => r matches Ok(f) && fetch_is(
            f,
            "calendar-"@ + or_empty(from) + "-"@ + or_empty(to),
            ApiVersion::V3,
            "economic_calendar"@,
            range,
        ),
        _ => r matches Err(EconomicDataError::TaskError(m)) && m@ == "Invalid Task: "@
            + fetch_type_text(a.fetch_type),
    }
}

fn range_query(client: &HTTPClient, from: &Option<String>, to: &Option<String>) -> (r: Vec<
    (String, String),
>)
    ensures
        pair_views(r@) == present_pairs(seq![("from"@, opt_view(*from)), ("to"@, opt_view(*to))]),
{
    let entries = vec![
        ("from".to_owned(), JsonValue::from_opt_str(from.clone())),
        ("to".to_owned(), JsonValue::from_opt_str(to.clone())),
    ];
    let ghost e = entries@;
    let q = client.query_of(entries);
    assert(e.map_values(|x: (String, JsonValue)| entry_view(x)) =~= seq![
        ("from"@, opt_view(*from)),
        ("to"@, opt_view(*to)),
    ]);
    q
}

/// `prefix`, `from` (or nothing), `-`, `to` (or nothing).
fn range_key(prefix: &str, from: &Option<String>, to: &Option<String>) -> (r: String)
    ensures
        r@ == prefix@ + or_empty(opt_view(*from)) + "-"@ + or_empty(opt_view(*to)),
{
    let mut k = prefix.to_owned();
    k.append(string_or_empty(from).as_str());
    k.append("-");
    k.append(string_or_empty(to).as_str());
    k
}

/// Plans the fetch of an economic data poll.
pub fn plan_economic_fetch(client: &HTTPClient, a: &EconomicArgs) -> (r: Result<
    CachedFetch,
    EconomicDataError,
>)
    ensures
        economic_plan(r, *a),
{
    match a.fetch_type {
        FetchType::MarketIndicator => match a.indicator {
            Some(t) => {
                let name = t.as_str();
                let entries = vec![("name".to_owned(), JsonValue::String(name.to_owned()))];
                let ghost e = entries@;
                let q = client.query_of(entries);
                proof {
                    let one = seq![("name"@, Some(name@))];
                    assert(e.map_values(|x: (String, JsonValue)| entry_view(x)) =~= one);
                    assert(one.drop_last() =~= Seq::<(Seq<char>, Option<Seq<char>>)>::empty());
                    assert(present_pairs(one.drop_last()) =~= Seq::<(Seq<char>, Seq<char>)>::empty());
                    assert(present_pairs(one) =~= seq![("name"@, name@)]);
                }
                Ok(
                    CachedFetch {
                        cache_key: name.to_owned(),
                        request: ApiRequest {
                            version: ApiVersion::V4,
                            path: "economic".to_owned(),
                            query: Some(q),
                        },
                    },
                )
            },
            None => {
                let mut m = "Indicator type is required by this ".to_owned();
                m.append(
                    "task but is  not provided",
                );
                Err(EconomicDataError::FetchError(m))
            },
        },
        FetchType::TreasuryRate => Ok(
            CachedFetch {
                cache_key: range_key("tresaury_rates-", &a.from, &a.to),
                request: ApiRequest {
                    version: ApiVersion::V4,
                    path: "treasury".to_owned(),
                    query: Some(range_query(client, &a.from, &a.to)),
                },
            },
        ),
        FetchType::MarketRiskPremium => Ok(
            CachedFetch {
                cache_key: "market_risk_premium".to_owned(),
                request: plain_request(ApiVersion::V4, "market_risk_premium"),
            },
        ),
        FetchType::MarketCalendar => Ok(
            CachedFetch {
                cache_key: range_key("calendar-", &a.from, &a.to),
                request: ApiRequest {
                    version: ApiVersion::V3,
                    path: "economic_calendar".to_owned(),
                    query: Some(range_query(client, &a.from, &a.to)),
                },
            },
        ),
        _ => {
            let t = a.fetch_type.to_string();
            Err(EconomicDataError::TaskError(concat_str("Invalid Task: ", t.as_str())))
        },
    }
}

/// The error of a fetch that failed after its retries: a fetch error with
/// the failure text.
pub fn fetch_failure(detail: &str) -> (r: EconomicDataError)
    ensures
        r matches EconomicDataError::FetchError(m) && m@ == detail@,
{
    EconomicDataError::FetchError(detail.to_owned())
}


/// The length and first character of each indicator name, which tell the
/// names apart.
spec fn indicator_name_signature(t: EconomicIndicatorType) -> (nat, char) {
    match t {
        EconomicIndicatorType::GDP => (3, 'G'),
        EconomicIndicatorType::realGDP => (7, 'r'),
        EconomicIndicatorType::nominalPotentialGDP => (19, 'n'),
        EconomicIndicatorType::realGDPPerCapita => (16, 'r'),
        EconomicIndicatorType::federalFunds => (12, 'f'),
        EconomicIndicatorType::CPI => (3, 'C'),
        EconomicIndicatorType::inflationRate => (13, 'i'),
        EconomicIndicatorType::inflation => (9, 'i'),
        EconomicIndicatorType::retailSales => (11, 'r'),
        EconomicIndicatorType::consumerSentiment => (17, 'c'),
        EconomicIndicatorType::durableGoods => (12, 'd'),
        EconomicIndicatorType::unemploymentRate => (16, 'u'),
    }
}

proof fn lemma_indicator_name_shape(t: EconomicIndicatorType)
    ensures
        economicindicatortype_text(t).len() == indicator_name_signature(t).0,
        economicindicatortype_text(t)[0] == indicator_name_signature(t).1,
        t == EconomicIndicatorType::consumerSentiment ==> economicindicatortype_text(t)[1] == 'o',
{
    reveal_strlit("GDP");
    reveal_strlit("realGDP");
    reveal_strlit("nominalPotentialGDP");
    reveal_strlit("realGDPPerCapita");
    reveal_strlit("federalFunds");
    reveal_strlit("CPI");
    reveal_strlit("inflationRate");
    reveal_strlit("inflation");
    reveal_strlit("retailSales");
    reveal_strlit("consumerSentiment");
    reveal_strlit("durableGoods");
    reveal_strlit("unemploymentRate");
}

/// Distinct indicators have distinct names.
proof fn lemma_indicator_name_injective(t1: EconomicIndicatorType, t2: EconomicIndicatorType)
    requires
        economicindicatortype_text(t1) == economicindicatortype_text(t2),
    ensures
        t1 == t2,
{
    lemma_indicator_name_shape(t1);
    lemma_indicator_name_shape(t2);
}

/// The first characters of the cache key of a planned fetch: indicator names
/// start with neither `t` nor `m`, nor with `ca`; the treasury, risk premium
/// and calendar keys start with `t`, `m` and `ca`.
proof fn lemma_economic_key_head(a: EconomicArgs, f: CachedFetch)
    requires
        economic_plan(Ok(f), a),
    ensures
        f.cache_key@.len() >= 2,
        a.fetch_type == FetchType::TreasuryRate <==> f.cache_key@[0] == 't',
        a.fetch_type == FetchType::MarketRiskPremium <==> f.cache_key@[0] == 'm',
        a.fetch_type == FetchType::MarketCalendar <==> (f.cache_key@[0] == 'c'
            && f.cache_key@[1] == 'a'),
{
    reveal_strlit("tresaury_rates-");
    reveal_strlit("market_risk_premium");
    reveal_strlit("calendar-");
    let from = or_empty(opt_view(a.from));
    let to = or_empty(opt_view(a.to));
    match a.fetch_type {
        FetchType::MarketIndicator => {
            let t = a.indicator->0;
            lemma_indicator_name_shape(t);
        },
        FetchType::TreasuryRate => {
            let k = "tresaury_rates-"@ + from + "-"@ + to;
            assert(k[0] == 't' && k[1] == 'r');
        },
        FetchType::MarketCalendar => {
            let k = "calendar-"@ + from + "-"@ + to;
            assert(k[0] == 'c' && k[1] == 'a');
        },
        _ => {},
    }
}

/// A cached economic response is only ever served for a request to the same
/// endpoint: two planned fetches with the same cache key are of the same
/// fetch type and go to the same API version and path; for indicators they
/// ask the same indicator with the same query.
pub proof fn economic_cache_keys_separate_kinds(
    a1: EconomicArgs,
    f1: CachedFetch,
    a2: EconomicArgs,
    f2: CachedFetch,
)
    requires
        economic_plan(Ok(f1), a1),
        economic_plan(Ok(f2), a2),
        f1.cache_key@ == f2.cache_key@,
    ensures
        a1.fetch_type == a2.fetch_type,
        f1.request.version == f2.request.version,
        f1.request.path@ == f2.request.path@,
        a1.fetch_type == FetchType::MarketIndicator ==> a1.indicator == a2.indicator
            && opt_pair_views(f1.request.query) == opt_pair_views(f2.request.query),
{
    lemma_economic_key_head(a1, f1);
    lemma_economic_key_head(a2, f2);
    if a1.fetch_type == FetchType::MarketIndicator {
        assert(a2.fetch_type == FetchType::MarketIndicator);
        lemma_indicator_name_injective(a1.indicator->0, a2.indicator->0);
    }
}

/// The treasury-rate and calendar requests carry exactly the requested range:
/// the `from` date, then the `to` date, each sent whenever it is given; the
/// treasury rates come from the v4 `treasury` path, the calendar from the v3
/// `economic_calendar` path.
pub proof fn economic_range_requests(r: Result<CachedFetch, EconomicDataError>, a: EconomicArgs)
    requires
        economic_plan(r, a),
        a.fetch_type == FetchType::TreasuryRate || a.fetch_type == FetchType::MarketCalendar,
    ensures
        r matches Ok(f) && (if a.fetch_type == FetchType::TreasuryRate {
            f.request.version == ApiVersion::V4 && f.request.path@ == "treasury"@
        } else {
            f.request.version == ApiVersion::V3 && f.request.path@ == "economic_calendar"@
        }) && opt_pair_views(f.request.query) == Some(
            match (opt_view(a.from), opt_view(a.to)) {
                (Some(x), Some(y)) => seq![("from"@, x), ("to"@, y)],
                (Some(x), None) => seq![("from"@, x)],
                (None, Some(y)) => seq![("to"@, y)],
                (None, None) => Seq::<(Seq<char>, Seq<char>)>::empty(),
            },
        ),
{
    let e = seq![("from"@, opt_view(a.from)), ("to"@, opt_view(a.to))];
    assert(e.drop_last() =~= seq![("from"@, opt_view(a.from))]);
    assert(e.drop_last().drop_last() =~= Seq::<(Seq<char>, Option<Seq<char>>)>::empty());
    let e0 = e.drop_last().drop_last();
    let e1 = e.drop_last();
    assert(present_pairs(e0) =~= Seq::<(Seq<char>, Seq<char>)>::empty());
    assert(e1.last() == ("from"@, opt_view(a.from)));
    assert(e.last() == ("to"@, opt_view(a.to)));
    assert(present_pairs(e1) == match opt_view(a.from) {
        Some(x) => present_pairs(e0).push(("from"@, x)),
        None => present_pairs(e0),
    });
    assert(present_pairs(e) == match opt_view(a.to) {
        Some(y) => present_pairs(e1).push(("to"@, y)),
        None => present_pairs(e1),
    });
    let p = present_pairs(e);
    match (opt_view(a.from), opt_view(a.to)) {
        (Some(x), Some(y)) => assert(p =~= seq![("from"@, x), ("to"@, y)]),
        (Some(x), None) => assert(p =~= seq![("from"@, x)]),
        (None, Some(y)) => assert(p =~= seq![("to"@, y)]),
        (None, None) => assert(p =~= Seq::<(Seq<char>, Seq<char>)>::empty()),
    }
}

/// An indicator poll fetches the v4 `economic` path with the indicator's API
/// name as `name`, cached under that name, and fails when no indicator is
/// given; the risk premium is fetched from the v4 `market_risk_premium` path
/// with no query.
pub proof fn economic_indicator_requests(r: Result<CachedFetch, EconomicDataError>, a: EconomicArgs)
    requires
        economic_plan(r, a),
    ensures
        a.fetch_type == FetchType::MarketIndicator ==> match a.indicator {
            Some(t) => r matches Ok(f) && f.request.version == ApiVersion::V4 && f.request.path@
                == "economic"@ && opt_pair_views(f.request.query) == Some(
                seq![("name"@, economicindicatortype_text(t))],
            ) && f.cache_key@ == economicindicatortype_text(t),
            None => r matches Err(EconomicDataError::FetchError(_)),
        },
        a.fetch_type == FetchType::MarketRiskPremium ==> (r matches Ok(f) && f.request.version
            == ApiVersion::V4 && f.request.path@ == "market_risk_premium"@ && f.request.query is None),
        a.fetch_type != FetchType::MarketIndicator && a.fetch_type != FetchType::TreasuryRate
            && a.fetch_type != FetchType::MarketRiskPremium && a.fetch_type
            != FetchType::MarketCalendar ==> r matches Err(EconomicDataError::TaskError(_)),
{
}

} // verus!

//! Searching instruments: the error type, argument parsing and the search
//! request.

use vstd::prelude::*;

use crate::json::{json_str_field, json_u64_field, JsonValue};
use crate::request::{
    concat_str, entry_view, opt_pair_views, present_pairs, request_is, ApiRequest, ApiVersion,
    HTTPClient,
};
use crate::text::opt_view;

verus! {

/// Failures of a search.
#[derive(Debug)]
pub enum SearchError {
    FetchError(String),
}

/// The text that `Display` writes for each error.
pub open spec fn search_error_text(e: SearchError) -> Seq<char> {
    match e {
        SearchError::FetchError(m) => "Failed to fetch data: "@ + m@,
    }
}

impl SearchError {
    /// The text that `Display` writes.
    pub fn to_string(&self) -> (r: String)
        ensures
            r@ == search_error_text(*self),
    {
        match self {
            SearchError::FetchError(m) => concat_str("Failed to fetch data: ", m.as_str()),
        }
    }
}

/// The arguments of a search.
#[derive(Debug)]
pub struct SearchArgs {
    pub keyword: String,
    pub limit: Option<u64>,
    pub exchange: Option<String>,
}

/// Reads `keyword` (required), `limit` and `exchange`.
pub fn parse_find_args(args: &JsonValue) -> (r: Result<SearchArgs, SearchError>)
    ensures
        match r {
            Ok(a) => {
                &&& json_str_field(*args, "keyword"@) == Some(a.keyword@)
                &&& a.limit == json_u64_field(*args, "limit"@)
                &&& opt_view(a.exchange) == json_str_field(*args, "exchange"@)
            },
            Err(SearchError::FetchError(m)) => json_str_field(*args, "keyword"@) is None && m@
                == "Missing 'keyword' field"@,
        },
{
    let keyword = match args.str_field("keyword") {
        Some(k) => k,
        None => {
            return Err(SearchError::FetchError("Missing 'keyword' field".to_owned()));
        },
    };
    Ok(SearchArgs { keyword, limit: args.u64_field("limit"), exchange: args.str_field("exchange") })
}

/// The search request: the keyword and the exchange, if any, as query
/// parameters (the numeric limit is not a string and is not sent).
pub open spec fn search_plan(r: ApiRequest, a: SearchArgs) -> bool {
    request_is(
        r,
        ApiVersion::V3,
        "search"@,
        Some(
            present_pairs(
                seq![
                    ("exchange"@, opt_view(a.exchange)),
                    ("limit"@, None),
                    ("query"@, Some(a.keyword@)),
                ],
            ),
        ),
    )
}

/// A search goes to the v3 `search` path and sends the exchange, when one is
/// given, then the keyword as `query`; the limit is never sent.
pub proof fn search_sends_keyword(r: ApiRequest, a: SearchArgs)
    requires
        search_plan(r, a),
    ensures
        r.version == ApiVersion::V3,
        r.path@ == "search"@,
        opt_pair_views(r.query) == Some(
            match opt_view(a.exchange) {
                Some(e) => seq![("exchange"@, e), ("query"@, a.keyword@)],
                None => seq![("query"@, a.keyword@)],
            },
        ),
{
    let e = seq![("exchange"@, opt_view(a.exchange)), ("limit"@, None), ("query"@, Some(a.keyword@))];
    let e1 = e.drop_last();
    let e0 = e1.drop_last();
    assert(e0.drop_last() =~= Seq::<(Seq<char>, Option<Seq<char>>)>::empty());
    assert(present_pairs(e0.drop_last()) =~= Seq::<(Seq<char>, Seq<char>)>::empty());
    assert(e0.last() == ("exchange"@, opt_view(a.exchange)));
    assert(e1.last() == ("limit"@, None::<Seq<char>>));
    assert(e.last() == ("query"@, Some(a.keyword@)));
    assert(present_pairs(e1) == present_pairs(e0));
    match opt_view(a.exchange) {
        Some(x) => {
            assert(present_pairs(e0) =~= seq![("exchange"@, x)]);
            assert(present_pairs(e) =~= seq![("exchange"@, x), ("query"@, a.keyword@)]);
        },
        None => {
            assert(present_pairs(e0) =~= Seq::<(Seq<char>, Seq<char>)>::empty());
            assert(present_pairs(e) =~= seq![("query"@, a.keyword@)]);
        },
    }
}

pub fn search_request(client: &HTTPClient, a: &SearchArgs) -> (r: ApiRequest)
    ensures
        search_plan(r, *a),
{
    let entries = vec![
        ("exchange".to_owned(), JsonValue::from_opt_str(a.exchange.clone())),
        ("limit".to_owned(), JsonValue::from_opt_u64(a.limit)),
        ("query".to_owned(), JsonValue::String(a.keyword.clone())),
    ];
    let ghost e = entries@;
    let q = client.query_of(entries);
    assert(e.map_values(|x: (String, JsonValue)| entry_view(x)) =~= seq![
        ("exchange"@, opt_view(a.exchange)),
        ("limit"@, None::<Seq<char>>),
        ("query"@, Some(a.keyword@)),
    ]);
    ApiRequest { version: ApiVersion::V3, path: "search".to_owned(), query: Some(q) }
}

/// The error of a failed search request: a fetch error with the failure
/// text.
pub fn fetch_failure(detail: &str) -> (r: SearchError)
    ensures
        r matches SearchError::FetchError(m) && m@ == detail@,
{
    SearchError::FetchError(detail.to_owned())
}

} // verus!

//! Financial statements of a company: which request fetches each statement.

use vstd::prelude::*;

use crate::json::JsonValue;
use crate::request::{
    entry_view, has_prefix, joined_path, lemma_joined_prefix, opt_pair_views, present_pairs,
    request_is,
    ApiRequest, ApiVersion, HTTPClient,
};
use crate::text::opt_view;

verus! {

/// A financial statement or statistic of a company.
#[derive(Debug, Clone, Copy, PartialEq, Eq, Structural)]
pub enum Statement {
    Income,
    Balance,
    Cashflow,
    Metrics,
    Growth,
    CompanyValue,
    Ratios,
    Dcf,
}

/// The period sent for a statement: the one asked for, else the statement's
/// default (`quarter` for company value, `annual` otherwise).
pub open spec fn period_or_default(statement: Statement, period: Option<Seq<char>>) -> Seq<char> {
    match period {
        Some(p) => p,
        None => if statement == Statement::CompanyValue {
            "quarter"@
        } else {
            "annual"@
        },
    }
}

/// The request for a statement of `symbol`. The metrics request goes to the
/// bare `key-metrics-ttm` path with no query; ratios and the discounted cash
/// flow take no period.
pub open spec fn statement_plan(
    r: ApiRequest,
    statement: Statement,
    symbol: Seq<char>,
    period: Option<Seq<char>>,
) -> bool {
    let with_period = Some(seq![("period"@, period_or_default(statement, period))]);
    match statement {
        Statement::Income => request_is(
            r,
            ApiVersion::V3,
            joined_path(seq!["income-statement"@, symbol]),
            with_period,
        ),
        Statement::Balance => request_is(
            r,
            ApiVersion::V3,
            joined_path(seq!["balance-sheet-statement"@, symbol]),
            with_period,
        ),
        Statement::Cashflow => request_is(
            r,
            ApiVersion::V3,
            joined_path(seq!["cash-flow-statement"@, symbol]),
            with_period,
        ),
        Statement::Metrics => request_is(r, ApiVersion::V3, "key-metrics-ttm"@, None),
        Statement::Growth => request_is(
            r,
            ApiVersion::V3,
            joined_path(seq!["financial-growth"@, symbol]),
            with_period,
        ),
        Statement::CompanyValue => request_is(
            r,
            ApiVersion::V3,
            joined_path(seq!["enterprise-values"@, symbol]),
            with_period,
        ),
        Statement::Ratios => request_is(
            r,
            ApiVersion::V3,
            joined_path(seq!["ratios-ttm"@, symbol]),
            None,
        ),
        Statement::Dcf => request_is(
            r,
            ApiVersion::V4,
            "advanced_discounted_cash_flow"@,
            Some(seq![("symbol"@, symbol)]),
        ),
    }
}

/// A query with the one string member `key`.
fn single_query(client: &HTTPClient, key: &str, value: String) -> (r: Vec<(String, String)>)
    ensures
        crate::request::pair_views(r@) == seq![(key@, value@)],
{
    let ghost v = value@;
    let entries = vec![(key.to_owned(), JsonValue::String(value))];
    let ghost e = entries@;
    let q = client.query_of(entries);
    let ghost one = seq![(key@, Some(v))];
    assert(e.map_values(|x: (String, JsonValue)| entry_view(x)) =~= one);
    assert(one.drop_last() =~= Seq::<(Seq<char>, Option<Seq<char>>)>::empty());
    assert(present_pairs(one.drop_last()) =~= Seq::<(Seq<char>, Seq<char>)>::empty());
    assert(present_pairs(one) =~= seq![(key@, v)]);
    q
}

/// The request for one statement of `symbol`.
pub fn statement_request(
    client: &HTTPClient,
    symbol: &str,
    statement: Statement,
    period: Option<String>,
) -> (r: ApiRequest)
    ensures
        statement_plan(r, statement, symbol@, opt_view(period)),
{
    let ghost pv = opt_view(period);
    let p = match period {
        Some(p) => p,
        None => if statement == Statement::CompanyValue {
            "quarter".to_owned()
        } else {
            "annual".to_owned()
        },
    };
    assert(p@ == period_or_default(statement, pv));
    match statement {
        Statement::Income => ApiRequest {
            version: ApiVersion::V3,
            path: client.join2("income-statement", symbol),
            query: Some(single_query(client, "period", p)),
        },
        Statement::Balance => ApiRequest {
            version: ApiVersion::V3,
            path: client.join2("balance-sheet-statement", symbol),
            query: Some(single_query(client, "period", p)),
        },
        Statement::Cashflow => ApiRequest {
            version: ApiVersion::V3,
            path: client.join2("cash-flow-statement", symbol),
            query: Some(single_query(client, "period", p)),
        },
        Statement::Metrics => ApiRequest {
            version: ApiVersion::V3,
            path: "key-metrics-ttm".to_owned(),
            query: None,
        },
        Statement::Growth => ApiRequest {
            version: ApiVersion::V3,
            path: client.join2("financial-growth", symbol),
            query: Some(single_query(client, "period", p)),
        },
        Statement::CompanyValue => ApiRequest {
            version: ApiVersion::V3,
            path: client.join2("enterprise-values", symbol),
            query: Some(single_query(client, "period", p)),
        },
        Statement::Ratios => ApiRequest {
            version: ApiVersion::V3,
            path: client.join2("ratios-ttm", symbol),
            query: None,
        },
        Statement::Dcf => ApiRequest {
            version: ApiVersion::V4,
            path: "advanced_discounted_cash_flow".to_owned(),
            query: Some(single_query(client, "symbol", symbol.to_owned())),
        },
    }
}

/// The statements that the full report fetches, in order, with the name each
/// is stored under.
pub open spec fn all_statements_spec() -> Seq<(Seq<char>, Statement)> {
    seq![
        ("income"@, Statement::Income),
        ("balance"@, Statement::Balance),
        ("cashflow"@, Statement::Cashflow),
        ("metrics"@, Statement::Metrics),
        ("growth"@, Statement::Growth),
        ("company_value"@, Statement::CompanyValue),
        ("ratios"@, Statement::Ratios),
        ("dcf"@, Statement::Dcf),
    ]
}

pub fn all_statements() -> (r: Vec<(String, Statement)>)
    ensures
        r@.map_values(|x: (String, Statement)| (x.0@, x.1)) == all_statements_spec(),
{
    let r = vec![
        ("income".to_owned(), Statement::Income),
        ("balance".to_owned(), Statement::Balance),
        ("cashflow".to_owned(), Statement::Cashflow),
        ("metrics".to_owned(), Statement::Metrics),
        ("growth".to_owned(), Statement::Growth),
        ("company_value".to_owned(), Statement::CompanyValue),
        ("ratios".to_owned(), Statement::Ratios),
        ("dcf".to_owned(), Statement::Dcf),
    ];
    assert(r@.map_values(|x: (String, Statement)| (x.0@, x.1)) =~= all_statements_spec());
    r
}

/// Each statement is requested from its own endpoint: the six per-company
/// statements from their v3 path followed by `/` and the symbol, the metrics
/// from the bare `key-metrics-ttm` path, the discounted cash flow from the v4
/// `advanced_discounted_cash_flow` path.
pub proof fn statement_endpoints(
    r: ApiRequest,
    statement: Statement,
    symbol: Seq<char>,
    period: Option<Seq<char>>,
)
    requires
        statement_plan(r, statement, symbol, period),
    ensures
        opt_pair_views(r.query) == match statement {
            Statement::Metrics | Statement::Ratios => None,
            Statement::Dcf => Some(seq![("symbol"@, symbol)]),
            Statement::CompanyValue => Some(
                seq![
                    ("period"@, match period {
                        Some(p) => p,
                        None => "quarter"@,
                    }),
                ],
            ),
            _ => Some(
                seq![
                    ("period"@, match period {
                        Some(p) => p,
                        None => "annual"@,
                    }),
                ],
            ),
        },
        match statement {
            Statement::Income => r.version == ApiVersion::V3 && has_prefix(r.path@, "income-statement/"@),
            Statement::Balance => r.version == ApiVersion::V3 && has_prefix(r.path@, "balance-sheet-statement/"@),
            Statement::Cashflow => r.version == ApiVersion::V3 && has_prefix(r.path@, "cash-flow-statement/"@),
            Statement::Growth => r.version == ApiVersion::V3 && has_prefix(r.path@, "financial-growth/"@),
            Statement::CompanyValue => r.version == ApiVersion::V3 && has_prefix(r.path@, "enterprise-values/"@),
            Statement::Ratios => r.version == ApiVersion::V3 && has_prefix(r.path@, "ratios-ttm/"@),
            Statement::Metrics => r.version == ApiVersion::V3 && r.path@ == "key-metrics-ttm"@,
            Statement::Dcf => r.version == ApiVersion::V4 && r.path@ == "advanced_discounted_cash_flow"@,
        },
{
    match statement {
        Statement::Income => {
            reveal_strlit("income-statement");
            reveal_strlit("income-statement/");
            reveal_strlit("/");
            assert("income-statement"@[0] != '/' && "income-statement"@.last() != '/');
            lemma_joined_prefix("income-statement"@, symbol);
            assert("income-statement"@ + "/"@ =~= "income-statement/"@);
        },
        Statement::Balance => {
            reveal_strlit("balance-sheet-statement");
            reveal_strlit("balance-sheet-statement/");
            reveal_strlit("/");
            assert("balance-sheet-statement"@[0] != '/' && "balance-sheet-statement"@.last() != '/');
            lemma_joined_prefix("balance-sheet-statement"@, symbol);
            assert("balance-sheet-statement"@ + "/"@ =~= "balance-sheet-statement/"@);
        },
        Statement::Cashflow => {
            reveal_strlit("cash-flow-statement");
            reveal_strlit("cash-flow-statement/");
            reveal_strlit("/");
            assert("cash-flow-statement"@[0] != '/' && "cash-flow-statement"@.last() != '/');
            lemma_joined_prefix("cash-flow-statement"@, symbol);
            assert("cash-flow-statement"@ + "/"@ =~= "cash-flow-statement/"@);
        },
        Statement::Growth => {
            reveal_strlit("financial-growth");
            reveal_strlit("financial-growth/");
            reveal_strlit("/");
            assert("financial-growth"@[0] != '/' && "financial-growth"@.last() != '/');
            lemma_joined_prefix("financial-growth"@, symbol);
            assert("financial-growth"@ + "/"@ =~= "financial-growth/"@);
        },
        Statement::CompanyValue => {
            reveal_strlit("enterprise-values");
            reveal_strlit("enterprise-values/");
            reveal_strlit("/");
            assert("enterprise-values"@[0] != '/' && "enterprise-values"@.last() != '/');
            lemma_joined_prefix("enterprise-values"@, symbol);
            assert("enterprise-values"@ + "/"@ =~= "enterprise-values/"@);
        },
        Statement::Ratios => {
            reveal_strlit("ratios-ttm");
            reveal_strlit("ratios-ttm/");
            reveal_strlit("/");
            assert("ratios-ttm"@[0] != '/' && "ratios-ttm"@.last() != '/');
            lemma_joined_prefix("ratios-ttm"@, symbol);
            assert("ratios-ttm"@ + "/"@ =~= "ratios-ttm/"@);
        },
        _ => {},
    }
}

/// Distinct statements of a company are requested from distinct paths (the
/// income statement is never fetched for the cash-flow statement).
pub proof fn statement_paths_distinct(
    r1: ApiRequest,
    s1: Statement,
    r2: ApiRequest,
    s2: Statement,
    symbol: Seq<char>,
    p1: Option<Seq<char>>,
    p2: Option<Seq<char>>,
)
    requires
        statement_plan(r1, s1, symbol, p1),
        statement_plan(r2, s2, symbol, p2),
        s1 != s2,
    ensures
        r1.path@ != r2.path@,
{
    statement_endpoints(r1, s1, symbol, p1);
    statement_endpoints(r2, s2, symbol, p2);
    reveal_strlit("income-statement/");
    assert("income-statement/"@[0] == 'i');
    reveal_strlit("balance-sheet-statement/");
    assert("balance-sheet-statement/"@[0] == 'b');
    reveal_strlit("cash-flow-statement/");
    assert("cash-flow-statement/"@[0] == 'c');
    reveal_strlit("financial-growth/");
    assert("financial-growth/"@[0] == 'f');
    reveal_strlit("enterprise-values/");
    assert("enterprise-values/"@[0] == 'e');
    reveal_strlit("ratios-ttm/");
    assert("ratios-ttm/"@[0] == 'r');
    reveal_strlit("key-metrics-ttm");
    assert("key-metrics-ttm"@[0] == 'k');
    reveal_strlit("advanced_discounted_cash_flow");
    assert("advanced_discounted_cash_flow"@[0] == 'a');
    assert(r1.path@.len() > 0 && r2.path@.len() > 0);
    assert(r1.path@[0] != r2.path@[0]);
}

} // verus!

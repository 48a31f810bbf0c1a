//! Cryptocurrencies (first poller): the error type, symbol normalisation,
//! cache keys and the check of requested symbols against the listed ones.

use vstd::prelude::*;

use crate::forex::normalized_symbol;
use crate::request::concat_str;
use crate::text::{
    debug_str, debug_text, int_text, join_spec, join_strings, opt_view, or_empty, signed_decimal,
    str_eq, string_or_empty, views,
};

verus! {

/// A listed cryptocurrency.
#[allow(non_snake_case)]
#[derive(Debug, Clone)]
pub struct Crypto {
    pub symbol: String,
    pub name: String,
    pub currency: String,
    pub stockExchange: String,
    pub exchangeShortName: String,
}

/// A single value or a list of values.
pub enum Either<L, R> {
    Single(L),
    Array(R),
}

/// Failures of cryptocurrency polling; `Display` writes the `Debug` text.
#[derive(Debug)]
pub enum CryptoError {
    FetchError(String),
    TaskError(String),
    ParseError(String),
    VoidTickersError(String),
}

/// The text that `Display` writes for each error.
pub open spec fn crypto_error_text(e: CryptoError) -> Seq<char> {
    match e {
        CryptoError::FetchError(m) => "FetchError("@ + debug_text(m@) + ")"@,
        CryptoError::TaskError(m) => "TaskError("@ + debug_text(m@) + ")"@,
        CryptoError::ParseError(m) => "ParseError("@ + debug_text(m@) + ")"@,
        CryptoError::VoidTickersError(m) => "VoidTickersError("@ + debug_text(m@) + ")"@,
    }
}

impl CryptoError {
    /// The text that `Display` writes.
    pub fn to_string(&self) -> (r: String)
        ensures
            r@ == crypto_error_text(*self),
    {
        match self {
            CryptoError::FetchError(m) => {
                let mut r = "FetchError(".to_owned();
                r.append(debug_str(m.as_str()).as_str());
                r.append(")");
                r
            },
            CryptoError::TaskError(m) => {
                let mut r = "TaskError(".to_owned();
                r.append(debug_str(m.as_str()).as_str());
                r.append(")");
                r
            },
            CryptoError::ParseError(m) => {
                let mut r = "ParseError(".to_owned();
                r.append(debug_str(m.as_str()).as_str());
                r.append(")");
                r
            },
            CryptoError::VoidTickersError(m) => {
                let mut r = "VoidTickersError(".to_owned();
                r.append(debug_str(m.as_str()).as_str());
                r.append(")");
                r
            },
        }
    }
}

/// Upper-cases the symbol and appends `USD` unless it already mentions `usd`.
pub fn normalize_symbol(symbol: &str) -> (r: String)
    ensures
        r@ == normalized_symbol(symbol@),
{
    crate::forex::normalize_symbol(symbol)
}

/// The symbols of an argument, normalised.
pub open spec fn normalized_symbols(symbols: Either<String, Vec<String>>) -> Seq<Seq<char>> {
    match symbols {
        Either::Single(s) => seq![normalized_symbol(s@)],
        Either::Array(v) => views(v@).map_values(|s: Seq<char>| normalized_symbol(s)),
    }
}

fn normalize_all(v: &Vec<String>) -> (r: Vec<String>)
    ensures
        views(r@) == views(v@).map_values(|s: Seq<char>| normalized_symbol(s)),
{
    let n = v.len();
    let mut out: Vec<String> = Vec::new();
    let mut i: usize = 0;
    while i < n
        invariant
            n == v@.len(),
            i <= n,
            views(out@) == views(v@).map_values(|s: Seq<char>| normalized_symbol(s)).take(i as int),
        decreases n - i,
    {
        let t = normalize_symbol(v[i].as_str());
        let ghost before = out@;
        out.push(t);
        assert(views(out@) =~= views(before).push(t@));
        i = i + 1;
    }
    assert(views(v@).map_values(|s: Seq<char>| normalized_symbol(s)).take(n as int) =~= views(
        v@,
    ).map_values(|s: Seq<char>| normalized_symbol(s)));
    out
}

/// The cache keys of a quote request: one per symbol, the normalised symbol.
pub fn quote_cache_keys(symbols: &Either<String, Vec<String>>) -> (r: Vec<String>)
    ensures
        views(r@) == normalized_symbols(*symbols),
{
    match symbols {
        Either::Single(s) => {
            let k = normalize_symbol(s.as_str());
            let r = vec![k];
            assert(views(r@) =~= seq![k@]);
            r
        },
        Either::Array(v) => normalize_all(v),
    }
}

/// The cache key of a history request: the normalised symbols joined with
/// commas, then start, end, data type (empty when absent) and the limit (0
/// when absent), separated by colons.
pub open spec fn history_key(
    symbols: Either<String, Vec<String>>,
    start: Option<Seq<char>>,
    end: Option<Seq<char>>,
    data_type: Option<Seq<char>>,
    limit: Option<i32>,
) -> Seq<char> {
    let joined = match symbols {
        Either::Single(s) => normalized_symbol(s@),
        Either::Array(_) => join_spec(normalized_symbols(symbols), ","@),
    };
    "history:"@ + joined + ":"@ + or_empty(start) + ":"@ + or_empty(end) + ":"@ + or_empty(
        data_type,
    ) + ":"@ + int_text(
        match limit {
            Some(l) => l as int,
            None => 0,
        },
    )
}

pub fn history_cache_key(
    symbols: &Either<String, Vec<String>>,
    start: &Option<String>,
    end: &Option<String>,
    data_type: &Option<String>,
    limit: Option<i32>,
) -> (r: String)
    ensures
        r@ == history_key(*symbols, opt_view(*start), opt_view(*end), opt_view(*data_type), limit),
{
    let joined = match symbols {
        Either::Single(s) => normalize_symbol(s.as_str()),
        Either::Array(v) => join_strings(&normalize_all(v), ","),
    };
    let l: i64 = match limit {
        Some(l) => l as i64,
        None => 0,
    };
    let mut k = concat_str("history:", joined.as_str());
    k.append(":");
    k.append(string_or_empty(start).as_str());
    k.append(":");
    k.append(string_or_empty(end).as_str());
    k.append(":");
    k.append(string_or_empty(data_type).as_str());
    k.append(":");
    k.append(signed_decimal(l).as_str());
    k
}

/// What `Debug` writes for a list of strings.
pub open spec fn debug_list(items: Seq<Seq<char>>) -> Seq<char> {
    "["@ + join_spec(items.map_values(|s: Seq<char>| debug_text(s)), ", "@) + "]"@
}

/// The requested symbols that are not listed, in order.
pub open spec fn unlisted(requested: Seq<Seq<char>>, listed: Seq<Seq<char>>) -> Seq<Seq<char>>
    decreases requested.len(),
{
    if requested.len() == 0 {
        Seq::empty()
    } else {
        let rest = unlisted(requested.drop_last(), listed);
        if listed.contains(requested.last()) {
            rest
        } else {
            rest.push(requested.last())
        }
    }
}

fn is_listed(symbol: &String, listed: &Vec<String>) -> (r: bool)
    ensures
        r == views(listed@).contains(symbol@),
{
    let n = listed.len();
    let mut i: usize = 0;
    while i < n
        invariant
            n == listed@.len(),
            i <= n,
            forall|k: int| 0 <= k < i ==> listed@[k]@ != symbol@,
        decreases n - i,
    {
        if str_eq(listed[i].as_str(), symbol.as_str()) {
            assert(views(listed@)[i as int] == symbol@);
            return true;
        }
        i = i + 1;
    }
    assert(!views(listed@).contains(symbol@)) by {
        if views(listed@).contains(symbol@) {
            let k = choose|k: int| 0 <= k < views(listed@).len() && views(listed@)[k] == symbol@;
            assert(listed@[k]@ == symbol@);
        }
    }
    false
}

fn debug_list_string(items: &Vec<String>) -> (r: String)
    ensures
        r@ == debug_list(views(items@)),
{
    let n = items.len();
    let mut parts: Vec<String> = Vec::new();
    let mut i: usize = 0;
    while i < n
        invariant
            n == items@.len(),
            i <= n,
            views(parts@) == views(items@).map_values(|s: Seq<char>| debug_text(s)).take(i as int),
        decreases n - i,
    {
        let d = debug_str(items[i].as_str());
        let ghost before = parts@;
        parts.push(d);
        assert(views(parts@) =~= views(before).push(d@));
        i = i + 1;
    }
    assert(views(items@).map_values(|s: Seq<char>| debug_text(s)).take(n as int) =~= views(
        items@,
    ).map_values(|s: Seq<char>| debug_text(s)));
    let mut r = "[".to_owned();
    r.append(join_strings(&parts, ", ").as_str());
    r.append("]");
    r
}

/// Checks requested symbols against the listed ones: no request is an
/// error, every unlisted symbol is reported, otherwise the request passes.
pub fn validate_tickers(tickers: Option<Vec<String>>, listed: &Vec<String>) -> (r: Result<
    Vec<String>,
    CryptoError,
>)
    ensures
        match tickers {
            None => r matches Err(CryptoError::VoidTickersError(m)) && m@ == "No tickers provided"@,
            Some(t) => if unlisted(views(t@), views(listed@)).len() == 0 {
                r matches Ok(v) && v@ == t@
            } else {
                r matches Err(CryptoError::ParseError(m)) && m@ == "Invalid ticker symbols: "@
                    + debug_list(unlisted(views(t@), views(listed@)))
            },
        },
{
    match tickers {
        None => Err(CryptoError::VoidTickersError("No tickers provided".to_owned())),
        Some(input) => {
            let n = input.len();
            let mut invalid: Vec<String> = Vec::new();
            let mut i: usize = 0;
            while i < n
                invariant
                    n == input@.len(),
                    i <= n,
                    views(invalid@) == unlisted(views(input@).take(i as int), views(listed@)),
                decreases n - i,
            {
                assert(views(input@).take(i + 1).drop_last() =~= views(input@).take(i as int));
                assert(views(input@).take(i + 1).last() == input@[i as int]@);
                if !is_listed(&input[i], listed) {
                    let ghost before = invalid@;
                    invalid.push(input[i].clone());
                    assert(views(invalid@) =~= views(before).push(input@[i as int]@));
                }
                i = i + 1;
            }
            assert(views(input@).take(n as int) =~= views(input@));
            if invalid.len() == 0 {
                Ok(input)
            } else {
                let listing = debug_list_string(&invalid);
                Err(CryptoError::ParseError(concat_str("Invalid ticker symbols: ", listing.as_str())))
            }
        },
    }
}

/// The error of a failed request: a fetch error with the failure text.
pub fn fetch_failure(detail: &str) -> (r: CryptoError)
    ensures
        r matches CryptoError::FetchError(m) && m@ == detail@,
{
    CryptoError::FetchError(detail.to_owned())
}

} // verus!

//! Exchange-traded funds: the error type, the check of requested tickers and
//! the cache key and lifetime of each history kind.

use vstd::prelude::*;

use crate::options::{opt_debug, opt_debug_string};
use crate::request::concat_str;
use crate::text::{debug_str, debug_text, int_text, opt_view, signed_decimal};

verus! {

/// Failures of fund polling; `Display` writes the `Debug` text.
#[derive(Debug)]
pub enum EtfError {
    FetchError(String),
    TaskError(String),
    ParseError(String),
    VoidTickersError(String),
}

/// The text that `Display` writes for each error.
pub open spec fn etf_error_text(e: EtfError) -> Seq<char> {
    match e {
        EtfError::FetchError(m) => "FetchError("@ + debug_text(m@) + ")"@,
        EtfError::TaskError(m) => "TaskError("@ + debug_text(m@) + ")"@,
        EtfError::ParseError(m) => "ParseError("@ + debug_text(m@) + ")"@,
        EtfError::VoidTickersError(m) => "VoidTickersError("@ + debug_text(m@) + ")"@,
    }
}

impl EtfError {
    /// The text that `Display` writes.
    pub fn to_string(&self) -> (r: String)
        ensures
            r@ == etf_error_text(*self),
    {
        match self {
            EtfError::FetchError(m) => {
                let mut r = "FetchError(".to_owned();
                r.append(debug_str(m.as_str()).as_str());
                r.append(")");
                r
            },
            EtfError::TaskError(m) => {
                let mut r = "TaskError(".to_owned();
                r.append(debug_str(m.as_str()).as_str());
                r.append(")");
                r
            },
            EtfError::ParseError(m) => {
                let mut r = "ParseError(".to_owned();
                r.append(debug_str(m.as_str()).as_str());
                r.append(")");
                r
            },
            EtfError::VoidTickersError(m) => {
                let mut r = "VoidTickersError(".to_owned();
                r.append(debug_str(m.as_str()).as_str());
                r.append(")");
                r
            },
        }
    }
}

/// The tickers of a request, unless there are none.
pub fn validate_tickers(tickers: Option<Vec<String>>) -> (r: Result<Vec<String>, EtfError>)
    ensures
        match tickers {
            Some(t) if t@.len() > 0 => r matches Ok(v) && v@ == t@,
            _ => r matches Err(EtfError::VoidTickersError(m)) && m@ == "No tickers provided"@,
        },
{
    match tickers {
        Some(t) => if t.len() == 0 {
            Err(EtfError::VoidTickersError("No tickers provided".to_owned()))
        } else {
            Ok(t)
        },
        None => Err(EtfError::VoidTickersError("No tickers provided".to_owned())),
    }
}

/// The history a fund request asks for.
#[derive(Debug, Clone, Copy, PartialEq, Eq, Structural)]
pub enum EtfHistory {
    Prices,
    Dividends,
    Splits,
}

/// The cache key prefix of each history kind.
pub open spec fn history_prefix(kind: EtfHistory) -> Seq<char> {
    match kind {
        EtfHistory::Prices => "history_"@,
        EtfHistory::Dividends => "dividend_"@,
        EtfHistory::Splits => "split_"@,
    }
}

/// How long a response is kept, in seconds: five minutes for prices, an hour
/// for dividends and splits.
pub open spec fn history_ttl(kind: EtfHistory) -> u64 {
    match kind {
        EtfHistory::Prices => 300,
        EtfHistory::Dividends => 3600,
        EtfHistory::Splits => 3600,
    }
}

/// What `Debug` writes for an optional 32-bit integer.
pub open spec fn opt_int_debug(o: Option<i32>) -> Seq<char> {
    match o {
        Some(n) => "Some("@ + int_text(n as int) + ")"@,
        None => "None"@,
    }
}

/// The cache key of a history request: the kind's prefix, the symbol and the
/// `Debug` texts of the optional arguments, separated by `_`.
pub open spec fn history_key(
    kind: EtfHistory,
    symbol: Seq<char>,
    start: Option<Seq<char>>,
    end: Option<Seq<char>>,
    data_type: Option<Seq<char>>,
    limit: Option<i32>,
) -> Seq<char> {
    history_prefix(kind) + symbol + "_"@ + opt_debug(start) + "_"@ + opt_debug(end) + "_"@
        + opt_debug(data_type) + "_"@ + opt_int_debug(limit)
}

impl EtfHistory {
    pub fn ttl_secs(&self) -> (r: u64)
        ensures
            r == history_ttl(*self),
    {
        match self {
            EtfHistory::Prices => 300,
            EtfHistory::Dividends => 3600,
            EtfHistory::Splits => 3600,
        }
    }

    pub fn cache_key(
        &self,
        symbol: &str,
        start: &Option<String>,
        end: &Option<String>,
        data_type: &Option<String>,
        limit: Option<i32>,
    ) -> (r: String)
        ensures
            r@ == history_key(
                *self,
                symbol@,
                opt_view(*start),
                opt_view(*end),
                opt_view(*data_type),
                limit,
            ),
    {
        let prefix = match self {
            EtfHistory::Prices => "history_",
            EtfHistory::Dividends => "dividend_",
            EtfHistory::Splits => "split_",
        };
        let mut k = concat_str(prefix, symbol);
        k.append("_");
        k.append(opt_debug_string(start).as_str());
        k.append("_");
        k.append(opt_debug_string(end).as_str());
        k.append("_");
        k.append(opt_debug_string(data_type).as_str());
        k.append("_");
        match limit {
            Some(n) => {
                k.append("Some(");
                k.append(signed_decimal(n as i64).as_str());
                k.append(")");
            },
            None => {
                k.append("None");
            },
        }
        k
    }
}

/// The error of a failed request: a fetch error with the failure text.
pub fn fetch_failure(detail: &str) -> (r: EtfError)
    ensures
        r matches EtfError::FetchError(m) && m@ == detail@,
{
    EtfError::FetchError(detail.to_owned())
}

} // verus!

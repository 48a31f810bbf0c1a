//! Request options: time frames, date-times, fetch types, indicator names and
//! the single-or-many symbol argument.

use vstd::prelude::*;
use vstd::string::*;
use vstd::utf8::encode_utf8;

use crate::text::{
    opt_view,
    lemma_split_concat, lemma_split_no_sep, lemma_not_contains_concat,
    all_ascii, ascii_lower, ascii_lowered, lemma_ascii_lowered_idempotent, debug_str, debug_text, split_char, split_spec, str_eq, to_lowercase, trim_by,
    trim_whitespace, unicode_lowercase, views, is_white_space,
};

verus! {

//-----------------------TimeFrame---------------------------------------------

/// Candle width of an intraday request.
#[derive(Debug, Clone, Copy, PartialEq, Eq, Structural)]
pub enum TimeFrame {
    OneMinute,
    FiveMinutes,
    FifteenMinutes,
    ThirtyMinutes,
    OneHour,
    FourHours,
    OneDay,
}

/// The API spelling of a time frame.
pub open spec fn time_frame_text(t: TimeFrame) -> Seq<char> {
    match t {
        TimeFrame::OneMinute => "1min"@,
        TimeFrame::FiveMinutes => "5min"@,
        TimeFrame::FifteenMinutes => "15min"@,
        TimeFrame::ThirtyMinutes => "30min"@,
        TimeFrame::OneHour => "1hour"@,
        TimeFrame::FourHours => "4hour"@,
        TimeFrame::OneDay => "1day"@,
    }
}

/// The time frame that the API spelling `s` names, if any.
pub open spec fn time_frame_parse(s: Seq<char>) -> Option<TimeFrame> {
    if s == "1min"@ {
        Some(TimeFrame::OneMinute)
    } else if s == "5min"@ {
        Some(TimeFrame::FiveMinutes)
    } else if s == "15min"@ {
        Some(TimeFrame::FifteenMinutes)
    } else if s == "30min"@ {
        Some(TimeFrame::ThirtyMinutes)
    } else if s == "1hour"@ {
        Some(TimeFrame::OneHour)
    } else if s == "4hour"@ {
        Some(TimeFrame::FourHours)
    } else if s == "1day"@ {
        Some(TimeFrame::OneDay)
    } else {
        None
    }
}

impl TimeFrame {
    pub fn from_str(s: &str) -> (r: Option<TimeFrame>)
        ensures
            r == time_frame_parse(s@),
    {
        if str_eq(s, "1min") {
            Some(TimeFrame::OneMinute)
        } else if str_eq(s, "5min") {
            Some(TimeFrame::FiveMinutes)
        } else if str_eq(s, "15min") {
            Some(TimeFrame::FifteenMinutes)
        } else if str_eq(s, "30min") {
            Some(TimeFrame::ThirtyMinutes)
        } else if str_eq(s, "1hour") {
            Some(TimeFrame::OneHour)
        } else if str_eq(s, "4hour") {
            Some(TimeFrame::FourHours)
        } else if str_eq(s, "1day") {
            Some(TimeFrame::OneDay)
        } else {
            None
        }
    }

    pub fn to_str(&self) -> (r: &'static str)
        ensures
            r@ == time_frame_text(*self),
    {
        match self {
            TimeFrame::OneMinute => "1min",
            TimeFrame::FiveMinutes => "5min",
            TimeFrame::FifteenMinutes => "15min",
            TimeFrame::ThirtyMinutes => "30min",
            TimeFrame::OneHour => "1hour",
            TimeFrame::FourHours => "4hour",
            TimeFrame::OneDay => "1day",
        }
    }

    /// The text that `Display` writes: the API spelling.
    pub fn to_string(&self) -> (r: String)
        ensures
            r@ == time_frame_text(*self),
    {
        self.to_str().to_owned()
    }
}

/// Parsing the spelling of a time frame gives that time frame back.
pub proof fn time_frame_round_trip(t: TimeFrame)
    ensures
        time_frame_parse(time_frame_text(t)) == Some(t),
{
    reveal_strlit("1min");
    reveal_strlit("5min");
    reveal_strlit("15min");
    reveal_strlit("30min");
    reveal_strlit("1hour");
    reveal_strlit("4hour");
    reveal_strlit("1day");
    assert("1min"@[0] == '1' && "1min"@[1] == 'm');
    assert("5min"@[0] == '5' && "5min"@[1] == 'm');
    assert("15min"@[0] == '1' && "15min"@[1] == '5');
    assert("30min"@[0] == '3' && "30min"@[1] == '0');
    assert("1hour"@[0] == '1' && "1hour"@[1] == 'h');
    assert("4hour"@[0] == '4' && "4hour"@[1] == 'h');
    assert("1day"@[0] == '1' && "1day"@[1] == 'd');
}

/// The spelling of a time frame is a non-empty path segment: no `/` at
/// either end.
pub proof fn lemma_time_frame_text_segment(t: TimeFrame)
    ensures
        time_frame_text(t).len() > 0,
        time_frame_text(t)[0] != '/',
        time_frame_text(t).last() != '/',
{
    reveal_strlit("1min");
    reveal_strlit("5min");
    reveal_strlit("15min");
    reveal_strlit("30min");
    reveal_strlit("1hour");
    reveal_strlit("4hour");
    reveal_strlit("1day");
}

/// A text that parses as a time frame is that time frame's spelling.
pub proof fn time_frame_parse_exact(s: Seq<char>)
    ensures
        time_frame_parse(s) matches Some(t) ==> time_frame_text(t) == s,
{
}

//-----------------------DateTime----------------------------------------------

/// A date with an optional time of day, each part kept as the text it was
/// given in.
#[derive(Debug)]
pub struct DateTime {
    pub year: String,
    pub month: String,
    pub day: String,
    pub hour: Option<String>,
    pub minute: Option<String>,
    pub second: Option<String>,
    pub millisecond: Option<String>,
}

/// The characters of each part of a [`DateTime`].
pub struct DateTimeView {
    pub year: Seq<char>,
    pub month: Seq<char>,
    pub day: Seq<char>,
    pub hour: Option<Seq<char>>,
    pub minute: Option<Seq<char>>,
    pub second: Option<Seq<char>>,
    pub millisecond: Option<Seq<char>>,
}

impl View for DateTime {
    type V = DateTimeView;

    open spec fn view(&self) -> DateTimeView {
        DateTimeView {
            year: self.year@,
            month: self.month@,
            day: self.day@,
            hour: opt_view(self.hour),
            minute: opt_view(self.minute),
            second: opt_view(self.second),
            millisecond: opt_view(self.millisecond),
        }
    }
}

/// What `str::len` returns: the length in bytes of the UTF-8 encoding.
pub open spec fn byte_len(s: Seq<char>) -> usize {
    encode_utf8(s).len() as usize
}

/// The date-time that a list of parts makes: at least seven parts, a year of
/// four bytes, a month and a day of two bytes each; parts past the seventh
/// are ignored.
pub open spec fn date_time_from_parts(p: Seq<Seq<char>>) -> Option<DateTimeView> {
    if p.len() >= 7 && byte_len(p[0]) == 4 && byte_len(p[1]) == 2 && byte_len(p[2]) == 2 {
        Some(
            DateTimeView {
                year: p[0],
                month: p[1],
                day: p[2],
                hour: Some(p[3]),
                minute: Some(p[4]),
                second: Some(p[5]),
                millisecond: Some(p[6]),
            },
        )
    } else {
        None
    }
}

/// The parts of a date-time text: the text before the first space split at
/// `-`, followed by the text between the first and the second space (empty if
/// there is no space) split at `:`.
pub open spec fn date_time_pieces(s: Seq<char>) -> Seq<Seq<char>> {
    let top = split_spec(s, ' ');
    let time_part = if top.len() >= 2 {
        top[1]
    } else {
        Seq::<char>::empty()
    };
    split_spec(top[0], '-') + split_spec(time_part, ':')
}

pub open spec fn date_time_parse(s: Seq<char>) -> Option<DateTimeView> {
    date_time_from_parts(date_time_pieces(s))
}

/// The message of a date-time text that does not parse.
pub open spec fn date_time_error_text() -> Seq<char> {
    "Invalid date time format. Use `YYYY-MM-DD HH:MM:SS.MS`"@
}

pub open spec fn opt_suffix(base: Seq<char>, sep: Seq<char>, part: Option<Seq<char>>) -> Seq<
    char,
> {
    match part {
        Some(x) => base + sep + x,
        None => base,
    }
}

pub open spec fn ymd_text(d: DateTimeView) -> Seq<char> {
    d.year + "-"@ + d.month + "-"@ + d.day
}

/// `YYYY-MM-DD`, then ` HH`, `:MM`, `:SS` and `:MS` for the parts present.
pub open spec fn date_time_text(d: DateTimeView) -> Seq<char> {
    let h = opt_suffix(ymd_text(d), " "@, d.hour);
    let m = opt_suffix(h, ":"@, d.minute);
    let s = opt_suffix(m, ":"@, d.second);
    opt_suffix(s, ":"@, d.millisecond)
}

fn append_opt(s: &mut String, sep: &str, part: &Option<String>)
    ensures
        final(s)@ == opt_suffix(old(s)@, sep@, opt_view(*part)),
{
    if let Some(x) = part {
        s.append(sep);
        s.append(x.as_str());
    }
}

impl DateTime {
    pub fn from_slice(parts: Vec<String>) -> (r: Option<DateTime>)
        ensures
            match r {
                Some(d) => date_time_from_parts(views(parts@)) == Some(d@),
                None => date_time_from_parts(views(parts@)) is None,
            },
    {
        if parts.len() < 7 {
            return None;
        }
        let ghost p = views(parts@);
        assert(p[0] == parts@[0]@ && p[1] == parts@[1]@ && p[2] == parts@[2]@);
        if parts[0].as_str().len() != 4 || parts[1].as_str().len() != 2 || parts[2].as_str().len()
            != 2 {
            return None;
        }
        let d = DateTime {
            year: parts[0].clone(),
            month: parts[1].clone(),
            day: parts[2].clone(),
            hour: Some(parts[3].clone()),
            minute: Some(parts[4].clone()),
            second: Some(parts[5].clone()),
            millisecond: Some(parts[6].clone()),
        };
        assert(p[3] == parts@[3]@ && p[4] == parts@[4]@ && p[5] == parts@[5]@ && p[6]
            == parts@[6]@);
        Some(d)
    }

    /// Parses `YYYY-MM-DD HH:MM:SS:MS`; the error carries the message the
    /// caller shows.
    pub fn from_str(s: &str) -> (r: Result<DateTime, String>)
        ensures
            match r {
                Ok(d) => date_time_parse(s@) == Some(d@),
                Err(e) => date_time_parse(s@) is None && e@ == date_time_error_text(),
            },
    {
        let top = split_char(s, ' ');
        proof {
            crate::text::lemma_split_len(s@, ' ');
            reveal_strlit("");
        }
        let time_part: &str = if top.len() >= 2 {
            top[1].as_str()
        } else {
            ""
        };
        let mut parts = split_char(top[0].as_str(), '-');
        let time_parts = split_char(time_part, ':');
        crate::text::extend_strings(&mut parts, &time_parts);
        assert(views(parts@) == date_time_pieces(s@));
        match DateTime::from_slice(parts) {
            Some(d) => Ok(d),
            None => Err("Invalid date time format. Use `YYYY-MM-DD HH:MM:SS.MS`".to_owned()),
        }
    }

    pub fn to_string(&self) -> (r: String)
        ensures
            r@ == date_time_text(self@),
    {
        let mut s = self.year_month_and_day();
        append_opt(&mut s, " ", &self.hour);
        append_opt(&mut s, ":", &self.minute);
        append_opt(&mut s, ":", &self.second);
        append_opt(&mut s, ":", &self.millisecond);
        s
    }

    pub fn year_month_and_day(&self) -> (r: String)
        ensures
            r@ == ymd_text(self@),
    {
        let mut s = self.year.clone();
        s.append("-");
        s.append(self.month.as_str());
        s.append("-");
        s.append(self.day.as_str());
        s
    }

    /// The text that `Display` writes: `YYYY-MM-DD ` followed by
    /// [`DateTime::to_string`].
    pub fn display_text(&self) -> (r: String)
        ensures
            r@ == ymd_text(self@) + " "@ + date_time_text(self@),
    {
        let mut s = self.year_month_and_day();
        s.append(" ");
        let t = self.to_string();
        s.append(t.as_str());
        s
    }
}

/// Parts that print and parse back unchanged: every part present, the
/// year of four bytes, month and day of two, no space in any part, no `-` in
/// the date parts and no `:` in the time parts.
pub open spec fn date_time_well_formed(d: DateTimeView) -> bool {
    &&& byte_len(d.year) == 4
    &&& byte_len(d.month) == 2
    &&& byte_len(d.day) == 2
    &&& d.hour is Some
    &&& d.minute is Some
    &&& d.second is Some
    &&& d.millisecond is Some
    &&& !d.year.contains('-') && !d.year.contains(' ')
    &&& !d.month.contains('-') && !d.month.contains(' ')
    &&& !d.day.contains('-') && !d.day.contains(' ')
    &&& !d.hour->0.contains(':') && !d.hour->0.contains(' ')
    &&& !d.minute->0.contains(':') && !d.minute->0.contains(' ')
    &&& !d.second->0.contains(':') && !d.second->0.contains(' ')
    &&& !d.millisecond->0.contains(':') && !d.millisecond->0.contains(' ')
}

/// Printing a well-formed date-time with `to_string` and parsing the text
/// gives the same date-time back.
pub proof fn date_time_round_trip(d: DateTimeView)
    requires
        date_time_well_formed(d),
    ensures
        date_time_parse(date_time_text(d)) == Some(d),
{
    reveal_strlit("-");
    reveal_strlit(":");
    reveal_strlit(" ");
    let dash = seq!['-'];
    let colon = seq![':'];
    let space = seq![' '];
    assert("-"@ =~= dash);
    assert(":"@ =~= colon);
    assert(" "@ =~= space);
    let y = d.year;
    let mo = d.month;
    let da = d.day;
    let h = d.hour->0;
    let mi = d.minute->0;
    let se = d.second->0;
    let ms = d.millisecond->0;
    let md = mo + dash + da;
    let ymd = y + dash + md;
    assert(ymd_text(d) =~= ymd);
    let t3 = se + colon + ms;
    let t2 = mi + colon + t3;
    let t = h + colon + t2;
    assert(date_time_text(d) =~= ymd + space + t);
    assert(!dash.contains(' ')) by {
        assert(dash[0] == '-');
    }
    assert(!colon.contains(' ')) by {
        assert(colon[0] == ':');
    }
    lemma_not_contains_concat(mo, dash, ' ');
    lemma_not_contains_concat(mo + dash, da, ' ');
    lemma_not_contains_concat(y, dash, ' ');
    lemma_not_contains_concat(y + dash, md, ' ');
    lemma_not_contains_concat(se, colon, ' ');
    lemma_not_contains_concat(se + colon, ms, ' ');
    lemma_not_contains_concat(mi, colon, ' ');
    lemma_not_contains_concat(mi + colon, t3, ' ');
    lemma_not_contains_concat(h, colon, ' ');
    lemma_not_contains_concat(h + colon, t2, ' ');
    lemma_split_concat(ymd, t, ' ');
    lemma_split_no_sep(ymd, ' ');
    lemma_split_no_sep(t, ' ');
    let top = split_spec(ymd + space + t, ' ');
    assert(top =~= seq![ymd, t]);
    lemma_split_concat(y, md, '-');
    lemma_split_concat(mo, da, '-');
    lemma_split_no_sep(y, '-');
    lemma_split_no_sep(mo, '-');
    lemma_split_no_sep(da, '-');
    lemma_split_concat(h, t2, ':');
    lemma_split_concat(mi, t3, ':');
    lemma_split_concat(se, ms, ':');
    lemma_split_no_sep(h, ':');
    lemma_split_no_sep(mi, ':');
    lemma_split_no_sep(se, ':');
    lemma_split_no_sep(ms, ':');
    let pieces = date_time_pieces(date_time_text(d));
    assert(pieces =~= seq![y, mo, da, h, mi, se, ms]);
}

//-----------------------FetchType---------------------------------------------

/// What a polling request asks for.
#[derive(Debug, Clone, Copy, PartialEq, Eq, Structural)]
pub enum FetchType {
    Unknownn,
    Quote,
    Financial,
    Profile,
    Rating,
    Outlook,
    History,
    DividendHistory,
    SplitHistory,
    IntraDay,
    Daily,
    Gainers,
    Losers,
    Actives,
    Performance,
    SectorHistorical,
    IndustryPERatio,
    SectorPERatio,
    TechnicalIndicator,
    TreasuryRate,
    MarketIndicator,
    MarketRiskPremium,
    MarketCalendar,
}

/// The fetch type that a request names; unknown names give `Unknownn`.
pub open spec fn fetch_type_parse(s: Seq<char>) -> FetchType {
    if s == "quote"@ {
        FetchType::Quote
    } else if s == "financial"@ {
        FetchType::Financial
    } else if s == "profile"@ {
        FetchType::Profile
    } else if s == "rating"@ {
        FetchType::Rating
    } else if s == "outlook"@ {
        FetchType::Outlook
    } else if s == "history"@ {
        FetchType::History
    } else if s == "dividend_history"@ {
        FetchType::DividendHistory
    } else if s == "split_history"@ {
        FetchType::SplitHistory
    } else if s == "intraday"@ {
        FetchType::IntraDay
    } else if s == "daily"@ {
        FetchType::Daily
    } else if s == "gainers"@ {
        FetchType::Gainers
    } else if s == "losers"@ {
        FetchType::Losers
    } else if s == "actives"@ {
        FetchType::Actives
    } else if s == "sector_performance"@ {
        FetchType::Performance
    } else if s == "sector_historical_performance"@ {
        FetchType::SectorHistorical
    } else if s == "industry_pe_ratio"@ {
        FetchType::IndustryPERatio
    } else if s == "sector_pe_ratio"@ {
        FetchType::SectorPERatio
    } else if s == "technical_indicator"@ {
        FetchType::TechnicalIndicator
    } else if s == "treasury_rate"@ {
        FetchType::TreasuryRate
    } else if s == "market_indicator"@ {
        FetchType::MarketIndicator
    } else if s == "market_risk_premium"@ {
        FetchType::MarketRiskPremium
    } else if s == "market_calendar"@ {
        FetchType::MarketCalendar
    } else {
        FetchType::Unknownn
    }
}

/// The name a client writes in a request for each fetch type: the table of
/// the API's request vocabulary. The catch-all `Unknownn` has no name.
pub open spec fn fetch_type_request_name(t: FetchType) -> Option<Seq<char>> {
    match t {
        FetchType::Quote => Some("quote"@),
        FetchType::Financial => Some("financial"@),
        FetchType::Profile => Some("profile"@),
        FetchType::Rating => Some("rating"@),
        FetchType::Outlook => Some("outlook"@),
        FetchType::History => Some("history"@),
        FetchType::DividendHistory => Some("dividend_history"@),
        FetchType::SplitHistory => Some("split_history"@),
        FetchType::IntraDay => Some("intraday"@),
        FetchType::Daily => Some("daily"@),
        FetchType::Gainers => Some("gainers"@),
        FetchType::Losers => Some("losers"@),
        FetchType::Actives => Some("actives"@),
        FetchType::Performance => Some("sector_performance"@),
        FetchType::SectorHistorical => Some("sector_historical_performance"@),
        FetchType::IndustryPERatio => Some("industry_pe_ratio"@),
        FetchType::SectorPERatio => Some("sector_pe_ratio"@),
        FetchType::TechnicalIndicator => Some("technical_indicator"@),
        FetchType::TreasuryRate => Some("treasury_rate"@),
        FetchType::MarketIndicator => Some("market_indicator"@),
        FetchType::MarketRiskPremium => Some("market_risk_premium"@),
        FetchType::MarketCalendar => Some("market_calendar"@),
        FetchType::Unknownn => None,
    }
}

/// Parsing the request name of a fetch type gives that fetch type back (for
/// instance `rating` gives `Rating`, never `Profile`), and a text that parses
/// to a known fetch type is that fetch type's name, so distinct names parse
/// to distinct fetch types.
pub proof fn fetch_type_names_round_trip(t: FetchType, s: Seq<char>)
    ensures
        fetch_type_request_name(t) matches Some(n) ==> fetch_type_parse(n) == t,
        fetch_type_parse(s) != FetchType::Unknownn ==> fetch_type_request_name(fetch_type_parse(s))
            == Some(s),
        fetch_type_parse(s) == FetchType::Unknownn ==> forall|u: FetchType|
            #[trigger] fetch_type_request_name(u) != Some(s),
{
    reveal_strlit("quote");
    reveal_strlit("financial");
    reveal_strlit("profile");
    reveal_strlit("rating");
    reveal_strlit("outlook");
    reveal_strlit("history");
    reveal_strlit("dividend_history");
    reveal_strlit("split_history");
    reveal_strlit("intraday");
    reveal_strlit("daily");
    reveal_strlit("gainers");
    reveal_strlit("losers");
    reveal_strlit("actives");
    reveal_strlit("sector_performance");
    reveal_strlit("sector_historical_performance");
    reveal_strlit("industry_pe_ratio");
    reveal_strlit("sector_pe_ratio");
    reveal_strlit("technical_indicator");
    reveal_strlit("treasury_rate");
    reveal_strlit("market_indicator");
    reveal_strlit("market_risk_premium");
    reveal_strlit("market_calendar");
    assert("quote"@[0] == 'q');
    assert("financial"@[0] == 'f');
    assert("profile"@[0] == 'p');
    assert("rating"@[0] == 'r');
    assert("outlook"@[0] == 'o');
    assert("history"@[0] == 'h');
    assert("dividend_history"@[0] == 'd');
    assert("split_history"@[0] == 's');
    assert("intraday"@[0] == 'i');
    assert("daily"@[0] == 'd');
    assert("gainers"@[0] == 'g');
    assert("losers"@[0] == 'l');
    assert("actives"@[0] == 'a');
    assert("sector_performance"@[0] == 's');
    assert("sector_historical_performance"@[0] == 's');
    assert("industry_pe_ratio"@[0] == 'i');
    assert("sector_pe_ratio"@[0] == 's');
    assert("technical_indicator"@[0] == 't');
    assert("treasury_rate"@[0] == 't');
    assert("market_indicator"@[0] == 'm');
    assert("market_risk_premium"@[0] == 'm');
    assert("market_calendar"@[0] == 'm');
    match t {
        FetchType::Unknownn => {},
        FetchType::Quote => {

            assert(fetch_type_parse("quote"@) == FetchType::Quote);
        },
        FetchType::Financial => {
            assert("financial"@ != "quote"@) by { assert("financial"@.len() != "quote"@.len() || "financial"@[0] != "quote"@[0]); }
            assert(fetch_type_parse("financial"@) == FetchType::Financial);
        },
        FetchType::Profile => {
            assert("profile"@ != "quote"@) by { assert("profile"@.len() != "quote"@.len() || "profile"@[0] != "quote"@[0]); }
            assert("profile"@ != "financial"@) by { assert("profile"@.len() != "financial"@.len() || "profile"@[0] != "financial"@[0]); }
            assert(fetch_type_parse("profile"@) == FetchType::Profile);
        },
        FetchType::Rating => {
            assert("rating"@ != "quote"@) by { assert("rating"@.len() != "quote"@.len() || "rating"@[0] != "quote"@[0]); }
            assert("rating"@ != "financial"@) by { assert("rating"@.len() != "financial"@.len() || "rating"@[0] != "financial"@[0]); }
            assert("rating"@ != "profile"@) by { assert("rating"@.len() != "profile"@.len() || "rating"@[0] != "profile"@[0]); }
            assert(fetch_type_parse("rating"@) == FetchType::Rating);
        },
        FetchType::Outlook => {
            assert("outlook"@ != "quote"@) by { assert("outlook"@.len() != "quote"@.len() || "outlook"@[0] != "quote"@[0]); }
            assert("outlook"@ != "financial"@) by { assert("outlook"@.len() != "financial"@.len() || "outlook"@[0] != "financial"@[0]); }
            assert("outlook"@ != "profile"@) by { assert("outlook"@.len() != "profile"@.len() || "outlook"@[0] != "profile"@[0]); }
            assert("outlook"@ != "rating"@) by { assert("outlook"@.len() != "rating"@.len() || "outlook"@[0] != "rating"@[0]); }
            assert(fetch_type_parse("outlook"@) == FetchType::Outlook);
        },
        FetchType::History => {
            assert("history"@ != "quote"@) by { assert("history"@.len() != "quote"@.len() || "history"@[0] != "quote"@[0]); }
            assert("history"@ != "financial"@) by { assert("history"@.len() != "financial"@.len() || "history"@[0] != "financial"@[0]); }
            assert("history"@ != "profile"@) by { assert("history"@.len() != "profile"@.len() || "history"@[0] != "profile"@[0]); }
            assert("history"@ != "rating"@) by { assert("history"@.len() != "rating"@.len() || "history"@[0] != "rating"@[0]); }
            assert("history"@ != "outlook"@) by { assert("history"@.len() != "outlook"@.len() || "history"@[0] != "outlook"@[0]); }
            assert(fetch_type_parse("history"@) == FetchType::History);
        },
        FetchType::DividendHistory => {
            assert("dividend_history"@ != "quote"@) by { assert("dividend_history"@.len() != "quote"@.len() || "dividend_history"@[0] != "quote"@[0]); }
            assert("dividend_history"@ != "financial"@) by { assert("dividend_history"@.len() != "financial"@.len() || "dividend_history"@[0] != "financial"@[0]); }
            assert("dividend_history"@ != "profile"@) by { assert("dividend_history"@.len() != "profile"@.len() || "dividend_history"@[0] != "profile"@[0]); }
            assert("dividend_history"@ != "rating"@) by { assert("dividend_history"@.len() != "rating"@.len() || "dividend_history"@[0] != "rating"@[0]); }
            assert("dividend_history"@ != "outlook"@) by { assert("dividend_history"@.len() != "outlook"@.len() || "dividend_history"@[0] != "outlook"@[0]); }
            assert("dividend_history"@ != "history"@) by { assert("dividend_history"@.len() != "history"@.len() || "dividend_history"@[0] != "history"@[0]); }
            assert(fetch_type_parse("dividend_history"@) == FetchType::DividendHistory);
        },
        FetchType::SplitHistory => {
            assert("split_history"@ != "quote"@) by { assert("split_history"@.len() != "quote"@.len() || "split_history"@[0] != "quote"@[0]); }
            assert("split_history"@ != "financial"@) by { assert("split_history"@.len() != "financial"@.len() || "split_history"@[0] != "financial"@[0]); }
            assert("split_history"@ != "profile"@) by { assert("split_history"@.len() != "profile"@.len() || "split_history"@[0] != "profile"@[0]); }
            assert("split_history"@ != "rating"@) by { assert("split_history"@.len() != "rating"@.len() || "split_history"@[0] != "rating"@[0]); }
            assert("split_history"@ != "outlook"@) by { assert("split_history"@.len() != "outlook"@.len() || "split_history"@[0] != "outlook"@[0]); }
            assert("split_history"@ != "history"@) by { assert("split_history"@.len() != "history"@.len() || "split_history"@[0] != "history"@[0]); }
            assert("split_history"@ != "dividend_history"@) by { assert("split_history"@.len() != "dividend_history"@.len() || "split_history"@[0] != "dividend_history"@[0]); }
            assert(fetch_type_parse("split_history"@) == FetchType::SplitHistory);
        },
        FetchType::IntraDay => {
            assert("intraday"@ != "quote"@) by { assert("intraday"@.len() != "quote"@.len() || "intraday"@[0] != "quote"@[0]); }
            assert("intraday"@ != "financial"@) by { assert("intraday"@.len() != "financial"@.len() || "intraday"@[0] != "financial"@[0]); }
            assert("intraday"@ != "profile"@) by { assert("intraday"@.len() != "profile"@.len() || "intraday"@[0] != "profile"@[0]); }
            assert("intraday"@ != "rating"@) by { assert("intraday"@.len() != "rating"@.len() || "intraday"@[0] != "rating"@[0]); }
            assert("intraday"@ != "outlook"@) by { assert("intraday"@.len() != "outlook"@.len() || "intraday"@[0] != "outlook"@[0]); }
            assert("intraday"@ != "history"@) by { assert("intraday"@.len() != "history"@.len() || "intraday"@[0] != "history"@[0]); }
            assert("intraday"@ != "dividend_history"@) by { assert("intraday"@.len() != "dividend_history"@.len() || "intraday"@[0] != "dividend_history"@[0]); }
            assert("intraday"@ != "split_history"@) by { assert("intraday"@.len() != "split_history"@.len() || "intraday"@[0] != "split_history"@[0]); }
            assert(fetch_type_parse("intraday"@) == FetchType::IntraDay);
        },
        FetchType::Daily => {
            assert("daily"@ != "quote"@) by { assert("daily"@.len() != "quote"@.len() || "daily"@[0] != "quote"@[0]); }
            assert("daily"@ != "financial"@) by { assert("daily"@.len() != "financial"@.len() || "daily"@[0] != "financial"@[0]); }
            assert("daily"@ != "profile"@) by { assert("daily"@.len() != "profile"@.len() || "daily"@[0] != "profile"@[0]); }
            assert("daily"@ != "rating"@) by { assert("daily"@.len() != "rating"@.len() || "daily"@[0] != "rating"@[0]); }
            assert("daily"@ != "outlook"@) by { assert("daily"@.len() != "outlook"@.len() || "daily"@[0] != "outlook"@[0]); }
            assert("daily"@ != "history"@) by { assert("daily"@.len() != "history"@.len() || "daily"@[0] != "history"@[0]); }
            assert("daily"@ != "dividend_history"@) by { assert("daily"@.len() != "dividend_history"@.len() || "daily"@[0] != "dividend_history"@[0]); }
            assert("daily"@ != "split_history"@) by { assert("daily"@.len() != "split_history"@.len() || "daily"@[0] != "split_history"@[0]); }
            assert("daily"@ != "intraday"@) by { assert("daily"@.len() != "intraday"@.len() || "daily"@[0] != "intraday"@[0]); }
            assert(fetch_type_parse("daily"@) == FetchType::Daily);
        },
        FetchType::Gainers => {
            assert("gainers"@ != "quote"@) by { assert("gainers"@.len() != "quote"@.len() || "gainers"@[0] != "quote"@[0]); }
            assert("gainers"@ != "financial"@) by { assert("gainers"@.len() != "financial"@.len() || "gainers"@[0] != "financial"@[0]); }
            assert("gainers"@ != "profile"@) by { assert("gainers"@.len() != "profile"@.len() || "gainers"@[0] != "profile"@[0]); }
            assert("gainers"@ != "rating"@) by { assert("gainers"@.len() != "rating"@.len() || "gainers"@[0] != "rating"@[0]); }
            assert("gainers"@ != "outlook"@) by { assert("gainers"@.len() != "outlook"@.len() || "gainers"@[0] != "outlook"@[0]); }
            assert("gainers"@ != "history"@) by { assert("gainers"@.len() != "history"@.len() || "gainers"@[0] != "history"@[0]); }
            assert("gainers"@ != "dividend_history"@) by { assert("gainers"@.len() != "dividend_history"@.len() || "gainers"@[0] != "dividend_history"@[0]); }
            assert("gainers"@ != "split_history"@) by { assert("gainers"@.len() != "split_history"@.len() || "gainers"@[0] != "split_history"@[0]); }
            assert("gainers"@ != "intraday"@) by { assert("gainers"@.len() != "intraday"@.len() || "gainers"@[0] != "intraday"@[0]); }
            assert("gainers"@ != "daily"@) by { assert("gainers"@.len() != "daily"@.len() || "gainers"@[0] != "daily"@[0]); }
            assert(fetch_type_parse("gainers"@) == FetchType::Gainers);
        },
        FetchType::Losers => {
            assert("losers"@ != "quote"@) by { assert("losers"@.len() != "quote"@.len() || "losers"@[0] != "quote"@[0]); }
            assert("losers"@ != "financial"@) by { assert("losers"@.len() != "financial"@.len() || "losers"@[0] != "financial"@[0]); }
            assert("losers"@ != "profile"@) by { assert("losers"@.len() != "profile"@.len() || "losers"@[0] != "profile"@[0]); }
            assert("losers"@ != "rating"@) by { assert("losers"@.len() != "rating"@.len() || "losers"@[0] != "rating"@[0]); }
            assert("losers"@ != "outlook"@) by { assert("losers"@.len() != "outlook"@.len() || "losers"@[0] != "outlook"@[0]); }
            assert("losers"@ != "history"@) by { assert("losers"@.len() != "history"@.len() || "losers"@[0] != "history"@[0]); }
            assert("losers"@ != "dividend_history"@) by { assert("losers"@.len() != "dividend_history"@.len() || "losers"@[0] != "dividend_history"@[0]); }
            assert("losers"@ != "split_history"@) by { assert("losers"@.len() != "split_history"@.len() || "losers"@[0] != "split_history"@[0]); }
            assert("losers"@ != "intraday"@) by { assert("losers"@.len() != "intraday"@.len() || "losers"@[0] != "intraday"@[0]); }
            assert("losers"@ != "daily"@) by { assert("losers"@.len() != "daily"@.len() || "losers"@[0] != "daily"@[0]); }
            assert("losers"@ != "gainers"@) by { assert("losers"@.len() != "gainers"@.len() || "losers"@[0] != "gainers"@[0]); }
            assert(fetch_type_parse("losers"@) == FetchType::Losers);
        },
        FetchType::Actives => {
            assert("actives"@ != "quote"@) by { assert("actives"@.len() != "quote"@.len() || "actives"@[0] != "quote"@[0]); }
            assert("actives"@ != "financial"@) by { assert("actives"@.len() != "financial"@.len() || "actives"@[0] != "financial"@[0]); }
            assert("actives"@ != "profile"@) by { assert("actives"@.len() != "profile"@.len() || "actives"@[0] != "profile"@[0]); }
            assert("actives"@ != "rating"@) by { assert("actives"@.len() != "rating"@.len() || "actives"@[0] != "rating"@[0]); }
            assert("actives"@ != "outlook"@) by { assert("actives"@.len() != "outlook"@.len() || "actives"@[0] != "outlook"@[0]); }
            assert("actives"@ != "history"@) by { assert("actives"@.len() != "history"@.len() || "actives"@[0] != "history"@[0]); }
            assert("actives"@ != "dividend_history"@) by { assert("actives"@.len() != "dividend_history"@.len() || "actives"@[0] != "dividend_history"@[0]); }
            assert("actives"@ != "split_history"@) by { assert("actives"@.len() != "split_history"@.len() || "actives"@[0] != "split_history"@[0]); }
            assert("actives"@ != "intraday"@) by { assert("actives"@.len() != "intraday"@.len() || "actives"@[0] != "intraday"@[0]); }
            assert("actives"@ != "daily"@) by { assert("actives"@.len() != "daily"@.len() || "actives"@[0] != "daily"@[0]); }
            assert("actives"@ != "gainers"@) by { assert("actives"@.len() != "gainers"@.len() || "actives"@[0] != "gainers"@[0]); }
            assert("actives"@ != "losers"@) by { assert("actives"@.len() != "losers"@.len() || "actives"@[0] != "losers"@[0]); }
            assert(fetch_type_parse("actives"@) == FetchType::Actives);
        },
        FetchType::Performance => {
            assert("sector_performance"@ != "quote"@) by { assert("sector_performance"@.len() != "quote"@.len() || "sector_performance"@[0] != "quote"@[0]); }
            assert("sector_performance"@ != "financial"@) by { assert("sector_performance"@.len() != "financial"@.len() || "sector_performance"@[0] != "financial"@[0]); }
            assert("sector_performance"@ != "profile"@) by { assert("sector_performance"@.len() != "profile"@.len() || "sector_performance"@[0] != "profile"@[0]); }
            assert("sector_performance"@ != "rating"@) by { assert("sector_performance"@.len() != "rating"@.len() || "sector_performance"@[0] != "rating"@[0]); }
            assert("sector_performance"@ != "outlook"@) by { assert("sector_performance"@.len() != "outlook"@.len() || "sector_performance"@[0] != "outlook"@[0]); }
            assert("sector_performance"@ != "history"@) by { assert("sector_performance"@.len() != "history"@.len() || "sector_performance"@[0] != "history"@[0]); }
            assert("sector_performance"@ != "dividend_history"@) by { assert("sector_performance"@.len() != "dividend_history"@.len() || "sector_performance"@[0] != "dividend_history"@[0]); }
            assert("sector_performance"@ != "split_history"@) by { assert("sector_performance"@.len() != "split_history"@.len() || "sector_performance"@[0] != "split_history"@[0]); }
            assert("sector_performance"@ != "intraday"@) by { assert("sector_performance"@.len() != "intraday"@.len() || "sector_performance"@[0] != "intraday"@[0]); }
            assert("sector_performance"@ != "daily"@) by { assert("sector_performance"@.len() != "daily"@.len() || "sector_performance"@[0] != "daily"@[0]); }
            assert("sector_performance"@ != "gainers"@) by { assert("sector_performance"@.len() != "gainers"@.len() || "sector_performance"@[0] != "gainers"@[0]); }
            assert("sector_performance"@ != "losers"@) by { assert("sector_performance"@.len() != "losers"@.len() || "sector_performance"@[0] != "losers"@[0]); }
            assert("sector_performance"@ != "actives"@) by { assert("sector_performance"@.len() != "actives"@.len() || "sector_performance"@[0] != "actives"@[0]); }
            assert(fetch_type_parse("sector_performance"@) == FetchType::Performance);
        },
        FetchType::SectorHistorical => {
            assert("sector_historical_performance"@ != "quote"@) by { assert("sector_historical_performance"@.len() != "quote"@.len() || "sector_historical_performance"@[0] != "quote"@[0]); }
            assert("sector_historical_performance"@ != "financial"@) by { assert("sector_historical_performance"@.len() != "financial"@.len() || "sector_historical_performance"@[0] != "financial"@[0]); }
            assert("sector_historical_performance"@ != "profile"@) by { assert("sector_historical_performance"@.len() != "profile"@.len() || "sector_historical_performance"@[0] != "profile"@[0]); }
            assert("sector_historical_performance"@ != "rating"@) by { assert("sector_historical_performance"@.len() != "rating"@.len() || "sector_historical_performance"@[0] != "rating"@[0]); }
            assert("sector_historical_performance"@ != "outlook"@) by { assert("sector_historical_performance"@.len() != "outlook"@.len() || "sector_historical_performance"@[0] != "outlook"@[0]); }
            assert("sector_historical_performance"@ != "history"@) by { assert("sector_historical_performance"@.len() != "history"@.len() || "sector_historical_performance"@[0] != "history"@[0]); }
            assert("sector_historical_performance"@ != "dividend_history"@) by { assert("sector_historical_performance"@.len() != "dividend_history"@.len() || "sector_historical_performance"@[0] != "dividend_history"@[0]); }
            assert("sector_historical_performance"@ != "split_history"@) by { assert("sector_historical_performance"@.len() != "split_history"@.len() || "sector_historical_performance"@[0] != "split_history"@[0]); }
            assert("sector_historical_performance"@ != "intraday"@) by { assert("sector_historical_performance"@.len() != "intraday"@.len() || "sector_historical_performance"@[0] != "intraday"@[0]); }
            assert("sector_historical_performance"@ != "daily"@) by { assert("sector_historical_performance"@.len() != "daily"@.len() || "sector_historical_performance"@[0] != "daily"@[0]); }
            assert("sector_historical_performance"@ != "gainers"@) by { assert("sector_historical_performance"@.len() != "gainers"@.len() || "sector_historical_performance"@[0] != "gainers"@[0]); }
            assert("sector_historical_performance"@ != "losers"@) by { assert("sector_historical_performance"@.len() != "losers"@.len() || "sector_historical_performance"@[0] != "losers"@[0]); }
            assert("sector_historical_performance"@ != "actives"@) by { assert("sector_historical_performance"@.len() != "actives"@.len() || "sector_historical_performance"@[0] != "actives"@[0]); }
            assert("sector_historical_performance"@ != "sector_performance"@) by { assert("sector_historical_performance"@.len() != "sector_performance"@.len() || "sector_historical_performance"@[0] != "sector_performance"@[0]); }
            assert(fetch_type_parse("sector_historical_performance"@) == FetchType::SectorHistorical);
        },
        FetchType::IndustryPERatio => {
            assert("industry_pe_ratio"@ != "quote"@) by { assert("industry_pe_ratio"@.len() != "quote"@.len() || "industry_pe_ratio"@[0] != "quote"@[0]); }
            assert("industry_pe_ratio"@ != "financial"@) by { assert("industry_pe_ratio"@.len() != "financial"@.len() || "industry_pe_ratio"@[0] != "financial"@[0]); }
            assert("industry_pe_ratio"@ != "profile"@) by { assert("industry_pe_ratio"@.len() != "profile"@.len() || "industry_pe_ratio"@[0] != "profile"@[0]); }
            assert("industry_pe_ratio"@ != "rating"@) by { assert("industry_pe_ratio"@.len() != "rating"@.len() || "industry_pe_ratio"@[0] != "rating"@[0]); }
            assert("industry_pe_ratio"@ != "outlook"@) by { assert("industry_pe_ratio"@.len() != "outlook"@.len() || "industry_pe_ratio"@[0] != "outlook"@[0]); }
            assert("industry_pe_ratio"@ != "history"@) by { assert("industry_pe_ratio"@.len() != "history"@.len() || "industry_pe_ratio"@[0] != "history"@[0]); }
            assert("industry_pe_ratio"@ != "dividend_history"@) by { assert("industry_pe_ratio"@.len() != "dividend_history"@.len() || "industry_pe_ratio"@[0] != "dividend_history"@[0]); }
            assert("industry_pe_ratio"@ != "split_history"@) by { assert("industry_pe_ratio"@.len() != "split_history"@.len() || "industry_pe_ratio"@[0] != "split_history"@[0]); }
            assert("industry_pe_ratio"@ != "intraday"@) by { assert("industry_pe_ratio"@.len() != "intraday"@.len() || "industry_pe_ratio"@[0] != "intraday"@[0]); }
            assert("industry_pe_ratio"@ != "daily"@) by { assert("industry_pe_ratio"@.len() != "daily"@.len() || "industry_pe_ratio"@[0] != "daily"@[0]); }
            assert("industry_pe_ratio"@ != "gainers"@) by { assert("industry_pe_ratio"@.len() != "gainers"@.len() || "industry_pe_ratio"@[0] != "gainers"@[0]); }
            assert("industry_pe_ratio"@ != "losers"@) by { assert("industry_pe_ratio"@.len() != "losers"@.len() || "industry_pe_ratio"@[0] != "losers"@[0]); }
            assert("industry_pe_ratio"@ != "actives"@) by { assert("industry_pe_ratio"@.len() != "actives"@.len() || "industry_pe_ratio"@[0] != "actives"@[0]); }
            assert("industry_pe_ratio"@ != "sector_performance"@) by { assert("industry_pe_ratio"@.len() != "sector_performance"@.len() || "industry_pe_ratio"@[0] != "sector_performance"@[0]); }
            assert("industry_pe_ratio"@ != "sector_historical_performance"@) by { assert("industry_pe_ratio"@.len() != "sector_historical_performance"@.len() || "industry_pe_ratio"@[0] != "sector_historical_performance"@[0]); }
            assert(fetch_type_parse("industry_pe_ratio"@) == FetchType::IndustryPERatio);
        },
        FetchType::SectorPERatio => {
            assert("sector_pe_ratio"@ != "quote"@) by { assert("sector_pe_ratio"@.len() != "quote"@.len() || "sector_pe_ratio"@[0] != "quote"@[0]); }
            assert("sector_pe_ratio"@ != "financial"@) by { assert("sector_pe_ratio"@.len() != "financial"@.len() || "sector_pe_ratio"@[0] != "financial"@[0]); }
            assert("sector_pe_ratio"@ != "profile"@) by { assert("sector_pe_ratio"@.len() != "profile"@.len() || "sector_pe_ratio"@[0] != "profile"@[0]); }
            assert("sector_pe_ratio"@ != "rating"@) by { assert("sector_pe_ratio"@.len() != "rating"@.len() || "sector_pe_ratio"@[0] != "rating"@[0]); }
            assert("sector_pe_ratio"@ != "outlook"@) by { assert("sector_pe_ratio"@.len() != "outlook"@.len() || "sector_pe_ratio"@[0] != "outlook"@[0]); }
            assert("sector_pe_ratio"@ != "history"@) by { assert("sector_pe_ratio"@.len() != "history"@.len() || "sector_pe_ratio"@[0] != "history"@[0]); }
            assert("sector_pe_ratio"@ != "dividend_history"@) by { assert("sector_pe_ratio"@.len() != "dividend_history"@.len() || "sector_pe_ratio"@[0] != "dividend_history"@[0]); }
            assert("sector_pe_ratio"@ != "split_history"@) by { assert("sector_pe_ratio"@.len() != "split_history"@.len() || "sector_pe_ratio"@[0] != "split_history"@[0]); }
            assert("sector_pe_ratio"@ != "intraday"@) by { assert("sector_pe_ratio"@.len() != "intraday"@.len() || "sector_pe_ratio"@[0] != "intraday"@[0]); }
            assert("sector_pe_ratio"@ != "daily"@) by { assert("sector_pe_ratio"@.len() != "daily"@.len() || "sector_pe_ratio"@[0] != "daily"@[0]); }
            assert("sector_pe_ratio"@ != "gainers"@) by { assert("sector_pe_ratio"@.len() != "gainers"@.len() || "sector_pe_ratio"@[0] != "gainers"@[0]); }
            assert("sector_pe_ratio"@ != "losers"@) by { assert("sector_pe_ratio"@.len() != "losers"@.len() || "sector_pe_ratio"@[0] != "losers"@[0]); }
            assert("sector_pe_ratio"@ != "actives"@) by { assert("sector_pe_ratio"@.len() != "actives"@.len() || "sector_pe_ratio"@[0] != "actives"@[0]); }
            assert("sector_pe_ratio"@ != "sector_performance"@) by { assert("sector_pe_ratio"@.len() != "sector_performance"@.len() || "sector_pe_ratio"@[0] != "sector_performance"@[0]); }
            assert("sector_pe_ratio"@ != "sector_historical_performance"@) by { assert("sector_pe_ratio"@.len() != "sector_historical_performance"@.len() || "sector_pe_ratio"@[0] != "sector_historical_performance"@[0]); }
            assert("sector_pe_ratio"@ != "industry_pe_ratio"@) by { assert("sector_pe_ratio"@.len() != "industry_pe_ratio"@.len() || "sector_pe_ratio"@[0] != "industry_pe_ratio"@[0]); }
            assert(fetch_type_parse("sector_pe_ratio"@) == FetchType::SectorPERatio);
        },
        FetchType::TechnicalIndicator => {
            assert("technical_indicator"@ != "quote"@) by { assert("technical_indicator"@.len() != "quote"@.len() || "technical_indicator"@[0] != "quote"@[0]); }
            assert("technical_indicator"@ != "financial"@) by { assert("technical_indicator"@.len() != "financial"@.len() || "technical_indicator"@[0] != "financial"@[0]); }
            assert("technical_indicator"@ != "profile"@) by { assert("technical_indicator"@.len() != "profile"@.len() || "technical_indicator"@[0] != "profile"@[0]); }
            assert("technical_indicator"@ != "rating"@) by { assert("technical_indicator"@.len() != "rating"@.len() || "technical_indicator"@[0] != "rating"@[0]); }
            assert("technical_indicator"@ != "outlook"@) by { assert("technical_indicator"@.len() != "outlook"@.len() || "technical_indicator"@[0] != "outlook"@[0]); }
            assert("technical_indicator"@ != "history"@) by { assert("technical_indicator"@.len() != "history"@.len() || "technical_indicator"@[0] != "history"@[0]); }
            assert("technical_indicator"@ != "dividend_history"@) by { assert("technical_indicator"@.len() != "dividend_history"@.len() || "technical_indicator"@[0] != "dividend_history"@[0]); }
            assert("technical_indicator"@ != "split_history"@) by { assert("technical_indicator"@.len() != "split_history"@.len() || "technical_indicator"@[0] != "split_history"@[0]); }
            assert("technical_indicator"@ != "intraday"@) by { assert("technical_indicator"@.len() != "intraday"@.len() || "technical_indicator"@[0] != "intraday"@[0]); }
            assert("technical_indicator"@ != "daily"@) by { assert("technical_indicator"@.len() != "daily"@.len() || "technical_indicator"@[0] != "daily"@[0]); }
            assert("technical_indicator"@ != "gainers"@) by { assert("technical_indicator"@.len() != "gainers"@.len() || "technical_indicator"@[0] != "gainers"@[0]); }
            assert("technical_indicator"@ != "losers"@) by { assert("technical_indicator"@.len() != "losers"@.len() || "technical_indicator"@[0] != "losers"@[0]); }
            assert("technical_indicator"@ != "actives"@) by { assert("technical_indicator"@.len() != "actives"@.len() || "technical_indicator"@[0] != "actives"@[0]); }
            assert("technical_indicator"@ != "sector_performance"@) by { assert("technical_indicator"@.len() != "sector_performance"@.len() || "technical_indicator"@[0] != "sector_performance"@[0]); }
            assert("technical_indicator"@ != "sector_historical_performance"@) by { assert("technical_indicator"@.len() != "sector_historical_performance"@.len() || "technical_indicator"@[0] != "sector_historical_performance"@[0]); }
            assert("technical_indicator"@ != "industry_pe_ratio"@) by { assert("technical_indicator"@.len() != "industry_pe_ratio"@.len() || "technical_indicator"@[0] != "industry_pe_ratio"@[0]); }
            assert("technical_indicator"@ != "sector_pe_ratio"@) by { assert("technical_indicator"@.len() != "sector_pe_ratio"@.len() || "technical_indicator"@[0] != "sector_pe_ratio"@[0]); }
            assert(fetch_type_parse("technical_indicator"@) == FetchType::TechnicalIndicator);
        },
        FetchType::TreasuryRate => {
            assert("treasury_rate"@ != "quote"@) by { assert("treasury_rate"@.len() != "quote"@.len() || "treasury_rate"@[0] != "quote"@[0]); }
            assert("treasury_rate"@ != "financial"@) by { assert("treasury_rate"@.len() != "financial"@.len() || "treasury_rate"@[0] != "financial"@[0]); }
            assert("treasury_rate"@ != "profile"@) by { assert("treasury_rate"@.len() != "profile"@.len() || "treasury_rate"@[0] != "profile"@[0]); }
            assert("treasury_rate"@ != "rating"@) by { assert("treasury_rate"@.len() != "rating"@.len() || "treasury_rate"@[0] != "rating"@[0]); }
            assert("treasury_rate"@ != "outlook"@) by { assert("treasury_rate"@.len() != "outlook"@.len() || "treasury_rate"@[0] != "outlook"@[0]); }
            assert("treasury_rate"@ != "history"@) by { assert("treasury_rate"@.len() != "history"@.len() || "treasury_rate"@[0] != "history"@[0]); }
            assert("treasury_rate"@ != "dividend_history"@) by { assert("treasury_rate"@.len() != "dividend_history"@.len() || "treasury_rate"@[0] != "dividend_history"@[0]); }
            assert("treasury_rate"@ != "split_history"@) by { assert("treasury_rate"@.len() != "split_history"@.len() || "treasury_rate"@[0] != "split_history"@[0]); }
            assert("treasury_rate"@ != "intraday"@) by { assert("treasury_rate"@.len() != "intraday"@.len() || "treasury_rate"@[0] != "intraday"@[0]); }
            assert("treasury_rate"@ != "daily"@) by { assert("treasury_rate"@.len() != "daily"@.len() || "treasury_rate"@[0] != "daily"@[0]); }
            assert("treasury_rate"@ != "gainers"@) by { assert("treasury_rate"@.len() != "gainers"@.len() || "treasury_rate"@[0] != "gainers"@[0]); }
            assert("treasury_rate"@ != "losers"@) by { assert("treasury_rate"@.len() != "losers"@.len() || "treasury_rate"@[0] != "losers"@[0]); }
            assert("treasury_rate"@ != "actives"@) by { assert("treasury_rate"@.len() != "actives"@.len() || "treasury_rate"@[0] != "actives"@[0]); }
            assert("treasury_rate"@ != "sector_performance"@) by { assert("treasury_rate"@.len() != "sector_performance"@.len() || "treasury_rate"@[0] != "sector_performance"@[0]); }
            assert("treasury_rate"@ != "sector_historical_performance"@) by { assert("treasury_rate"@.len() != "sector_historical_performance"@.len() || "treasury_rate"@[0] != "sector_historical_performance"@[0]); }
            assert("treasury_rate"@ != "industry_pe_ratio"@) by { assert("treasury_rate"@.len() != "industry_pe_ratio"@.len() || "treasury_rate"@[0] != "industry_pe_ratio"@[0]); }
            assert("treasury_rate"@ != "sector_pe_ratio"@) by { assert("treasury_rate"@.len() != "sector_pe_ratio"@.len() || "treasury_rate"@[0] != "sector_pe_ratio"@[0]); }
            assert("treasury_rate"@ != "technical_indicator"@) by { assert("treasury_rate"@.len() != "technical_indicator"@.len() || "treasury_rate"@[0] != "technical_indicator"@[0]); }
            assert(fetch_type_parse("treasury_rate"@) == FetchType::TreasuryRate);
        },
        FetchType::MarketIndicator => {
            assert("market_indicator"@ != "quote"@) by { assert("market_indicator"@.len() != "quote"@.len() || "market_indicator"@[0] != "quote"@[0]); }
            assert("market_indicator"@ != "financial"@) by { assert("market_indicator"@.len() != "financial"@.len() || "market_indicator"@[0] != "financial"@[0]); }
            assert("market_indicator"@ != "profile"@) by { assert("market_indicator"@.len() != "profile"@.len() || "market_indicator"@[0] != "profile"@[0]); }
            assert("market_indicator"@ != "rating"@) by { assert("market_indicator"@.len() != "rating"@.len() || "market_indicator"@[0] != "rating"@[0]); }
            assert("market_indicator"@ != "outlook"@) by { assert("market_indicator"@.len() != "outlook"@.len() || "market_indicator"@[0] != "outlook"@[0]); }
            assert("market_indicator"@ != "history"@) by { assert("market_indicator"@.len() != "history"@.len() || "market_indicator"@[0] != "history"@[0]); }
            assert("market_indicator"@ != "dividend_history"@) by { assert("market_indicator"@.len() != "dividend_history"@.len() || "market_indicator"@[0] != "dividend_history"@[0]); }
            assert("market_indicator"@ != "split_history"@) by { assert("market_indicator"@.len() != "split_history"@.len() || "market_indicator"@[0] != "split_history"@[0]); }
            assert("market_indicator"@ != "intraday"@) by { assert("market_indicator"@.len() != "intraday"@.len() || "market_indicator"@[0] != "intraday"@[0]); }
            assert("market_indicator"@ != "daily"@) by { assert("market_indicator"@.len() != "daily"@.len() || "market_indicator"@[0] != "daily"@[0]); }
            assert("market_indicator"@ != "gainers"@) by { assert("market_indicator"@.len() != "gainers"@.len() || "market_indicator"@[0] != "gainers"@[0]); }
            assert("market_indicator"@ != "losers"@) by { assert("market_indicator"@.len() != "losers"@.len() || "market_indicator"@[0] != "losers"@[0]); }
            assert("market_indicator"@ != "actives"@) by { assert("market_indicator"@.len() != "actives"@.len() || "market_indicator"@[0] != "actives"@[0]); }
            assert("market_indicator"@ != "sector_performance"@) by { assert("market_indicator"@.len() != "sector_performance"@.len() || "market_indicator"@[0] != "sector_performance"@[0]); }
            assert("market_indicator"@ != "sector_historical_performance"@) by { assert("market_indicator"@.len() != "sector_historical_performance"@.len() || "market_indicator"@[0] != "sector_historical_performance"@[0]); }
            assert("market_indicator"@ != "industry_pe_ratio"@) by { assert("market_indicator"@.len() != "industry_pe_ratio"@.len() || "market_indicator"@[0] != "industry_pe_ratio"@[0]); }
            assert("market_indicator"@ != "sector_pe_ratio"@) by { assert("market_indicator"@.len() != "sector_pe_ratio"@.len() || "market_indicator"@[0] != "sector_pe_ratio"@[0]); }
            assert("market_indicator"@ != "technical_indicator"@) by { assert("market_indicator"@.len() != "technical_indicator"@.len() || "market_indicator"@[0] != "technical_indicator"@[0]); }
            assert("market_indicator"@ != "treasury_rate"@) by { assert("market_indicator"@.len() != "treasury_rate"@.len() || "market_indicator"@[0] != "treasury_rate"@[0]); }
            assert(fetch_type_parse("market_indicator"@) == FetchType::MarketIndicator);
        },
        FetchType::MarketRiskPremium => {
            assert("market_risk_premium"@ != "quote"@) by { assert("market_risk_premium"@.len() != "quote"@.len() || "market_risk_premium"@[0] != "quote"@[0]); }
            assert("market_risk_premium"@ != "financial"@) by { assert("market_risk_premium"@.len() != "financial"@.len() || "market_risk_premium"@[0] != "financial"@[0]); }
            assert("market_risk_premium"@ != "profile"@) by { assert("market_risk_premium"@.len() != "profile"@.len() || "market_risk_premium"@[0] != "profile"@[0]); }
            assert("market_risk_premium"@ != "rating"@) by { assert("market_risk_premium"@.len() != "rating"@.len() || "market_risk_premium"@[0] != "rating"@[0]); }
            assert("market_risk_premium"@ != "outlook"@) by { assert("market_risk_premium"@.len() != "outlook"@.len() || "market_risk_premium"@[0] != "outlook"@[0]); }
            assert("market_risk_premium"@ != "history"@) by { assert("market_risk_premium"@.len() != "history"@.len() || "market_risk_premium"@[0] != "history"@[0]); }
            assert("market_risk_premium"@ != "dividend_history"@) by { assert("market_risk_premium"@.len() != "dividend_history"@.len() || "market_risk_premium"@[0] != "dividend_history"@[0]); }
            assert("market_risk_premium"@ != "split_history"@) by { assert("market_risk_premium"@.len() != "split_history"@.len() || "market_risk_premium"@[0] != "split_history"@[0]); }
            assert("market_risk_premium"@ != "intraday"@) by { assert("market_risk_premium"@.len() != "intraday"@.len() || "market_risk_premium"@[0] != "intraday"@[0]); }
            assert("market_risk_premium"@ != "daily"@) by { assert("market_risk_premium"@.len() != "daily"@.len() || "market_risk_premium"@[0] != "daily"@[0]); }
            assert("market_risk_premium"@ != "gainers"@) by { assert("market_risk_premium"@.len() != "gainers"@.len() || "market_risk_premium"@[0] != "gainers"@[0]); }
            assert("market_risk_premium"@ != "losers"@) by { assert("market_risk_premium"@.len() != "losers"@.len() || "market_risk_premium"@[0] != "losers"@[0]); }
            assert("market_risk_premium"@ != "actives"@) by { assert("market_risk_premium"@.len() != "actives"@.len() || "market_risk_premium"@[0] != "actives"@[0]); }
            assert("market_risk_premium"@ != "sector_performance"@) by { assert("market_risk_premium"@.len() != "sector_performance"@.len() || "market_risk_premium"@[0] != "sector_performance"@[0]); }
            assert("market_risk_premium"@ != "sector_historical_performance"@) by { assert("market_risk_premium"@.len() != "sector_historical_performance"@.len() || "market_risk_premium"@[0] != "sector_historical_performance"@[0]); }
            assert("market_risk_premium"@ != "industry_pe_ratio"@) by { assert("market_risk_premium"@.len() != "industry_pe_ratio"@.len() || "market_risk_premium"@[0] != "industry_pe_ratio"@[0]); }
            assert("market_risk_premium"@ != "sector_pe_ratio"@) by { assert("market_risk_premium"@.len() != "sector_pe_ratio"@.len() || "market_risk_premium"@[0] != "sector_pe_ratio"@[0]); }
            assert("market_risk_premium"@ != "technical_indicator"@) by { assert("market_risk_premium"@.len() != "technical_indicator"@.len() || "market_risk_premium"@[0] != "technical_indicator"@[0]); }
            assert("market_risk_premium"@ != "treasury_rate"@) by { assert("market_risk_premium"@.len() != "treasury_rate"@.len() || "market_risk_premium"@[0] != "treasury_rate"@[0]); }
            assert("market_risk_premium"@ != "market_indicator"@) by { assert("market_risk_premium"@.len() != "market_indicator"@.len() || "market_risk_premium"@[0] != "market_indicator"@[0]); }
            assert(fetch_type_parse("market_risk_premium"@) == FetchType::MarketRiskPremium);
        },
        FetchType::MarketCalendar => {
            assert("market_calendar"@ != "quote"@) by { assert("market_calendar"@.len() != "quote"@.len() || "market_calendar"@[0] != "quote"@[0]); }
            assert("market_calendar"@ != "financial"@) by { assert("market_calendar"@.len() != "financial"@.len() || "market_calendar"@[0] != "financial"@[0]); }
            assert("market_calendar"@ != "profile"@) by { assert("market_calendar"@.len() != "profile"@.len() || "market_calendar"@[0] != "profile"@[0]); }
            assert("market_calendar"@ != "rating"@) by { assert("market_calendar"@.len() != "rating"@.len() || "market_calendar"@[0] != "rating"@[0]); }
            assert("market_calendar"@ != "outlook"@) by { assert("market_calendar"@.len() != "outlook"@.len() || "market_calendar"@[0] != "outlook"@[0]); }
            assert("market_calendar"@ != "history"@) by { assert("market_calendar"@.len() != "history"@.len() || "market_calendar"@[0] != "history"@[0]); }
            assert("market_calendar"@ != "dividend_history"@) by { assert("market_calendar"@.len() != "dividend_history"@.len() || "market_calendar"@[0] != "dividend_history"@[0]); }
            assert("market_calendar"@ != "split_history"@) by { assert("market_calendar"@.len() != "split_history"@.len() || "market_calendar"@[0] != "split_history"@[0]); }
            assert("market_calendar"@ != "intraday"@) by { assert("market_calendar"@.len() != "intraday"@.len() || "market_calendar"@[0] != "intraday"@[0]); }
            assert("market_calendar"@ != "daily"@) by { assert("market_calendar"@.len() != "daily"@.len() || "market_calendar"@[0] != "daily"@[0]); }
            assert("market_calendar"@ != "gainers"@) by { assert("market_calendar"@.len() != "gainers"@.len() || "market_calendar"@[0] != "gainers"@[0]); }
            assert("market_calendar"@ != "losers"@) by { assert("market_calendar"@.len() != "losers"@.len() || "market_calendar"@[0] != "losers"@[0]); }
            assert("market_calendar"@ != "actives"@) by { assert("market_calendar"@.len() != "actives"@.len() || "market_calendar"@[0] != "actives"@[0]); }
            assert("market_calendar"@ != "sector_performance"@) by { assert("market_calendar"@.len() != "sector_performance"@.len() || "market_calendar"@[0] != "sector_performance"@[0]); }
            assert("market_calendar"@ != "sector_historical_performance"@) by { assert("market_calendar"@.len() != "sector_historical_performance"@.len() || "market_calendar"@[0] != "sector_historical_performance"@[0]); }
            assert("market_calendar"@ != "industry_pe_ratio"@) by { assert("market_calendar"@.len() != "industry_pe_ratio"@.len() || "market_calendar"@[0] != "industry_pe_ratio"@[0]); }
            assert("market_calendar"@ != "sector_pe_ratio"@) by { assert("market_calendar"@.len() != "sector_pe_ratio"@.len() || "market_calendar"@[0] != "sector_pe_ratio"@[0]); }
            assert("market_calendar"@ != "technical_indicator"@) by { assert("market_calendar"@.len() != "technical_indicator"@.len() || "market_calendar"@[0] != "technical_indicator"@[0]); }
            assert("market_calendar"@ != "treasury_rate"@) by { assert("market_calendar"@.len() != "treasury_rate"@.len() || "market_calendar"@[0] != "treasury_rate"@[0]); }
            assert("market_calendar"@ != "market_indicator"@) by { assert("market_calendar"@.len() != "market_indicator"@.len() || "market_calendar"@[0] != "market_indicator"@[0]); }
            assert("market_calendar"@ != "market_risk_premium"@) by { assert("market_calendar"@.len() != "market_risk_premium"@.len() || "market_calendar"@[0] != "market_risk_premium"@[0]); }
            assert(fetch_type_parse("market_calendar"@) == FetchType::MarketCalendar);
        },
    }
}

/// The text that `Display` writes for a fetch type.
pub open spec fn fetch_type_text(t: FetchType) -> Seq<char> {
    match t {
        FetchType::Unknownn => "Unknown"@,
        FetchType::Quote => "Quote"@,
        FetchType::Financial => "Financial"@,
        FetchType::Profile => "Profile"@,
        FetchType::Rating => "Rating"@,
        FetchType::Outlook => "Outlook"@,
        FetchType::History => "History"@,
        FetchType::DividendHistory => "Dividend History"@,
        FetchType::SplitHistory => "Split History"@,
        FetchType::IntraDay => "IntraDay"@,
        FetchType::Daily => "Daily"@,
        FetchType::Gainers => "Gainers"@,
        FetchType::Losers => "Losers"@,
        FetchType::Actives => "Actives"@,
        FetchType::Performance => "Performance"@,
        FetchType::SectorHistorical => "Sector Historical"@,
        FetchType::IndustryPERatio => "Industry PERatio"@,
        FetchType::SectorPERatio => "Sector PERatio"@,
        FetchType::TechnicalIndicator => "Technical Indicator"@,
        FetchType::TreasuryRate => "Treasury Rate"@,
        FetchType::MarketIndicator => "Market Indicator"@,
        FetchType::MarketRiskPremium => "Market Risk Premium"@,
        FetchType::MarketCalendar => "Market Calendar"@,
    }
}

impl FetchType {
    pub fn from_str(s: &str) -> (r: FetchType)
        ensures
            r == fetch_type_parse(s@),
    {
        if str_eq(s, "quote") {
            FetchType::Quote
        } else if str_eq(s, "financial") {
            FetchType::Financial
        } else if str_eq(s, "profile") {
            FetchType::Profile
        } else if str_eq(s, "rating") {
            FetchType::Rating
        } else if str_eq(s, "outlook") {
            FetchType::Outlook
        } else if str_eq(s, "history") {
            FetchType::History
        } else if str_eq(s, "dividend_history") {
            FetchType::DividendHistory
        } else if str_eq(s, "split_history") {
            FetchType::SplitHistory
        } else if str_eq(s, "intraday") {
            FetchType::IntraDay
        } else if str_eq(s, "daily") {
            FetchType::Daily
        } else if str_eq(s, "gainers") {
            FetchType::Gainers
        } else if str_eq(s, "losers") {
            FetchType::Losers
        } else if str_eq(s, "actives") {
            FetchType::Actives
        } else if str_eq(s, "sector_performance") {
            FetchType::Performance
        } else if str_eq(s, "sector_historical_performance") {
            FetchType::SectorHistorical
        } else if str_eq(s, "industry_pe_ratio") {
            FetchType::IndustryPERatio
        } else if str_eq(s, "sector_pe_ratio") {
            FetchType::SectorPERatio
        } else if str_eq(s, "technical_indicator") {
            FetchType::TechnicalIndicator
        } else if str_eq(s, "treasury_rate") {
            FetchType::TreasuryRate
        } else if str_eq(s, "market_indicator") {
            FetchType::MarketIndicator
        } else if str_eq(s, "market_risk_premium") {
            FetchType::MarketRiskPremium
        } else if str_eq(s, "market_calendar") {
            FetchType::MarketCalendar
        } else {
            FetchType::Unknownn
        }
    }

    fn text(&self) -> (r: &'static str)
        ensures
            r@ == fetch_type_text(*self),
    {
        match self {
            FetchType::Unknownn => "Unknown",
            FetchType::Quote => "Quote",
            FetchType::Financial => "Financial",
            FetchType::Profile => "Profile",
            FetchType::Rating => "Rating",
            FetchType::Outlook => "Outlook",
            FetchType::History => "History",
            FetchType::DividendHistory => "Dividend History",
            FetchType::SplitHistory => "Split History",
            FetchType::IntraDay => "IntraDay",
            FetchType::Daily => "Daily",
            FetchType::Gainers => "Gainers",
            FetchType::Losers => "Losers",
            FetchType::Actives => "Actives",
            FetchType::Performance => "Performance",
            FetchType::SectorHistorical => "Sector Historical",
            FetchType::IndustryPERatio => "Industry PERatio",
            FetchType::SectorPERatio => "Sector PERatio",
            FetchType::TechnicalIndicator => "Technical Indicator",
            FetchType::TreasuryRate => "Treasury Rate",
            FetchType::MarketIndicator => "Market Indicator",
            FetchType::MarketRiskPremium => "Market Risk Premium",
            FetchType::MarketCalendar => "Market Calendar",
        }
    }

    /// The text that `Display` writes.
    pub fn to_string(&self) -> (r: String)
        ensures
            r@ == fetch_type_text(*self),
    {
        self.text().to_owned()
    }
}

//-----------------------Either------------------------------------------------

/// A single value or a list of values.
#[derive(Debug, Clone, Copy)]
pub enum Either<L, R> {
    Single(L),
    Array(R),
}

/// The trimmed comma-separated pieces of a symbol list.
pub open spec fn symbol_pieces(input: Seq<char>) -> Seq<Seq<char>> {
    split_spec(input, ',').map_values(|p: Seq<char>| trim_by(p, |c: char| is_white_space(c)))
}

/// The symbols that an argument stands for, in order.
pub open spec fn either_symbols(e: Either<String, Vec<String>>) -> Seq<Seq<char>> {
    match e {
        Either::Single(s) => seq![s@],
        Either::Array(v) => views(v@),
    }
}

/// What `from_str` returns for `input`: `Single` of the one trimmed piece when
/// there is no comma, else `Array` of all trimmed pieces.
pub open spec fn either_from_str_result(input: Seq<char>, r: Either<String, Vec<String>>) -> bool {
    match r {
        Either::Single(s) => symbol_pieces(input).len() == 1 && s@ == symbol_pieces(input)[0],
        Either::Array(v) => symbol_pieces(input).len() != 1 && views(v@) == symbol_pieces(input),
    }
}

/// What `from_vec` returns for `input`: `Single` of its element when it has
/// exactly one, else `Array` of the same list.
pub open spec fn either_from_vec_result(input: Seq<String>, r: Either<String, Vec<String>>) -> bool {
    match r {
        Either::Single(s) => input.len() == 1 && s@ == input[0]@,
        Either::Array(v) => input.len() != 1 && v@ == input,
    }
}

/// The symbols of an argument built from a list are the list.
pub proof fn either_from_vec_symbols(input: Seq<String>, r: Either<String, Vec<String>>)
    requires
        either_from_vec_result(input, r),
    ensures
        either_symbols(r) == views(input),
{
    if r is Single {
        assert(views(input) =~= seq![input[0]@]);
    }
}

/// The symbols of an argument parsed from text are the trimmed
/// comma-separated pieces of the text, in order.
pub proof fn either_from_str_symbols(input: Seq<char>, r: Either<String, Vec<String>>)
    requires
        either_from_str_result(input, r),
    ensures
        either_symbols(r) == symbol_pieces(input),
{
    if r is Single {
        assert(symbol_pieces(input) =~= seq![symbol_pieces(input)[0]]);
    }
}

impl Either<String, Vec<String>> {
    /// The symbols in order, as a vector.
    pub fn into_iter(self) -> (r: Vec<String>)
        ensures
            views(r@) == either_symbols(self),
    {
        match self {
            Either::Single(symbol) => {
                let v = vec![symbol];
                assert(views(v@) =~= seq![v@[0]@]);
                v
            },
            Either::Array(symbols) => symbols,
        }
    }

    /// Splits at commas and trims each piece; one piece gives `Single`.
    pub fn from_str(input: &str) -> (r: Either<String, Vec<String>>)
        ensures
            either_from_str_result(input@, r),
    {
        let raw = split_char(input, ',');
        let n = raw.len();
        let mut parts: Vec<String> = Vec::new();
        let mut i: usize = 0;
        while i < n
            invariant
                n == raw@.len(),
                i <= n,
                views(raw@) == split_spec(input@, ','),
                views(parts@) == symbol_pieces(input@).take(i as int),
            decreases n - i,
        {
            let piece = trim_whitespace(raw[i].as_str()).to_owned();
            let ghost before = parts@;
            parts.push(piece);
            assert(views(parts@) =~= views(before).push(piece@));
            assert(symbol_pieces(input@).take(i + 1) =~= symbol_pieces(input@).take(i as int).push(
                trim_by(raw@[i as int]@, |c: char| is_white_space(c)),
            ));
            i = i + 1;
        }
        assert(symbol_pieces(input@).take(n as int) =~= symbol_pieces(input@));
        if parts.len() == 1 {
            Either::Single(parts[0].clone())
        } else {
            Either::Array(parts)
        }
    }

    /// One element gives `Single`, any other count `Array`.
    pub fn from_vec(input: Vec<String>) -> (r: Either<String, Vec<String>>)
        ensures
            either_from_vec_result(input@, r),
    {
        if input.len() == 1 {
            Either::Single(input[0].clone())
        } else {
            Either::Array(input)
        }
    }
}

//-----------------------IndicatorType-----------------------------------------------

/// A technical indicator.
#[allow(non_camel_case_types)]
#[derive(Debug, Clone, Copy, PartialEq, Eq, Structural)]
pub enum IndicatorType {
    sma,
    ema,
    wma,
    dema,
    tema,
    williams,
    rsi,
    adx,
    standardDeviation,
}

/// The API name of each IndicatorType value.
pub open spec fn indicatortype_text(t: IndicatorType) -> Seq<char> {
    match t {
        IndicatorType::sma => "sma"@,
        IndicatorType::ema => "ema"@,
        IndicatorType::wma => "wma"@,
        IndicatorType::dema => "dema"@,
        IndicatorType::tema => "tema"@,
        IndicatorType::williams => "williams"@,
        IndicatorType::rsi => "rsi"@,
        IndicatorType::adx => "adx"@,
        IndicatorType::standardDeviation => "standardDeviation"@,
    }
}

/// The value that an already lower-cased name stands for.
pub open spec fn indicatortype_from_lower(s: Seq<char>) -> Option<IndicatorType> {
    if s == "sma"@ {
        Some(IndicatorType::sma)
    } else if s == "ema"@ {
        Some(IndicatorType::ema)
    } else if s == "wma"@ {
        Some(IndicatorType::wma)
    } else if s == "dema"@ {
        Some(IndicatorType::dema)
    } else if s == "tema"@ {
        Some(IndicatorType::tema)
    } else if s == "williams"@ {
        Some(IndicatorType::williams)
    } else if s == "rsi"@ {
        Some(IndicatorType::rsi)
    } else if s == "adx"@ {
        Some(IndicatorType::adx)
    } else if s == "standardDeviation"@ {
        Some(IndicatorType::standardDeviation)
    } else {
        None
    }
}

/// Lower-casing the API name of a value and looking it up gives the value
/// back, for every value but those listed in the `requires`.
pub proof fn indicatortype_name_round_trip(t: IndicatorType)
    requires
        t != IndicatorType::standardDeviation,
    ensures
        all_ascii(indicatortype_text(t)),
        indicatortype_from_lower(indicatortype_text(t).map_values(|c: char| ascii_lower(c))) == Some(t),
{
    reveal_strlit("sma");
    reveal_strlit("ema");
    reveal_strlit("wma");
    reveal_strlit("dema");
    reveal_strlit("tema");
    reveal_strlit("williams");
    reveal_strlit("rsi");
    reveal_strlit("adx");
    reveal_strlit("standardDeviation");
    assert("sma"@[0] == 's');
    assert("ema"@[0] == 'e');
    assert("wma"@[0] == 'w');
    assert("dema"@[0] == 'd');
    assert("tema"@[0] == 't');
    assert("williams"@[0] == 'w');
    assert("rsi"@[0] == 'r');
    assert("adx"@[0] == 'a');
    assert("standardDeviation"@[0] == 's');
    match t {
        IndicatorType::sma => {
            assert(all_ascii("sma"@));
            assert("sma"@.map_values(|c: char| ascii_lower(c)) =~= "sma"@);
        },
        IndicatorType::ema => {
            assert(all_ascii("ema"@));
            assert("ema"@.map_values(|c: char| ascii_lower(c)) =~= "ema"@);
        },
        IndicatorType::wma => {
            assert(all_ascii("wma"@));
            assert("wma"@.map_values(|c: char| ascii_lower(c)) =~= "wma"@);
        },
        IndicatorType::dema => {
            assert(all_ascii("dema"@));
            assert("dema"@.map_values(|c: char| ascii_lower(c)) =~= "dema"@);
        },
        IndicatorType::tema => {
            assert(all_ascii("tema"@));
            assert("tema"@.map_values(|c: char| ascii_lower(c)) =~= "tema"@);
        },
        IndicatorType::williams => {
            assert(all_ascii("williams"@));
            assert("williams"@.map_values(|c: char| ascii_lower(c)) =~= "williams"@);
        },
        IndicatorType::rsi => {
            assert(all_ascii("rsi"@));
            assert("rsi"@.map_values(|c: char| ascii_lower(c)) =~= "rsi"@);
        },
        IndicatorType::adx => {
            assert(all_ascii("adx"@));
            assert("adx"@.map_values(|c: char| ascii_lower(c)) =~= "adx"@);
        },
        IndicatorType::standardDeviation => {},
    }
}

/// Looking up an ASCII indicator name ignores case: the name and its lower-cased
/// form (ASCII too) stand for the same value, and `from_str` gives the same
/// answer for both.
pub proof fn indicatortype_parse_ignores_case(s: Seq<char>)
    requires
        all_ascii(s),
    ensures
        all_ascii(ascii_lowered(s)),
        indicatortype_from_lower(ascii_lowered(ascii_lowered(s))) == indicatortype_from_lower(ascii_lowered(s)),
{
    lemma_ascii_lowered_idempotent(s);
}

impl IndicatorType {
    pub fn as_str(&self) -> (r: &'static str)
        ensures
            r@ == indicatortype_text(*self),
    {
        match self {
            IndicatorType::sma => "sma",
            IndicatorType::ema => "ema",
            IndicatorType::wma => "wma",
            IndicatorType::dema => "dema",
            IndicatorType::tema => "tema",
            IndicatorType::williams => "williams",
            IndicatorType::rsi => "rsi",
            IndicatorType::adx => "adx",
            IndicatorType::standardDeviation => "standardDeviation",
        }
    }

    /// Looks up a name that is already lower case.
    pub fn from_lowercase(s: &str) -> (r: Option<IndicatorType>)
        ensures
            r == indicatortype_from_lower(s@),
    {
        if str_eq(s, "sma") {
            Some(IndicatorType::sma)
        } else if str_eq(s, "ema") {
            Some(IndicatorType::ema)
        } else if str_eq(s, "wma") {
            Some(IndicatorType::wma)
        } else if str_eq(s, "dema") {
            Some(IndicatorType::dema)
        } else if str_eq(s, "tema") {
            Some(IndicatorType::tema)
        } else if str_eq(s, "williams") {
            Some(IndicatorType::williams)
        } else if str_eq(s, "rsi") {
            Some(IndicatorType::rsi)
        } else if str_eq(s, "adx") {
            Some(IndicatorType::adx)
        } else if str_eq(s, "standardDeviation") {
            Some(IndicatorType::standardDeviation)
        } else {
            None
        }
    }

    /// Lower-cases `s` (Unicode lower-casing) and looks the result up.
    pub fn from_str(s: &str) -> (r: Option<IndicatorType>)
        ensures
            r == indicatortype_from_lower(unicode_lowercase(s@)),
            all_ascii(s@) ==> r == indicatortype_from_lower(ascii_lowered(s@)),
            forall|t: IndicatorType|
                #![trigger indicatortype_text(t)]
                s@ == indicatortype_text(t) && t != IndicatorType::standardDeviation ==> r == Some(t),
    {
        let lower = to_lowercase(s);
        proof {
            assert forall|t: IndicatorType|
                #![trigger indicatortype_text(t)]
                s@ == indicatortype_text(t) && t != IndicatorType::standardDeviation implies indicatortype_from_lower(unicode_lowercase(s@)) == Some(t) by {
                indicatortype_name_round_trip(t);
            }
        }
        IndicatorType::from_lowercase(lower.as_str())
    }

    /// The text that `Display` writes: the API name.
    pub fn to_string(&self) -> (r: String)
        ensures
            r@ == indicatortype_text(*self),
    {
        self.as_str().to_owned()
    }
}

//-----------------------EconomicIndicatorType---------------------------------------

/// An economic indicator series.
#[allow(non_camel_case_types)]
#[derive(Debug, Clone, Copy, PartialEq, Eq, Structural)]
pub enum EconomicIndicatorType {
    GDP,
    realGDP,
    nominalPotentialGDP,
    realGDPPerCapita,
    federalFunds,
    CPI,
    inflationRate,
    inflation,
    retailSales,
    consumerSentiment,
    durableGoods,
    unemploymentRate,
}

/// The API name of each EconomicIndicatorType value.
pub open spec fn economicindicatortype_text(t: EconomicIndicatorType) -> Seq<char> {
    match t {
        EconomicIndicatorType::GDP => "GDP"@,
        EconomicIndicatorType::realGDP => "realGDP"@,
        EconomicIndicatorType::nominalPotentialGDP => "nominalPotentialGDP"@,
        EconomicIndicatorType::realGDPPerCapita => "realGDPPerCapita"@,
        EconomicIndicatorType::federalFunds => "federalFunds"@,
        EconomicIndicatorType::CPI => "CPI"@,
        EconomicIndicatorType::inflationRate => "inflationRate"@,
        EconomicIndicatorType::inflation => "inflation"@,
        EconomicIndicatorType::retailSales => "retailSales"@,
        EconomicIndicatorType::consumerSentiment => "consumerSentiment"@,
        EconomicIndicatorType::durableGoods => "durableGoods"@,
        EconomicIndicatorType::unemploymentRate => "unemploymentRate"@,
    }
}

/// The value that an already lower-cased name stands for.
pub open spec fn economicindicatortype_from_lower(s: Seq<char>) -> Option<EconomicIndicatorType> {
    if s == "gdp"@ {
        Some(EconomicIndicatorType::GDP)
    } else if s == "realgdp"@ {
        Some(EconomicIndicatorType::realGDP)
    } else if s == "nominalpotentialgdp"@ {
        Some(EconomicIndicatorType::nominalPotentialGDP)
    } else if s == "realgdpcapita"@ {
        Some(EconomicIndicatorType::realGDPPerCapita)
    } else if s == "federalfunds"@ {
        Some(EconomicIndicatorType::federalFunds)
    } else if s == "cpi"@ {
        Some(EconomicIndicatorType::CPI)
    } else if s == "inflationrate"@ {
        Some(EconomicIndicatorType::inflationRate)
    } else if s == "inflation"@ {
        Some(EconomicIndicatorType::inflation)
    } else if s == "retailsales"@ {
        Some(EconomicIndicatorType::retailSales)
    } else if s == "consumersentiment"@ {
        Some(EconomicIndicatorType::consumerSentiment)
    } else if s == "durablegoods"@ {
        Some(EconomicIndicatorType::durableGoods)
    } else if s == "unemploymentrate"@ {
        Some(EconomicIndicatorType::unemploymentRate)
    } else {
        None
    }
}

/// Lower-casing the API name of a value and looking it up gives the value
/// back, for every value but those listed in the `requires`.
pub proof fn economicindicatortype_name_round_trip(t: EconomicIndicatorType)
    requires
        t != EconomicIndicatorType::realGDPPerCapita,
    ensures
        all_ascii(economicindicatortype_text(t)),
        economicindicatortype_from_lower(economicindicatortype_text(t).map_values(|c: char| ascii_lower(c))) == Some(t),
{
    reveal_strlit("GDP");
    reveal_strlit("realGDP");
    reveal_strlit("nominalPotentialGDP");
    reveal_strlit("realGDPPerCapita");
    reveal_strlit("federalFunds");
    reveal_strlit("CPI");
    reveal_strlit("inflationRate");
    reveal_strlit("inflation");
    reveal_strlit("retailSales");
    reveal_strlit("consumerSentiment");
    reveal_strlit("durableGoods");
    reveal_strlit("unemploymentRate");
    reveal_strlit("gdp");
    reveal_strlit("realgdp");
    reveal_strlit("nominalpotentialgdp");
    reveal_strlit("realgdpcapita");
    reveal_strlit("federalfunds");
    reveal_strlit("cpi");
    reveal_strlit("inflationrate");
    reveal_strlit("retailsales");
    reveal_strlit("consumersentiment");
    reveal_strlit("durablegoods");
    reveal_strlit("unemploymentrate");
    assert("gdp"@[0] == 'g');
    assert("realgdp"@[0] == 'r');
    assert("nominalpotentialgdp"@[0] == 'n');
    assert("realgdpcapita"@[0] == 'r');
    assert("federalfunds"@[0] == 'f');
    assert("cpi"@[0] == 'c');
    assert("inflationrate"@[0] == 'i');
    assert("inflation"@[0] == 'i');
    assert("retailsales"@[0] == 'r');
    assert("consumersentiment"@[0] == 'c');
    assert("durablegoods"@[0] == 'd');
    assert("unemploymentrate"@[0] == 'u');
    match t {
        EconomicIndicatorType::GDP => {
            assert(all_ascii("GDP"@));
            assert("GDP"@.map_values(|c: char| ascii_lower(c)) =~= "gdp"@);
        },
        EconomicIndicatorType::realGDP => {
            assert(all_ascii("realGDP"@));
            assert("realGDP"@.map_values(|c: char| ascii_lower(c)) =~= "realgdp"@);
        },
        EconomicIndicatorType::nominalPotentialGDP => {
            assert(all_ascii("nominalPotentialGDP"@));
            assert("nominalPotentialGDP"@.map_values(|c: char| ascii_lower(c)) =~= "nominalpotentialgdp"@);
        },
        EconomicIndicatorType::realGDPPerCapita => {},
        EconomicIndicatorType::federalFunds => {
            assert(all_ascii("federalFunds"@));
            assert("federalFunds"@.map_values(|c: char| ascii_lower(c)) =~= "federalfunds"@);
        },
        EconomicIndicatorType::CPI => {
            assert(all_ascii("CPI"@));
            assert("CPI"@.map_values(|c: char| ascii_lower(c)) =~= "cpi"@);
        },
        EconomicIndicatorType::inflationRate => {
            assert(all_ascii("inflationRate"@));
            assert("inflationRate"@.map_values(|c: char| ascii_lower(c)) =~= "inflationrate"@);
        },
        EconomicIndicatorType::inflation => {
            assert(all_ascii("inflation"@));
            assert("inflation"@.map_values(|c: char| ascii_lower(c)) =~= "inflation"@);
        },
        EconomicIndicatorType::retailSales => {
            assert(all_ascii("retailSales"@));
            assert("retailSales"@.map_values(|c: char| ascii_lower(c)) =~= "retailsales"@);
        },
        EconomicIndicatorType::consumerSentiment => {
            assert(all_ascii("consumerSentiment"@));
            assert("consumerSentiment"@.map_values(|c: char| ascii_lower(c)) =~= "consumersentiment"@);
        },
        EconomicIndicatorType::durableGoods => {
            assert(all_ascii("durableGoods"@));
            assert("durableGoods"@.map_values(|c: char| ascii_lower(c)) =~= "durablegoods"@);
        },
        EconomicIndicatorType::unemploymentRate => {
            assert(all_ascii("unemploymentRate"@));
            assert("unemploymentRate"@.map_values(|c: char| ascii_lower(c)) =~= "unemploymentrate"@);
        },
    }
}

/// Looking up an ASCII economic indicator name ignores case: the name and its lower-cased
/// form (ASCII too) stand for the same value, and `from_str` gives the same
/// answer for both.
pub proof fn economicindicatortype_parse_ignores_case(s: Seq<char>)
    requires
        all_ascii(s),
    ensures
        all_ascii(ascii_lowered(s)),
        economicindicatortype_from_lower(ascii_lowered(ascii_lowered(s))) == economicindicatortype_from_lower(ascii_lowered(s)),
{
    lemma_ascii_lowered_idempotent(s);
}

impl EconomicIndicatorType {
    pub fn as_str(&self) -> (r: &'static str)
        ensures
            r@ == economicindicatortype_text(*self),
    {
        match self {
            EconomicIndicatorType::GDP => "GDP",
            EconomicIndicatorType::realGDP => "realGDP",
            EconomicIndicatorType::nominalPotentialGDP => "nominalPotentialGDP",
            EconomicIndicatorType::realGDPPerCapita => "realGDPPerCapita",
            EconomicIndicatorType::federalFunds => "federalFunds",
            EconomicIndicatorType::CPI => "CPI",
            EconomicIndicatorType::inflationRate => "inflationRate",
            EconomicIndicatorType::inflation => "inflation",
            EconomicIndicatorType::retailSales => "retailSales",
            EconomicIndicatorType::consumerSentiment => "consumerSentiment",
            EconomicIndicatorType::durableGoods => "durableGoods",
            EconomicIndicatorType::unemploymentRate => "unemploymentRate",
        }
    }

    /// Looks up a name that is already lower case.
    pub fn from_lowercase(s: &str) -> (r: Option<EconomicIndicatorType>)
        ensures
            r == economicindicatortype_from_lower(s@),
    {
        if str_eq(s, "gdp") {
            Some(EconomicIndicatorType::GDP)
        } else if str_eq(s, "realgdp") {
            Some(EconomicIndicatorType::realGDP)
        } else if str_eq(s, "nominalpotentialgdp") {
            Some(EconomicIndicatorType::nominalPotentialGDP)
        } else if str_eq(s, "realgdpcapita") {
            Some(EconomicIndicatorType::realGDPPerCapita)
        } else if str_eq(s, "federalfunds") {
            Some(EconomicIndicatorType::federalFunds)
        } else if str_eq(s, "cpi") {
            Some(EconomicIndicatorType::CPI)
        } else if str_eq(s, "inflationrate") {
            Some(EconomicIndicatorType::inflationRate)
        } else if str_eq(s, "inflation") {
            Some(EconomicIndicatorType::inflation)
        } else if str_eq(s, "retailsales") {
            Some(EconomicIndicatorType::retailSales)
        } else if str_eq(s, "consumersentiment") {
            Some(EconomicIndicatorType::consumerSentiment)
        } else if str_eq(s, "durablegoods") {
            Some(EconomicIndicatorType::durableGoods)
        } else if str_eq(s, "unemploymentrate") {
            Some(EconomicIndicatorType::unemploymentRate)
        } else {
            None
        }
    }

    /// Lower-cases `s` (Unicode lower-casing) and looks the result up.
    pub fn from_str(s: &str) -> (r: Option<EconomicIndicatorType>)
        ensures
            r == economicindicatortype_from_lower(unicode_lowercase(s@)),
            all_ascii(s@) ==> r == economicindicatortype_from_lower(ascii_lowered(s@)),
            forall|t: EconomicIndicatorType|
                #![trigger economicindicatortype_text(t)]
                s@ == economicindicatortype_text(t) && t != EconomicIndicatorType::realGDPPerCapita ==> r == Some(t),
    {
        let lower = to_lowercase(s);
        proof {
            assert forall|t: EconomicIndicatorType|
                #![trigger economicindicatortype_text(t)]
                s@ == economicindicatortype_text(t) && t != EconomicIndicatorType::realGDPPerCapita implies economicindicatortype_from_lower(unicode_lowercase(s@)) == Some(t) by {
                economicindicatortype_name_round_trip(t);
            }
        }
        EconomicIndicatorType::from_lowercase(lower.as_str())
    }

    /// The text that `Display` writes: the API name.
    pub fn to_string(&self) -> (r: String)
        ensures
            r@ == economicindicatortype_text(*self),
    {
        self.as_str().to_owned()
    }
}

//-----------------------EconomicData------------------------------------------------

/// A family of economic data.
#[derive(Debug, Clone, Copy, PartialEq, Eq, Structural)]
pub enum EconomicData {
    Treasury,
    Indicator,
    RiskPremium,
}

/// The API name of each EconomicData value.
pub open spec fn economicdata_text(t: EconomicData) -> Seq<char> {
    match t {
        EconomicData::Treasury => "treasury"@,
        EconomicData::Indicator => "indicator"@,
        EconomicData::RiskPremium => "riskPremium"@,
    }
}

/// The value that an already lower-cased name stands for.
pub open spec fn economicdata_from_lower(s: Seq<char>) -> Option<EconomicData> {
    if s == "treasury"@ {
        Some(EconomicData::Treasury)
    } else if s == "indicator"@ {
        Some(EconomicData::Indicator)
    } else if s == "riskpremium"@ {
        Some(EconomicData::RiskPremium)
    } else {
        None
    }
}

/// Lower-casing the API name of a value and looking it up gives the value
/// back, for every value but those listed in the `requires`.
pub proof fn economicdata_name_round_trip(t: EconomicData)
    ensures
        all_ascii(economicdata_text(t)),
        economicdata_from_lower(economicdata_text(t).map_values(|c: char| ascii_lower(c))) == Some(t),
{
    reveal_strlit("treasury");
    reveal_strlit("indicator");
    reveal_strlit("riskPremium");
    reveal_strlit("riskpremium");
    assert("treasury"@[0] == 't');
    assert("indicator"@[0] == 'i');
    assert("riskpremium"@[0] == 'r');
    match t {
        EconomicData::Treasury => {
            assert(all_ascii("treasury"@));
            assert("treasury"@.map_values(|c: char| ascii_lower(c)) =~= "treasury"@);
        },
        EconomicData::Indicator => {
            assert(all_ascii("indicator"@));
            assert("indicator"@.map_values(|c: char| ascii_lower(c)) =~= "indicator"@);
        },
        EconomicData::RiskPremium => {
            assert(all_ascii("riskPremium"@));
            assert("riskPremium"@.map_values(|c: char| ascii_lower(c)) =~= "riskpremium"@);
        },
    }
}

/// Looking up an ASCII economic data name ignores case: the name and its lower-cased
/// form (ASCII too) stand for the same value, and `from_str` gives the same
/// answer for both.
pub proof fn economicdata_parse_ignores_case(s: Seq<char>)
    requires
        all_ascii(s),
    ensures
        all_ascii(ascii_lowered(s)),
        economicdata_from_lower(ascii_lowered(ascii_lowered(s))) == economicdata_from_lower(ascii_lowered(s)),
{
    lemma_ascii_lowered_idempotent(s);
}

impl EconomicData {
    pub fn as_str(&self) -> (r: &'static str)
        ensures
            r@ == economicdata_text(*self),
    {
        match self {
            EconomicData::Treasury => "treasury",
            EconomicData::Indicator => "indicator",
            EconomicData::RiskPremium => "riskPremium",
        }
    }

    /// Looks up a name that is already lower case.
    pub fn from_lowercase(s: &str) -> (r: Option<EconomicData>)
        ensures
            r == economicdata_from_lower(s@),
    {
        if str_eq(s, "treasury") {
            Some(EconomicData::Treasury)
        } else if str_eq(s, "indicator") {
            Some(EconomicData::Indicator)
        } else if str_eq(s, "riskpremium") {
            Some(EconomicData::RiskPremium)
        } else {
            None
        }
    }

    /// Lower-cases `s` (Unicode lower-casing) and looks the result up.
    pub fn from_str(s: &str) -> (r: Option<EconomicData>)
        ensures
            r == economicdata_from_lower(unicode_lowercase(s@)),
            all_ascii(s@) ==> r == economicdata_from_lower(ascii_lowered(s@)),
            forall|t: EconomicData|
                #![trigger economicdata_text(t)]
                s@ == economicdata_text(t) ==> r == Some(t),
    {
        let lower = to_lowercase(s);
        proof {
            assert forall|t: EconomicData|
                #![trigger economicdata_text(t)]
                s@ == economicdata_text(t) implies economicdata_from_lower(unicode_lowercase(s@)) == Some(t) by {
                economicdata_name_round_trip(t);
            }
        }
        EconomicData::from_lowercase(lower.as_str())
    }

    /// The text that `Display` writes: the API name.
    pub fn to_string(&self) -> (r: String)
        ensures
            r@ == economicdata_text(*self),
    {
        self.as_str().to_owned()
    }
}

//-----------------------Debug texts of date-times-----------------------------

/// What `Debug` writes for an optional string.
pub open spec fn opt_debug(o: Option<Seq<char>>) -> Seq<char> {
    match o {
        Some(s) => "Some("@ + debug_text(s) + ")"@,
        None => "None"@,
    }
}

/// What the derived `Debug` writes for a date-time.
pub open spec fn date_time_debug(d: DateTimeView) -> Seq<char> {
    "DateTime { year: "@ + debug_text(d.year) + ", month: "@ + debug_text(d.month) + ", day: "@
        + debug_text(d.day) + ", hour: "@ + opt_debug(d.hour) + ", minute: "@ + opt_debug(d.minute)
        + ", second: "@ + opt_debug(d.second) + ", millisecond: "@ + opt_debug(d.millisecond)
        + " }"@
}

/// What `Debug` writes for an optional date-time.
pub open spec fn opt_date_time_debug(o: Option<DateTimeView>) -> Seq<char> {
    match o {
        Some(d) => "Some("@ + date_time_debug(d) + ")"@,
        None => "None"@,
    }
}

pub open spec fn opt_date_time_view(o: Option<DateTime>) -> Option<DateTimeView> {
    match o {
        Some(d) => Some(d@),
        None => None,
    }
}

/// `format!("{:?}", o)` for an optional string.
pub fn opt_debug_string(o: &Option<String>) -> (r: String)
    ensures
        r@ == opt_debug(opt_view(*o)),
{
    match o {
        Some(s) => {
            let mut r = "Some(".to_owned();
            r.append(debug_str(s.as_str()).as_str());
            r.append(")");
            r
        },
        None => "None".to_owned(),
    }
}

impl DateTime {
    /// The text that the derived `Debug` writes.
    pub fn debug_string(&self) -> (r: String)
        ensures
            r@ == date_time_debug(self@),
    {
        let mut r = "DateTime { year: ".to_owned();
        r.append(debug_str(self.year.as_str()).as_str());
        r.append(", month: ");
        r.append(debug_str(self.month.as_str()).as_str());
        r.append(", day: ");
        r.append(debug_str(self.day.as_str()).as_str());
        r.append(", hour: ");
        r.append(opt_debug_string(&self.hour).as_str());
        r.append(", minute: ");
        r.append(opt_debug_string(&self.minute).as_str());
        r.append(", second: ");
        r.append(opt_debug_string(&self.second).as_str());
        r.append(", millisecond: ");
        r.append(opt_debug_string(&self.millisecond).as_str());
        r.append(" }");
        r
    }
}

/// `format!("{:?}", o)` for an optional date-time.
pub fn opt_date_time_debug_string(o: &Option<DateTime>) -> (r: String)
    ensures
        r@ == opt_date_time_debug(opt_date_time_view(*o)),
{
    match o {
        Some(d) => {
            let mut r = "Some(".to_owned();
            r.append(d.debug_string().as_str());
            r.append(")");
            r
        },
        None => "None".to_owned(),
    }
}

/// The text that the derived `Debug` writes for a fetch type: the variant's name.
pub open spec fn fetch_type_debug(t: FetchType) -> Seq<char> {
    match t {
        FetchType::Unknownn => "Unknownn"@,
        FetchType::Quote => "Quote"@,
        FetchType::Financial => "Financial"@,
        FetchType::Profile => "Profile"@,
        FetchType::Rating => "Rating"@,
        FetchType::Outlook => "Outlook"@,
        FetchType::History => "History"@,
        FetchType::DividendHistory => "DividendHistory"@,
        FetchType::SplitHistory => "SplitHistory"@,
        FetchType::IntraDay => "IntraDay"@,
        FetchType::Daily => "Daily"@,
        FetchType::Gainers => "Gainers"@,
        FetchType::Losers => "Losers"@,
        FetchType::Actives => "Actives"@,
        FetchType::Performance => "Performance"@,
        FetchType::SectorHistorical => "SectorHistorical"@,
        FetchType::IndustryPERatio => "IndustryPERatio"@,
        FetchType::SectorPERatio => "SectorPERatio"@,
        FetchType::TechnicalIndicator => "TechnicalIndicator"@,
        FetchType::TreasuryRate => "TreasuryRate"@,
        FetchType::MarketIndicator => "MarketIndicator"@,
        FetchType::MarketRiskPremium => "MarketRiskPremium"@,
        FetchType::MarketCalendar => "MarketCalendar"@,
    }
}

impl FetchType {
    /// The text that the derived `Debug` writes.
    pub fn debug_string(&self) -> (r: String)
        ensures
            r@ == fetch_type_debug(*self),
    {
        let s: &str = match self {
            FetchType::Unknownn => "Unknownn",
            FetchType::Quote => "Quote",
            FetchType::Financial => "Financial",
            FetchType::Profile => "Profile",
            FetchType::Rating => "Rating",
            FetchType::Outlook => "Outlook",
            FetchType::History => "History",
            FetchType::DividendHistory => "DividendHistory",
            FetchType::SplitHistory => "SplitHistory",
            FetchType::IntraDay => "IntraDay",
            FetchType::Daily => "Daily",
            FetchType::Gainers => "Gainers",
            FetchType::Losers => "Losers",
            FetchType::Actives => "Actives",
            FetchType::Performance => "Performance",
            FetchType::SectorHistorical => "SectorHistorical",
            FetchType::IndustryPERatio => "IndustryPERatio",
            FetchType::SectorPERatio => "SectorPERatio",
            FetchType::TechnicalIndicator => "TechnicalIndicator",
            FetchType::TreasuryRate => "TreasuryRate",
            FetchType::MarketIndicator => "MarketIndicator",
            FetchType::MarketRiskPremium => "MarketRiskPremium",
            FetchType::MarketCalendar => "MarketCalendar",
        };
        s.to_owned()
    }
}

//-----------------------Optional date arguments-------------------------------

/// Whether an optional date text parses (an unparsable one is a panic on the
/// request paths that read dates).
pub open spec fn date_ok(o: Option<Seq<char>>) -> bool {
    o matches Some(s) ==> date_time_parse(s) is Some
}

/// The `to_string` text of the date-time an optional text parses to.
pub open spec fn reprinted(o: Option<Seq<char>>) -> Option<Seq<char>> {
    match o {
        Some(s) => match date_time_parse(s) {
            Some(d) => Some(date_time_text(d)),
            None => None,
        },
        None => None,
    }
}

/// `DateTime::from_str(s).unwrap().to_string()` of an optional date text.
pub fn reprint(o: &Option<String>) -> (r: Option<String>)
    requires
        date_ok(opt_view(*o)),
    ensures
        opt_view(r) == reprinted(opt_view(*o)),
{
    match o {
        Some(s) => match DateTime::from_str(s.as_str()) {
            Ok(d) => Some(d.to_string()),
            Err(_) => None,
        },
        None => None,
    }
}

} // verus!

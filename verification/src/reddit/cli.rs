//! Command-line settings of the wallpaper downloader and what follows from them.

use vstd::prelude::*;
use vstd::string::*;
use crate::text::{decimal, to_decimal};

verus! {

/// The period the top listing covers.
#[derive(Clone, Copy, Debug, PartialEq, Eq, PartialOrd, Ord)]
pub enum Time {
    Hour,
    Day,
    Week,
    Month,
    Year,
    All,
}

/// The name of a period, as the listing's `t` parameter takes it.
pub open spec fn time_name(t: Time) -> Seq<char> {
    match t {
        Time::Hour => "hour"@,
        Time::Day => "day"@,
        Time::Week => "week"@,
        Time::Month => "month"@,
        Time::Year => "year"@,
        Time::All => "all"@,
    }
}

impl Time {
    /// The name of the period.
    pub fn name(&self) -> (name: &'static str)
        ensures
            name@ == time_name(*self),
    {
        match self {
            Time::Hour => "hour",
            Time::Day => "day",
            Time::Week => "week",
            Time::Month => "month",
            Time::Year => "year",
            Time::All => "all",
        }
    }
}

/// Where the wallpapers go, how much to log, how many to ask for, and over which period.
pub struct Cli {
    pub output: Option<String>,
    pub debug: u8,
    pub limit: Option<u8>,
    pub t: Option<Time>,
}

/// The directory under the home directory that wallpapers go to when none is given.
pub const DEFAULT_OUTPUT: &'static str = "Pictures/Wallpapers";

/// How much is logged.
#[derive(Clone, Copy, Debug, PartialEq, Eq)]
pub enum Verbosity {
    Error,
    Warn,
    Info,
    Debug,
    Trace,
}

/// The verbosity that `debug` repetitions of the debug flag ask for: errors only up to one,
/// then warnings, information, debugging and tracing, and errors only again beyond five.
pub open spec fn verbosity_for(debug: u8) -> Verbosity {
    if debug == 2 {
        Verbosity::Warn
    } else if debug == 3 {
        Verbosity::Info
    } else if debug == 4 {
        Verbosity::Debug
    } else if debug == 5 {
        Verbosity::Trace
    } else {
        Verbosity::Error
    }
}

/// Each period goes by its own lower-case English name, and no two periods share one.
pub proof fn law_time_names(t: Time, u: Time)
    ensures
        t == Time::Hour ==> time_name(t) == seq!['h', 'o', 'u', 'r'],
        t == Time::Day ==> time_name(t) == seq!['d', 'a', 'y'],
        t == Time::Week ==> time_name(t) == seq!['w', 'e', 'e', 'k'],
        t == Time::Month ==> time_name(t) == seq!['m', 'o', 'n', 't', 'h'],
        t == Time::Year ==> time_name(t) == seq!['y', 'e', 'a', 'r'],
        t == Time::All ==> time_name(t) == seq!['a', 'l', 'l'],
        t != u ==> time_name(t) != time_name(u),
{
    reveal_strlit("hour");
    reveal_strlit("day");
    reveal_strlit("week");
    reveal_strlit("month");
    reveal_strlit("year");
    reveal_strlit("all");
    if t != u && time_name(t) == time_name(u) {
        assert(time_name(t).len() == time_name(u).len());
        assert(time_name(t)[0] == time_name(u)[0]);
        assert(time_name(t)[1] == time_name(u)[1]);
    }
}

/// Each further debug flag, from the second to the fifth, logs one level more; none, one, or more
/// than five log errors only.
pub proof fn law_verbosity_levels(debug: u8)
    ensures
        debug <= 1 || debug > 5 ==> verbosity_for(debug) == Verbosity::Error,
        debug == 2 ==> verbosity_for(debug) == Verbosity::Warn,
        debug == 3 ==> verbosity_for(debug) == Verbosity::Info,
        debug == 4 ==> verbosity_for(debug) == Verbosity::Debug,
        debug == 5 ==> verbosity_for(debug) == Verbosity::Trace,
{
}

/// The verbosity for a count of debug flags.
pub fn verbosity(debug: u8) -> (v: Verbosity)
    ensures
        v == verbosity_for(debug),
{
    match debug {
        1 => Verbosity::Error,
        2 => Verbosity::Warn,
        3 => Verbosity::Info,
        4 => Verbosity::Debug,
        5 => Verbosity::Trace,
        _ => Verbosity::Error,
    }
}

/// The output directory: the one given, else the default.
pub fn output_dir(output: &Option<String>) -> (dir: String)
    ensures
        dir@ == match output {
            Some(o) => o@,
            None => DEFAULT_OUTPUT@,
        },
{
    match output {
        Some(o) => o.clone(),
        None => DEFAULT_OUTPUT.to_owned(),
    }
}

/// The query of the listing request: the limit if one is given, then the period if one is given.
pub open spec fn query_pairs(limit: Option<u8>, t: Option<Time>) -> Seq<(Seq<char>, Seq<char>)> {
    let l = match limit {
        Some(n) => seq![("limit"@, decimal(n as nat))],
        None => Seq::empty(),
    };
    let p = match t {
        Some(t) => seq![("t"@, time_name(t))],
        None => Seq::empty(),
    };
    l + p
}

/// The view of a query as pairs of texts.
pub open spec fn query_view(q: Seq<(String, String)>) -> Seq<(Seq<char>, Seq<char>)> {
    q.map_values(|p: (String, String)| (p.0@, p.1@))
}

/// The query holds one pair per option given: the limit first, as `limit` and its decimal
/// numeral, then the period, as `t` and the period's own name.
pub proof fn law_query_pairs(limit: Option<u8>, t: Option<Time>)
    ensures
        query_pairs(limit, t).len() == (if limit is Some { 1int } else { 0 }) + (if t is Some {
            1int
        } else {
            0
        }),
        limit matches Some(n) ==> query_pairs(limit, t)[0] == (seq!['l', 'i', 'm', 'i', 't'],
        decimal(n as nat)),
        t matches Some(p) ==> query_pairs(limit, t).last() == (seq!['t'], time_name(p)),
{
    reveal_strlit("limit");
    reveal_strlit("t");
}

/// The query parameters of the listing request.
pub fn top_query(limit: Option<u8>, t: Option<Time>) -> (q: Vec<(String, String)>)
    ensures
        query_view(q@) == query_pairs(limit, t),
{
    let mut q: Vec<(String, String)> = Vec::new();
    if let Some(n) = limit {
        q.push(("limit".to_owned(), to_decimal(n as u64)));
    }
    if let Some(t) = t {
        q.push(("t".to_owned(), t.name().to_owned()));
    }
    assert(query_view(q@) =~= query_pairs(limit, t));
    q
}

} // verus!

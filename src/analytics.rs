use vstd::prelude::*;
use vstd::string::StringExecFns;
use crate::text::{chars_of, contains_chars, contains_seq};

verus! {

/// Period of a statistics query.
#[derive(Debug, Clone, Copy, PartialEq, Eq, Structural)]
pub enum Period {
    Hour1,
    Hours24,
    Days7,
    Days30,
    Days90,
    All,
}

/// The length of a period in seconds; `All` has none.
pub open spec fn period_seconds(p: Period) -> Option<i64> {
    match p {
        Period::Hour1 => Some(3600),
        Period::Hours24 => Some(86400),
        Period::Days7 => Some(604800),
        Period::Days30 => Some(2592000),
        Period::Days90 => Some(7776000),
        Period::All => None,
    }
}

/// The display name of a period.
pub open spec fn period_name(p: Period) -> Seq<char> {
    match p {
        Period::Hour1 => "1h"@,
        Period::Hours24 => "24h"@,
        Period::Days7 => "7d"@,
        Period::Days30 => "30d"@,
        Period::Days90 => "90d"@,
        Period::All => "all"@,
    }
}

impl Period {
    /// The default period.
    pub fn default_period() -> (r: Period)
        ensures
            r == Period::Hours24,
    {
        Period::Hours24
    }

    /// The number of seconds of this period.
    pub fn seconds(&self) -> (r: Option<i64>)
        ensures
            r == period_seconds(*self),
    {
        match self {
            Period::Hour1 => Some(3600),
            Period::Hours24 => Some(86400),
            Period::Days7 => Some(604800),
            Period::Days30 => Some(2592000),
            Period::Days90 => Some(7776000),
            Period::All => None,
        }
    }

    /// The display name.
    pub fn as_str(&self) -> (r: &'static str)
        ensures
            r@ == period_name(*self),
    {
        proof {
            reveal_strlit("1h");
            reveal_strlit("24h");
            reveal_strlit("7d");
            reveal_strlit("30d");
            reveal_strlit("90d");
            reveal_strlit("all");
        }
        match self {
            Period::Hour1 => "1h",
            Period::Hours24 => "24h",
            Period::Days7 => "7d",
            Period::Days30 => "30d",
            Period::Days90 => "90d",
            Period::All => "all",
        }
    }
}

/// Bucket size of a time series.
#[derive(Debug, Clone, Copy, PartialEq, Eq, Structural)]
pub enum Granularity {
    Auto,
    Hour,
    Day,
    Week,
}

impl Granularity {
    pub fn as_str(&self) -> (r: &'static str)
        ensures
            r@ == (match *self {
                Granularity::Auto => "auto"@,
                Granularity::Hour => "hour"@,
                Granularity::Day => "day"@,
                Granularity::Week => "week"@,
            }),
    {
        proof {
            reveal_strlit("auto");
            reveal_strlit("hour");
            reveal_strlit("day");
            reveal_strlit("week");
        }
        match self {
            Granularity::Auto => "auto",
            Granularity::Hour => "hour",
            Granularity::Day => "day",
            Granularity::Week => "week",
        }
    }

    /// The bucket size for a range of `seconds`: hourly up to seven days,
    /// daily up to thirty days, weekly beyond.
    pub fn from_range(seconds: i64) -> (r: Granularity)
        ensures
            r == (if seconds <= 604800 {
                Granularity::Hour
            } else if seconds <= 2592000 {
                Granularity::Day
            } else {
                Granularity::Week
            }),
    {
        if seconds <= 86400 {
            Granularity::Hour
        } else if seconds <= 604800 {
            Granularity::Hour
        } else if seconds <= 2592000 {
            Granularity::Day
        } else {
            Granularity::Week
        }
    }
}

/// Outcome of a recorded workflow run.
#[derive(Debug, Clone, Copy, PartialEq, Eq, Structural)]
pub enum WorkflowStatus {
    Success,
    Error,
    Timeout,
}

impl WorkflowStatus {
    pub fn as_str(&self) -> (r: &'static str)
        ensures
            r@ == (match *self {
                WorkflowStatus::Success => "success"@,
                WorkflowStatus::Error => "error"@,
                WorkflowStatus::Timeout => "timeout"@,
            }),
    {
        proof {
            reveal_strlit("success");
            reveal_strlit("error");
            reveal_strlit("timeout");
        }
        match self {
            WorkflowStatus::Success => "success",
            WorkflowStatus::Error => "error",
            WorkflowStatus::Timeout => "timeout",
        }
    }
}

/// Health of a workflow, by its success rate.
#[derive(Debug, Clone, Copy, PartialEq, Eq, Structural)]
pub enum HealthStatus {
    Healthy,
    Degraded,
    Critical,
}

/// Answer of a recorded workflow run.
#[derive(Debug, Clone)]
pub struct RecordWorkflowResponse {
    pub id: i64,
    pub recorded_at: String,
}

/// The window of a period that ends at `now`: the whole past for `All`.
pub fn calculate_period_bounds(now: i64, period: Period) -> (r: (i64, i64))
    requires
        now >= i64::MIN + 7776000,
    ensures
        r == (match period_seconds(period) {
            Some(secs) => ((now - secs) as i64, now),
            None => (0i64, now),
        }),
{
    match period.seconds() {
        Some(secs) => (now - secs, now),
        None => (0, now),
    }
}

/// The window of the same length just before `[start, end)`.
pub fn calculate_previous_period_bounds(start: i64, end: i64) -> (r: (i64, i64))
    requires
        i64::MIN <= start as int - (end as int - start as int) <= i64::MAX,
        i64::MIN <= end as int - start as int <= i64::MAX,
    ensures
        r.0 as int == start as int - (end as int - start as int),
        r.1 == start,
{
    let duration = end - start;
    (start - duration, start)
}

/// A model family's display name: Opus or Sonnet with their version, Haiku,
/// or the model id itself.
pub open spec fn model_display_name_of(model: Seq<char>) -> Seq<char> {
    let v45 = contains_seq(model, "4-5"@) || contains_seq(model, "4.5"@);
    if contains_seq(model, "opus"@) {
        if v45 { "Opus 4.5"@ } else { "Opus 4"@ }
    } else if contains_seq(model, "sonnet"@) {
        if v45 { "Sonnet 4.5"@ } else { "Sonnet 4"@ }
    } else if contains_seq(model, "haiku"@) {
        "Haiku"@
    } else {
        model
    }
}

fn has(model: &Vec<char>, part: &str) -> (r: bool)
    ensures
        r == contains_seq(model@, part@),
{
    let p = chars_of(part);
    contains_chars(model, &p)
}

/// The display name of a model id.
pub fn model_display_name(model: &str) -> (r: String)
    ensures
        r@ == model_display_name_of(model@),
{
    let m = chars_of(model);
    let v45 = has(&m, "4-5") || has(&m, "4.5");
    if has(&m, "opus") {
        if v45 { String::from_str("Opus 4.5") } else { String::from_str("Opus 4") }
    } else if has(&m, "sonnet") {
        if v45 { String::from_str("Sonnet 4.5") } else { String::from_str("Sonnet 4") }
    } else if has(&m, "haiku") {
        String::from_str("Haiku")
    } else {
        model.to_string()
    }
}

} // verus!

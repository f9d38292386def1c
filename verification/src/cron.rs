//! Cron schedules.
//!
//! A contract says when it is due with a cron expression. Reading the
//! expression and finding the next time it matches is the `croner` crate's
//! work; this module gives that result a name, so that the contracts of the
//! scheduler can speak of it.

use vstd::prelude::*;

verus! {

/// The first time after `after` that the cron expression `expr` matches, as
/// `croner` computes it in UTC; `None` where the expression does not parse or
/// no such time is found. Times are milliseconds since the Unix epoch.
pub uninterp spec fn cron_next_after(expr: Seq<char>, after: i64) -> Option<i64>;

/// `croner::Cron::from_str` followed by `Cron::find_next_occurrence` with
/// `inclusive` off, on the UTC time that `after` stands for: the result
/// depends on the expression and the time alone.
#[verifier::external_body]
pub(crate) fn next_occurrence(expr: &str, after: i64) -> (r: Option<i64>)
    ensures
        r == cron_next_after(expr@, after),
{
    let cron = expr.parse::<croner::Cron>().ok()?;
    let start = chrono::DateTime::<chrono::Utc>::from_timestamp_millis(after)?;
    cron.find_next_occurrence(&start, false).ok().map(|t| t.timestamp_millis())
}

} // verus!

//! The wall clock.
//!
//! Points in time are counted in milliseconds since the Unix epoch. Every
//! decision in this crate takes the current time as an argument; the one
//! function here reads it.

use vstd::prelude::*;

verus! {

/// `chrono::Utc::now` followed by `DateTime::timestamp_millis`: the current
/// time. Nothing is claimed of the value. The call panics only on a machine
/// whose clock is set before 1970.
#[verifier::external_body]
pub(crate) fn now_millis() -> i64 {
    chrono::Utc::now().timestamp_millis()
}

/// The RFC 3339 text of a point in time, as `chrono` writes it in UTC;
/// `None` for a time that `chrono` cannot represent.
pub uninterp spec fn spec_rfc3339(millis: i64) -> Option<Seq<char>>;

/// `chrono::DateTime::from_timestamp_millis` followed by
/// `DateTime::to_rfc3339`: the text depends on the time alone.
#[verifier::external_body]
pub(crate) fn to_rfc3339(millis: i64) -> (r: Option<String>)
    ensures
        r.deep_view() == spec_rfc3339(millis),
{
    chrono::DateTime::<chrono::Utc>::from_timestamp_millis(millis).map(|t| t.to_rfc3339())
}

/// The text of a point in time, where `text` is what `chrono` made of it:
/// a time that it cannot represent is written as nothing.
pub open spec fn spec_time_text(text: Option<Seq<char>>) -> Seq<char> {
    match text {
        Some(t) => t,
        None => Seq::empty(),
    }
}

/// Writes a point in time as RFC 3339 text. A time beyond what the
/// calendar can represent is written as the empty text.
pub fn time_text(millis: i64) -> (r: String)
    ensures
        r@ == spec_time_text(spec_rfc3339(millis)),
{
    match to_rfc3339(millis) {
        Some(t) => t,
        None => String::new(),
    }
}

} // verus!

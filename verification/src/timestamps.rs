//! Timestamps as milliseconds since the Unix epoch.

use crate::json::{JsonValue, JsonView};
use crate::tokens::{saturated, saturating_product};
use vstd::prelude::*;

verus! {

/// The instant that `chrono::DateTime::parse_from_rfc3339` reads in a text, in milliseconds since
/// the Unix epoch; `None` where it reports an error.
pub uninterp spec fn rfc3339_instant(text: Seq<char>) -> Option<i64>;

/// Calls `chrono::DateTime::parse_from_rfc3339`, and `timestamp_millis` on what it reads. Claims
/// that the outcome depends on the text alone.
#[verifier::external_body]
fn rfc3339_millis(text: &str) -> (instant: Option<i64>)
    ensures
        instant == rfc3339_instant(text@),
{
    chrono::DateTime::parse_from_rfc3339(text).ok().map(|instant| instant.timestamp_millis())
}

/// The instant that `text` gives in RFC 3339.
pub fn parse_timestamp_str(text: &str) -> (instant: Option<i64>)
    ensures
        instant == rfc3339_instant(text@),
{
    rfc3339_millis(text)
}

/// From here on a bare number counts milliseconds; below, seconds.
pub const FIRST_MILLISECOND_COUNT: i64 = 1_000_000_000_000;

/// The instant that a bare number gives.
pub open spec fn epoch_instant(n: i64) -> i64 {
    if n >= FIRST_MILLISECOND_COUNT {
        n
    } else {
        saturated(n * 1000)
    }
}

/// The instant that a JSON value gives: a text in RFC 3339, or a number since the Unix epoch.
pub open spec fn instant_in(value: JsonView) -> Option<i64> {
    match value {
        JsonView::Text(text) => rfc3339_instant(text),
        JsonView::Number(Some(n)) => Some(epoch_instant(n)),
        _ => None,
    }
}

/// The instant that `value` gives.
pub fn parse_timestamp_value(value: &JsonValue) -> (instant: Option<i64>)
    ensures
        instant == instant_in(value@),
{
    match value {
        JsonValue::Text(text) => parse_timestamp_str(text.as_str()),
        JsonValue::Number(Some(n)) => if *n >= FIRST_MILLISECOND_COUNT {
            Some(*n)
        } else {
            Some(saturating_product(*n, 1000))
        },
        _ => None,
    }
}

} // verus!

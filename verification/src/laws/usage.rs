//! What the usage lines of headless runs tell, by the members of their JSON documents.

use crate::headless::{event_in, event_in_text};
use crate::json::{document_in, JsonValue, JsonView};
use crate::timestamps::{instant_in, rfc3339_instant};
use crate::tokens::TokenBreakdown;
use vstd::prelude::*;

verus! {

/// Specifications speak of all that a document holds: its items and its members in their order, with
/// their names.
pub proof fn documents_are_seen_whole(value: JsonValue, i: int)
    ensures
        value is Null ==> value@ is Null,
        value matches JsonValue::Bool(b) ==> value@ == JsonView::Bool(b),
        value matches JsonValue::Number(n) ==> value@ == JsonView::Number(n),
        value matches JsonValue::Text(text) ==> value@ == JsonView::Text(text@),
        value matches JsonValue::Array(items) ==> {
            &&& value@ is Array
            &&& value@->Array_0.len() == items@.len()
            &&& 0 <= i < items@.len() ==> value@->Array_0[i] == items@[i]@
        },
        value matches JsonValue::Object(members) ==> {
            &&& value@ is Object
            &&& value@->Object_0.len() == members@.len()
            &&& 0 <= i < members@.len() ==> value@->Object_0[i] == (members@[i].0@, members@[i].1@)
        },
{
}

/// An object gives the value of the first member of a name, and nothing for a name that no member
/// has; what is no object gives nothing.
pub proof fn members_are_found_by_name(
    members: Seq<(Seq<char>, JsonView)>,
    name: Seq<char>,
    other: JsonView,
    i: int,
)
    requires
        !(other is Object),
    ensures
        0 <= i < members.len() && members[i].0 == name && (forall|j: int|
            0 <= j < i ==> (#[trigger] members[j]).0 != name) ==> JsonView::Object(members).get(
            name,
        ) == Some(members[i].1),
        (forall|j: int| 0 <= j < members.len() ==> (#[trigger] members[j]).0 != name)
            ==> JsonView::Object(members).get(name) is None,
        other.get(name) is None,
    decreases members.len(),
{
    if members.len() > 0 {
        let rest = members.drop_first();
        members_are_found_by_name(rest, name, other, i - 1);
        assert(forall|j: int| 0 <= j < rest.len() ==> rest[j] == members[j + 1]);
        assert(rest.len() > 0 ==> JsonView::Object(rest).get(name) == crate::json::member(
            rest,
            name,
        ));
    }
}

/// `n` is the counter that `usage` holds under the first of three names that stands for an integer,
/// or zero.
pub open spec fn holds_counter(
    usage: JsonView,
    first: Seq<char>,
    second: Seq<char>,
    third: Seq<char>,
    n: i64,
) -> bool {
    match (usage.get(first), usage.get(second), usage.get(third)) {
        (Some(JsonView::Number(Some(k))), _, _) => n == k,
        (_, Some(JsonView::Number(Some(k))), _) => n == k,
        (_, _, Some(JsonView::Number(Some(k)))) => n == k,
        _ => n == 0,
    }
}

/// `usage` holds these counters.
pub open spec fn holds_counters(usage: JsonView, input: i64, output: i64, cached: i64) -> bool {
    &&& holds_counter(usage, "input_tokens"@, "prompt_tokens"@, "input"@, input)
    &&& holds_counter(usage, "output_tokens"@, "completion_tokens"@, "output"@, output)
    &&& holds_counter(
        usage,
        "cached_input_tokens"@,
        "cache_read_input_tokens"@,
        "cached_tokens"@,
        cached,
    )
}

/// `value` holds `usage`: as its own member, or else in its data, its result or its response.
pub open spec fn holds_usage(value: JsonView, usage: JsonView) -> bool {
    let data = value.get("data"@);
    let result = value.get("result"@);
    let response = value.get("response"@);
    let in_data = data is Some && data->0.get("usage"@) is Some;
    let in_result = result is Some && result->0.get("usage"@) is Some;
    let in_response = response is Some && response->0.get("usage"@) is Some;
    if value.get("usage"@) is Some {
        value.get("usage"@) == Some(usage)
    } else if in_data {
        data->0.get("usage"@) == Some(usage)
    } else if in_result {
        result->0.get("usage"@) == Some(usage)
    } else {
        in_response && response->0.get("usage"@) == Some(usage)
    }
}

/// `tokens` counts `input`, of which `cached` came from the cache, and `output`: what is left of the
/// input, the cached part and the output, none of them below zero.
pub open spec fn counts_apart(tokens: TokenBreakdown, input: i64, output: i64, cached: i64) -> bool {
    &&& input - cached <= 0 ==> tokens.input == 0
    &&& 0 < input - cached <= i64::MAX ==> tokens.input == input - cached
    &&& input - cached > i64::MAX ==> tokens.input == i64::MAX
    &&& output <= 0 ==> tokens.output == 0
    &&& output > 0 ==> tokens.output == output
    &&& cached <= 0 ==> tokens.cache_read == 0
    &&& cached > 0 ==> tokens.cache_read == cached
    &&& tokens.cache_write == 0
    &&& tokens.reasoning == 0
}

/// A line that holds usage is an event, unless all of its counters are zero, and counts the cached
/// input apart from the rest.
pub proof fn usage_is_counted_apart(
    value: JsonView,
    usage: JsonView,
    input: i64,
    output: i64,
    cached: i64,
    fallback_timestamp: i64,
)
    requires
        holds_usage(value, usage),
        holds_counters(usage, input, output, cached),
    ensures
        event_in(value, fallback_timestamp) is None <==> input == 0 && output == 0 && cached == 0,
        event_in(value, fallback_timestamp) matches Some(event) ==> counts_apart(
            event.tokens,
            input,
            output,
            cached,
        ),
{
}

/// Of the input that a line tells, the cached part is split off and nothing is lost: what is counted
/// adds up to what was told.
pub proof fn told_input_is_split_not_inflated(
    value: JsonView,
    usage: JsonView,
    input: i64,
    output: i64,
    cached: i64,
    fallback_timestamp: i64,
)
    requires
        holds_usage(value, usage),
        holds_counters(usage, input, output, cached),
        0 <= cached <= input,
        output >= 0,
    ensures
        event_in(value, fallback_timestamp) matches Some(event) ==> {
            &&& event.tokens.input + event.tokens.cache_read == input
            &&& event.tokens.cache_read == cached
            &&& event.tokens.output == output
            &&& event.tokens.cache_write == 0
            &&& event.tokens.reasoning == 0
        },
        event_in(value, fallback_timestamp) is None ==> input == 0 && output == 0,
{
}

/// A line that holds no usage is no event.
pub proof fn lines_without_usage_are_no_events(value: JsonView, fallback_timestamp: i64)
    requires
        value.get("usage"@) is None,
        value.get("data"@) matches Some(data) ==> data.get("usage"@) is None,
        value.get("result"@) matches Some(result) ==> result.get("usage"@) is None,
        value.get("response"@) matches Some(response) ==> response.get("usage"@) is None,
    ensures
        event_in(value, fallback_timestamp) is None,
{
}

/// The text under `name` in `value`.
pub open spec fn text_under(value: JsonView, name: Seq<char>) -> Option<Seq<char>> {
    match value.get(name) {
        Some(JsonView::Text(text)) => Some(text),
        _ => None,
    }
}

/// The text under `name` in what stands under `parent` in `value`.
pub open spec fn text_below(
    value: JsonView,
    parent: Seq<char>,
    name: Seq<char>,
) -> Option<Seq<char>> {
    match value.get(parent) {
        Some(inner) => text_under(inner, name),
        None => None,
    }
}

/// `model` is the first text of the places where a line names its model: itself, its data, its
/// response, and the data and the response of its data.
pub open spec fn is_model_of(value: JsonView, model: Option<Seq<char>>) -> bool {
    if text_under(value, "model"@) is Some {
        model == text_under(value, "model"@)
    } else if text_under(value, "model_name"@) is Some {
        model == text_under(value, "model_name"@)
    } else if text_below(value, "data"@, "model"@) is Some {
        model == text_below(value, "data"@, "model"@)
    } else if text_below(value, "data"@, "model_name"@) is Some {
        model == text_below(value, "data"@, "model_name"@)
    } else if text_below(value, "response"@, "model"@) is Some {
        model == text_below(value, "response"@, "model"@)
    } else {
        match value.get("data"@) {
            Some(data) => if text_below(data, "data"@, "model"@) is Some {
                model == text_below(data, "data"@, "model"@)
            } else if text_below(data, "data"@, "model_name"@) is Some {
                model == text_below(data, "data"@, "model_name"@)
            } else {
                model == text_below(data, "response"@, "model"@)
            },
            None => model is None,
        }
    }
}

/// An event has the model that its line names first.
pub proof fn events_have_the_model_named_first(
    value: JsonView,
    model: Option<Seq<char>>,
    fallback_timestamp: i64,
)
    requires
        is_model_of(value, model),
    ensures
        event_in(value, fallback_timestamp) matches Some(event) ==> event.model == model,
{
}

/// `instant` is what a value tells of a time: a text in RFC 3339, or a number of milliseconds, or of
/// seconds below a million millions.
pub open spec fn tells_instant(value: JsonView, instant: Option<i64>) -> bool {
    match value {
        JsonView::Text(text) => instant == rfc3339_instant(text),
        JsonView::Number(Some(n)) => {
            &&& instant is Some
            &&& n >= 1_000_000_000_000 ==> instant->0 == n
            &&& n < 1_000_000_000_000 && n * 1000 >= i64::MIN ==> instant->0 == n * 1000
            &&& n * 1000 < i64::MIN ==> instant->0 == i64::MIN
        },
        _ => instant is None,
    }
}

/// Values tell an instant as a text or as a number.
pub proof fn values_tell_instants(value: JsonView)
    ensures
        tells_instant(value, instant_in(value)),
{
}

/// An event has the instant that the first of the places for one tells: the line's timestamp, time
/// or creation, or the timestamp of its data. Where that tells none, it has the fallback.
pub proof fn events_have_the_instant_named_first(
    value: JsonView,
    instant: Option<i64>,
    fallback_timestamp: i64,
)
    requires
        (match (value.get("timestamp"@), value.get("time"@), value.get("created_at"@)) {
            (Some(told), _, _) => tells_instant(told, instant),
            (None, Some(told), _) => tells_instant(told, instant),
            (None, None, Some(told)) => tells_instant(told, instant),
            (None, None, None) => match value.get("data"@) {
                Some(data) => match data.get("timestamp"@) {
                    Some(told) => tells_instant(told, instant),
                    None => instant is None,
                },
                None => instant is None,
            },
        }),
    ensures
        event_in(value, fallback_timestamp) matches Some(event) ==> event.timestamp == (
        match instant {
            Some(instant) => instant,
            None => fallback_timestamp,
        }),
{
}

/// The event in a text is that of the document in it.
pub proof fn events_are_those_of_the_document(text: Seq<char>, fallback_timestamp: i64)
    ensures
        document_in(text) is None ==> event_in_text(text, fallback_timestamp) is None,
        document_in(text) matches Some(value) ==> event_in_text(text, fallback_timestamp)
            == event_in(value, fallback_timestamp),
{
}

} // verus!

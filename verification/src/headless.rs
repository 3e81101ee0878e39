//! Usage lines of headless runs, which carry their counters in free-form JSON.

use crate::counting::UNKNOWN_MODEL;
use crate::json::{
    document_in, extract_i64, extract_string, integer_in, parse_document, text_in, view_of,
    JsonValue, JsonView,
};
use crate::message::{MessageView, UnifiedMessage};
use crate::text::{copy_text, first_of, or_text, slice_text_of, text_of};
use crate::timestamps::{instant_in, parse_timestamp_value};
use crate::tokens::{larger, max_of, saturated, saturating_difference, TokenBreakdown};
use vstd::prelude::*;

verus! {

/// The client that the messages of a Codex session name.
pub const CODEX_CLIENT: &'static str = "codex";

/// The provider of a session that names none.
pub const DEFAULT_PROVIDER: &'static str = "openai";

/// The agent of a headless run.
pub const HEADLESS_AGENT: &'static str = "headless";

/// The member `name` of the member `parent` of `value`.
pub open spec fn nested(value: JsonView, parent: Seq<char>, name: Seq<char>) -> Option<JsonView> {
    match value.get(parent) {
        Some(parent) => parent.get(name),
        None => None,
    }
}

/// The model that `value` names, itself or in its data or response.
pub open spec fn model_in(value: JsonView) -> Option<Seq<char>> {
    first_of(
        text_in(value.get("model"@)),
        first_of(
            text_in(value.get("model_name"@)),
            first_of(
                text_in(nested(value, "data"@, "model"@)),
                first_of(
                    text_in(nested(value, "data"@, "model_name"@)),
                    text_in(nested(value, "response"@, "model"@)),
                ),
            ),
        ),
    )
}

/// The model of a usage line: the one that it names, else the one that its data names.
pub open spec fn line_model(value: JsonView) -> Option<Seq<char>> {
    first_of(
        model_in(value),
        match value.get("data"@) {
            Some(data) => model_in(data),
            None => None,
        },
    )
}

/// The value that gives the instant of a usage line.
pub open spec fn timestamp_member(value: JsonView) -> Option<JsonView> {
    first_of(
        value.get("timestamp"@),
        first_of(
            value.get("time"@),
            first_of(value.get("created_at"@), nested(value, "data"@, "timestamp"@)),
        ),
    )
}

/// The instant of a usage line.
pub open spec fn line_instant(value: JsonView) -> Option<i64> {
    match timestamp_member(value) {
        Some(timestamp) => instant_in(timestamp),
        None => None,
    }
}

/// The counters of a usage line.
pub open spec fn usage_member(value: JsonView) -> Option<JsonView> {
    first_of(
        value.get("usage"@),
        first_of(
            nested(value, "data"@, "usage"@),
            first_of(nested(value, "result"@, "usage"@), nested(value, "response"@, "usage"@)),
        ),
    )
}

/// The counter that stands in `usage` under the first of three names that gives an integer; zero
/// where none does.
pub open spec fn counter_in(
    usage: JsonView,
    first: Seq<char>,
    second: Seq<char>,
    third: Seq<char>,
) -> i64 {
    match first_of(
        integer_in(usage.get(first)),
        first_of(integer_in(usage.get(second)), integer_in(usage.get(third))),
    ) {
        Some(n) => n,
        None => 0,
    }
}

/// The input counter, which includes cached input.
pub open spec fn input_counter(usage: JsonView) -> i64 {
    counter_in(usage, "input_tokens"@, "prompt_tokens"@, "input"@)
}

/// The output counter.
pub open spec fn output_counter(usage: JsonView) -> i64 {
    counter_in(usage, "output_tokens"@, "completion_tokens"@, "output"@)
}

/// The counter of input that came from the cache.
pub open spec fn cached_counter(usage: JsonView) -> i64 {
    counter_in(usage, "cached_input_tokens"@, "cache_read_input_tokens"@, "cached_tokens"@)
}

/// The usage that one line of a headless run reports.
#[derive(Debug, Clone)]
pub struct CodexHeadlessUsage {
    pub input: i64,
    pub output: i64,
    pub cached: i64,
    pub model: Option<String>,
    pub timestamp_ms: Option<i64>,
}

/// A usage line that counts.
#[derive(Debug, Clone)]
pub struct CodexHeadlessEvent {
    pub model: Option<String>,
    pub timestamp: i64,
    pub tokens: TokenBreakdown,
}

/// A usage line that counts, as specifications speak of it.
pub ghost struct HeadlessEventView {
    pub model: Option<Seq<char>>,
    pub timestamp: i64,
    pub tokens: TokenBreakdown,
}

impl View for CodexHeadlessEvent {
    type V = HeadlessEventView;

    open spec fn view(&self) -> HeadlessEventView {
        HeadlessEventView {
            model: text_of(self.model),
            timestamp: self.timestamp,
            tokens: self.tokens,
        }
    }
}

/// The tokens of a usage line. Cached input is reported as part of the input and counted apart.
pub open spec fn line_tokens(usage: JsonView) -> TokenBreakdown {
    TokenBreakdown {
        input: larger(saturated(input_counter(usage) - cached_counter(usage)), 0),
        output: larger(output_counter(usage), 0),
        cache_read: larger(cached_counter(usage), 0),
        cache_write: 0,
        reasoning: 0,
    }
}

/// The event in a JSON value: there is one where the value holds counters that are not all zero.
pub open spec fn event_in(value: JsonView, fallback_timestamp: i64) -> Option<HeadlessEventView> {
    match usage_member(value) {
        Some(usage) if !(input_counter(usage) == cached_counter(usage) && output_counter(usage) == 0
            && cached_counter(usage) == 0) => Some(
            HeadlessEventView {
                model: line_model(value),
                timestamp: match line_instant(value) {
                    Some(instant) => instant,
                    None => fallback_timestamp,
                },
                tokens: line_tokens(usage),
            },
        ),
        _ => None,
    }
}

/// The event in the text of a line.
pub open spec fn event_in_text(text: Seq<char>, fallback_timestamp: i64) -> Option<
    HeadlessEventView,
> {
    match document_in(text) {
        Some(value) => event_in(value, fallback_timestamp),
        None => None,
    }
}

/// What an optional event is.
pub open spec fn event_of(event: Option<CodexHeadlessEvent>) -> Option<HeadlessEventView> {
    match event {
        Some(event) => Some(event@),
        None => None,
    }
}

/// The member `name` of the member `parent` of `value`.
fn get_nested<'a>(value: &'a JsonValue, parent: &str, name: &str) -> (found: Option<&'a JsonValue>)
    ensures
        view_of(found) == nested(value@, parent@, name@),
{
    match value.get(parent) {
        Some(parent) => parent.get(name),
        None => None,
    }
}

/// The model that `value` names, itself or in its data or response.
pub fn extract_model_from_value(value: &JsonValue) -> (model: Option<String>)
    ensures
        text_of(model) == model_in(value@),
{
    let model = extract_string(value.get("model"));
    if model.is_some() {
        return model;
    }
    let model = extract_string(value.get("model_name"));
    if model.is_some() {
        return model;
    }
    let model = extract_string(get_nested(value, "data", "model"));
    if model.is_some() {
        return model;
    }
    let model = extract_string(get_nested(value, "data", "model_name"));
    if model.is_some() {
        return model;
    }
    extract_string(get_nested(value, "response", "model"))
}

/// The model of a usage line: the one that it names, else the one that its data names.
fn extract_line_model(value: &JsonValue) -> (model: Option<String>)
    ensures
        text_of(model) == line_model(value@),
{
    let model = extract_model_from_value(value);
    if model.is_some() {
        return model;
    }
    match value.get("data") {
        Some(data) => extract_model_from_value(data),
        None => None,
    }
}

/// The instant of a usage line.
pub fn extract_timestamp_from_value(value: &JsonValue) -> (instant: Option<i64>)
    ensures
        instant == line_instant(value@),
{
    let mut found = value.get("timestamp");
    if found.is_none() {
        found = value.get("time");
    }
    if found.is_none() {
        found = value.get("created_at");
    }
    if found.is_none() {
        found = get_nested(value, "data", "timestamp");
    }
    match found {
        Some(timestamp) => parse_timestamp_value(timestamp),
        None => None,
    }
}

fn extract_counter(usage: &JsonValue, first: &str, second: &str, third: &str) -> (n: i64)
    ensures
        n == counter_in(usage@, first@, second@, third@),
{
    let mut n = extract_i64(usage.get(first));
    if n.is_none() {
        n = extract_i64(usage.get(second));
    }
    if n.is_none() {
        n = extract_i64(usage.get(third));
    }
    n.unwrap_or(0)
}

/// The usage that a line of a headless run reports: there is one where it holds counters.
pub fn extract_headless_usage(value: &JsonValue) -> (usage: Option<CodexHeadlessUsage>)
    ensures
        (match (usage, usage_member(value@)) {
            (Some(usage), Some(counters)) => {
                &&& usage.input == saturated(input_counter(counters) - cached_counter(counters))
                &&& usage.output == output_counter(counters)
                &&& usage.cached == cached_counter(counters)
                &&& text_of(usage.model) == line_model(value@)
                &&& usage.timestamp_ms == line_instant(value@)
            },
            (None, None) => true,
            _ => false,
        }),
{
    let mut found = value.get("usage");
    if found.is_none() {
        found = get_nested(value, "data", "usage");
    }
    if found.is_none() {
        found = get_nested(value, "result", "usage");
    }
    if found.is_none() {
        found = get_nested(value, "response", "usage");
    }
    match found {
        Some(usage) => {
            let input = extract_counter(usage, "input_tokens", "prompt_tokens", "input");
            let output = extract_counter(usage, "output_tokens", "completion_tokens", "output");
            let cached = extract_counter(
                usage,
                "cached_input_tokens",
                "cache_read_input_tokens",
                "cached_tokens",
            );
            Some(
                CodexHeadlessUsage {
                    input: saturating_difference(input, cached),
                    output,
                    cached,
                    model: extract_line_model(value),
                    timestamp_ms: extract_timestamp_from_value(value),
                },
            )
        },
        None => None,
    }
}

/// The event in a JSON value.
pub fn headless_event(value: &JsonValue, fallback_timestamp: i64) -> (event: Option<
    CodexHeadlessEvent,
>)
    ensures
        event_of(event) == event_in(value@, fallback_timestamp),
{
    match extract_headless_usage(value) {
        Some(usage) => {
            if usage.input == 0 && usage.output == 0 && usage.cached == 0 {
                return None;
            }
            Some(
                CodexHeadlessEvent {
                    model: usage.model,
                    timestamp: usage.timestamp_ms.unwrap_or(fallback_timestamp),
                    tokens: TokenBreakdown {
                        input: max_of(usage.input, 0),
                        output: max_of(usage.output, 0),
                        cache_read: max_of(usage.cached, 0),
                        cache_write: 0,
                        reasoning: 0,
                    },
                },
            )
        },
        None => None,
    }
}

/// The event in the text of a line, which has to be a JSON document.
pub fn parse_codex_headless_event(line: &str, fallback_timestamp: i64) -> (event: Option<
    CodexHeadlessEvent,
>)
    ensures
        event_of(event) == event_in_text(line@, fallback_timestamp),
{
    match parse_document(line) {
        Some(value) => headless_event(&value, fallback_timestamp),
        None => None,
    }
}

/// The agent of a message that a usage line gives.
pub open spec fn line_agent(session_is_headless: bool, session_agent: Option<Seq<char>>) -> Option<
    Seq<char>,
> {
    if session_is_headless {
        Some(HEADLESS_AGENT@)
    } else {
        session_agent
    }
}

/// The message that a usage line gives in a session with the model `current_model`.
pub open spec fn line_message(
    event: HeadlessEventView,
    session_id: Seq<char>,
    current_model: Option<Seq<char>>,
    session_provider: Option<Seq<char>>,
    session_agent: Option<Seq<char>>,
    session_is_headless: bool,
) -> MessageView {
    MessageView {
        client: CODEX_CLIENT@,
        model_id: or_text(first_of(event.model, current_model), UNKNOWN_MODEL@),
        provider_id: or_text(session_provider, DEFAULT_PROVIDER@),
        session_id,
        timestamp: event.timestamp,
        tokens: event.tokens,
        agent: line_agent(session_is_headless, session_agent),
    }
}

/// The message that the usage line `line` gives; moves the session's model to the one that the
/// line names.
pub fn parse_codex_headless_line(
    line: &str,
    session_id: &str,
    current_model: &mut Option<String>,
    fallback_timestamp: i64,
    session_provider: Option<&str>,
    session_agent: &Option<String>,
    session_is_headless: bool,
) -> (message: Option<UnifiedMessage>)
    ensures
        (match (event_in_text(line@, fallback_timestamp), message) {
            (Some(event), Some(message)) => {
                &&& message@ == line_message(
                    event,
                    session_id@,
                    text_of(*old(current_model)),
                    slice_text_of(session_provider),
                    text_of(*session_agent),
                    session_is_headless,
                )
                &&& text_of(*final(current_model)) == first_of(
                    event.model,
                    text_of(*old(current_model)),
                )
            },
            (None, None) => *final(current_model) == *old(current_model),
            _ => false,
        }),
{
    match parse_codex_headless_event(line, fallback_timestamp) {
        Some(event) => {
            if event.model.is_some() {
                *current_model = copy_text(&event.model);
            }
            let model_id = match current_model {
                Some(model) => model.clone(),
                None => UNKNOWN_MODEL.to_string(),
            };
            let provider_id = match session_provider {
                Some(provider) => provider.to_string(),
                None => DEFAULT_PROVIDER.to_string(),
            };
            let agent = if session_is_headless {
                Some(HEADLESS_AGENT.to_string())
            } else {
                copy_text(session_agent)
            };
            Some(
                UnifiedMessage {
                    client: CODEX_CLIENT.to_string(),
                    model_id,
                    provider_id,
                    session_id: session_id.to_string(),
                    timestamp: event.timestamp,
                    tokens: event.tokens,
                    agent,
                },
            )
        },
        None => None,
    }
}

} // verus!

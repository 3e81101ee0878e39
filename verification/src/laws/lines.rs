//! What lines and entries say, and what a session is by the times of its last events.

use crate::activity::{age, phase_at, CodexActivityPhase, CodexSessionKind};
use crate::current::{is_active, LiveState};
use crate::entry::{CodexEntry, CodexPayload};
use crate::file::{agent_name, entry_instant};
use crate::repository::without_trailing_separators;
use crate::text::{is_white_space, trimmed};
use crate::timestamps::rfc3339_instant;
use vstd::prelude::*;

verus! {

/// The text that `s` holds, where it holds one that is not empty.
pub open spec fn says_something(s: Option<String>) -> bool {
    s is Some && s->0@.len() > 0
}

/// A payload names the model that the first of these gives, passing over empty ones: the slug of
/// its model information, its model, its model name, and the model and model name of its counters.
pub proof fn the_first_named_model_counts(payload: CodexPayload)
    ensures
        ({
            let slug = if payload.model_info is Some {
                payload.model_info->0.slug
            } else {
                None
            };
            let (counter_model, counter_model_name) = if payload.info is Some {
                (payload.info->0.model, payload.info->0.model_name)
            } else {
                (None, None)
            };
            if says_something(slug) {
                payload.named_model() == Some(slug->0@)
            } else if says_something(payload.model) {
                payload.named_model() == Some(payload.model->0@)
            } else if says_something(payload.model_name) {
                payload.named_model() == Some(payload.model_name->0@)
            } else if says_something(counter_model) {
                payload.named_model() == Some(counter_model->0@)
            } else if says_something(counter_model_name) {
                payload.named_model() == Some(counter_model_name->0@)
            } else {
                payload.named_model() is None
            }
        }),
{
}

/// A headless session has one agent, any other the one that it named, or else Codex.
pub proof fn agents_are_named(headless: bool, named: Option<Seq<char>>)
    ensures
        headless ==> agent_name(headless, named) == "headless"@,
        !headless ==> (named matches Some(name) ==> agent_name(headless, named) == name),
        !headless && named is None ==> agent_name(headless, named) == "Codex"@,
{
}

/// An entry has the instant that its timestamp gives in RFC 3339, and else the fallback.
pub proof fn entries_have_instants(entry: CodexEntry, fallback_timestamp: i64)
    ensures
        entry.timestamp is None ==> entry_instant(entry, fallback_timestamp) == fallback_timestamp,
        entry.timestamp matches Some(text) ==> match rfc3339_instant(text@) {
            Some(instant) => entry_instant(entry, fallback_timestamp) == instant,
            None => entry_instant(entry, fallback_timestamp) == fallback_timestamp,
        },
{
}

/// `c` is a space, a tab, the end of a line, or one of the other characters that leave white.
pub open spec fn leaves_white(c: char) -> bool {
    let code = c as u32;
    ||| 9 <= code <= 13
    ||| code == 32
    ||| code == 133
    ||| code == 160
    ||| code == 5760
    ||| 8192 <= code <= 8202
    ||| code == 8232
    ||| code == 8233
    ||| code == 8239
    ||| code == 8287
    ||| code == 12288
}

/// All of `text` but what lies from `start` to `end` leaves white.
pub open spec fn is_white_around(text: Seq<char>, start: int, end: int) -> bool {
    &&& 0 <= start <= end <= text.len()
    &&& forall|i: int| 0 <= i < start ==> leaves_white(#[trigger] text[i])
    &&& forall|i: int| end <= i < text.len() ==> leaves_white(#[trigger] text[i])
}

/// What is left of a text when it is trimmed is a piece of it, and what was taken off on either side
/// leaves white.
pub proof fn trimming_takes_off_white_space(text: Seq<char>) -> (piece: (int, int))
    ensures
        is_white_around(text, piece.0, piece.1),
        trimmed(text) == text.subrange(piece.0, piece.1),
    decreases text.len(),
{
    if text.len() == 0 {
        assert(trimmed(text) =~= text.subrange(0, 0));
        (0, 0)
    } else if is_white_space(text.first()) {
        let rest = text.drop_first();
        let (start, end) = trimming_takes_off_white_space(rest);
        assert(rest.subrange(start, end) =~= text.subrange(start + 1, end + 1));
        assert forall|i: int| 0 <= i < start + 1 implies leaves_white(#[trigger] text[i]) by {
            if i > 0 {
                assert(leaves_white(rest[i - 1]));
            }
        }
        assert forall|i: int| end + 1 <= i < text.len() implies leaves_white(#[trigger] text[i]) by {
            assert(leaves_white(rest[i - 1]));
        }
        (start + 1, end + 1)
    } else if is_white_space(text.last()) {
        let rest = text.drop_last();
        let (start, end) = trimming_takes_off_white_space(rest);
        assert(rest.subrange(start, end) =~= text.subrange(start, end));
        assert forall|i: int| 0 <= i < start implies leaves_white(#[trigger] text[i]) by {
            assert(leaves_white(rest[i]));
        }
        assert forall|i: int| end <= i < text.len() implies leaves_white(#[trigger] text[i]) by {
            if i < rest.len() {
                assert(leaves_white(rest[i]));
            }
        }
        (start, end)
    } else {
        assert(trimmed(text) =~= text.subrange(0, text.len() as int));
        (0, text.len() as int)
    }
}

/// A trimmed text neither starts nor ends with a character that leaves white.
pub proof fn trimming_leaves_no_white_space(text: Seq<char>)
    ensures
        trimmed(text).len() > 0 ==> !leaves_white(trimmed(text).first()) && !leaves_white(
            trimmed(text).last(),
        ),
    decreases text.len(),
{
    if text.len() > 0 {
        trimming_leaves_no_white_space(text.drop_first());
        trimming_leaves_no_white_space(text.drop_last());
    }
}

/// What is left of a path without the separators at its end is what it starts with: nothing but
/// slashes and backslashes was taken off, and none is left at the end.
pub proof fn only_separators_are_taken_off(path: Seq<char>)
    ensures
        without_trailing_separators(path).is_prefix_of(path),
        forall|i: int|
            without_trailing_separators(path).len() <= i < path.len() ==> #[trigger] path[i] == '/'
                || path[i] == '\\',
        without_trailing_separators(path).len() > 0 ==> without_trailing_separators(path).last()
            != '/' && without_trailing_separators(path).last() != '\\',
    decreases path.len(),
{
    if path.len() > 0 {
        let rest = path.drop_last();
        only_separators_are_taken_off(rest);
        assert(forall|i: int| 0 <= i < rest.len() ==> rest[i] == path[i]);
    }
}

/// The milliseconds from `timestamp_ms` to `now_ms`, none for an instant to come.
pub open spec fn elapsed(now_ms: i64, timestamp_ms: i64) -> int {
    if timestamp_ms > now_ms {
        0
    } else {
        now_ms - timestamp_ms
    }
}

/// An age is the time that has passed, as far as `i64` goes.
pub proof fn ages_are_times_passed(now_ms: i64, timestamp_ms: i64)
    ensures
        elapsed(now_ms, timestamp_ms) <= i64::MAX ==> age(now_ms, timestamp_ms) == elapsed(
            now_ms,
            timestamp_ms,
        ),
        elapsed(now_ms, timestamp_ms) > i64::MAX ==> age(now_ms, timestamp_ms) == i64::MAX,
{
}

/// A session streams for three seconds after its last tokens and settles until twenty. Then, or
/// without tokens, it prepares for five seconds after its last event, and else is idle.
pub proof fn phases_last_for_seconds(
    now_ms: i64,
    last_event_at: i64,
    last_token_at: Option<i64>,
)
    ensures
        ({
            let phase = phase_at(now_ms, last_event_at, last_token_at);
            let settled = last_token_at is None || elapsed(now_ms, last_token_at->0) > 20_000;
            &&& phase is Streaming <==> last_token_at is Some && elapsed(now_ms, last_token_at->0)
                <= 3_000
            &&& phase is Settling <==> last_token_at is Some && 3_000 < elapsed(
                now_ms,
                last_token_at->0,
            ) <= 20_000
            &&& phase is Preparing <==> settled && elapsed(now_ms, last_event_at) <= 5_000
            &&& phase is Idle <==> settled && elapsed(now_ms, last_event_at) > 5_000
        }),
{
}

/// A session is active for ten minutes after its last event.
pub proof fn sessions_are_active_for_ten_minutes(state: LiveState, now_ms: i64)
    ensures
        is_active(state, now_ms) <==> state.last_event_at is Some && elapsed(
            now_ms,
            state.last_event_at->0,
        ) <= 600_000,
{
}

/// Phases and kinds have the names by which they are written, and phases come in the order from the
/// most active to the least.
pub proof fn phases_and_kinds_have_names(phase: CodexActivityPhase, kind: CodexSessionKind)
    ensures
        phase is Streaming ==> phase.name() == "streaming"@ && phase.rank() == 0,
        phase is Settling ==> phase.name() == "settling"@ && phase.rank() == 1,
        phase is Preparing ==> phase.name() == "preparing"@ && phase.rank() == 2,
        phase is Idle ==> phase.name() == "idle"@ && phase.rank() == 3,
        kind is Interactive ==> kind.name() == "interactive"@,
        kind is Headless ==> kind.name() == "headless"@,
{
}

} // verus!

//! What the lines of a running session tell of it: its tokens, when it used them, and how it runs.

use crate::counting::{count_payload, sound_baseline};
use crate::current::{
    follow_line, follow_lines, shows, start_of_session, CodexCurrentSession, LiveState,
};
use crate::entry::CodexPayload;
use crate::file::{entry_instant, CodexLine};
use crate::headless::event_in_text;
use crate::laws::counted_payloads_were_used;
use crate::laws::lines::elapsed;
use crate::laws::reading::{
    counts_tokens, describes, is_other, named_in_report, starts_turn, types_are_told_apart,
};
use crate::text::{text_of, trimmed};
use crate::tokens::TokenBreakdown;
use vstd::prelude::*;

verus! {

/// All counters of `tokens`, added up.
pub open spec fn all_tokens(tokens: TokenBreakdown) -> int {
    tokens.input + tokens.output + tokens.cache_read + tokens.cache_write + tokens.reasoning
}

/// `n`, as far as `i64` goes.
pub open spec fn capped(n: int) -> int {
    if n > i64::MAX {
        i64::MAX as int
    } else {
        n
    }
}

/// `next` is `last`, or `instant` where that is later or there was none.
pub open spec fn is_later_of(next: Option<i64>, last: Option<i64>, instant: i64) -> bool {
    &&& next is Some
    &&& next->0 >= instant
    &&& last is None ==> next->0 == instant
    &&& last is Some ==> next->0 >= last->0 && (next->0 == instant || next->0 == last->0)
}

/// `next` is what `said` says, where it is a text that is not empty, and else `last`.
pub open spec fn is_said_or_kept(
    next: Option<Seq<char>>,
    said: Option<String>,
    last: Option<Seq<char>>,
) -> bool {
    if said is Some && said->0@.len() > 0 {
        next == Some(said->0@)
    } else {
        next == last
    }
}

/// What is known of how many tokens were used is the same in `next` and `state`.
pub open spec fn used_the_same(next: LiveState, state: LiveState) -> bool {
    &&& next.baseline == state.baseline
    &&& next.total_tokens == state.total_tokens
    &&& next.recent_tokens == state.recent_tokens
    &&& next.last_token_at == state.last_token_at
}

/// `next` has `tokens` tokens more than `state`, used at `instant`: they count to the total, and to
/// the recent ones if they are no more than a minute old.
pub open spec fn used_more(
    next: LiveState,
    state: LiveState,
    tokens: int,
    instant: i64,
    now_ms: i64,
) -> bool {
    &&& next.total_tokens == capped(state.total_tokens + tokens)
    &&& elapsed(now_ms, instant) <= 60_000 ==> next.recent_tokens == capped(
        state.recent_tokens + tokens,
    )
    &&& elapsed(now_ms, instant) > 60_000 ==> next.recent_tokens == state.recent_tokens
    &&& is_later_of(next.last_token_at, state.last_token_at, instant)
}

/// Lines are followed one after the other.
pub proof fn lines_are_followed_one_by_one(
    state: LiveState,
    lines: Seq<CodexLine>,
    line: CodexLine,
    fallback_timestamp: i64,
    now_ms: i64,
)
    ensures
        follow_lines(state, Seq::empty(), fallback_timestamp, now_ms) == state,
        follow_lines(state, lines.push(line), fallback_timestamp, now_ms) == follow_line(
            follow_lines(state, lines, fallback_timestamp, now_ms),
            line,
            fallback_timestamp,
            now_ms,
        ),
{
    assert(lines.push(line).drop_last() =~= lines);
}

/// A description makes the session headless if it was run by exec, and sets the provider, the agent
/// and the directory that it names. It is an event, and changes nothing else.
pub proof fn descriptions_say_how_a_running_session_runs(
    state: LiveState,
    line: CodexLine,
    payload: CodexPayload,
    fallback_timestamp: i64,
    now_ms: i64,
)
    requires
        describes(line, payload),
    ensures
        ({
            let next = follow_line(state, line, fallback_timestamp, now_ms);
            let instant = entry_instant(line.entry->0, fallback_timestamp);
            &&& next.headless <==> state.headless || (payload.source is Some
                && payload.source->0@ == "exec"@)
            &&& is_said_or_kept(next.provider, payload.model_provider, state.provider)
            &&& is_said_or_kept(next.agent, payload.agent_nickname, state.agent)
            &&& is_said_or_kept(next.cwd, payload.cwd, state.cwd)
            &&& next.model == state.model
            &&& is_later_of(next.last_event_at, state.last_event_at, instant)
            &&& used_the_same(next, state)
        }),
{
}

/// The start of a turn sets the model and the directory that it names. It is an event, and changes
/// nothing else.
pub proof fn turns_set_model_and_directory(
    state: LiveState,
    line: CodexLine,
    payload: CodexPayload,
    fallback_timestamp: i64,
    now_ms: i64,
)
    requires
        starts_turn(line, payload),
    ensures
        ({
            let next = follow_line(state, line, fallback_timestamp, now_ms);
            let instant = entry_instant(line.entry->0, fallback_timestamp);
            &&& payload.named_model() is Some ==> next.model == payload.named_model()
            &&& payload.named_model() is None ==> next.model == state.model
            &&& is_said_or_kept(next.cwd, payload.cwd, state.cwd)
            &&& next.headless == state.headless
            &&& next.provider == state.provider
            &&& next.agent == state.agent
            &&& is_later_of(next.last_event_at, state.last_event_at, instant)
            &&& used_the_same(next, state)
        }),
{
    types_are_told_apart();
}

/// A token report moves the baseline as it counts, and adds what it counts to the tokens of the
/// session. It sets the model and the directory that it names, and changes nothing else.
pub proof fn reports_add_to_a_running_session(
    state: LiveState,
    line: CodexLine,
    payload: CodexPayload,
    fallback_timestamp: i64,
    now_ms: i64,
)
    requires
        counts_tokens(line, payload),
        sound_baseline(state.baseline),
        0 <= state.recent_tokens,
        0 <= state.total_tokens,
    ensures
        ({
            let next = follow_line(state, line, fallback_timestamp, now_ms);
            let instant = entry_instant(line.entry->0, fallback_timestamp);
            let counted = count_payload(payload, state.baseline);
            &&& next.baseline == counted.baseline
            &&& counted.tokens matches Some(tokens) ==> used_more(
                next,
                state,
                all_tokens(tokens),
                instant,
                now_ms,
            )
            &&& counted.tokens is None ==> {
                &&& next.total_tokens == state.total_tokens
                &&& next.recent_tokens == state.recent_tokens
                &&& next.last_token_at == state.last_token_at
            }
            &&& named_in_report(payload) is Some ==> next.model == named_in_report(payload)
            &&& named_in_report(payload) is None && state.model is Some ==> next.model
                == state.model
            &&& named_in_report(payload) is None && state.model is None ==> next.model is None
                || next.model == Some("unknown"@)
            &&& is_said_or_kept(next.cwd, payload.cwd, state.cwd)
            &&& next.headless == state.headless
            &&& next.provider == state.provider
            &&& next.agent == state.agent
            &&& is_later_of(next.last_event_at, state.last_event_at, instant)
        }),
{
    types_are_told_apart();
    counted_payloads_were_used(payload, state.baseline);
}

/// Any other line is an event by its entry, if it is one, and by the usage that it tells. It adds
/// the tokens of that usage, sets the model that it names, and changes nothing else.
pub proof fn usage_adds_to_a_running_session(
    state: LiveState,
    line: CodexLine,
    fallback_timestamp: i64,
    now_ms: i64,
)
    requires
        is_other(line),
        0 <= state.recent_tokens,
        0 <= state.total_tokens,
    ensures
        ({
            let next = follow_line(state, line, fallback_timestamp, now_ms);
            let told = event_in_text(trimmed(line.text@), fallback_timestamp);
            &&& next.headless == state.headless
            &&& next.provider == state.provider
            &&& next.agent == state.agent
            &&& next.cwd == state.cwd
            &&& next.baseline == state.baseline
            &&& told is Some && told->0.model is Some ==> next.model == told->0.model
            &&& told is None || told->0.model is None ==> next.model == state.model
            &&& told is Some && all_tokens(told->0.tokens) > 0 ==> used_more(
                next,
                state,
                all_tokens(told->0.tokens),
                told->0.timestamp,
                now_ms,
            )
            &&& told is None || all_tokens(told->0.tokens) <= 0 ==> used_the_same(next, state)
            &&& told is None && line.entry is None ==> next.last_event_at == state.last_event_at
            &&& told is Some && line.entry is None ==> is_later_of(
                next.last_event_at,
                state.last_event_at,
                told->0.timestamp,
            )
            &&& told is None && line.entry is Some ==> is_later_of(
                next.last_event_at,
                state.last_event_at,
                entry_instant(line.entry->0, fallback_timestamp),
            )
        }),
{
    let told = event_in_text(trimmed(line.text@), fallback_timestamp);
    if told is Some {
        assert(told->0.tokens.input >= 0 && told->0.tokens.output >= 0 && told->0.tokens.cache_read
            >= 0 && told->0.tokens.cache_write == 0 && told->0.tokens.reasoning == 0);
    }
    if line.entry is Some && line.entry->0.payload is Some {
        let payload = line.entry->0.payload->0;
        assert(!describes(line, payload));
        assert(!starts_turn(line, payload));
        assert(!counts_tokens(line, payload));
    }
}

/// The tokens that the last of these lines used, and when: those that it counts as a report after
/// the lines before it, or those of the usage that it tells.
pub open spec fn last_use(
    lines: Seq<CodexLine>,
    path_is_headless: bool,
    fallback_timestamp: i64,
    now_ms: i64,
) -> Option<(i64, int)>
    recommends
        lines.len() > 0,
{
    let line = lines.last();
    let before = follow_lines(
        start_of_session(path_is_headless),
        lines.drop_last(),
        fallback_timestamp,
        now_ms,
    );
    if line.entry is Some && line.entry->0.payload is Some && counts_tokens(
        line,
        line.entry->0.payload->0,
    ) {
        match count_payload(line.entry->0.payload->0, before.baseline).tokens {
            Some(tokens) => Some(
                (entry_instant(line.entry->0, fallback_timestamp), all_tokens(tokens)),
            ),
            None => None,
        }
    } else if is_other(line) {
        match event_in_text(trimmed(line.text@), fallback_timestamp) {
            Some(event) => if all_tokens(event.tokens) > 0 {
                Some((event.timestamp, all_tokens(event.tokens)))
            } else {
                None
            },
            None => None,
        }
    } else {
        None
    }
}

/// The tokens that the lines used no more than `window` milliseconds before `now_ms`, added up; all
/// that they used where there is no window.
pub open spec fn tokens_used(
    lines: Seq<CodexLine>,
    path_is_headless: bool,
    fallback_timestamp: i64,
    now_ms: i64,
    window: Option<int>,
) -> int
    decreases lines.len(),
{
    if lines.len() == 0 {
        0
    } else {
        let before = tokens_used(
            lines.drop_last(),
            path_is_headless,
            fallback_timestamp,
            now_ms,
            window,
        );
        match last_use(lines, path_is_headless, fallback_timestamp, now_ms) {
            Some((instant, tokens)) if window is None || elapsed(now_ms, instant) <= window->0 =>
                before + tokens,
            _ => before,
        }
    }
}

/// The tokens of a session are all that its lines used, added up, and its recent tokens are those
/// used within the last minute, added up.
pub proof fn tokens_are_added_up(
    lines: Seq<CodexLine>,
    path_is_headless: bool,
    fallback_timestamp: i64,
    now_ms: i64,
)
    ensures
        ({
            let state = follow_lines(
                start_of_session(path_is_headless),
                lines,
                fallback_timestamp,
                now_ms,
            );
            &&& state.total_tokens == capped(
                tokens_used(lines, path_is_headless, fallback_timestamp, now_ms, None),
            )
            &&& state.recent_tokens == capped(
                tokens_used(lines, path_is_headless, fallback_timestamp, now_ms, Some(60_000)),
            )
        }),
{
    tokens_add_up(lines, path_is_headless, fallback_timestamp, now_ms);
}

proof fn tokens_add_up(
    lines: Seq<CodexLine>,
    path_is_headless: bool,
    fallback_timestamp: i64,
    now_ms: i64,
)
    ensures
        ({
            let state = follow_lines(
                start_of_session(path_is_headless),
                lines,
                fallback_timestamp,
                now_ms,
            );
            let total = tokens_used(lines, path_is_headless, fallback_timestamp, now_ms, None);
            let recent = tokens_used(
                lines,
                path_is_headless,
                fallback_timestamp,
                now_ms,
                Some(60_000),
            );
            &&& sound_baseline(state.baseline)
            &&& 0 <= recent <= total
            &&& state.total_tokens == capped(total)
            &&& state.recent_tokens == capped(recent)
            &&& lines.len() > 0 ==> (last_use(
                lines,
                path_is_headless,
                fallback_timestamp,
                now_ms,
            ) matches Some(used) ==> used.1 > 0)
        }),
    decreases lines.len(),
{
    if lines.len() > 0 {
        let rest = lines.drop_last();
        let line = lines.last();
        tokens_add_up(rest, path_is_headless, fallback_timestamp, now_ms);
        let before = follow_lines(
            start_of_session(path_is_headless),
            rest,
            fallback_timestamp,
            now_ms,
        );
        a_line_uses_tokens(before, line, fallback_timestamp, now_ms);
    }
}

proof fn a_line_uses_tokens(
    state: LiveState,
    line: CodexLine,
    fallback_timestamp: i64,
    now_ms: i64,
)
    requires
        sound_baseline(state.baseline),
        0 <= state.recent_tokens,
        0 <= state.total_tokens,
    ensures
        ({
            let next = follow_line(state, line, fallback_timestamp, now_ms);
            let told = event_in_text(trimmed(line.text@), fallback_timestamp);
            &&& sound_baseline(next.baseline)
            &&& if line.entry is Some && line.entry->0.payload is Some && counts_tokens(
                line,
                line.entry->0.payload->0,
            ) {
                let counted = count_payload(line.entry->0.payload->0, state.baseline);
                &&& counted.tokens matches Some(tokens) ==> all_tokens(tokens) > 0 && used_more(
                    next,
                    state,
                    all_tokens(tokens),
                    entry_instant(line.entry->0, fallback_timestamp),
                    now_ms,
                )
                &&& counted.tokens is None ==> {
                    &&& next.total_tokens == state.total_tokens
                    &&& next.recent_tokens == state.recent_tokens
                    &&& next.last_token_at == state.last_token_at
                }
            } else if is_other(line) && told is Some && all_tokens(told->0.tokens) > 0 {
                used_more(
                    next,
                    state,
                    all_tokens(told->0.tokens),
                    told->0.timestamp,
                    now_ms,
                )
            } else {
                &&& next.total_tokens == state.total_tokens
                &&& next.recent_tokens == state.recent_tokens
                &&& next.last_token_at == state.last_token_at
            }
        }),
{
    types_are_told_apart();
    if trimmed(line.text@).len() > 0 {
        if line.entry is Some && line.entry->0.payload is Some {
            let payload = line.entry->0.payload->0;
            if describes(line, payload) {
                descriptions_say_how_a_running_session_runs(
                    state,
                    line,
                    payload,
                    fallback_timestamp,
                    now_ms,
                );
                assert(!is_other(line));
            } else if starts_turn(line, payload) {
                turns_set_model_and_directory(state, line, payload, fallback_timestamp, now_ms);
                assert(!is_other(line)) by {
                    if is_other(line) {
                        assert(!describes(line, payload));
                    }
                }
            } else if counts_tokens(line, payload) {
                reports_add_to_a_running_session(state, line, payload, fallback_timestamp, now_ms);
                counted_payloads_were_used(payload, state.baseline);
            } else {
                assert forall|other: CodexPayload|
                    !#[trigger] describes(line, other) && !starts_turn(line, other)
                        && !counts_tokens(line, other) by {}
                usage_adds_to_a_running_session(state, line, fallback_timestamp, now_ms);
            }
        } else {
            assert forall|other: CodexPayload|
                !#[trigger] describes(line, other) && !starts_turn(line, other) && !counts_tokens(
                    line,
                    other,
                ) by {}
            usage_adds_to_a_running_session(state, line, fallback_timestamp, now_ms);
        }
    }
}

/// Where all that a session used was used within the last minute, all of its tokens are recent.
pub proof fn fresh_sessions_have_only_recent_tokens(
    lines: Seq<CodexLine>,
    path_is_headless: bool,
    fallback_timestamp: i64,
    now_ms: i64,
)
    requires
        forall|k: int|
            0 < k <= lines.len() ==> (#[trigger] last_use(
                lines.take(k),
                path_is_headless,
                fallback_timestamp,
                now_ms,
            ) matches Some(used) ==> elapsed(now_ms, used.0) <= 60_000),
    ensures
        ({
            let state = follow_lines(
                start_of_session(path_is_headless),
                lines,
                fallback_timestamp,
                now_ms,
            );
            state.recent_tokens == state.total_tokens
        }),
    decreases lines.len(),
{
    all_uses_are_in_the_window(lines, path_is_headless, fallback_timestamp, now_ms);
    tokens_are_added_up(lines, path_is_headless, fallback_timestamp, now_ms);
}

proof fn all_uses_are_in_the_window(
    lines: Seq<CodexLine>,
    path_is_headless: bool,
    fallback_timestamp: i64,
    now_ms: i64,
)
    requires
        forall|k: int|
            0 < k <= lines.len() ==> (#[trigger] last_use(
                lines.take(k),
                path_is_headless,
                fallback_timestamp,
                now_ms,
            ) matches Some(used) ==> elapsed(now_ms, used.0) <= 60_000),
    ensures
        tokens_used(lines, path_is_headless, fallback_timestamp, now_ms, Some(60_000))
            == tokens_used(lines, path_is_headless, fallback_timestamp, now_ms, None),
    decreases lines.len(),
{
    if lines.len() > 0 {
        let rest = lines.drop_last();
        assert forall|k: int|
            0 < k <= rest.len() implies (#[trigger] last_use(
            rest.take(k),
            path_is_headless,
            fallback_timestamp,
            now_ms,
        ) matches Some(used) ==> elapsed(now_ms, used.0) <= 60_000) by {
            assert(rest.take(k) =~= lines.take(k));
        }
        all_uses_are_in_the_window(rest, path_is_headless, fallback_timestamp, now_ms);
        assert(lines.take(lines.len() as int) =~= lines);
        assert(last_use(
            lines.take(lines.len() as int),
            path_is_headless,
            fallback_timestamp,
            now_ms,
        ) == last_use(lines, path_is_headless, fallback_timestamp, now_ms));
    }
}

/// The last tokens of a session are the latest that its lines used: no use is later, and there is
/// one at that time. There are none where no line used any.
pub proof fn the_last_tokens_are_the_latest(
    lines: Seq<CodexLine>,
    path_is_headless: bool,
    fallback_timestamp: i64,
    now_ms: i64,
) -> (k: int)
    ensures
        ({
            let last = follow_lines(
                start_of_session(path_is_headless),
                lines,
                fallback_timestamp,
                now_ms,
            ).last_token_at;
            &&& forall|j: int|
                0 < j <= lines.len() ==> (#[trigger] last_use(
                    lines.take(j),
                    path_is_headless,
                    fallback_timestamp,
                    now_ms,
                ) matches Some(used) ==> last is Some && used.0 <= last->0)
            &&& last is Some ==> 0 < k <= lines.len() && (last_use(
                lines.take(k),
                path_is_headless,
                fallback_timestamp,
                now_ms,
            ) matches Some(used) && used.0 == last->0)
        }),
    decreases lines.len(),
{
    if lines.len() == 0 {
        0
    } else {
        let rest = lines.drop_last();
        let start = start_of_session(path_is_headless);
        let before = follow_lines(start, rest, fallback_timestamp, now_ms);
        let after = follow_lines(start, lines, fallback_timestamp, now_ms);
        let k = the_last_tokens_are_the_latest(rest, path_is_headless, fallback_timestamp, now_ms);
        tokens_add_up(rest, path_is_headless, fallback_timestamp, now_ms);
        a_line_uses_tokens(before, lines.last(), fallback_timestamp, now_ms);
        let used = last_use(lines, path_is_headless, fallback_timestamp, now_ms);
        assert(lines.take(lines.len() as int) =~= lines);
        assert forall|j: int|
            0 < j <= lines.len() implies (#[trigger] last_use(
            lines.take(j),
            path_is_headless,
            fallback_timestamp,
            now_ms,
        ) matches Some(used) ==> after.last_token_at is Some && used.0
            <= after.last_token_at->0) by {
            if j < lines.len() {
                assert(rest.take(j) =~= lines.take(j));
                assert(last_use(
                    rest.take(j),
                    path_is_headless,
                    fallback_timestamp,
                    now_ms,
                ) == last_use(lines.take(j), path_is_headless, fallback_timestamp, now_ms));
            }
        }
        if k > 0 && k <= rest.len() {
            assert(rest.take(k) =~= lines.take(k));
        }
        match used {
            Some((instant, _)) if after.last_token_at == Some(instant) => lines.len() as int,
            _ => k,
        }
    }
}

/// A session is shown as it was followed: with its model, or an unknown one, its provider, or that
/// of OpenAI, its directory, its times and its tokens.
pub proof fn sessions_are_shown_as_followed(
    session: CodexCurrentSession,
    state: LiveState,
    session_id: Seq<char>,
    now_ms: i64,
)
    requires
        shows(session, state, session_id, now_ms),
    ensures
        session.client@ == "codex"@,
        session.session_id@ == session_id,
        state.model matches Some(model) ==> session.model_id@ == model,
        state.model is None ==> session.model_id@ == "unknown"@,
        state.provider matches Some(provider) ==> session.provider_id@ == provider,
        state.provider is None ==> session.provider_id@ == "openai"@,
        text_of(session.cwd) == state.cwd,
        state.headless <==> session.session_kind is Headless,
        state.last_event_at == Some(session.last_event_at),
        state.last_token_at == session.last_token_at,
        state.total_tokens == session.total_tokens,
        state.recent_tokens == session.recent_tokens,
{
}

/// Nothing is known of a session before its first line but where its file lies.
pub proof fn sessions_start_with_nothing(path_is_headless: bool)
    ensures
        ({
            let start = start_of_session(path_is_headless);
            &&& start.headless == path_is_headless
            &&& start.model is None
            &&& start.baseline is None
            &&& start.provider is None
            &&& start.agent is None
            &&& start.cwd is None
            &&& start.last_event_at is None
            &&& start.last_token_at is None
            &&& start.total_tokens == 0
            &&& start.recent_tokens == 0
        }),
{
}

/// What a line makes the model of a running session.
pub open spec fn live_model_said(line: CodexLine, fallback_timestamp: i64) -> Option<Seq<char>> {
    if line.entry is Some && line.entry->0.payload is Some && starts_turn(
        line,
        line.entry->0.payload->0,
    ) {
        line.entry->0.payload->0.named_model()
    } else if line.entry is Some && line.entry->0.payload is Some && counts_tokens(
        line,
        line.entry->0.payload->0,
    ) {
        named_in_report(line.entry->0.payload->0)
    } else if is_other(line) {
        match event_in_text(trimmed(line.text@), fallback_timestamp) {
            Some(event) => event.model,
            None => None,
        }
    } else {
        None
    }
}

/// The directory that a line says the session works in.
pub open spec fn directory_said(line: CodexLine) -> Option<Seq<char>> {
    if line.entry is Some && line.entry->0.payload is Some {
        let payload = line.entry->0.payload->0;
        if (describes(line, payload) || starts_turn(line, payload) || counts_tokens(line, payload))
            && payload.cwd is Some && payload.cwd->0@.len() > 0 {
            Some(payload.cwd->0@)
        } else {
            None
        }
    } else {
        None
    }
}

/// The provider that a line gives a running session.
pub open spec fn live_provider_said(line: CodexLine) -> Option<Seq<char>> {
    if line.entry is Some && line.entry->0.payload is Some {
        let payload = line.entry->0.payload->0;
        if describes(line, payload) && payload.model_provider is Some
            && payload.model_provider->0@.len() > 0 {
            Some(payload.model_provider->0@)
        } else {
            None
        }
    } else {
        None
    }
}

proof fn a_line_says_what_is_kept(
    state: LiveState,
    line: CodexLine,
    fallback_timestamp: i64,
    now_ms: i64,
)
    requires
        sound_baseline(state.baseline),
        0 <= state.recent_tokens,
        0 <= state.total_tokens,
    ensures
        ({
            let next = follow_line(state, line, fallback_timestamp, now_ms);
            &&& live_model_said(line, fallback_timestamp) is Some ==> next.model
                == live_model_said(line, fallback_timestamp)
            &&& live_model_said(line, fallback_timestamp) is None ==> next.model == state.model || (
            state.model is None && next.model == Some("unknown"@))
            &&& directory_said(line) is Some ==> next.cwd == directory_said(line)
            &&& directory_said(line) is None ==> next.cwd == state.cwd
            &&& live_provider_said(line) is Some ==> next.provider == live_provider_said(line)
            &&& live_provider_said(line) is None ==> next.provider == state.provider
        }),
{
    types_are_told_apart();
    if trimmed(line.text@).len() > 0 {
        if line.entry is Some && line.entry->0.payload is Some {
            let payload = line.entry->0.payload->0;
            if describes(line, payload) {
                descriptions_say_how_a_running_session_runs(
                    state,
                    line,
                    payload,
                    fallback_timestamp,
                    now_ms,
                );
                assert(!is_other(line));
            } else if starts_turn(line, payload) {
                turns_set_model_and_directory(state, line, payload, fallback_timestamp, now_ms);
            } else if counts_tokens(line, payload) {
                reports_add_to_a_running_session(state, line, payload, fallback_timestamp, now_ms);
            } else {
                assert forall|other: CodexPayload|
                    !#[trigger] describes(line, other) && !starts_turn(line, other)
                        && !counts_tokens(line, other) by {}
                usage_adds_to_a_running_session(state, line, fallback_timestamp, now_ms);
            }
        } else {
            assert forall|other: CodexPayload|
                !#[trigger] describes(line, other) && !starts_turn(line, other) && !counts_tokens(
                    line,
                    other,
                ) by {}
            usage_adds_to_a_running_session(state, line, fallback_timestamp, now_ms);
        }
    }
}

/// The model, the directory and the provider of a running session are those that were said last; a
/// session of which none was said has none, or an unknown model.
pub proof fn a_running_session_is_what_was_said_last(
    lines: Seq<CodexLine>,
    path_is_headless: bool,
    fallback_timestamp: i64,
    now_ms: i64,
    k: int,
)
    requires
        0 <= k < lines.len(),
    ensures
        ({
            let state = follow_lines(
                start_of_session(path_is_headless),
                lines,
                fallback_timestamp,
                now_ms,
            );
            &&& live_model_said(lines[k], fallback_timestamp) is Some && (forall|j: int|
                k < j < lines.len() ==> live_model_said(
                    #[trigger] lines[j],
                    fallback_timestamp,
                ) is None) ==> state.model == live_model_said(lines[k], fallback_timestamp)
            &&& (forall|j: int|
                0 <= j < lines.len() ==> live_model_said(
                    #[trigger] lines[j],
                    fallback_timestamp,
                ) is None) ==> state.model is None || state.model == Some("unknown"@)
            &&& directory_said(lines[k]) is Some && (forall|j: int|
                k < j < lines.len() ==> directory_said(#[trigger] lines[j]) is None) ==> state.cwd
                == directory_said(lines[k])
            &&& (forall|j: int|
                0 <= j < lines.len() ==> directory_said(#[trigger] lines[j]) is None)
                ==> state.cwd is None
            &&& live_provider_said(lines[k]) is Some && (forall|j: int|
                k < j < lines.len() ==> live_provider_said(#[trigger] lines[j]) is None)
                ==> state.provider == live_provider_said(lines[k])
            &&& (forall|j: int|
                0 <= j < lines.len() ==> live_provider_said(#[trigger] lines[j]) is None)
                ==> state.provider is None
        }),
    decreases lines.len(),
{
    let rest = lines.drop_last();
    let line = lines.last();
    let before = follow_lines(
        start_of_session(path_is_headless),
        rest,
        fallback_timestamp,
        now_ms,
    );
    assert(forall|j: int| 0 <= j < rest.len() ==> rest[j] == lines[j]);
    assert(lines[lines.len() - 1] == line);
    if rest.len() > 0 {
        a_running_session_is_what_was_said_last(
            rest,
            path_is_headless,
            fallback_timestamp,
            now_ms,
            if k < rest.len() {
                k
            } else {
                0
            },
        );
    } else {
        assert(before == start_of_session(path_is_headless));
    }
    tokens_add_up(rest, path_is_headless, fallback_timestamp, now_ms);
    a_line_says_what_is_kept(before, line, fallback_timestamp, now_ms);
}

} // verus!

//! What holds of token counting and of session files as a whole.

pub mod counting;
pub mod following;
pub mod lines;
pub mod reading;
pub mod usage;

use crate::activity::{age, phase_at, RECENT_TOKENS_WINDOW_MS};
use crate::counting::{
    count_payload, count_report, nothing_used, skipped, sound_baseline, usage_totals, Counted,
};
use crate::current::{
    follow_line, follow_lines, follow_token_report, follow_usage_line, heard_of, is_active, shows,
    start_of_session, used, CodexCurrentSession, LiveState,
};
use crate::entry::CodexPayload;
use crate::file::{
    after_line, after_lines, after_token_report, entry_instant, is_session_meta, is_token_report,
    is_turn_context, start_of_file, tells_headless, CodexLine, FileState, DEFAULT_AGENT,
};
use crate::headless::{event_in_text, CODEX_CLIENT, HEADLESS_AGENT};
use crate::json::document_in;
use crate::message::MessageView;
use crate::repository::may_name_repository;
use crate::text::{first_of, non_empty, or_text, text_of, trimmed};
use crate::tokens::{saturated, CodexTokenUsage, CodexTotals};
use vstd::prelude::*;

verus! {

/// What a usage report counts is never negative.
pub proof fn usage_is_never_negative(usage: CodexTokenUsage)
    ensures
        CodexTotals::of_usage(usage).non_negative(),
{
}

/// The counters of `a` and `b` add up within `i64`.
pub open spec fn sums_fit(a: CodexTotals, b: CodexTotals) -> bool {
    &&& a.input + b.input <= i64::MAX
    &&& a.output + b.output <= i64::MAX
    &&& a.cached + b.cached <= i64::MAX
    &&& a.reasoning + b.reasoning <= i64::MAX
}

/// Totals that an increment was added to have advanced by that increment.
pub proof fn adding_then_comparing_gives_the_increment(base: CodexTotals, increment: CodexTotals)
    requires
        base.non_negative(),
        increment.non_negative(),
        sums_fit(base, increment),
    ensures
        base.plus(increment).advances(base),
        base.plus(increment).less(base) == increment,
{
}

/// The difference of two totals, added to the earlier ones, gives the later ones.
pub proof fn comparing_then_adding_gives_the_totals(total: CodexTotals, base: CodexTotals)
    requires
        base.non_negative(),
        total.advances(base),
    ensures
        base.plus(total.less(base)) == total,
{
}

/// The input of a message and what it read from the cache make up the input that was reported.
pub proof fn input_is_split_not_inflated(totals: CodexTotals)
    requires
        totals.non_negative(),
    ensures
        totals.breakdown().non_negative(),
        totals.breakdown().input + totals.breakdown().cache_read == totals.input,
        totals.breakdown().cache_read <= totals.cached,
        totals.breakdown().output == totals.output,
        totals.breakdown().reasoning == totals.reasoning,
        totals.cached <= totals.input ==> totals.breakdown().cache_read == totals.cached,
{
}

/// A report whose totals are those of the baseline adds nothing and leaves the baseline.
pub proof fn repeated_totals_add_nothing(total: CodexTotals, last: Option<CodexTotals>)
    ensures
        count_report(Some(total), last, Some(total)) == skipped(Some(total)),
{
}

/// A report that gave totals adds nothing when it is repeated, whatever it did the first time. If it
/// counted, its totals are the baseline.
pub proof fn a_repeated_report_is_counted_once(
    total: CodexTotals,
    last: Option<CodexTotals>,
    previous: Option<CodexTotals>,
)
    ensures
        ({
            let first = count_report(Some(total), last, previous);
            &&& count_report(Some(total), last, first.baseline) == skipped(first.baseline)
            &&& first.tokens is Some ==> first.baseline == Some(total)
        }),
{
}

/// An increment that came without totals is not counted again by totals that include it.
pub proof fn a_lone_increment_is_counted_once(
    base: CodexTotals,
    increment: CodexTotals,
    last: Option<CodexTotals>,
)
    requires
        count_report(None, Some(increment), Some(base)).tokens is Some,
    ensures
        ({
            let first = count_report(None, Some(increment), Some(base));
            &&& first.tokens == Some(increment.breakdown())
            &&& count_report(Some(base.plus(increment)), last, first.baseline) == skipped(
                first.baseline,
            )
        }),
{
}

/// A report that arrives out of order adds nothing and leaves the baseline.
pub proof fn stale_reports_add_nothing(total: CodexTotals, last: CodexTotals, base: CodexTotals)
    requires
        !total.advances(base),
        total.is_stale(base, last),
    ensures
        count_report(Some(total), Some(last), Some(base)) == skipped(Some(base)),
{
}

/// A report after a reset counts its increment, and the totals start anew.
pub proof fn a_reset_counts_the_increment(total: CodexTotals, last: CodexTotals, base: CodexTotals)
    requires
        !total.advances(base),
        !total.is_stale(base, last),
        !nothing_used(last.breakdown()),
    ensures
        count_report(Some(total), Some(last), Some(base)) == (Counted {
            tokens: Some(last.breakdown()),
            baseline: Some(total),
        }),
{
}

/// A session that starts out with totals, as a resumed one does, counts the first increment and
/// not what came before it.
pub proof fn a_resumed_session_counts_the_increment(total: CodexTotals, last: CodexTotals)
    requires
        !nothing_used(last.breakdown()),
    ensures
        count_report(Some(total), Some(last), None) == (Counted {
            tokens: Some(last.breakdown()),
            baseline: Some(total),
        }),
{
}

/// Of totals that grew and an increment, the increment counts, however much the totals grew.
pub proof fn the_increment_counts_over_the_growth(
    total: CodexTotals,
    last: CodexTotals,
    base: CodexTotals,
)
    requires
        total != base,
        total.advances(base),
        !nothing_used(last.breakdown()),
    ensures
        count_report(Some(total), Some(last), Some(base)) == (Counted {
            tokens: Some(last.breakdown()),
            baseline: Some(total),
        }),
{
}

/// A report that adds nothing leaves the baseline, unless it gives lower totals and no increment.
pub proof fn an_empty_report_leaves_the_baseline(
    total: Option<CodexTotals>,
    last: Option<CodexTotals>,
    previous: Option<CodexTotals>,
)
    requires
        count_report(total, last, previous).tokens is None,
        !(total is Some && last is None && previous is Some && !total->0.advances(previous->0)),
    ensures
        count_report(total, last, previous).baseline == previous,
{
}

/// What a report counts was used: no counter is negative and not all are zero. The baseline never
/// turns negative.
pub proof fn reports_count_what_was_used(
    total: Option<CodexTotals>,
    last: Option<CodexTotals>,
    previous: Option<CodexTotals>,
)
    requires
        sound_baseline(total),
        sound_baseline(last),
        sound_baseline(previous),
    ensures
        sound_baseline(count_report(total, last, previous).baseline),
        count_report(total, last, previous).tokens matches Some(tokens) ==> {
            &&& tokens.non_negative()
            &&& !nothing_used(tokens)
            &&& tokens.sum() > 0
            &&& tokens.cache_write == 0
        },
{
}

/// What the counters of a payload count was used, and the baseline never turns negative.
pub proof fn counted_payloads_were_used(payload: CodexPayload, previous: Option<CodexTotals>)
    requires
        sound_baseline(previous),
    ensures
        sound_baseline(count_payload(payload, previous).baseline),
        count_payload(payload, previous).tokens matches Some(tokens) ==> {
            &&& tokens.non_negative()
            &&& !nothing_used(tokens)
            &&& tokens.sum() > 0
            &&& tokens.cache_write == 0
        },
{
    if let Some(info) = payload.info {
        reports_count_what_was_used(
            usage_totals(info.total_token_usage),
            usage_totals(info.last_token_usage),
            previous,
        );
    }
}

/// A payload never names a model by an empty name.
pub proof fn named_models_are_not_empty(payload: CodexPayload)
    ensures
        payload.named_model() matches Some(model) ==> model.len() > 0,
{
}

/// What a series of reports that give totals alone counts: all increments added up.
pub ghost struct Tally {
    pub input: int,
    pub output: int,
    pub reasoning: int,
    pub baseline: Option<CodexTotals>,
}

/// The tally of reports of `totals`, from a session's start.
pub open spec fn tally(totals: Seq<CodexTotals>) -> Tally
    decreases totals.len(),
{
    if totals.len() == 0 {
        Tally { input: 0, output: 0, reasoning: 0, baseline: None }
    } else {
        let before = tally(totals.drop_last());
        let counted = count_report(Some(totals.last()), None, before.baseline);
        match counted.tokens {
            Some(tokens) => Tally {
                input: before.input + tokens.input + tokens.cache_read,
                output: before.output + tokens.output,
                reasoning: before.reasoning + tokens.reasoning,
                baseline: counted.baseline,
            },
            None => Tally { baseline: counted.baseline, ..before },
        }
    }
}

/// What is counted of totals that only grow adds up to the last of them: nothing is counted twice,
/// and nothing is lost.
pub proof fn growing_totals_are_counted_exactly(totals: Seq<CodexTotals>)
    requires
        totals.len() > 0,
        forall|i: int| 0 <= i < totals.len() ==> (#[trigger] totals[i]).non_negative(),
        forall|i: int, j: int| 0 <= i <= j < totals.len() ==> #[trigger] totals[j].advances(
            #[trigger] totals[i],
        ),
    ensures
        tally(totals).input == totals.last().input,
        tally(totals).output == totals.last().output,
        tally(totals).reasoning == totals.last().reasoning,
{
    tally_follows(totals);
}

/// The baseline of a tally lags behind the last totals in nothing that counts by itself.
proof fn tally_follows(totals: Seq<CodexTotals>)
    requires
        totals.len() > 0,
        forall|i: int| 0 <= i < totals.len() ==> (#[trigger] totals[i]).non_negative(),
        forall|i: int, j: int| 0 <= i <= j < totals.len() ==> #[trigger] totals[j].advances(
            #[trigger] totals[i],
        ),
    ensures
        tally(totals).input == totals.last().input,
        tally(totals).output == totals.last().output,
        tally(totals).reasoning == totals.last().reasoning,
        (match tally(totals).baseline {
            Some(base) => {
                &&& base.non_negative()
                &&& totals.last().advances(base)
                &&& base.input == totals.last().input
                &&& base.output == totals.last().output
                &&& base.reasoning == totals.last().reasoning
            },
            None => totals.last().input == 0 && totals.last().output == 0
                && totals.last().reasoning == 0,
        }),
    decreases totals.len(),
{
    let before = totals.drop_last();
    if before.len() > 0 {
        assert forall|i: int, j: int| 0 <= i <= j < before.len() implies #[trigger] before[j].advances(
            #[trigger] before[i],
        ) by {
            assert(totals[j].advances(totals[i]));
        }
        tally_follows(before);
        assert(totals[totals.len() - 1].advances(totals[totals.len() - 2]));
    } else {
        assert(tally(before).baseline is None);
    }
}

/// Reading a file in two parts is reading it in one.
pub proof fn reading_in_parts(
    state: FileState,
    first: Seq<CodexLine>,
    second: Seq<CodexLine>,
    session_id: Seq<char>,
    fallback_timestamp: i64,
)
    ensures
        after_lines(state, first + second, session_id, fallback_timestamp) == after_lines(
            after_lines(state, first, session_id, fallback_timestamp),
            second,
            session_id,
            fallback_timestamp,
        ),
    decreases second.len(),
{
    if second.len() == 0 {
        assert(first + second =~= first);
    } else {
        assert((first + second).drop_last() =~= first + second.drop_last());
        reading_in_parts(state, first, second.drop_last(), session_id, fallback_timestamp);
    }
}

/// Following a file in two parts is following it in one.
pub proof fn following_in_parts(
    state: LiveState,
    first: Seq<CodexLine>,
    second: Seq<CodexLine>,
    fallback_timestamp: i64,
    now_ms: i64,
)
    ensures
        follow_lines(state, first + second, fallback_timestamp, now_ms) == follow_lines(
            follow_lines(state, first, fallback_timestamp, now_ms),
            second,
            fallback_timestamp,
            now_ms,
        ),
    decreases second.len(),
{
    if second.len() == 0 {
        assert(first + second =~= first);
    } else {
        assert((first + second).drop_last() =~= first + second.drop_last());
        following_in_parts(state, first, second.drop_last(), fallback_timestamp, now_ms);
    }
}

/// A blank line changes nothing, whatever entry stands beside it.
pub proof fn blank_lines_do_not_count(
    file: FileState,
    live: LiveState,
    line: CodexLine,
    session_id: Seq<char>,
    fallback_timestamp: i64,
    now_ms: i64,
)
    requires
        trimmed(line.text@).len() == 0,
    ensures
        after_line(file, line, session_id, fallback_timestamp) == file,
        follow_line(live, line, fallback_timestamp, now_ms) == live,
{
}

/// A line that is neither an entry nor a JSON document changes nothing.
pub proof fn unreadable_lines_do_not_count(
    file: FileState,
    live: LiveState,
    line: CodexLine,
    session_id: Seq<char>,
    fallback_timestamp: i64,
    now_ms: i64,
)
    requires
        line.entry is None,
        document_in(trimmed(line.text@)) is None,
    ensures
        after_line(file, line, session_id, fallback_timestamp) == file,
        follow_line(live, line, fallback_timestamp, now_ms) == live,
{
}

/// A message of the session `session_id` that counts nothing negative.
pub open spec fn is_message_of(message: MessageView, session_id: Seq<char>) -> bool {
    &&& message.client == CODEX_CLIENT@
    &&& message.session_id == session_id
    &&& message.tokens.non_negative()
    &&& message.tokens.cache_write == 0
}

/// What reading keeps: a baseline that is not negative, and messages of this session.
pub open spec fn keeps_file(state: FileState, session_id: Seq<char>) -> bool {
    &&& sound_baseline(state.baseline)
    &&& forall|i: int|
        0 <= i < state.messages.len() ==> is_message_of(#[trigger] state.messages[i], session_id)
}

/// Each line adds at most one message and takes none away; a session that was headless stays so.
pub proof fn a_line_adds_at_most_one_message(
    state: FileState,
    line: CodexLine,
    session_id: Seq<char>,
    fallback_timestamp: i64,
)
    requires
        keeps_file(state, session_id),
    ensures
        ({
            let next = after_line(state, line, session_id, fallback_timestamp);
            &&& keeps_file(next, session_id)
            &&& state.messages.is_prefix_of(next.messages)
            &&& next.messages.len() <= state.messages.len() + 1
            &&& state.headless ==> next.headless
        }),
{
    let next = after_line(state, line, session_id, fallback_timestamp);
    if let Some(entry) = line.entry {
        if let Some(payload) = entry.payload {
            counted_payloads_were_used(payload, state.baseline);
        }
    }
    assert(state.messages.is_prefix_of(next.messages));
}

/// The number of lines that are not blank.
pub open spec fn lines_with_content(lines: Seq<CodexLine>) -> nat
    decreases lines.len(),
{
    if lines.len() == 0 {
        0
    } else if trimmed(lines.last().text@).len() == 0 {
        lines_with_content(lines.drop_last())
    } else {
        lines_with_content(lines.drop_last()) + 1
    }
}

/// Reading lines keeps the messages that are there, gives at most one for each line that is not
/// blank, and all of them are of this session.
pub proof fn reading_only_adds_messages(
    state: FileState,
    lines: Seq<CodexLine>,
    session_id: Seq<char>,
    fallback_timestamp: i64,
)
    requires
        keeps_file(state, session_id),
    ensures
        ({
            let next = after_lines(state, lines, session_id, fallback_timestamp);
            &&& keeps_file(next, session_id)
            &&& state.messages.is_prefix_of(next.messages)
            &&& next.messages.len() <= state.messages.len() + lines_with_content(lines)
            &&& state.headless ==> next.headless
        }),
    decreases lines.len(),
{
    if lines.len() > 0 {
        reading_only_adds_messages(state, lines.drop_last(), session_id, fallback_timestamp);
        a_line_adds_at_most_one_message(
            after_lines(state, lines.drop_last(), session_id, fallback_timestamp),
            lines.last(),
            session_id,
            fallback_timestamp,
        );
    }
}

/// The messages that a headless session gives name the agent of headless runs.
pub proof fn headless_sessions_report_as_headless(
    state: FileState,
    line: CodexLine,
    session_id: Seq<char>,
    fallback_timestamp: i64,
)
    requires
        state.headless,
    ensures
        ({
            let next = after_line(state, line, session_id, fallback_timestamp);
            next.messages != state.messages ==> next.messages.last().agent == Some(HEADLESS_AGENT@)
        }),
{
}

/// What following keeps at `now_ms`: a baseline that is not negative, recent tokens that are part
/// of all tokens and there exactly where the last tokens are recent, and tokens that were used no
/// later than the session was heard of.
pub open spec fn keeps_session(state: LiveState, now_ms: i64) -> bool {
    &&& sound_baseline(state.baseline)
    &&& 0 <= state.recent_tokens <= state.total_tokens
    &&& state.total_tokens > 0 <==> state.last_token_at is Some
    &&& state.recent_tokens > 0 <==> state.last_token_at is Some && age(
        now_ms,
        state.last_token_at->0,
    ) <= RECENT_TOKENS_WINDOW_MS
    &&& state.last_token_at matches Some(tokens) ==> (state.last_event_at matches Some(event)
        && tokens <= event)
}

/// `next` was heard of no earlier than `state`, counts no less, and is headless if `state` is.
pub open spec fn succeeds(next: LiveState, state: LiveState) -> bool {
    &&& next.total_tokens >= state.total_tokens
    &&& next.recent_tokens >= state.recent_tokens
    &&& state.headless ==> next.headless
    &&& state.last_event_at matches Some(before) ==> (next.last_event_at matches Some(after)
        && before <= after)
    &&& state.last_token_at matches Some(before) ==> (next.last_token_at matches Some(after)
        && before <= after)
}

proof fn using_tokens_adds(state: LiveState, tokens: i64, instant: i64, now_ms: i64)
    requires
        keeps_session(state, now_ms),
        tokens > 0,
        state.last_event_at is Some,
        instant <= state.last_event_at->0,
    ensures
        keeps_session(used(state, tokens, instant, now_ms), now_ms),
        succeeds(used(state, tokens, instant, now_ms), state),
{
}

proof fn a_report_adds(state: LiveState, payload: CodexPayload, instant: i64, now_ms: i64)
    requires
        keeps_session(state, now_ms),
        state.last_event_at is Some,
        instant <= state.last_event_at->0,
    ensures
        keeps_session(follow_token_report(state, payload, instant, now_ms), now_ms),
        succeeds(follow_token_report(state, payload, instant, now_ms), state),
{
    counted_payloads_were_used(payload, state.baseline);
    let counted = count_payload(payload, state.baseline);
    if let Some(tokens) = counted.tokens {
        let next = follow_token_report(state, payload, instant, now_ms);
        let moved = LiveState {
            baseline: counted.baseline,
            model: next.model,
            cwd: next.cwd,
            ..state
        };
        using_tokens_adds(moved, tokens.sum(), instant, now_ms);
        assert(next == used(moved, tokens.sum(), instant, now_ms));
    }
}

proof fn a_usage_line_adds(
    state: LiveState,
    content: Seq<char>,
    fallback_timestamp: i64,
    now_ms: i64,
)
    requires
        keeps_session(state, now_ms),
    ensures
        keeps_session(follow_usage_line(state, content, fallback_timestamp, now_ms), now_ms),
        succeeds(follow_usage_line(state, content, fallback_timestamp, now_ms), state),
{
    if let Some(event) = event_in_text(content, fallback_timestamp) {
        let heard = LiveState {
            model: first_of(event.model, state.model),
            ..heard_of(state, event.timestamp)
        };
        assert(keeps_session(heard, now_ms));
        if event.tokens.sum() > 0 {
            using_tokens_adds(heard, event.tokens.sum(), event.timestamp, now_ms);
        }
    }
}

/// Each line leaves a session as it has to be, and only adds to it.
pub proof fn a_line_only_adds_to_a_session(
    state: LiveState,
    line: CodexLine,
    fallback_timestamp: i64,
    now_ms: i64,
)
    requires
        keeps_session(state, now_ms),
    ensures
        keeps_session(follow_line(state, line, fallback_timestamp, now_ms), now_ms),
        succeeds(follow_line(state, line, fallback_timestamp, now_ms), state),
{
    let content = trimmed(line.text@);
    match line.entry {
        Some(entry) => {
            let instant = entry_instant(entry, fallback_timestamp);
            let heard = heard_of(state, instant);
            assert(keeps_session(heard, now_ms));
            a_usage_line_adds(heard, content, fallback_timestamp, now_ms);
            if let Some(payload) = entry.payload {
                a_report_adds(heard, payload, instant, now_ms);
            }
        },
        None => {
            a_usage_line_adds(state, content, fallback_timestamp, now_ms);
        },
    }
}

/// Following lines only adds to a session: its counters grow, it was heard of no earlier, recent
/// tokens stay part of all tokens and are there exactly where the last tokens are recent, and
/// tokens are never later than the last event.
pub proof fn following_only_adds_to_a_session(
    state: LiveState,
    lines: Seq<CodexLine>,
    fallback_timestamp: i64,
    now_ms: i64,
)
    requires
        keeps_session(state, now_ms),
    ensures
        keeps_session(follow_lines(state, lines, fallback_timestamp, now_ms), now_ms),
        succeeds(follow_lines(state, lines, fallback_timestamp, now_ms), state),
    decreases lines.len(),
{
    if lines.len() > 0 {
        following_only_adds_to_a_session(state, lines.drop_last(), fallback_timestamp, now_ms);
        a_line_only_adds_to_a_session(
            follow_lines(state, lines.drop_last(), fallback_timestamp, now_ms),
            lines.last(),
            fallback_timestamp,
            now_ms,
        );
    }
}

/// A session that is heard of again was, and is, active: more lines never make it inactive.
pub proof fn more_lines_keep_a_session_active(
    state: LiveState,
    lines: Seq<CodexLine>,
    fallback_timestamp: i64,
    now_ms: i64,
)
    requires
        keeps_session(state, now_ms),
        is_active(state, now_ms),
    ensures
        is_active(follow_lines(state, lines, fallback_timestamp, now_ms), now_ms),
{
    following_only_adds_to_a_session(state, lines, fallback_timestamp, now_ms);
}

/// `later` is `earlier` but for recent tokens, of which it has no more.
pub open spec fn fades_to(earlier: LiveState, later: LiveState) -> bool {
    &&& later == LiveState { recent_tokens: later.recent_tokens, ..earlier }
    &&& later.recent_tokens <= earlier.recent_tokens
}

proof fn using_tokens_fades(
    earlier: LiveState,
    later: LiveState,
    tokens: i64,
    instant: i64,
    earlier_ms: i64,
    later_ms: i64,
)
    requires
        earlier_ms <= later_ms,
        fades_to(earlier, later),
        tokens > 0,
    ensures
        fades_to(
            used(earlier, tokens, instant, earlier_ms),
            used(later, tokens, instant, later_ms),
        ),
{
}

proof fn a_usage_line_fades(
    earlier: LiveState,
    later: LiveState,
    content: Seq<char>,
    fallback_timestamp: i64,
    earlier_ms: i64,
    later_ms: i64,
)
    requires
        earlier_ms <= later_ms,
        fades_to(earlier, later),
    ensures
        fades_to(
            follow_usage_line(earlier, content, fallback_timestamp, earlier_ms),
            follow_usage_line(later, content, fallback_timestamp, later_ms),
        ),
{
    if let Some(event) = event_in_text(content, fallback_timestamp) {
        let model = first_of(event.model, earlier.model);
        let earlier = LiveState { model, ..heard_of(earlier, event.timestamp) };
        let later = LiveState { model, ..heard_of(later, event.timestamp) };
        assert(fades_to(earlier, later));
        if event.tokens.sum() > 0 {
            using_tokens_fades(
                earlier,
                later,
                event.tokens.sum(),
                event.timestamp,
                earlier_ms,
                later_ms,
            );
        }
    }
}

proof fn a_report_fades(
    earlier: LiveState,
    later: LiveState,
    payload: CodexPayload,
    instant: i64,
    earlier_ms: i64,
    later_ms: i64,
)
    requires
        earlier_ms <= later_ms,
        fades_to(earlier, later),
        sound_baseline(earlier.baseline),
    ensures
        fades_to(
            follow_token_report(earlier, payload, instant, earlier_ms),
            follow_token_report(later, payload, instant, later_ms),
        ),
{
    counted_payloads_were_used(payload, earlier.baseline);
    let counted = count_payload(payload, earlier.baseline);
    if let Some(tokens) = counted.tokens {
        let next = follow_token_report(earlier, payload, instant, earlier_ms);
        let earlier_moved = LiveState {
            baseline: counted.baseline,
            model: next.model,
            cwd: next.cwd,
            ..earlier
        };
        let later_moved = LiveState {
            baseline: counted.baseline,
            model: next.model,
            cwd: next.cwd,
            ..later
        };
        using_tokens_fades(
            earlier_moved,
            later_moved,
            tokens.sum(),
            instant,
            earlier_ms,
            later_ms,
        );
        assert(next == used(earlier_moved, tokens.sum(), instant, earlier_ms));
        assert(follow_token_report(later, payload, instant, later_ms) == used(
            later_moved,
            tokens.sum(),
            instant,
            later_ms,
        ));
    }
}

proof fn a_line_fades(
    earlier: LiveState,
    later: LiveState,
    line: CodexLine,
    fallback_timestamp: i64,
    earlier_ms: i64,
    later_ms: i64,
)
    requires
        earlier_ms <= later_ms,
        fades_to(earlier, later),
        sound_baseline(earlier.baseline),
    ensures
        fades_to(
            follow_line(earlier, line, fallback_timestamp, earlier_ms),
            follow_line(later, line, fallback_timestamp, later_ms),
        ),
{
    let content = trimmed(line.text@);
    match line.entry {
        Some(entry) => {
            let instant = entry_instant(entry, fallback_timestamp);
            let earlier = heard_of(earlier, instant);
            let later = heard_of(later, instant);
            assert(fades_to(earlier, later));
            a_usage_line_fades(
                earlier,
                later,
                content,
                fallback_timestamp,
                earlier_ms,
                later_ms,
            );
            if let Some(payload) = entry.payload {
                a_report_fades(earlier, later, payload, instant, earlier_ms, later_ms);
            }
        },
        None => {
            a_usage_line_fades(
                earlier,
                later,
                content,
                fallback_timestamp,
                earlier_ms,
                later_ms,
            );
        },
    }
}

/// The same lines, looked at later, tell the same of a session but that fewer tokens are recent.
pub proof fn looking_later_only_fades(
    path_is_headless: bool,
    lines: Seq<CodexLine>,
    fallback_timestamp: i64,
    earlier_ms: i64,
    later_ms: i64,
)
    requires
        earlier_ms <= later_ms,
    ensures
        fades_to(
            follow_lines(
                start_of_session(path_is_headless),
                lines,
                fallback_timestamp,
                earlier_ms,
            ),
            follow_lines(
                start_of_session(path_is_headless),
                lines,
                fallback_timestamp,
                later_ms,
            ),
        ),
        is_active(
            follow_lines(start_of_session(path_is_headless), lines, fallback_timestamp, later_ms),
            later_ms,
        ) ==> is_active(
            follow_lines(
                start_of_session(path_is_headless),
                lines,
                fallback_timestamp,
                earlier_ms,
            ),
            earlier_ms,
        ),
    decreases lines.len(),
{
    let start = start_of_session(path_is_headless);
    if lines.len() > 0 {
        let rest = lines.drop_last();
        looking_later_only_fades(
            path_is_headless,
            rest,
            fallback_timestamp,
            earlier_ms,
            later_ms,
        );
        let earlier = follow_lines(start, rest, fallback_timestamp, earlier_ms);
        let later = follow_lines(start, rest, fallback_timestamp, later_ms);
        following_only_adds_to_a_session(start, rest, fallback_timestamp, earlier_ms);
        a_line_fades(earlier, later, lines.last(), fallback_timestamp, earlier_ms, later_ms);
    }
}

/// The description of the session that a line gives.
pub open spec fn description_in(line: CodexLine) -> Option<CodexPayload> {
    if trimmed(line.text@).len() > 0 && line.entry is Some && is_session_meta(line.entry->0) {
        line.entry->0.payload
    } else {
        None
    }
}

/// A line describes the session as one of a headless run.
pub open spec fn tell_headless(lines: Seq<CodexLine>) -> bool {
    exists|i: int|
        0 <= i < lines.len() && (#[trigger] description_in(lines[i]) matches Some(payload)
            && tells_headless(payload))
}

/// The last name, of those that are not empty, that lines give the agent of the session.
pub open spec fn last_nickname(lines: Seq<CodexLine>) -> Option<Seq<char>>
    decreases lines.len(),
{
    if lines.len() == 0 {
        None
    } else {
        let earlier = last_nickname(lines.drop_last());
        match description_in(lines.last()) {
            Some(payload) => first_of(non_empty(text_of(payload.agent_nickname)), earlier),
            None => earlier,
        }
    }
}

proof fn descriptions_are_followed(
    lines: Seq<CodexLine>,
    path_is_headless: bool,
    fallback_timestamp: i64,
    now_ms: i64,
)
    ensures
        ({
            let state = follow_lines(
                start_of_session(path_is_headless),
                lines,
                fallback_timestamp,
                now_ms,
            );
            &&& state.headless <==> path_is_headless || tell_headless(lines)
            &&& state.agent == last_nickname(lines)
        }),
    decreases lines.len(),
{
    if lines.len() > 0 {
        let rest = lines.drop_last();
        descriptions_are_followed(rest, path_is_headless, fallback_timestamp, now_ms);
        assert forall|i: int| 0 <= i < rest.len() implies #[trigger] description_in(rest[i])
            == description_in(lines[i]) by {}
        let last = description_in(lines[lines.len() - 1]);
        if tell_headless(rest) {
            let i = choose|i: int|
                0 <= i < rest.len() && (#[trigger] description_in(rest[i]) matches Some(payload)
                    && tells_headless(payload));
            assert(description_in(lines[i]) == description_in(rest[i]));
        }
        if tell_headless(lines) && !tell_headless(rest) {
            let i = choose|i: int|
                0 <= i < lines.len() && (#[trigger] description_in(lines[i]) matches Some(payload)
                    && tells_headless(payload));
            assert(i < rest.len() ==> description_in(rest[i]) == description_in(lines[i]));
        }
        assert(tell_headless(lines) <==> tell_headless(rest) || (last is Some && tells_headless(
            last->0,
        )));
    }
}

/// The line, if it is not blank, is read for usage: it is no entry that says something else.
pub open spec fn reads_as_usage(line: CodexLine) -> bool {
    match line.entry {
        Some(entry) => match entry.payload {
            Some(payload) => !is_session_meta(entry) && !is_turn_context(entry) && !is_token_report(
                entry,
                payload,
            ),
            None => true,
        },
        None => true,
    }
}

/// The line is an event at `instant`: by its entry, or by the usage that it tells.
pub open spec fn is_event_at(line: CodexLine, fallback_timestamp: i64, instant: i64) -> bool {
    let content = trimmed(line.text@);
    &&& content.len() > 0
    &&& {
        ||| line.entry is Some && instant == entry_instant(line.entry->0, fallback_timestamp)
        ||| reads_as_usage(line) && (event_in_text(content, fallback_timestamp) matches Some(event)
            && instant == event.timestamp)
    }
}

/// One of the lines is an event at `instant`.
pub open spec fn have_event_at(
    lines: Seq<CodexLine>,
    fallback_timestamp: i64,
    instant: i64,
) -> bool {
    exists|i: int|
        0 <= i < lines.len() && #[trigger] is_event_at(lines[i], fallback_timestamp, instant)
}

/// `last` is the latest event of the lines: `None` exactly where they have none.
pub open spec fn is_last_event(
    lines: Seq<CodexLine>,
    fallback_timestamp: i64,
    last: Option<i64>,
) -> bool {
    &&& last matches Some(last) ==> have_event_at(lines, fallback_timestamp, last)
    &&& forall|instant: i64| #[trigger]
        have_event_at(lines, fallback_timestamp, instant) ==> last is Some && instant <= last->0
}

proof fn events_come_from_the_last_line_or_before(
    lines: Seq<CodexLine>,
    fallback_timestamp: i64,
    instant: i64,
)
    requires
        lines.len() > 0,
    ensures
        have_event_at(lines, fallback_timestamp, instant) <==> have_event_at(
            lines.drop_last(),
            fallback_timestamp,
            instant,
        ) || is_event_at(lines.last(), fallback_timestamp, instant),
{
    let rest = lines.drop_last();
    if have_event_at(lines, fallback_timestamp, instant) {
        let i = choose|i: int|
            0 <= i < lines.len() && #[trigger] is_event_at(lines[i], fallback_timestamp, instant);
        assert(i < rest.len() ==> is_event_at(rest[i], fallback_timestamp, instant));
    }
    if have_event_at(rest, fallback_timestamp, instant) {
        let i = choose|i: int|
            0 <= i < rest.len() && #[trigger] is_event_at(rest[i], fallback_timestamp, instant);
        assert(is_event_at(lines[i], fallback_timestamp, instant));
    }
    assert(lines[lines.len() - 1] == lines.last());
}

/// The last event of a session is the latest of its entries and of the usage that its lines tell.
pub proof fn the_last_event_is_the_latest(
    lines: Seq<CodexLine>,
    path_is_headless: bool,
    fallback_timestamp: i64,
    now_ms: i64,
)
    ensures
        is_last_event(
            lines,
            fallback_timestamp,
            follow_lines(
                start_of_session(path_is_headless),
                lines,
                fallback_timestamp,
                now_ms,
            ).last_event_at,
        ),
    decreases lines.len(),
{
    let start = start_of_session(path_is_headless);
    let state = follow_lines(start, lines, fallback_timestamp, now_ms);
    if lines.len() > 0 {
        let rest = lines.drop_last();
        the_last_event_is_the_latest(rest, path_is_headless, fallback_timestamp, now_ms);
        let before = follow_lines(start, rest, fallback_timestamp, now_ms);
        if let Some(last) = before.last_event_at {
            events_come_from_the_last_line_or_before(lines, fallback_timestamp, last);
        }
        if let Some(last) = state.last_event_at {
            events_come_from_the_last_line_or_before(lines, fallback_timestamp, last);
            assert(state.last_event_at == before.last_event_at || is_event_at(
                lines.last(),
                fallback_timestamp,
                last,
            ));
        }
        assert forall|instant: i64| #[trigger]
            have_event_at(lines, fallback_timestamp, instant) implies state.last_event_at is Some
            && instant <= state.last_event_at->0 by {
            events_come_from_the_last_line_or_before(lines, fallback_timestamp, instant);
        }
    }
}

/// A session is headless where its file lies or one of its lines says so, and then has the agent of
/// headless runs; any other has the agent that was named last. Its last event is the latest of its
/// lines, its phase is that of its last event and tokens, and its repository is that of its
/// directory.
pub proof fn sessions_show_what_their_lines_say(
    session: CodexCurrentSession,
    lines: Seq<CodexLine>,
    session_id: Seq<char>,
    now_ms: i64,
    path_is_headless: bool,
    fallback_timestamp: i64,
)
    requires
        shows(
            session,
            follow_lines(start_of_session(path_is_headless), lines, fallback_timestamp, now_ms),
            session_id,
            now_ms,
        ),
    ensures
        session.session_kind is Headless <==> path_is_headless || tell_headless(lines),
        session.session_kind is Headless ==> text_of(session.agent) == Some(HEADLESS_AGENT@),
        session.session_kind is Interactive ==> text_of(session.agent) == Some(
            or_text(last_nickname(lines), DEFAULT_AGENT@),
        ),
        is_last_event(lines, fallback_timestamp, Some(session.last_event_at)),
        session.phase == phase_at(now_ms, session.last_event_at, session.last_token_at),
        may_name_repository(text_of(session.cwd), text_of(session.repo_name)),
{
    the_last_event_is_the_latest(lines, path_is_headless, fallback_timestamp, now_ms);
    descriptions_are_followed(lines, path_is_headless, fallback_timestamp, now_ms);
}

/// The tokens of messages, added up and held within `i64`.
pub open spec fn tokens_of(messages: Seq<MessageView>) -> i64
    decreases messages.len(),
{
    if messages.len() == 0 {
        0
    } else {
        saturated(tokens_of(messages.drop_last()) + messages.last().tokens.sum())
    }
}

/// The line is a token report with `payload`.
pub open spec fn reports(line: CodexLine, payload: CodexPayload) -> bool {
    &&& trimmed(line.text@).len() > 0
    &&& line.entry is Some
    &&& line.entry->0.payload == Some(payload)
    &&& is_token_report(line.entry->0, payload)
}

/// A token report is read as such, and as nothing else.
proof fn a_report_is_read(
    state: FileState,
    line: CodexLine,
    payload: CodexPayload,
    session_id: Seq<char>,
    fallback_timestamp: i64,
)
    requires
        reports(line, payload),
    ensures
        after_line(state, line, session_id, fallback_timestamp) == after_token_report(
            state,
            payload,
            session_id,
            entry_instant(line.entry->0, fallback_timestamp),
        ),
{
    reveal_strlit("event_msg");
    reveal_strlit("session_meta");
    reveal_strlit("turn_context");
    assert("event_msg"@.len() == 9 && "session_meta"@.len() == 12 && "turn_context"@.len() == 12);
}

/// The payload gives totals, or no increment either.
pub open spec fn gives_no_lone_increment(payload: CodexPayload) -> bool {
    payload.info matches Some(info) ==> info.last_token_usage is Some
        ==> info.total_token_usage is Some
}

/// A token report changes nothing when it comes again, unless it gives an increment and no totals.
pub proof fn a_repeated_line_is_counted_once(
    state: FileState,
    line: CodexLine,
    payload: CodexPayload,
    session_id: Seq<char>,
    fallback_timestamp: i64,
)
    requires
        reports(line, payload),
        gives_no_lone_increment(payload),
    ensures
        ({
            let first = after_line(state, line, session_id, fallback_timestamp);
            after_line(first, line, session_id, fallback_timestamp) == first
        }),
{
    let first = after_line(state, line, session_id, fallback_timestamp);
    a_report_is_read(state, line, payload, session_id, fallback_timestamp);
    a_report_is_read(first, line, payload, session_id, fallback_timestamp);
    if let Some(info) = payload.info {
        if let Some(total) = info.total_token_usage {
            a_repeated_report_is_counted_once(
                CodexTotals::of_usage(total),
                usage_totals(info.last_token_usage),
                state.baseline,
            );
        }
    }
}

/// The line reports the totals `total` and no increment.
pub open spec fn tells_totals(line: CodexLine, total: CodexTotals) -> bool {
    exists|payload: CodexPayload| #[trigger]
        reports(line, payload) && payload.info is Some && usage_totals(
            payload.info->0.total_token_usage,
        ) == Some(total) && payload.info->0.last_token_usage is None
}

/// The messages of a file of totals that only grow add up to the last of them: no token is counted
/// twice, and none is lost.
pub proof fn a_file_of_growing_totals_adds_up_to_the_last(
    lines: Seq<CodexLine>,
    totals: Seq<CodexTotals>,
    session_id: Seq<char>,
    fallback_timestamp: i64,
)
    requires
        totals.len() > 0,
        lines.len() == totals.len(),
        forall|i: int| 0 <= i < lines.len() ==> #[trigger] tells_totals(lines[i], totals[i]),
        forall|i: int, j: int| 0 <= i <= j < totals.len() ==> #[trigger] totals[j].advances(
            #[trigger] totals[i],
        ),
        totals.last().input + totals.last().output + totals.last().reasoning <= i64::MAX,
    ensures
        tokens_of(after_lines(start_of_file(), lines, session_id, fallback_timestamp).messages)
            == totals.last().input + totals.last().output + totals.last().reasoning,
{
    assert forall|i: int| 0 <= i < totals.len() implies (#[trigger] totals[i]).non_negative() by {
        assert(tells_totals(lines[i], totals[i]));
    }
    a_file_follows_its_tally(lines, totals, session_id, fallback_timestamp);
    growing_totals_are_counted_exactly(totals);
}

proof fn a_file_follows_its_tally(
    lines: Seq<CodexLine>,
    totals: Seq<CodexTotals>,
    session_id: Seq<char>,
    fallback_timestamp: i64,
)
    requires
        totals.len() > 0,
        lines.len() == totals.len(),
        forall|i: int| 0 <= i < lines.len() ==> #[trigger] tells_totals(lines[i], totals[i]),
        forall|i: int| 0 <= i < totals.len() ==> (#[trigger] totals[i]).non_negative(),
        forall|i: int, j: int| 0 <= i <= j < totals.len() ==> #[trigger] totals[j].advances(
            #[trigger] totals[i],
        ),
        totals.last().input + totals.last().output + totals.last().reasoning <= i64::MAX,
    ensures
        ({
            let file = after_lines(start_of_file(), lines, session_id, fallback_timestamp);
            &&& file.baseline == tally(totals).baseline
            &&& tokens_of(file.messages) == tally(totals).input + tally(totals).output + tally(
                totals,
            ).reasoning
        }),
    decreases totals.len(),
{
    let rest = lines.drop_last();
    let before = totals.drop_last();
    let file = after_lines(start_of_file(), rest, session_id, fallback_timestamp);
    if before.len() > 0 {
        assert forall|i: int| 0 <= i < rest.len() implies #[trigger] tells_totals(
            rest[i],
            before[i],
        ) by {
            assert(tells_totals(lines[i], totals[i]));
        }
        assert forall|i: int, j: int| 0 <= i <= j < before.len() implies #[trigger] before[j].advances(
            #[trigger] before[i],
        ) by {
            assert(totals[j].advances(totals[i]));
        }
        assert(totals[totals.len() - 1].advances(totals[totals.len() - 2]));
        a_file_follows_its_tally(rest, before, session_id, fallback_timestamp);
        tally_follows(before);
    } else {
        assert(tally(before) == (Tally { input: 0, output: 0, reasoning: 0, baseline: None }));
        assert(file == start_of_file());
        assert(tokens_of(file.messages) == 0);
    }
    tally_follows(totals);
    assert(tells_totals(lines[lines.len() - 1], totals[totals.len() - 1]));
    let payload = choose|payload: CodexPayload| #[trigger]
        reports(lines.last(), payload) && payload.info is Some && usage_totals(
            payload.info->0.total_token_usage,
        ) == Some(totals.last()) && payload.info->0.last_token_usage is None;
    a_report_is_read(file, lines.last(), payload, session_id, fallback_timestamp);
    let next = after_line(file, lines.last(), session_id, fallback_timestamp);
    counted_payloads_were_used(payload, file.baseline);
    if let Some(tokens) = count_payload(payload, file.baseline).tokens {
        assert(next.messages.drop_last() =~= file.messages);
        assert(tokens.sum() == tokens.input + tokens.cache_read + tokens.output + tokens.reasoning);
    }
}

/// The line describes a session, and describes nothing of it.
pub open spec fn is_bare_session_meta(line: CodexLine) -> bool {
    line.entry is Some && is_session_meta(line.entry->0) && line.entry->0.payload is None
}

/// The total of a running session is what the messages of its file add up to.
pub proof fn the_live_total_is_that_of_the_messages(
    lines: Seq<CodexLine>,
    path_is_headless: bool,
    session_id: Seq<char>,
    fallback_timestamp: i64,
    now_ms: i64,
)
    requires
        forall|i: int| 0 <= i < lines.len() ==> !is_bare_session_meta(#[trigger] lines[i]),
    ensures
        follow_lines(
            start_of_session(path_is_headless),
            lines,
            fallback_timestamp,
            now_ms,
        ).total_tokens == tokens_of(
            after_lines(start_of_file(), lines, session_id, fallback_timestamp).messages,
        ),
{
    file_and_session_agree(lines, path_is_headless, session_id, fallback_timestamp, now_ms);
}

proof fn file_and_session_agree(
    lines: Seq<CodexLine>,
    path_is_headless: bool,
    session_id: Seq<char>,
    fallback_timestamp: i64,
    now_ms: i64,
)
    requires
        forall|i: int| 0 <= i < lines.len() ==> !is_bare_session_meta(#[trigger] lines[i]),
    ensures
        ({
            let live = follow_lines(
                start_of_session(path_is_headless),
                lines,
                fallback_timestamp,
                now_ms,
            );
            let file = after_lines(start_of_file(), lines, session_id, fallback_timestamp);
            &&& keeps_session(live, now_ms)
            &&& live.baseline == file.baseline
            &&& live.total_tokens == tokens_of(file.messages)
        }),
    decreases lines.len(),
{
    if lines.len() > 0 {
        let rest = lines.drop_last();
        assert forall|i: int| 0 <= i < rest.len() implies !is_bare_session_meta(
            #[trigger] rest[i],
        ) by {
            assert(!is_bare_session_meta(lines[i]));
        }
        file_and_session_agree(rest, path_is_headless, session_id, fallback_timestamp, now_ms);
        let start = start_of_session(path_is_headless);
        let live = follow_lines(start, rest, fallback_timestamp, now_ms);
        let file = after_lines(start_of_file(), rest, session_id, fallback_timestamp);
        a_line_only_adds_to_a_session(live, lines.last(), fallback_timestamp, now_ms);
        let next = after_line(file, lines.last(), session_id, fallback_timestamp);
        assert(next.messages.len() > file.messages.len() ==> next.messages.drop_last()
            =~= file.messages);
        if let Some(event) = event_in_text(trimmed(lines.last().text@), fallback_timestamp) {
            assert(event.tokens.non_negative());
        }
    }
}

} // verus!

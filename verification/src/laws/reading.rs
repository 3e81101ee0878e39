//! What the lines of a session file give: which messages, and what each of them says.

use crate::counting::count_payload;
use crate::entry::CodexPayload;
use crate::file::{after_line, after_lines, entry_instant, start_of_file, CodexLine, FileState};
use crate::headless::event_in_text;
use crate::message::{messages_of, MessageView, UnifiedMessage};
use crate::text::trimmed;
use crate::tokens::TokenBreakdown;
use vstd::prelude::*;

verus! {

/// The line holds an entry of this type, with this payload, and is not blank.
pub open spec fn has_entry(line: CodexLine, entry_type: Seq<char>, payload: CodexPayload) -> bool {
    &&& trimmed(line.text@).len() > 0
    &&& line.entry is Some
    &&& line.entry->0.entry_type@ == entry_type
    &&& line.entry->0.payload == Some(payload)
}

/// The line describes the session.
pub open spec fn describes(line: CodexLine, payload: CodexPayload) -> bool {
    has_entry(line, "session_meta"@, payload)
}

/// The line starts a turn.
pub open spec fn starts_turn(line: CodexLine, payload: CodexPayload) -> bool {
    has_entry(line, "turn_context"@, payload)
}

/// The line reports tokens.
pub open spec fn counts_tokens(line: CodexLine, payload: CodexPayload) -> bool {
    &&& has_entry(line, "event_msg"@, payload)
    &&& payload.payload_type is Some
    &&& payload.payload_type->0@ == "token_count"@
}

/// The line is none that describes the session, starts a turn or reports tokens, and is not blank.
pub open spec fn is_other(line: CodexLine) -> bool {
    &&& trimmed(line.text@).len() > 0
    &&& forall|payload: CodexPayload|
        !#[trigger] describes(line, payload) && !starts_turn(line, payload) && !counts_tokens(
            line,
            payload,
        )
}

/// The line is an entry that would describe the session, but has no payload.
pub open spec fn describes_nothing(line: CodexLine) -> bool {
    &&& line.entry is Some
    &&& line.entry->0.entry_type@ == "session_meta"@
    &&& line.entry->0.payload is None
}

/// The types of entries are told apart.
pub proof fn types_are_told_apart()
    ensures
        "session_meta"@ != "turn_context"@,
        "session_meta"@ != "event_msg"@,
        "turn_context"@ != "event_msg"@,
{
    reveal_strlit("session_meta");
    reveal_strlit("turn_context");
    reveal_strlit("event_msg");
    assert("session_meta"@[0] == 's' && "turn_context"@[0] == 't' && "event_msg"@[0] == 'e');
}

/// What the line is, if it is not blank and not a bare description.
proof fn lines_are_of_one_kind(line: CodexLine)
    requires
        trimmed(line.text@).len() > 0,
    ensures
        is_other(line) || (line.entry is Some && line.entry->0.payload is Some && ({
            let payload = line.entry->0.payload->0;
            describes(line, payload) || starts_turn(line, payload) || counts_tokens(line, payload)
        })),
{
    if line.entry is Some && line.entry->0.payload is Some {
        let payload = line.entry->0.payload->0;
        if !describes(line, payload) && !starts_turn(line, payload) && !counts_tokens(
            line,
            payload,
        ) {
            assert forall|other: CodexPayload|
                !#[trigger] describes(line, other) && !starts_turn(line, other) && !counts_tokens(
                    line,
                    other,
                ) by {}
        }
    }
}

/// `message` is one of the session `session_id` with this model, provider and agent. A session that
/// names no model has an unknown one, and one that names no provider has that of OpenAI.
pub open spec fn is_message(
    message: MessageView,
    session_id: Seq<char>,
    model: Option<Seq<char>>,
    provider: Option<Seq<char>>,
    agent: Option<Seq<char>>,
    timestamp: i64,
    tokens: TokenBreakdown,
) -> bool {
    &&& message.client == "codex"@
    &&& message.session_id == session_id
    &&& model is Some ==> message.model_id == model->0
    &&& model is None ==> message.model_id == "unknown"@
    &&& provider is Some ==> message.provider_id == provider->0
    &&& provider is None ==> message.provider_id == "openai"@
    &&& message.agent == agent
    &&& message.timestamp == timestamp
    &&& message.tokens == tokens
}

/// A file starts with nothing, and its lines are read one after the other.
pub proof fn lines_are_read_one_by_one(
    state: FileState,
    lines: Seq<CodexLine>,
    line: CodexLine,
    session_id: Seq<char>,
    fallback_timestamp: i64,
)
    ensures
        start_of_file().model is None,
        start_of_file().baseline is None,
        !start_of_file().headless,
        start_of_file().provider is None,
        start_of_file().agent is None,
        start_of_file().messages.len() == 0,
        after_lines(state, Seq::empty(), session_id, fallback_timestamp) == state,
        after_lines(state, lines.push(line), session_id, fallback_timestamp) == after_line(
            after_lines(state, lines, session_id, fallback_timestamp),
            line,
            session_id,
            fallback_timestamp,
        ),
{
    assert(lines.push(line).drop_last() =~= lines);
}

/// Specifications speak of every field of every message, in the order of the messages.
pub proof fn messages_are_seen_whole(messages: Seq<UnifiedMessage>, i: int)
    requires
        0 <= i < messages.len(),
    ensures
        messages_of(messages).len() == messages.len(),
        messages_of(messages)[i].client == messages[i].client@,
        messages_of(messages)[i].model_id == messages[i].model_id@,
        messages_of(messages)[i].provider_id == messages[i].provider_id@,
        messages_of(messages)[i].session_id == messages[i].session_id@,
        messages_of(messages)[i].timestamp == messages[i].timestamp,
        messages_of(messages)[i].tokens == messages[i].tokens,
        messages[i].agent is None ==> messages_of(messages)[i].agent is None,
        messages[i].agent is Some ==> messages_of(messages)[i].agent == Some(messages[i].agent->0@),
{
}

/// A description makes the session headless if it was run by exec, and gives it the provider and the
/// agent that it names. It changes nothing else.
pub proof fn descriptions_say_how_a_session_runs(
    state: FileState,
    line: CodexLine,
    payload: CodexPayload,
    session_id: Seq<char>,
    fallback_timestamp: i64,
)
    requires
        describes(line, payload),
    ensures
        ({
            let next = after_line(state, line, session_id, fallback_timestamp);
            &&& next.headless <==> state.headless || (payload.source is Some
                && payload.source->0@ == "exec"@)
            &&& payload.model_provider is Some ==> next.provider == Some(
                payload.model_provider->0@,
            )
            &&& payload.model_provider is None ==> next.provider == state.provider
            &&& payload.agent_nickname is Some ==> next.agent == Some(payload.agent_nickname->0@)
            &&& payload.agent_nickname is None ==> next.agent == state.agent
            &&& next.model == state.model
            &&& next.baseline == state.baseline
            &&& next.messages == state.messages
        }),
{
}

/// An entry that would describe the session but has no payload changes nothing.
pub proof fn bare_descriptions_change_nothing(
    state: FileState,
    line: CodexLine,
    session_id: Seq<char>,
    fallback_timestamp: i64,
)
    requires
        describes_nothing(line),
    ensures
        after_line(state, line, session_id, fallback_timestamp) == state,
{
}

/// The start of a turn sets the model to the one that it names, or to none, and changes nothing
/// else.
pub proof fn turns_set_the_model(
    state: FileState,
    line: CodexLine,
    payload: CodexPayload,
    session_id: Seq<char>,
    fallback_timestamp: i64,
)
    requires
        starts_turn(line, payload),
    ensures
        after_line(state, line, session_id, fallback_timestamp) == (FileState {
            model: payload.named_model(),
            ..state
        }),
{
    types_are_told_apart();
}

/// The model that a token report names: that of its counters, even an empty one, and else that of
/// its payload.
pub open spec fn named_in_report(payload: CodexPayload) -> Option<Seq<char>> {
    if payload.info is Some && payload.info->0.model is Some {
        Some(payload.info->0.model->0@)
    } else if payload.info is Some && payload.info->0.model_name is Some {
        Some(payload.info->0.model_name->0@)
    } else {
        payload.named_model()
    }
}

/// A token report moves the baseline as it counts, sets the model where it names one, and gives one
/// message where it counts tokens. It changes nothing else.
pub proof fn reports_give_messages(
    state: FileState,
    line: CodexLine,
    payload: CodexPayload,
    session_id: Seq<char>,
    fallback_timestamp: i64,
)
    requires
        counts_tokens(line, payload),
    ensures
        ({
            let next = after_line(state, line, session_id, fallback_timestamp);
            let counted = count_payload(payload, state.baseline);
            let agent = if state.headless {
                "headless"@
            } else if state.agent is Some {
                state.agent->0
            } else {
                "Codex"@
            };
            &&& next.baseline == counted.baseline
            &&& named_in_report(payload) is Some ==> next.model == named_in_report(payload)
            &&& named_in_report(payload) is None ==> next.model == state.model
            &&& next.headless == state.headless
            &&& next.provider == state.provider
            &&& next.agent == state.agent
            &&& counted.tokens is None ==> next.messages == state.messages
            &&& counted.tokens is Some ==> {
                &&& next.messages.len() == state.messages.len() + 1
                &&& next.messages.drop_last() == state.messages
                &&& is_message(
                    next.messages.last(),
                    session_id,
                    next.model,
                    state.provider,
                    Some(agent),
                    entry_instant(line.entry->0, fallback_timestamp),
                    counted.tokens->0,
                )
            }
        }),
{
    types_are_told_apart();
    let next = after_line(state, line, session_id, fallback_timestamp);
    if count_payload(payload, state.baseline).tokens is Some {
        assert(next.messages.drop_last() =~= state.messages);
    }
}

/// Any other line sets the model where it tells usage and names one, and gives one message where it
/// tells usage. It changes nothing else.
pub proof fn usage_gives_messages(
    state: FileState,
    line: CodexLine,
    session_id: Seq<char>,
    fallback_timestamp: i64,
)
    requires
        is_other(line),
        !describes_nothing(line),
    ensures
        ({
            let next = after_line(state, line, session_id, fallback_timestamp);
            let told = event_in_text(trimmed(line.text@), fallback_timestamp);
            let agent = if state.headless {
                Some("headless"@)
            } else {
                state.agent
            };
            &&& told is None ==> next == state
            &&& told is Some ==> {
                &&& told->0.model is Some ==> next.model == told->0.model
                &&& told->0.model is None ==> next.model == state.model
                &&& next.baseline == state.baseline
                &&& next.headless == state.headless
                &&& next.provider == state.provider
                &&& next.agent == state.agent
                &&& next.messages.len() == state.messages.len() + 1
                &&& next.messages.drop_last() == state.messages
                &&& is_message(
                    next.messages.last(),
                    session_id,
                    next.model,
                    state.provider,
                    agent,
                    told->0.timestamp,
                    told->0.tokens,
                )
            }
        }),
{
    let next = after_line(state, line, session_id, fallback_timestamp);
    if line.entry is Some && line.entry->0.payload is Some {
        let payload = line.entry->0.payload->0;
        assert(!describes(line, payload));
        assert(!starts_turn(line, payload));
        assert(!counts_tokens(line, payload));
    }
    if event_in_text(trimmed(line.text@), fallback_timestamp) is Some {
        assert(next.messages.drop_last() =~= state.messages);
    }
}

/// What a line makes the model of the session, if it says anything of it. The start of a turn may
/// take the model away.
pub open spec fn model_said(line: CodexLine, fallback_timestamp: i64) -> Option<Option<Seq<char>>> {
    let content = trimmed(line.text@);
    if line.entry is Some && line.entry->0.payload is Some && starts_turn(
        line,
        line.entry->0.payload->0,
    ) {
        Some(line.entry->0.payload->0.named_model())
    } else if line.entry is Some && line.entry->0.payload is Some && counts_tokens(
        line,
        line.entry->0.payload->0,
    ) {
        match named_in_report(line.entry->0.payload->0) {
            Some(model) => Some(Some(model)),
            None => None,
        }
    } else if is_other(line) && !describes_nothing(line) {
        match event_in_text(content, fallback_timestamp) {
            Some(event) => match event.model {
                Some(model) => Some(Some(model)),
                None => None,
            },
            None => None,
        }
    } else {
        None
    }
}

/// The provider that a line gives the session.
pub open spec fn provider_said(line: CodexLine) -> Option<Seq<char>> {
    if line.entry is Some && line.entry->0.payload is Some && describes(
        line,
        line.entry->0.payload->0,
    ) && line.entry->0.payload->0.model_provider is Some {
        Some(line.entry->0.payload->0.model_provider->0@)
    } else {
        None
    }
}

/// The agent that a line gives the session.
pub open spec fn agent_said(line: CodexLine) -> Option<Seq<char>> {
    if line.entry is Some && line.entry->0.payload is Some && describes(
        line,
        line.entry->0.payload->0,
    ) && line.entry->0.payload->0.agent_nickname is Some {
        Some(line.entry->0.payload->0.agent_nickname->0@)
    } else {
        None
    }
}

/// The line says that the session was run by exec.
pub open spec fn exec_said(line: CodexLine) -> bool {
    &&& line.entry is Some
    &&& line.entry->0.payload is Some
    &&& describes(line, line.entry->0.payload->0)
    &&& line.entry->0.payload->0.source is Some
    &&& line.entry->0.payload->0.source->0@ == "exec"@
}

/// `k` is the last line that says something of the model.
pub open spec fn says_model_last(lines: Seq<CodexLine>, fallback_timestamp: i64, k: int) -> bool {
    &&& 0 <= k < lines.len()
    &&& model_said(lines[k], fallback_timestamp) is Some
    &&& forall|j: int| k < j < lines.len() ==> model_said(
        #[trigger] lines[j],
        fallback_timestamp,
    ) is None
}

/// The model of a session is what the last line that says anything of it made it. There is none
/// where no line does.
pub proof fn the_model_is_the_one_said_last(
    lines: Seq<CodexLine>,
    session_id: Seq<char>,
    fallback_timestamp: i64,
    k: int,
)
    ensures
        says_model_last(lines, fallback_timestamp, k) ==> Some(
            after_lines(start_of_file(), lines, session_id, fallback_timestamp).model,
        ) == model_said(lines[k], fallback_timestamp),
        (forall|j: int|
            0 <= j < lines.len() ==> model_said(#[trigger] lines[j], fallback_timestamp) is None)
            ==> after_lines(start_of_file(), lines, session_id, fallback_timestamp).model is None,
    decreases lines.len(),
{
    if lines.len() > 0 {
        let rest = lines.drop_last();
        let line = lines.last();
        let before = after_lines(start_of_file(), rest, session_id, fallback_timestamp);
        the_model_is_the_one_said_last(rest, session_id, fallback_timestamp, k);
        a_line_says_the_model(before, line, session_id, fallback_timestamp);
        assert(forall|j: int| 0 <= j < rest.len() ==> rest[j] == lines[j]);
        assert(lines[lines.len() - 1] == line);
    }
}

proof fn a_line_says_the_model(
    state: FileState,
    line: CodexLine,
    session_id: Seq<char>,
    fallback_timestamp: i64,
)
    ensures
        ({
            let next = after_line(state, line, session_id, fallback_timestamp);
            match model_said(line, fallback_timestamp) {
                Some(model) => next.model == model,
                None => next.model == state.model,
            }
        }),
{
    types_are_told_apart();
    if trimmed(line.text@).len() > 0 {
        lines_are_of_one_kind(line);
        if is_other(line) && !describes_nothing(line) {
            usage_gives_messages(state, line, session_id, fallback_timestamp);
            if line.entry is Some && line.entry->0.payload is Some {
                let payload = line.entry->0.payload->0;
                assert(!describes(line, payload));
            }
        } else if line.entry is Some && line.entry->0.payload is Some {
            let payload = line.entry->0.payload->0;
            if describes(line, payload) {
                descriptions_say_how_a_session_runs(
                    state,
                    line,
                    payload,
                    session_id,
                    fallback_timestamp,
                );
            } else if starts_turn(line, payload) {
                turns_set_the_model(state, line, payload, session_id, fallback_timestamp);
            } else {
                reports_give_messages(state, line, payload, session_id, fallback_timestamp);
            }
        }
    }
}

/// The message of a token report has the model that the report names, and else the one that was
/// named last before it.
pub proof fn reports_have_the_model_named_last(
    lines: Seq<CodexLine>,
    line: CodexLine,
    payload: CodexPayload,
    session_id: Seq<char>,
    fallback_timestamp: i64,
    k: int,
)
    requires
        counts_tokens(line, payload),
        says_model_last(lines, fallback_timestamp, k),
        after_lines(start_of_file(), lines.push(line), session_id, fallback_timestamp).messages
            != after_lines(start_of_file(), lines, session_id, fallback_timestamp).messages,
    ensures
        ({
            let message = after_lines(
                start_of_file(),
                lines.push(line),
                session_id,
                fallback_timestamp,
            ).messages.last();
            &&& named_in_report(payload) matches Some(model) ==> message.model_id == model
            &&& named_in_report(payload) is None ==> (model_said(lines[k], fallback_timestamp)->0
                matches Some(model) ==> message.model_id == model)
            &&& named_in_report(payload) is None && model_said(lines[k], fallback_timestamp)->0
                is None ==> message.model_id == "unknown"@
        }),
{
    let before = after_lines(start_of_file(), lines, session_id, fallback_timestamp);
    assert(lines.push(line).drop_last() =~= lines);
    the_model_is_the_one_said_last(lines, session_id, fallback_timestamp, k);
    reports_give_messages(before, line, payload, session_id, fallback_timestamp);
}

/// A report that names no model leaves the model of the session as it was.
pub proof fn reports_that_name_no_model_leave_it(
    state: FileState,
    line: CodexLine,
    payload: CodexPayload,
    session_id: Seq<char>,
    fallback_timestamp: i64,
)
    requires
        counts_tokens(line, payload),
        payload.model_info is None,
        payload.model is None,
        payload.model_name is None,
        payload.info matches Some(info) ==> info.model is None && info.model_name is None,
    ensures
        after_line(state, line, session_id, fallback_timestamp).model == state.model,
{
    types_are_told_apart();
}

/// What a file knows of how the session runs is what its lines said last: the provider and the agent
/// of the last line that names one, and whether any line says that it was run by exec.
pub proof fn a_session_runs_as_was_said_last(
    lines: Seq<CodexLine>,
    session_id: Seq<char>,
    fallback_timestamp: i64,
    k: int,
)
    requires
        0 <= k < lines.len(),
    ensures
        ({
            let state = after_lines(start_of_file(), lines, session_id, fallback_timestamp);
            &&& provider_said(lines[k]) is Some && (forall|j: int|
                k < j < lines.len() ==> provider_said(#[trigger] lines[j]) is None)
                ==> state.provider == provider_said(lines[k])
            &&& (forall|j: int|
                0 <= j < lines.len() ==> provider_said(#[trigger] lines[j]) is None)
                ==> state.provider is None
            &&& agent_said(lines[k]) is Some && (forall|j: int|
                k < j < lines.len() ==> agent_said(#[trigger] lines[j]) is None) ==> state.agent
                == agent_said(lines[k])
            &&& (forall|j: int| 0 <= j < lines.len() ==> agent_said(#[trigger] lines[j]) is None)
                ==> state.agent is None
            &&& exec_said(lines[k]) ==> state.headless
            &&& (forall|j: int| 0 <= j < lines.len() ==> !exec_said(#[trigger] lines[j]))
                ==> !state.headless
        }),
    decreases lines.len(),
{
    let rest = lines.drop_last();
    let line = lines.last();
    let before = after_lines(start_of_file(), rest, session_id, fallback_timestamp);
    assert(forall|j: int| 0 <= j < rest.len() ==> rest[j] == lines[j]);
    assert(lines[lines.len() - 1] == line);
    if rest.len() > 0 {
        a_session_runs_as_was_said_last(
            rest,
            session_id,
            fallback_timestamp,
            if k < rest.len() {
                k
            } else {
                0
            },
        );
    } else {
        assert(before == start_of_file());
    }
    a_line_says_how_a_session_runs(before, line, session_id, fallback_timestamp);
}

proof fn a_line_says_how_a_session_runs(
    state: FileState,
    line: CodexLine,
    session_id: Seq<char>,
    fallback_timestamp: i64,
)
    ensures
        ({
            let next = after_line(state, line, session_id, fallback_timestamp);
            &&& next.headless <==> state.headless || exec_said(line)
            &&& next.provider == (if provider_said(line) is Some {
                provider_said(line)
            } else {
                state.provider
            })
            &&& next.agent == (if agent_said(line) is Some {
                agent_said(line)
            } else {
                state.agent
            })
        }),
{
    types_are_told_apart();
    if trimmed(line.text@).len() > 0 {
        lines_are_of_one_kind(line);
        if is_other(line) && !describes_nothing(line) {
            usage_gives_messages(state, line, session_id, fallback_timestamp);
            if line.entry is Some && line.entry->0.payload is Some {
                assert(!describes(line, line.entry->0.payload->0));
            }
        } else if line.entry is Some && line.entry->0.payload is Some {
            let payload = line.entry->0.payload->0;
            if describes(line, payload) {
                descriptions_say_how_a_session_runs(
                    state,
                    line,
                    payload,
                    session_id,
                    fallback_timestamp,
                );
            } else if starts_turn(line, payload) {
                turns_set_the_model(state, line, payload, session_id, fallback_timestamp);
            } else {
                reports_give_messages(state, line, payload, session_id, fallback_timestamp);
            }
        }
    }
}

} // verus!

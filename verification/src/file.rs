//! Reading a whole session file into messages.

use crate::counting::{
    count_payload, model_after_report, parse_token_count_payload, sound_baseline, UNKNOWN_MODEL,
};
use crate::entry::{extract_model, CodexEntry, CodexPayload};
use crate::headless::{
    event_in_text, line_message, parse_codex_headless_line, CODEX_CLIENT, DEFAULT_PROVIDER,
    HEADLESS_AGENT,
};
use crate::message::{messages_of, MessageView, UnifiedMessage};
use crate::text::{
    copy_text, first_of, line_content, or_text, same_text, slice_text_of, text_of, trimmed,
};
use crate::timestamps::{parse_timestamp_str, rfc3339_instant};
use crate::tokens::{CodexTotals, TokenBreakdown};
use vstd::prelude::*;

verus! {

/// The agent of an interactive session that names none.
pub const DEFAULT_AGENT: &'static str = "Codex";

/// A line of a session file, with the entry that its content reads as, if it does.
#[derive(Debug)]
pub struct CodexLine {
    pub text: String,
    pub entry: Option<CodexEntry>,
}

/// The session whose file has no name that can be told.
pub const UNKNOWN_SESSION: &'static str = "unknown";

/// A session is named after its file: by `stem`, the name of the file without its ending.
pub fn session_name(stem: Option<&str>) -> (id: &str)
    ensures
        id@ == or_text(slice_text_of(stem), UNKNOWN_SESSION@),
        stem matches Some(stem) ==> id@ == stem@,
        stem is None ==> id@ == "unknown"@,
{
    match stem {
        Some(stem) => stem,
        None => UNKNOWN_SESSION,
    }
}

/// The agent of a session.
pub open spec fn agent_name(session_is_headless: bool, session_agent: Option<Seq<char>>) -> Seq<
    char,
> {
    if session_is_headless {
        HEADLESS_AGENT@
    } else {
        or_text(session_agent, DEFAULT_AGENT@)
    }
}

/// The agent of a session: a headless one has a name of its own.
pub fn codex_agent_name(session_is_headless: bool, session_agent: &Option<String>) -> (name: Option<
    String,
>)
    ensures
        text_of(name) == Some(agent_name(session_is_headless, text_of(*session_agent))),
{
    if session_is_headless {
        return Some(HEADLESS_AGENT.to_string());
    }
    match session_agent {
        Some(agent) => Some(agent.clone()),
        None => Some(DEFAULT_AGENT.to_string()),
    }
}

/// The entry describes the session.
pub open spec fn is_session_meta(entry: CodexEntry) -> bool {
    entry.entry_type@ == "session_meta"@
}

/// The entry starts a turn.
pub open spec fn is_turn_context(entry: CodexEntry) -> bool {
    entry.entry_type@ == "turn_context"@
}

/// The entry, with `payload`, reports tokens.
pub open spec fn is_token_report(entry: CodexEntry, payload: CodexPayload) -> bool {
    entry.entry_type@ == "event_msg"@ && text_of(payload.payload_type) == Some("token_count"@)
}

/// The payload describes a headless run.
pub open spec fn tells_headless(payload: CodexPayload) -> bool {
    text_of(payload.source) == Some("exec"@)
}

/// The instant of an entry.
pub open spec fn entry_instant(entry: CodexEntry, fallback_timestamp: i64) -> i64 {
    match text_of(entry.timestamp) {
        Some(text) => match rfc3339_instant(text) {
            Some(instant) => instant,
            None => fallback_timestamp,
        },
        None => fallback_timestamp,
    }
}

/// What has been read of a session file, as specifications speak of it.
pub ghost struct FileState {
    pub model: Option<Seq<char>>,
    pub baseline: Option<CodexTotals>,
    pub headless: bool,
    pub provider: Option<Seq<char>>,
    pub agent: Option<Seq<char>>,
    pub messages: Seq<MessageView>,
}

/// Nothing has been read.
pub open spec fn start_of_file() -> FileState {
    FileState {
        model: None,
        baseline: None,
        headless: false,
        provider: None,
        agent: None,
        messages: Seq::empty(),
    }
}

/// A description of the session has been read.
pub open spec fn after_session_meta(state: FileState, payload: CodexPayload) -> FileState {
    FileState {
        headless: state.headless || tells_headless(payload),
        provider: first_of(text_of(payload.model_provider), state.provider),
        agent: first_of(text_of(payload.agent_nickname), state.agent),
        ..state
    }
}

/// The message that a token report gives.
pub open spec fn report_message(
    state: FileState,
    model: Option<Seq<char>>,
    tokens: TokenBreakdown,
    session_id: Seq<char>,
    instant: i64,
) -> MessageView {
    MessageView {
        client: CODEX_CLIENT@,
        model_id: or_text(model, UNKNOWN_MODEL@),
        provider_id: or_text(state.provider, DEFAULT_PROVIDER@),
        session_id,
        timestamp: instant,
        tokens,
        agent: Some(agent_name(state.headless, state.agent)),
    }
}

/// A token report has been read.
pub open spec fn after_token_report(
    state: FileState,
    payload: CodexPayload,
    session_id: Seq<char>,
    instant: i64,
) -> FileState {
    let model = model_after_report(payload, state.model);
    let counted = count_payload(payload, state.baseline);
    FileState {
        model,
        baseline: counted.baseline,
        messages: match counted.tokens {
            Some(tokens) => state.messages.push(
                report_message(state, model, tokens, session_id, instant),
            ),
            None => state.messages,
        },
        ..state
    }
}

/// A line that is no entry of its own has been read: it counts where it is a usage line.
pub open spec fn after_usage_line(
    state: FileState,
    content: Seq<char>,
    session_id: Seq<char>,
    fallback_timestamp: i64,
) -> FileState {
    match event_in_text(content, fallback_timestamp) {
        Some(event) => FileState {
            model: first_of(event.model, state.model),
            messages: state.messages.push(
                line_message(
                    event,
                    session_id,
                    state.model,
                    state.provider,
                    state.agent,
                    state.headless,
                ),
            ),
            ..state
        },
        None => state,
    }
}

/// A line with an entry has been read.
pub open spec fn after_entry(
    state: FileState,
    entry: CodexEntry,
    content: Seq<char>,
    session_id: Seq<char>,
    fallback_timestamp: i64,
) -> FileState {
    match entry.payload {
        Some(payload) => if is_session_meta(entry) {
            after_session_meta(state, payload)
        } else if is_turn_context(entry) {
            FileState { model: payload.named_model(), ..state }
        } else if is_token_report(entry, payload) {
            after_token_report(
                state,
                payload,
                session_id,
                entry_instant(entry, fallback_timestamp),
            )
        } else {
            after_usage_line(state, content, session_id, fallback_timestamp)
        },
        None => if is_session_meta(entry) {
            state
        } else {
            after_usage_line(state, content, session_id, fallback_timestamp)
        },
    }
}

/// A line has been read. Blank lines are passed over.
pub open spec fn after_line(
    state: FileState,
    line: CodexLine,
    session_id: Seq<char>,
    fallback_timestamp: i64,
) -> FileState {
    let content = trimmed(line.text@);
    if content.len() == 0 {
        state
    } else {
        match line.entry {
            Some(entry) => after_entry(state, entry, content, session_id, fallback_timestamp),
            None => after_usage_line(state, content, session_id, fallback_timestamp),
        }
    }
}

/// Lines have been read, one after the other.
pub open spec fn after_lines(
    state: FileState,
    lines: Seq<CodexLine>,
    session_id: Seq<char>,
    fallback_timestamp: i64,
) -> FileState
    decreases lines.len(),
{
    if lines.len() == 0 {
        state
    } else {
        after_line(
            after_lines(state, lines.drop_last(), session_id, fallback_timestamp),
            lines.last(),
            session_id,
            fallback_timestamp,
        )
    }
}

/// The instant that an entry gives, or `fallback_timestamp`.
pub fn entry_timestamp(entry: &CodexEntry, fallback_timestamp: i64) -> (instant: i64)
    ensures
        instant == entry_instant(*entry, fallback_timestamp),
{
    match &entry.timestamp {
        Some(text) => parse_timestamp_str(text.as_str()).unwrap_or(fallback_timestamp),
        None => fallback_timestamp,
    }
}

/// Whether `text` is there and is `expected`.
pub fn is_text(text: &Option<String>, expected: &str) -> (same: bool)
    ensures
        same == (text_of(*text) == Some(expected@)),
{
    match text {
        Some(text) => same_text(text.as_str(), expected),
        None => false,
    }
}

/// A reader of one session file.
#[derive(Debug)]
pub struct CodexFileReader {
    session_id: String,
    fallback_timestamp: i64,
    current_model: Option<String>,
    previous_totals: Option<CodexTotals>,
    session_is_headless: bool,
    session_provider: Option<String>,
    session_agent: Option<String>,
    messages: Vec<UnifiedMessage>,
}

impl CodexFileReader {
    /// The baseline holds no negative counter.
    pub closed spec fn sound(self) -> bool {
        sound_baseline(self.previous_totals)
    }

    /// The session whose file is read.
    pub closed spec fn session(self) -> Seq<char> {
        self.session_id@
    }

    /// The instant of what gives none.
    pub closed spec fn fallback(self) -> i64 {
        self.fallback_timestamp
    }

    /// What has been read.
    pub closed spec fn state(self) -> FileState {
        FileState {
            model: text_of(self.current_model),
            baseline: self.previous_totals,
            headless: self.session_is_headless,
            provider: text_of(self.session_provider),
            agent: text_of(self.session_agent),
            messages: messages_of(self.messages@),
        }
    }

    /// A reader that has read nothing.
    pub fn new(session_id: &str, fallback_timestamp: i64) -> (reader: Self)
        ensures
            reader.sound(),
            reader.session() == session_id@,
            reader.fallback() == fallback_timestamp,
            reader.state() == start_of_file(),
    {
        let reader = CodexFileReader {
            session_id: session_id.to_string(),
            fallback_timestamp,
            current_model: None,
            previous_totals: None,
            session_is_headless: false,
            session_provider: None,
            session_agent: None,
            messages: Vec::with_capacity(64),
        };
        assert(reader.state().messages =~= Seq::empty());
        reader
    }

    fn read_session_meta(&mut self, payload: &CodexPayload)
        requires
            old(self).sound(),
        ensures
            final(self).sound(),
            final(self).session() == old(self).session(),
            final(self).fallback() == old(self).fallback(),
            final(self).state() == after_session_meta(old(self).state(), *payload),
    {
        if is_text(&payload.source, "exec") {
            self.session_is_headless = true;
        }
        if payload.model_provider.is_some() {
            self.session_provider = copy_text(&payload.model_provider);
        }
        if payload.agent_nickname.is_some() {
            self.session_agent = copy_text(&payload.agent_nickname);
        }
    }

    fn read_token_report(&mut self, payload: &CodexPayload, instant: i64)
        requires
            old(self).sound(),
        ensures
            final(self).sound(),
            final(self).session() == old(self).session(),
            final(self).fallback() == old(self).fallback(),
            final(self).state() == after_token_report(
                old(self).state(),
                *payload,
                old(self).session(),
                instant,
            ),
    {
        let report = parse_token_count_payload(
            payload,
            &mut self.current_model,
            &mut self.previous_totals,
        );
        if let Some((model_id, tokens)) = report {
            let provider_id = match &self.session_provider {
                Some(provider) => provider.clone(),
                None => DEFAULT_PROVIDER.to_string(),
            };
            let message = UnifiedMessage {
                client: CODEX_CLIENT.to_string(),
                model_id,
                provider_id,
                session_id: self.session_id.clone(),
                timestamp: instant,
                tokens,
                agent: codex_agent_name(self.session_is_headless, &self.session_agent),
            };
            self.messages.push(message);
            assert(self.state().messages =~= old(self).state().messages.push(message@));
        }
    }

    fn read_usage_line(&mut self, content: &str)
        requires
            old(self).sound(),
        ensures
            final(self).sound(),
            final(self).session() == old(self).session(),
            final(self).fallback() == old(self).fallback(),
            final(self).state() == after_usage_line(
                old(self).state(),
                content@,
                old(self).session(),
                old(self).fallback(),
            ),
    {
        let provider = match &self.session_provider {
            Some(provider) => Some(provider.as_str()),
            None => None,
        };
        let message = parse_codex_headless_line(
            content,
            self.session_id.as_str(),
            &mut self.current_model,
            self.fallback_timestamp,
            provider,
            &self.session_agent,
            self.session_is_headless,
        );
        if let Some(message) = message {
            self.messages.push(message);
            assert(self.state().messages =~= old(self).state().messages.push(message@));
        }
    }

    /// Reads the next line.
    pub fn read_line(&mut self, line: &CodexLine)
        requires
            old(self).sound(),
        ensures
            final(self).sound(),
            final(self).session() == old(self).session(),
            final(self).fallback() == old(self).fallback(),
            final(self).state() == after_line(
                old(self).state(),
                *line,
                old(self).session(),
                old(self).fallback(),
            ),
    {
        let content = match line_content(line.text.as_str()) {
            Some(content) => content,
            None => return,
        };
        if let Some(entry) = &line.entry {
            let entry_type = entry.entry_type.as_str();
            match &entry.payload {
                Some(payload) => {
                    if same_text(entry_type, "session_meta") {
                        self.read_session_meta(payload);
                        return;
                    }
                    if same_text(entry_type, "turn_context") {
                        self.current_model = extract_model(payload);
                        return;
                    }
                    if same_text(entry_type, "event_msg") && is_text(
                        &payload.payload_type,
                        "token_count",
                    ) {
                        let instant = entry_timestamp(entry, self.fallback_timestamp);
                        self.read_token_report(payload, instant);
                        return;
                    }
                },
                None => {
                    if same_text(entry_type, "session_meta") {
                        return;
                    }
                },
            }
        }
        self.read_usage_line(content);
    }

    /// The messages of the lines that were read.
    pub fn into_messages(self) -> (messages: Vec<UnifiedMessage>)
        ensures
            messages_of(messages@) == self.state().messages,
    {
        self.messages
    }
}

/// The messages of a session file with these lines. `fallback_timestamp` is the instant of what
/// gives none.
pub fn parse_codex_file(
    lines: &Vec<CodexLine>,
    session_id: &str,
    fallback_timestamp: i64,
) -> (messages: Vec<UnifiedMessage>)
    ensures
        messages_of(messages@) == after_lines(
            start_of_file(),
            lines@,
            session_id@,
            fallback_timestamp,
        ).messages,
{
    let mut reader = CodexFileReader::new(session_id, fallback_timestamp);
    let mut i: usize = 0;
    while i < lines.len()
        invariant
            i <= lines@.len(),
            reader.sound(),
            reader.session() == session_id@,
            reader.fallback() == fallback_timestamp,
            reader.state() == after_lines(
                start_of_file(),
                lines@.take(i as int),
                session_id@,
                fallback_timestamp,
            ),
        decreases lines@.len() - i,
    {
        reader.read_line(&lines[i]);
        assert(lines@.take(i + 1).drop_last() =~= lines@.take(i as int));
        i = i + 1;
    }
    assert(lines@.take(i as int) =~= lines@);
    reader.into_messages()
}

} // verus!

//! Following a session that may still be running.

use crate::activity::{
    age, age_ms, derive_phase, phase_at, CodexActivityPhase, CodexSessionKind,
    ACTIVE_SESSION_WINDOW_MS, RECENT_TOKENS_WINDOW_MS,
};
use crate::counting::{
    count_payload, model_after_report, parse_token_count_payload, sound_baseline, UNKNOWN_MODEL,
};
use crate::entry::{extract_model, CodexEntry, CodexPayload};
use crate::file::{
    agent_name, codex_agent_name, entry_instant, entry_timestamp, is_session_meta, is_text,
    is_token_report, is_turn_context, tells_headless, CodexLine,
};
use crate::headless::{
    event_in_text, parse_codex_headless_event, CODEX_CLIENT, DEFAULT_PROVIDER,
};
use crate::repository::{may_name_repository, repo_name_from_cwd};
use crate::text::{
    copy_non_empty, first_of, line_content, non_empty, or_text, same_text, text_of, trimmed,
};
use crate::tokens::{larger, max_of, saturated, saturating_sum, CodexTotals};
use vstd::prelude::*;

verus! {

/// A session that was active lately.
#[derive(Debug, Clone, PartialEq, Eq)]
pub struct CodexCurrentSession {
    pub client: String,
    pub session_id: String,
    pub model_id: String,
    pub provider_id: String,
    pub agent: Option<String>,
    pub cwd: Option<String>,
    pub repo_name: Option<String>,
    pub session_kind: CodexSessionKind,
    pub phase: CodexActivityPhase,
    pub last_event_at: i64,
    pub last_token_at: Option<i64>,
    pub total_tokens: i64,
    pub recent_tokens: i64,
}

/// What is known of a running session, as specifications speak of it.
pub ghost struct LiveState {
    pub model: Option<Seq<char>>,
    pub baseline: Option<CodexTotals>,
    pub headless: bool,
    pub provider: Option<Seq<char>>,
    pub agent: Option<Seq<char>>,
    pub cwd: Option<Seq<char>>,
    pub last_event_at: Option<i64>,
    pub last_token_at: Option<i64>,
    pub total_tokens: i64,
    pub recent_tokens: i64,
}

/// Nothing is known but where the session's file lies.
pub open spec fn start_of_session(path_is_headless: bool) -> LiveState {
    LiveState {
        model: None,
        baseline: None,
        headless: path_is_headless,
        provider: None,
        agent: None,
        cwd: None,
        last_event_at: None,
        last_token_at: None,
        total_tokens: 0,
        recent_tokens: 0,
    }
}

/// The later of `last`, if there is one, and `instant`.
pub open spec fn latest(last: Option<i64>, instant: i64) -> Option<i64> {
    Some(
        match last {
            Some(last) => larger(last, instant),
            None => instant,
        },
    )
}

/// Something was heard of the session.
pub open spec fn heard_of(state: LiveState, instant: i64) -> LiveState {
    LiveState { last_event_at: latest(state.last_event_at, instant), ..state }
}

/// The session named the directory that it works in, if `cwd` is one.
pub open spec fn works_in(state: LiveState, cwd: Option<String>) -> LiveState {
    LiveState { cwd: first_of(non_empty(text_of(cwd)), state.cwd), ..state }
}

/// The session used `tokens` tokens.
pub open spec fn used(state: LiveState, tokens: i64, instant: i64, now_ms: i64) -> LiveState {
    LiveState {
        total_tokens: saturated(state.total_tokens + tokens),
        recent_tokens: if age(now_ms, instant) <= RECENT_TOKENS_WINDOW_MS {
            saturated(state.recent_tokens + tokens)
        } else {
            state.recent_tokens
        },
        last_token_at: latest(state.last_token_at, instant),
        ..state
    }
}

/// A description of the session was followed.
pub open spec fn follow_session_meta(state: LiveState, payload: CodexPayload) -> LiveState {
    works_in(
        LiveState {
            headless: state.headless || tells_headless(payload),
            provider: first_of(non_empty(text_of(payload.model_provider)), state.provider),
            agent: first_of(non_empty(text_of(payload.agent_nickname)), state.agent),
            ..state
        },
        payload.cwd,
    )
}

/// The start of a turn was followed.
pub open spec fn follow_turn_context(state: LiveState, payload: CodexPayload) -> LiveState {
    works_in(
        LiveState { model: first_of(payload.named_model(), state.model), ..state },
        payload.cwd,
    )
}

/// A token report was followed.
pub open spec fn follow_token_report(
    state: LiveState,
    payload: CodexPayload,
    instant: i64,
    now_ms: i64,
) -> LiveState {
    let model = model_after_report(payload, state.model);
    let counted = count_payload(payload, state.baseline);
    let moved = works_in(LiveState { baseline: counted.baseline, ..state }, payload.cwd);
    match counted.tokens {
        Some(tokens) => used(
            LiveState { model: Some(or_text(model, UNKNOWN_MODEL@)), ..moved },
            tokens.sum(),
            instant,
            now_ms,
        ),
        None => LiveState { model, ..moved },
    }
}

/// A line that is no entry of its own was followed: it counts where it is a usage line.
pub open spec fn follow_usage_line(
    state: LiveState,
    content: Seq<char>,
    fallback_timestamp: i64,
    now_ms: i64,
) -> LiveState {
    match event_in_text(content, fallback_timestamp) {
        Some(event) => {
            let heard = LiveState {
                model: first_of(event.model, state.model),
                ..heard_of(state, event.timestamp)
            };
            if event.tokens.sum() > 0 {
                used(heard, event.tokens.sum(), event.timestamp, now_ms)
            } else {
                heard
            }
        },
        None => state,
    }
}

/// A line with an entry was followed.
pub open spec fn follow_entry(
    state: LiveState,
    entry: CodexEntry,
    content: Seq<char>,
    fallback_timestamp: i64,
    now_ms: i64,
) -> LiveState {
    let instant = entry_instant(entry, fallback_timestamp);
    let heard = heard_of(state, instant);
    match entry.payload {
        Some(payload) => if is_session_meta(entry) {
            follow_session_meta(heard, payload)
        } else if is_turn_context(entry) {
            follow_turn_context(heard, payload)
        } else if is_token_report(entry, payload) {
            follow_token_report(heard, payload, instant, now_ms)
        } else {
            follow_usage_line(heard, content, fallback_timestamp, now_ms)
        },
        None => follow_usage_line(heard, content, fallback_timestamp, now_ms),
    }
}

/// A line was followed. Blank lines are passed over.
pub open spec fn follow_line(
    state: LiveState,
    line: CodexLine,
    fallback_timestamp: i64,
    now_ms: i64,
) -> LiveState {
    let content = trimmed(line.text@);
    if content.len() == 0 {
        state
    } else {
        match line.entry {
            Some(entry) => follow_entry(state, entry, content, fallback_timestamp, now_ms),
            None => follow_usage_line(state, content, fallback_timestamp, now_ms),
        }
    }
}

/// Lines were followed, one after the other.
pub open spec fn follow_lines(
    state: LiveState,
    lines: Seq<CodexLine>,
    fallback_timestamp: i64,
    now_ms: i64,
) -> LiveState
    decreases lines.len(),
{
    if lines.len() == 0 {
        state
    } else {
        follow_line(
            follow_lines(state, lines.drop_last(), fallback_timestamp, now_ms),
            lines.last(),
            fallback_timestamp,
            now_ms,
        )
    }
}

/// The session was heard of within the active window.
pub open spec fn is_active(state: LiveState, now_ms: i64) -> bool {
    &&& state.last_event_at is Some
    &&& age(now_ms, state.last_event_at->0) <= ACTIVE_SESSION_WINDOW_MS
}

/// `session` shows `state` at `now_ms`.
pub open spec fn shows(
    session: CodexCurrentSession,
    state: LiveState,
    session_id: Seq<char>,
    now_ms: i64,
) -> bool {
    &&& session.client@ == CODEX_CLIENT@
    &&& session.session_id@ == session_id
    &&& session.model_id@ == or_text(state.model, UNKNOWN_MODEL@)
    &&& session.provider_id@ == or_text(state.provider, DEFAULT_PROVIDER@)
    &&& text_of(session.agent) == Some(agent_name(state.headless, state.agent))
    &&& text_of(session.cwd) == state.cwd
    &&& may_name_repository(state.cwd, text_of(session.repo_name))
    &&& session.session_kind == (if state.headless {
        CodexSessionKind::Headless
    } else {
        CodexSessionKind::Interactive
    })
    &&& Some(session.last_event_at) == state.last_event_at
    &&& session.last_token_at == state.last_token_at
    &&& session.phase == phase_at(now_ms, session.last_event_at, session.last_token_at)
    &&& session.total_tokens == state.total_tokens
    &&& session.recent_tokens == state.recent_tokens
}

fn later_of(last: Option<i64>, instant: i64) -> (later: Option<i64>)
    ensures
        later == latest(last, instant),
{
    match last {
        Some(last) => Some(max_of(last, instant)),
        None => Some(instant),
    }
}

/// A follower of one session file.
#[derive(Debug)]
pub struct CodexSessionFollower {
    now_ms: i64,
    fallback_timestamp: i64,
    current_model: Option<String>,
    previous_totals: Option<CodexTotals>,
    session_is_headless: bool,
    session_provider: Option<String>,
    session_agent: Option<String>,
    session_cwd: Option<String>,
    last_event_at: Option<i64>,
    last_token_at: Option<i64>,
    total_tokens: i64,
    recent_tokens: i64,
}

impl CodexSessionFollower {
    /// The baseline holds no negative counter.
    pub closed spec fn sound(self) -> bool {
        sound_baseline(self.previous_totals)
    }

    /// The instant at which the session is looked at.
    pub closed spec fn now(self) -> i64 {
        self.now_ms
    }

    /// The instant of what gives none.
    pub closed spec fn fallback(self) -> i64 {
        self.fallback_timestamp
    }

    /// What is known of the session.
    pub closed spec fn state(self) -> LiveState {
        LiveState {
            model: text_of(self.current_model),
            baseline: self.previous_totals,
            headless: self.session_is_headless,
            provider: text_of(self.session_provider),
            agent: text_of(self.session_agent),
            cwd: text_of(self.session_cwd),
            last_event_at: self.last_event_at,
            last_token_at: self.last_token_at,
            total_tokens: self.total_tokens,
            recent_tokens: self.recent_tokens,
        }
    }

    /// A follower that has seen no line.
    pub fn new(now_ms: i64, path_is_headless: bool, fallback_timestamp: i64) -> (follower: Self)
        ensures
            follower.sound(),
            follower.now() == now_ms,
            follower.fallback() == fallback_timestamp,
            follower.state() == start_of_session(path_is_headless),
    {
        CodexSessionFollower {
            now_ms,
            fallback_timestamp,
            current_model: None,
            previous_totals: None,
            session_is_headless: path_is_headless,
            session_provider: None,
            session_agent: None,
            session_cwd: None,
            last_event_at: None,
            last_token_at: None,
            total_tokens: 0,
            recent_tokens: 0,
        }
    }

    fn work_in(&mut self, cwd: &Option<String>)
        requires
            old(self).sound(),
        ensures
            final(self).sound(),
            final(self).now() == old(self).now(),
            final(self).fallback() == old(self).fallback(),
            final(self).state() == works_in(old(self).state(), *cwd),
    {
        let cwd = copy_non_empty(cwd);
        if cwd.is_some() {
            self.session_cwd = cwd;
        }
    }

    fn add_tokens(&mut self, tokens: i64, instant: i64)
        requires
            old(self).sound(),
        ensures
            final(self).sound(),
            final(self).now() == old(self).now(),
            final(self).fallback() == old(self).fallback(),
            final(self).state() == used(old(self).state(), tokens, instant, old(self).now()),
    {
        self.total_tokens = saturating_sum(self.total_tokens, tokens);
        if age_ms(self.now_ms, instant) <= RECENT_TOKENS_WINDOW_MS {
            self.recent_tokens = saturating_sum(self.recent_tokens, tokens);
        }
        self.last_token_at = later_of(self.last_token_at, instant);
    }

    fn follow_meta(&mut self, payload: &CodexPayload)
        requires
            old(self).sound(),
        ensures
            final(self).sound(),
            final(self).now() == old(self).now(),
            final(self).fallback() == old(self).fallback(),
            final(self).state() == follow_session_meta(old(self).state(), *payload),
    {
        if is_text(&payload.source, "exec") {
            self.session_is_headless = true;
        }
        let provider = copy_non_empty(&payload.model_provider);
        if provider.is_some() {
            self.session_provider = provider;
        }
        let agent = copy_non_empty(&payload.agent_nickname);
        if agent.is_some() {
            self.session_agent = agent;
        }
        self.work_in(&payload.cwd);
    }

    fn follow_report(&mut self, payload: &CodexPayload, instant: i64)
        requires
            old(self).sound(),
        ensures
            final(self).sound(),
            final(self).now() == old(self).now(),
            final(self).fallback() == old(self).fallback(),
            final(self).state() == follow_token_report(
                old(self).state(),
                *payload,
                instant,
                old(self).now(),
            ),
    {
        self.work_in(&payload.cwd);
        let report = parse_token_count_payload(
            payload,
            &mut self.current_model,
            &mut self.previous_totals,
        );
        if let Some((model, tokens)) = report {
            self.current_model = Some(model);
            self.add_tokens(tokens.total(), instant);
        }
    }

    fn follow_usage(&mut self, content: &str)
        requires
            old(self).sound(),
        ensures
            final(self).sound(),
            final(self).now() == old(self).now(),
            final(self).fallback() == old(self).fallback(),
            final(self).state() == follow_usage_line(
                old(self).state(),
                content@,
                old(self).fallback(),
                old(self).now(),
            ),
    {
        if let Some(event) = parse_codex_headless_event(content, self.fallback_timestamp) {
            self.last_event_at = later_of(self.last_event_at, event.timestamp);
            let tokens = event.tokens.total();
            if event.model.is_some() {
                self.current_model = event.model;
            }
            if tokens > 0 {
                self.add_tokens(tokens, event.timestamp);
            }
        }
    }

    /// Follows the next line.
    pub fn follow(&mut self, line: &CodexLine)
        requires
            old(self).sound(),
        ensures
            final(self).sound(),
            final(self).now() == old(self).now(),
            final(self).fallback() == old(self).fallback(),
            final(self).state() == follow_line(
                old(self).state(),
                *line,
                old(self).fallback(),
                old(self).now(),
            ),
    {
        let content = match line_content(line.text.as_str()) {
            Some(content) => content,
            None => return,
        };
        if let Some(entry) = &line.entry {
            let instant = entry_timestamp(entry, self.fallback_timestamp);
            self.last_event_at = later_of(self.last_event_at, instant);
            let entry_type = entry.entry_type.as_str();
            if let Some(payload) = &entry.payload {
                if same_text(entry_type, "session_meta") {
                    self.follow_meta(payload);
                    return;
                }
                if same_text(entry_type, "turn_context") {
                    let model = extract_model(payload);
                    if model.is_some() {
                        self.current_model = model;
                    }
                    self.work_in(&payload.cwd);
                    return;
                }
                if same_text(entry_type, "event_msg") && is_text(
                    &payload.payload_type,
                    "token_count",
                ) {
                    self.follow_report(payload, instant);
                    return;
                }
            }
        }
        self.follow_usage(content);
    }

    /// The session as the lines show it, unless it is no longer active.
    pub fn into_session(self, session_id: &str) -> (session: Option<CodexCurrentSession>)
        ensures
            (match session {
                Some(session) => is_active(self.state(), self.now()) && shows(
                    session,
                    self.state(),
                    session_id@,
                    self.now(),
                ),
                None => !is_active(self.state(), self.now()),
            }),
    {
        let last_event_at = match self.last_event_at {
            Some(instant) => instant,
            None => return None,
        };
        if age_ms(self.now_ms, last_event_at) > ACTIVE_SESSION_WINDOW_MS {
            return None;
        }
        let session_kind = if self.session_is_headless {
            CodexSessionKind::Headless
        } else {
            CodexSessionKind::Interactive
        };
        let repo_name = repo_name_from_cwd(
            match &self.session_cwd {
                Some(cwd) => Some(cwd.as_str()),
                None => None,
            },
        );
        Some(
            CodexCurrentSession {
                client: CODEX_CLIENT.to_string(),
                session_id: session_id.to_string(),
                model_id: match self.current_model {
                    Some(model) => model,
                    None => UNKNOWN_MODEL.to_string(),
                },
                provider_id: match self.session_provider {
                    Some(provider) => provider,
                    None => DEFAULT_PROVIDER.to_string(),
                },
                agent: codex_agent_name(self.session_is_headless, &self.session_agent),
                cwd: self.session_cwd,
                repo_name,
                session_kind,
                phase: derive_phase(self.now_ms, last_event_at, self.last_token_at),
                last_event_at,
                last_token_at: self.last_token_at,
                total_tokens: self.total_tokens,
                recent_tokens: self.recent_tokens,
            },
        )
    }
}

/// The session whose file has these lines, as it stands at `now_ms`; `None` where it is no longer
/// active. `fallback_timestamp` is the instant of what gives none.
pub fn parse_codex_current_session(
    lines: &Vec<CodexLine>,
    session_id: &str,
    now_ms: i64,
    path_is_headless: bool,
    fallback_timestamp: i64,
) -> (session: Option<CodexCurrentSession>)
    ensures
        ({
            let state = follow_lines(
                start_of_session(path_is_headless),
                lines@,
                fallback_timestamp,
                now_ms,
            );
            match session {
                Some(session) => is_active(state, now_ms) && shows(
                    session,
                    state,
                    session_id@,
                    now_ms,
                ),
                None => !is_active(state, now_ms),
            }
        }),
{
    let mut follower = CodexSessionFollower::new(now_ms, path_is_headless, fallback_timestamp);
    let mut i: usize = 0;
    while i < lines.len()
        invariant
            i <= lines@.len(),
            follower.sound(),
            follower.now() == now_ms,
            follower.fallback() == fallback_timestamp,
            follower.state() == follow_lines(
                start_of_session(path_is_headless),
                lines@.take(i as int),
                fallback_timestamp,
                now_ms,
            ),
        decreases lines@.len() - i,
    {
        follower.follow(&lines[i]);
        assert(lines@.take(i + 1).drop_last() =~= lines@.take(i as int));
        i = i + 1;
    }
    assert(lines@.take(i as int) =~= lines@);
    follower.into_session(session_id)
}

} // verus!

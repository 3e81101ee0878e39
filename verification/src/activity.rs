//! How recently a session was active.

use crate::tokens::{saturated, saturating_difference};
use vstd::prelude::*;

verus! {

/// Tokens within this many milliseconds: the session is streaming.
pub const STREAMING_WINDOW_MS: i64 = 3_000;

/// Tokens within this many milliseconds: the session is settling.
pub const SETTLING_WINDOW_MS: i64 = 20_000;

/// An event within this many milliseconds: the session is preparing.
pub const PREPARING_WINDOW_MS: i64 = 5_000;

/// Tokens within this many milliseconds are recent.
pub const RECENT_TOKENS_WINDOW_MS: i64 = 60_000;

/// An event within this many milliseconds: the session is active.
pub const ACTIVE_SESSION_WINDOW_MS: i64 = 10 * 60 * 1000;

/// What a session is doing, by how recently it was heard of.
#[derive(Debug, Clone, Copy, PartialEq, Eq, Structural)]
pub enum CodexActivityPhase {
    Streaming,
    Settling,
    Preparing,
    Idle,
}

impl CodexActivityPhase {
    /// The name of the phase.
    pub open spec fn name(self) -> Seq<char> {
        match self {
            CodexActivityPhase::Streaming => "streaming"@,
            CodexActivityPhase::Settling => "settling"@,
            CodexActivityPhase::Preparing => "preparing"@,
            CodexActivityPhase::Idle => "idle"@,
        }
    }

    /// The place of the phase in the order from the most active one to the least.
    pub open spec fn rank(self) -> u8 {
        match self {
            CodexActivityPhase::Streaming => 0,
            CodexActivityPhase::Settling => 1,
            CodexActivityPhase::Preparing => 2,
            CodexActivityPhase::Idle => 3,
        }
    }

    /// The name of the phase.
    pub fn as_str(self) -> (name: &'static str)
        ensures
            name@ == self.name(),
    {
        match self {
            CodexActivityPhase::Streaming => "streaming",
            CodexActivityPhase::Settling => "settling",
            CodexActivityPhase::Preparing => "preparing",
            CodexActivityPhase::Idle => "idle",
        }
    }

    /// The place of the phase in the order from the most active one to the least.
    pub fn priority(self) -> (priority: u8)
        ensures
            priority == self.rank(),
    {
        match self {
            CodexActivityPhase::Streaming => 0,
            CodexActivityPhase::Settling => 1,
            CodexActivityPhase::Preparing => 2,
            CodexActivityPhase::Idle => 3,
        }
    }
}

/// How a session is run.
#[derive(Debug, Clone, Copy, PartialEq, Eq, Structural)]
pub enum CodexSessionKind {
    Interactive,
    Headless,
}

impl CodexSessionKind {
    /// The name of the kind.
    pub open spec fn name(self) -> Seq<char> {
        match self {
            CodexSessionKind::Interactive => "interactive"@,
            CodexSessionKind::Headless => "headless"@,
        }
    }

    /// The name of the kind.
    pub fn as_str(self) -> (name: &'static str)
        ensures
            name@ == self.name(),
    {
        match self {
            CodexSessionKind::Interactive => "interactive",
            CodexSessionKind::Headless => "headless",
        }
    }
}

/// The time from `timestamp_ms` to `now_ms`; an instant to come has no age.
pub open spec fn age(now_ms: i64, timestamp_ms: i64) -> i64 {
    if now_ms >= timestamp_ms {
        saturated(now_ms - timestamp_ms)
    } else {
        0
    }
}

/// The time from `timestamp_ms` to `now_ms`; an instant to come has no age.
pub fn age_ms(now_ms: i64, timestamp_ms: i64) -> (elapsed: i64)
    ensures
        elapsed == age(now_ms, timestamp_ms),
        elapsed >= 0,
{
    if now_ms >= timestamp_ms {
        saturating_difference(now_ms, timestamp_ms)
    } else {
        0
    }
}

/// The phase of a session, by the ages of its last tokens and of its last event.
pub open spec fn phase_at(
    now_ms: i64,
    last_event_at: i64,
    last_token_at: Option<i64>,
) -> CodexActivityPhase {
    if last_token_at is Some && age(now_ms, last_token_at->0) <= STREAMING_WINDOW_MS {
        CodexActivityPhase::Streaming
    } else if last_token_at is Some && age(now_ms, last_token_at->0) <= SETTLING_WINDOW_MS {
        CodexActivityPhase::Settling
    } else if age(now_ms, last_event_at) <= PREPARING_WINDOW_MS {
        CodexActivityPhase::Preparing
    } else {
        CodexActivityPhase::Idle
    }
}

/// The phase of a session, by the ages of its last tokens and of its last event.
pub fn derive_phase(now_ms: i64, last_event_at: i64, last_token_at: Option<i64>) -> (phase:
    CodexActivityPhase)
    ensures
        phase == phase_at(now_ms, last_event_at, last_token_at),
{
    if let Some(last_token_at) = last_token_at {
        let token_age = age_ms(now_ms, last_token_at);
        if token_age <= STREAMING_WINDOW_MS {
            return CodexActivityPhase::Streaming;
        }
        if token_age <= SETTLING_WINDOW_MS {
            return CodexActivityPhase::Settling;
        }
    }
    if age_ms(now_ms, last_event_at) <= PREPARING_WINDOW_MS {
        CodexActivityPhase::Preparing
    } else {
        CodexActivityPhase::Idle
    }
}

/// Phases are told apart by their names, and by their priorities.
pub proof fn phases_are_told_apart(a: CodexActivityPhase, b: CodexActivityPhase)
    ensures
        a.name() == b.name() <==> a == b,
        a.rank() == b.rank() <==> a == b,
{
    reveal_strlit("streaming");
    reveal_strlit("settling");
    reveal_strlit("preparing");
    reveal_strlit("idle");
    assert("streaming"@[1] == 't' && "settling"@[1] == 'e' && "preparing"@[1] == 'r' && "idle"@[1]
        == 'd');
}

/// Kinds are told apart by their names.
pub proof fn kinds_are_told_apart(a: CodexSessionKind, b: CodexSessionKind)
    ensures
        a.name() == b.name() <==> a == b,
{
    reveal_strlit("interactive");
    reveal_strlit("headless");
    assert("interactive"@[0] == 'i' && "headless"@[0] == 'h');
}

/// A session that nothing is heard of only ever grows less active.
pub proof fn activity_only_fades(
    earlier_ms: i64,
    later_ms: i64,
    last_event_at: i64,
    last_token_at: Option<i64>,
)
    requires
        earlier_ms <= later_ms,
    ensures
        phase_at(earlier_ms, last_event_at, last_token_at).rank() <= phase_at(
            later_ms,
            last_event_at,
            last_token_at,
        ).rank(),
{
}

/// A session counts as streaming or settling exactly as long as its last tokens are in the
/// settling window: without tokens it is preparing or idle.
pub proof fn tokens_make_a_session_active(
    now_ms: i64,
    last_event_at: i64,
    last_token_at: Option<i64>,
)
    ensures
        phase_at(now_ms, last_event_at, last_token_at).rank()
            <= CodexActivityPhase::Settling.rank() <==> last_token_at is Some && age(
            now_ms,
            last_token_at->0,
        ) <= SETTLING_WINDOW_MS,
{
}

} // verus!

//! Sessions that may still be running.

use serde_json::Value;
use tokscale_codex::activity::{
    CodexActivityPhase, CodexSessionKind, ACTIVE_SESSION_WINDOW_MS, RECENT_TOKENS_WINDOW_MS,
};
use tokscale_codex::current::{
    parse_codex_current_session, CodexCurrentSession, CodexSessionFollower,
};
use tokscale_codex::entry::{CodexEntry, CodexInfo, CodexModelInfo, CodexPayload};
use tokscale_codex::file::{parse_codex_file, CodexLine};
use tokscale_codex::tokens::CodexTokenUsage;

/// A member of an object is not of the type that it has to be.
struct Mismatch;

/// The member `name` of `value`, as `read` takes it; a null one counts as missing.
fn member<T>(
    value: &Value,
    name: &str,
    read: fn(&Value) -> Result<T, Mismatch>,
) -> Result<Option<T>, Mismatch> {
    match value.get(name) {
        Some(member) if !member.is_null() => Ok(Some(read(member)?)),
        _ => Ok(None),
    }
}

fn text(value: &Value) -> Result<String, Mismatch> {
    Ok(value.as_str().ok_or(Mismatch)?.to_string())
}

fn number(value: &Value) -> Result<i64, Mismatch> {
    value.as_i64().ok_or(Mismatch)
}

fn object(value: &Value) -> Result<&Value, Mismatch> {
    if value.is_object() {
        Ok(value)
    } else {
        Err(Mismatch)
    }
}

fn usage(value: &Value) -> Result<CodexTokenUsage, Mismatch> {
    let value = object(value)?;
    Ok(CodexTokenUsage {
        input_tokens: member(value, "input_tokens", number)?,
        output_tokens: member(value, "output_tokens", number)?,
        cached_input_tokens: member(value, "cached_input_tokens", number)?,
        cache_read_input_tokens: member(value, "cache_read_input_tokens", number)?,
        reasoning_output_tokens: member(value, "reasoning_output_tokens", number)?,
    })
}

fn info(value: &Value) -> Result<CodexInfo, Mismatch> {
    let value = object(value)?;
    Ok(CodexInfo {
        model: member(value, "model", text)?,
        model_name: member(value, "model_name", text)?,
        last_token_usage: member(value, "last_token_usage", usage)?,
        total_token_usage: member(value, "total_token_usage", usage)?,
    })
}

fn model_info(value: &Value) -> Result<CodexModelInfo, Mismatch> {
    Ok(CodexModelInfo { slug: member(object(value)?, "slug", text)? })
}

fn payload(value: &Value) -> Result<CodexPayload, Mismatch> {
    let value = object(value)?;
    Ok(CodexPayload {
        payload_type: member(value, "type", text)?,
        model: member(value, "model", text)?,
        model_name: member(value, "model_name", text)?,
        cwd: member(value, "cwd", text)?,
        model_info: member(value, "model_info", model_info)?,
        info: member(value, "info", info)?,
        source: member(value, "source", text)?,
        model_provider: member(value, "model_provider", text)?,
        agent_nickname: member(value, "agent_nickname", text)?,
    })
}

/// The entry that a document holds.
fn document_entry(value: &Value) -> Result<CodexEntry, Mismatch> {
    let value = object(value)?;
    Ok(CodexEntry {
        entry_type: member(value, "type", text)?.ok_or(Mismatch)?,
        timestamp: member(value, "timestamp", text)?,
        payload: member(value, "payload", payload)?,
    })
}

/// The entry that a line reads as.
fn entry(line: &str) -> Option<CodexEntry> {
    let value: Value = serde_json::from_str(line).ok()?;
    document_entry(&value).ok()
}

fn lines(content: &str) -> Vec<CodexLine> {
    content
        .lines()
        .map(|line| CodexLine { text: line.to_string(), entry: entry(line.trim()) })
        .collect()
}

fn current_session(
    content: &str,
    now_ms: i64,
    path_is_headless: bool,
) -> Option<CodexCurrentSession> {
    parse_codex_current_session(&lines(content), "session", now_ms, path_is_headless, now_ms)
}

#[test]
fn test_parse_codex_current_session_streaming_with_repo_and_recent_tokens() {
    let content = format!(
        "{}\n{}\n{}",
        r#"{"timestamp":"2026-01-01T00:00:00Z","type":"session_meta","payload":{"source":"interactive","model_provider":"openai","cwd":"/tmp/tokscale","agent_nickname":"Codex"}}"#,
        r#"{"timestamp":"2026-01-01T00:00:01Z","type":"turn_context","payload":{"model":"gpt-5.3-codex"}}"#,
        r#"{"timestamp":"2026-01-01T00:00:58Z","type":"event_msg","payload":{"type":"token_count","info":{"last_token_usage":{"input_tokens":10,"cached_input_tokens":2,"output_tokens":3}}}}"#
    );
    let session = current_session(&content, 1_767_225_660_000, false).unwrap();

    assert_eq!(session.model_id, "gpt-5.3-codex");
    assert_eq!(session.provider_id, "openai");
    assert_eq!(session.cwd.as_deref(), Some("/tmp/tokscale"));
    assert_eq!(session.repo_name.as_deref(), Some("tokscale"));
    assert_eq!(session.session_kind, CodexSessionKind::Interactive);
    assert_eq!(session.phase, CodexActivityPhase::Streaming);
    assert_eq!(session.total_tokens, 13);
    assert_eq!(session.recent_tokens, 13);
}

#[test]
fn test_parse_codex_current_session_preparing_without_tokens() {
    let content = format!(
        "{}\n{}",
        r#"{"timestamp":"2026-01-01T00:00:00Z","type":"session_meta","payload":{"source":"interactive","cwd":"/tmp/project"}}"#,
        r#"{"timestamp":"2026-01-01T00:00:04Z","type":"turn_context","payload":{"model":"gpt-5.2"}}"#
    );
    let session = current_session(&content, 1_767_225_608_000, false).unwrap();

    assert_eq!(session.phase, CodexActivityPhase::Preparing);
    assert_eq!(session.total_tokens, 0);
    assert_eq!(session.last_token_at, None);
}

#[test]
fn test_parse_codex_current_session_ignores_old_sessions() {
    let content = r#"{"timestamp":"2026-01-01T00:00:00Z","type":"turn_context","payload":{"model":"gpt-5.2"}}"#;
    let session = current_session(&content, 1_767_226_201_000, false);

    assert!(session.is_none());
}

#[test]
fn test_parse_codex_current_session_marks_headless_from_path() {
    let content = r#"{"type":"turn.completed","model":"gpt-4o-mini","usage":{"input_tokens":120,"cached_input_tokens":20,"output_tokens":30}}"#;
    let session =
        current_session(&content, chrono::Utc::now().timestamp_millis(), true).unwrap();

    assert_eq!(session.session_kind, CodexSessionKind::Headless);
    assert_eq!(session.agent.as_deref(), Some("headless"));
    assert_eq!(session.total_tokens, 150);
}

/// 2026-01-01T00:00:00Z.
const NEW_YEAR_MS: i64 = 1_767_225_600_000;

#[test]
fn a_file_without_events_shows_no_session() {
    assert!(current_session("", NEW_YEAR_MS, false).is_none());
    assert!(current_session("not json", NEW_YEAR_MS, true).is_none());
}

#[test]
fn a_session_is_active_for_ten_minutes() {
    let content = r#"{"timestamp":"2026-01-01T00:00:00Z","type":"turn_context","payload":{}}"#;
    let last = NEW_YEAR_MS + ACTIVE_SESSION_WINDOW_MS;

    let session = current_session(content, last, false).unwrap();
    assert_eq!(session.phase, CodexActivityPhase::Idle);
    assert_eq!(session.last_event_at, NEW_YEAR_MS);
    assert_eq!(session.model_id, "unknown");
    assert_eq!(session.provider_id, "openai");
    assert_eq!(session.agent.as_deref(), Some("Codex"));
    assert_eq!(session.client, "codex");
    assert_eq!(session.session_id, "session");
    assert!(session.cwd.is_none());
    assert!(session.repo_name.is_none());
    assert!(current_session(content, last + 1, false).is_none());
}

#[test]
fn tokens_are_recent_for_a_minute() {
    let content = r#"{"timestamp":"2026-01-01T00:00:00Z","type":"event_msg","payload":{"type":"token_count","info":{"last_token_usage":{"input_tokens":10,"output_tokens":5}}}}"#;

    let session = current_session(content, NEW_YEAR_MS + RECENT_TOKENS_WINDOW_MS, false).unwrap();
    assert_eq!(session.total_tokens, 15);
    assert_eq!(session.recent_tokens, 15);
    assert_eq!(session.last_token_at, Some(NEW_YEAR_MS));

    let later =
        current_session(content, NEW_YEAR_MS + RECENT_TOKENS_WINDOW_MS + 1, false).unwrap();
    assert_eq!(later.total_tokens, 15);
    assert_eq!(later.recent_tokens, 0);
    assert_eq!(later.last_token_at, Some(NEW_YEAR_MS));
}

#[test]
fn a_running_session_keeps_what_is_not_named_anew() {
    let content = format!(
        "{}\n{}\n{}",
        r#"{"timestamp":"2026-01-01T00:00:00Z","type":"session_meta","payload":{"model_provider":"azure","agent_nickname":"bot","cwd":"/work/one"}}"#,
        r#"{"timestamp":"2026-01-01T00:00:01Z","type":"turn_context","payload":{"model":"gpt-5.2","cwd":"/work/two/"}}"#,
        r#"{"timestamp":"2026-01-01T00:00:00Z","type":"session_meta","payload":{"model_provider":"","agent_nickname":"","cwd":""}}"#
    );
    let session = current_session(&content, NEW_YEAR_MS + 2_000, false).unwrap();

    assert_eq!(session.provider_id, "azure");
    assert_eq!(session.agent.as_deref(), Some("bot"));
    assert_eq!(session.cwd.as_deref(), Some("/work/two/"));
    assert_eq!(session.repo_name.as_deref(), Some("two"));
    assert_eq!(session.model_id, "gpt-5.2");
    assert_eq!(session.last_event_at, NEW_YEAR_MS + 1_000);
}

#[test]
fn a_turn_without_a_model_keeps_the_model_of_a_running_session() {
    let content = format!(
        "{}\n{}",
        r#"{"timestamp":"2026-01-01T00:00:00Z","type":"turn_context","payload":{"model":"gpt-5.2"}}"#,
        r#"{"timestamp":"2026-01-01T00:00:01Z","type":"turn_context","payload":{"model":""}}"#
    );
    let session = current_session(&content, NEW_YEAR_MS + 2_000, false).unwrap();
    assert_eq!(session.model_id, "gpt-5.2");
}

#[test]
fn a_session_that_was_run_by_exec_is_headless() {
    let content = r#"{"timestamp":"2026-01-01T00:00:00Z","type":"session_meta","payload":{"source":"exec","agent_nickname":"bot"}}"#;
    let session = current_session(content, NEW_YEAR_MS, false).unwrap();

    assert_eq!(session.session_kind, CodexSessionKind::Headless);
    assert_eq!(session.session_kind.as_str(), "headless");
    assert_eq!(session.agent.as_deref(), Some("headless"));
}

#[test]
fn tokens_reported_for_later_make_a_session_stream() {
    let content = r#"{"timestamp":"2026-01-01T00:00:10Z","type":"event_msg","payload":{"type":"token_count","info":{"last_token_usage":{"input_tokens":10}}}}"#;
    let session = current_session(content, NEW_YEAR_MS, false).unwrap();

    assert_eq!(session.phase, CodexActivityPhase::Streaming);
    assert_eq!(session.recent_tokens, 10);
}

#[test]
fn usage_lines_count_in_a_running_session() {
    let content = format!(
        "{}\n{}",
        r#"{"type":"turn.completed","timestamp":1767225590,"model":"gpt-4o","usage":{"input_tokens":100,"cached_input_tokens":40,"output_tokens":7}}"#,
        r#"{"type":"turn.completed","timestamp":1767225595000,"usage":{"input_tokens":-4,"cached_input_tokens":-4}}"#
    );
    let session = current_session(&content, NEW_YEAR_MS, false).unwrap();

    assert_eq!(session.model_id, "gpt-4o");
    assert_eq!(session.total_tokens, 107);
    assert_eq!(session.recent_tokens, 107);
    assert_eq!(session.last_token_at, Some(NEW_YEAR_MS - 10_000));
    assert_eq!(session.last_event_at, NEW_YEAR_MS - 5_000);
    assert_eq!(session.phase, CodexActivityPhase::Settling);
}

#[test]
fn the_total_of_a_session_is_that_of_its_messages() {
    let content = format!(
        "{}\n{}\n{}\n{}",
        r#"{"type":"event_msg","payload":{"type":"token_count","info":{"total_token_usage":{"input_tokens":100,"cached_input_tokens":30,"output_tokens":10}}}}"#,
        r#"{"type":"event_msg","payload":{"type":"token_count","info":{"total_token_usage":{"input_tokens":150,"cached_input_tokens":30,"output_tokens":25}}}}"#,
        r#"{"type":"event_msg","payload":{"type":"token_count","info":{"total_token_usage":{"input_tokens":150,"cached_input_tokens":30,"output_tokens":25}}}}"#,
        r#"{"type":"turn.completed","usage":{"input_tokens":5,"output_tokens":1}}"#
    );
    let all = lines(&content);
    let session =
        parse_codex_current_session(&all, "session", NEW_YEAR_MS, false, NEW_YEAR_MS).unwrap();
    let mut total = 0;
    for message in parse_codex_file(&all, "session", NEW_YEAR_MS) {
        total += message.tokens.total();
    }

    assert_eq!(session.total_tokens, 181);
    assert_eq!(total, 181);
}

#[test]
fn a_bare_session_meta_can_be_a_usage_line_of_a_running_session() {
    let content = r#"{"type":"session_meta","usage":{"input_tokens":5}}"#;
    assert_eq!(current_session(content, NEW_YEAR_MS, false).unwrap().total_tokens, 5);
}

#[test]
fn following_line_by_line_is_following_the_file() {
    let content = format!(
        "{}\n{}",
        r#"{"timestamp":"2026-01-01T00:00:00Z","type":"turn_context","payload":{"model":"gpt-5.2"}}"#,
        r#"{"timestamp":"2026-01-01T00:00:01Z","type":"event_msg","payload":{"type":"token_count","info":{"last_token_usage":{"input_tokens":10}}}}"#
    );
    let mut follower = CodexSessionFollower::new(NEW_YEAR_MS + 30_000, false, 0);
    for line in &lines(&content) {
        follower.follow(line);
    }
    let session = follower.into_session("session");

    assert_eq!(session, current_session(&content, NEW_YEAR_MS + 30_000, false));
    assert_eq!(session.unwrap().phase, CodexActivityPhase::Idle);
}

#[test]
fn the_last_name_of_an_agent_counts() {
    let meta = |source: &str, nickname: &str| {
        format!(
            r#"{{"type":"session_meta","payload":{{"source":"{}","agent_nickname":"{}"}}}}"#,
            source, nickname
        )
    };
    let content = format!("{}\n{}\n{}", meta("cli", "one"), meta("cli", "two"), meta("cli", ""));
    let session = current_session(&content, NEW_YEAR_MS, false).unwrap();
    assert_eq!(session.session_kind, CodexSessionKind::Interactive);
    assert_eq!(session.agent.as_deref(), Some("two"));

    let content = format!("{}\n{}", meta("exec", "one"), meta("cli", "two"));
    let session = current_session(&content, NEW_YEAR_MS, false).unwrap();
    assert_eq!(session.session_kind, CodexSessionKind::Headless);
    assert_eq!(session.agent.as_deref(), Some("headless"));
}

#[test]
fn recent_tokens_tell_that_the_last_tokens_are_recent() {
    let report = |second: i64| {
        format!(
            r#"{{"type":"turn.completed","timestamp":{},"usage":{{"input_tokens":5}}}}"#,
            NEW_YEAR_MS + second * 1_000
        )
    };
    let content = format!("{}\n{}", report(50), report(0));
    let session = current_session(&content, NEW_YEAR_MS + 110_000, false).unwrap();
    assert_eq!((session.total_tokens, session.recent_tokens), (10, 5));
    assert_eq!(session.last_token_at, Some(NEW_YEAR_MS + 50_000));

    let later = current_session(&content, NEW_YEAR_MS + 110_001, false).unwrap();
    assert_eq!((later.total_tokens, later.recent_tokens), (10, 0));
}

#[test]
fn unreadable_lines_change_nothing_in_a_running_session() {
    let line = r#"{"timestamp":"2026-01-01T00:00:00Z","type":"turn_context","payload":{"model":"m"}}"#;
    let with_noise = format!("{}\n{}\n{}", "{", line, "not json");
    assert_eq!(
        current_session(&with_noise, NEW_YEAR_MS, false),
        current_session(line, NEW_YEAR_MS, false)
    );
}

#[test]
fn the_last_event_is_the_latest_of_entries_and_usage() {
    let usage = r#"{"type":"turn.completed","timestamp":1767225570,"usage":{"input_tokens":5}}"#;
    let entry = r#"{"timestamp":"2025-12-31T23:59:50Z","type":"turn_context","payload":{}}"#;
    let both = r#"{"timestamp":"2025-12-31T23:59:20Z","type":"other","usage":{"input_tokens":5}}"#;
    let last = |content: String| {
        current_session(&content, NEW_YEAR_MS, false).unwrap().last_event_at - NEW_YEAR_MS
    };
    assert_eq!(last(format!("{}\n{}\n{}", usage, entry, both)), -10_000);
    assert_eq!(last(format!("{}\n{}", both, usage)), -30_000);
    assert_eq!(last(both.to_string()), -40_000);
}

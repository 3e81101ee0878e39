//! Session files, read into messages.

use serde_json::Value;
use tokscale_codex::entry::{CodexEntry, CodexInfo, CodexModelInfo, CodexPayload};
use tokscale_codex::file::{parse_codex_file, CodexFileReader, CodexLine};
use tokscale_codex::message::UnifiedMessage;
use tokscale_codex::tokens::{CodexTokenUsage, CodexTotals};

/// A member of an object is not of the type that it has to be.
struct Mismatch;

/// The member `name` of `value`, as `read` takes it; a null one counts as missing.
fn member<T>(
    value: &Value,
    name: &str,
    read: fn(&Value) -> Result<T, Mismatch>,
) -> Result<Option<T>, Mismatch> {
    match value.get(name) {
        Some(member) if !member.is_null() => Ok(Some(read(member)?)),
        _ => Ok(None),
    }
}

fn text(value: &Value) -> Result<String, Mismatch> {
    Ok(value.as_str().ok_or(Mismatch)?.to_string())
}

fn number(value: &Value) -> Result<i64, Mismatch> {
    value.as_i64().ok_or(Mismatch)
}

fn object(value: &Value) -> Result<&Value, Mismatch> {
    if value.is_object() {
        Ok(value)
    } else {
        Err(Mismatch)
    }
}

fn usage(value: &Value) -> Result<CodexTokenUsage, Mismatch> {
    let value = object(value)?;
    Ok(CodexTokenUsage {
        input_tokens: member(value, "input_tokens", number)?,
        output_tokens: member(value, "output_tokens", number)?,
        cached_input_tokens: member(value, "cached_input_tokens", number)?,
        cache_read_input_tokens: member(value, "cache_read_input_tokens", number)?,
        reasoning_output_tokens: member(value, "reasoning_output_tokens", number)?,
    })
}

fn info(value: &Value) -> Result<CodexInfo, Mismatch> {
    let value = object(value)?;
    Ok(CodexInfo {
        model: member(value, "model", text)?,
        model_name: member(value, "model_name", text)?,
        last_token_usage: member(value, "last_token_usage", usage)?,
        total_token_usage: member(value, "total_token_usage", usage)?,
    })
}

fn model_info(value: &Value) -> Result<CodexModelInfo, Mismatch> {
    Ok(CodexModelInfo { slug: member(object(value)?, "slug", text)? })
}

fn payload(value: &Value) -> Result<CodexPayload, Mismatch> {
    let value = object(value)?;
    Ok(CodexPayload {
        payload_type: member(value, "type", text)?,
        model: member(value, "model", text)?,
        model_name: member(value, "model_name", text)?,
        cwd: member(value, "cwd", text)?,
        model_info: member(value, "model_info", model_info)?,
        info: member(value, "info", info)?,
        source: member(value, "source", text)?,
        model_provider: member(value, "model_provider", text)?,
        agent_nickname: member(value, "agent_nickname", text)?,
    })
}

/// The entry that a document holds.
fn document_entry(value: &Value) -> Result<CodexEntry, Mismatch> {
    let value = object(value)?;
    Ok(CodexEntry {
        entry_type: member(value, "type", text)?.ok_or(Mismatch)?,
        timestamp: member(value, "timestamp", text)?,
        payload: member(value, "payload", payload)?,
    })
}

/// The entry that a line reads as.
fn entry(line: &str) -> Option<CodexEntry> {
    let value: Value = serde_json::from_str(line).ok()?;
    document_entry(&value).ok()
}

fn lines(content: &str) -> Vec<CodexLine> {
    content
        .lines()
        .map(|line| CodexLine { text: line.to_string(), entry: entry(line.trim()) })
        .collect()
}

fn read_file(content: &str) -> Vec<UnifiedMessage> {
    parse_codex_file(&lines(content), "session", 0)
}

#[test]
fn test_headless_usage_line() {
    let content = r#"{"type":"turn.completed","model":"gpt-4o-mini","usage":{"input_tokens":120,"cached_input_tokens":20,"output_tokens":30}}"#;
    let messages = read_file(&content);

    assert_eq!(messages.len(), 1);
    assert_eq!(messages[0].model_id, "gpt-4o-mini");
    assert_eq!(messages[0].tokens.input, 100);
    assert_eq!(messages[0].tokens.output, 30);
    assert_eq!(messages[0].tokens.cache_read, 20);
}

#[test]
fn test_headless_usage_nested_data() {
    let content = r#"{"type":"result","data":{"model_name":"gpt-4o","usage":{"input_tokens":50,"cached_input_tokens":5,"output_tokens":12}}}"#;
    let messages = read_file(&content);

    assert_eq!(messages.len(), 1);
    assert_eq!(messages[0].model_id, "gpt-4o");
    assert_eq!(messages[0].tokens.input, 45);
    assert_eq!(messages[0].tokens.output, 12);
    assert_eq!(messages[0].tokens.cache_read, 5);
}

#[test]
fn test_session_meta_exec_marks_headless() {
    let line1 = r#"{"timestamp":"2026-01-01T00:00:00Z","type":"session_meta","payload":{"originator":"codex_exec","source":"exec"}}"#;
    let line2 = r#"{"timestamp":"2026-01-01T00:00:01Z","type":"event_msg","payload":{"type":"token_count","info":{"last_token_usage":{"input_tokens":10,"cached_input_tokens":2,"output_tokens":3}}}}"#;
    let content = format!("{}\n{}", line1, line2);
    let messages = read_file(&content);

    assert_eq!(messages.len(), 1);
    assert_eq!(messages[0].agent.as_deref(), Some("headless"));
}

#[test]
fn test_token_count_uses_total_deltas_when_totals_repeat() {
    let line1 = r#"{"timestamp":"2026-01-01T00:00:00Z","type":"turn_context","payload":{"model":"gpt-5.2"}}"#;
    let line2 = r#"{"timestamp":"2026-01-01T00:00:01Z","type":"event_msg","payload":{"type":"token_count","info":{"total_token_usage":{"input_tokens":100,"cached_input_tokens":20,"output_tokens":30,"reasoning_output_tokens":5},"last_token_usage":{"input_tokens":100,"cached_input_tokens":20,"output_tokens":30,"reasoning_output_tokens":5}}}}"#;
    let line3 = r#"{"timestamp":"2026-01-01T00:00:02Z","type":"event_msg","payload":{"type":"token_count","info":{"total_token_usage":{"input_tokens":100,"cached_input_tokens":20,"output_tokens":30,"reasoning_output_tokens":5},"last_token_usage":{"input_tokens":100,"cached_input_tokens":20,"output_tokens":30,"reasoning_output_tokens":5}}}}"#;
    let content = format!("{}\n{}\n{}", line1, line2, line3);
    let messages = read_file(&content);

    assert_eq!(messages.len(), 1);
    assert_eq!(messages[0].tokens.input, 80);
    assert_eq!(messages[0].tokens.output, 30);
    assert_eq!(messages[0].tokens.cache_read, 20);
    assert_eq!(messages[0].tokens.reasoning, 5);
}

#[test]
fn test_token_count_falls_back_to_last_usage_when_totals_reset() {
    let line1 = r#"{"timestamp":"2026-01-01T00:00:00Z","type":"turn_context","payload":{"model":"gpt-5.2"}}"#;
    let line2 = r#"{"timestamp":"2026-01-01T00:00:01Z","type":"event_msg","payload":{"type":"token_count","info":{"total_token_usage":{"input_tokens":100,"cached_input_tokens":20,"output_tokens":30,"reasoning_output_tokens":5},"last_token_usage":{"input_tokens":100,"cached_input_tokens":20,"output_tokens":30,"reasoning_output_tokens":5}}}}"#;
    let line3 = r#"{"timestamp":"2026-01-01T00:00:02Z","type":"event_msg","payload":{"type":"token_count","info":{"total_token_usage":{"input_tokens":10,"cached_input_tokens":2,"output_tokens":3,"reasoning_output_tokens":1},"last_token_usage":{"input_tokens":10,"cached_input_tokens":2,"output_tokens":3,"reasoning_output_tokens":1}}}}"#;
    let content = format!("{}\n{}\n{}", line1, line2, line3);
    let messages = read_file(&content);

    assert_eq!(messages.len(), 2);
    assert_eq!(messages[0].tokens.input, 80);
    assert_eq!(messages[0].tokens.output, 30);
    assert_eq!(messages[0].tokens.cache_read, 20);
    assert_eq!(messages[0].tokens.reasoning, 5);
    assert_eq!(messages[1].tokens.input, 8);
    assert_eq!(messages[1].tokens.output, 3);
    assert_eq!(messages[1].tokens.cache_read, 2);
    assert_eq!(messages[1].tokens.reasoning, 1);
}

#[test]
fn test_token_count_advances_baseline_after_missing_total_fallback() {
    let line1 = r#"{"timestamp":"2026-01-01T00:00:00Z","type":"turn_context","payload":{"model":"gpt-5.2"}}"#;
    let line2 = r#"{"timestamp":"2026-01-01T00:00:01Z","type":"event_msg","payload":{"type":"token_count","info":{"total_token_usage":{"input_tokens":100,"cached_input_tokens":20,"output_tokens":30,"reasoning_output_tokens":5},"last_token_usage":{"input_tokens":100,"cached_input_tokens":20,"output_tokens":30,"reasoning_output_tokens":5}}}}"#;
    let line3 = r#"{"timestamp":"2026-01-01T00:00:02Z","type":"event_msg","payload":{"type":"token_count","info":{"last_token_usage":{"input_tokens":10,"cached_input_tokens":2,"output_tokens":3,"reasoning_output_tokens":1}}}}"#;
    let line4 = r#"{"timestamp":"2026-01-01T00:00:03Z","type":"event_msg","payload":{"type":"token_count","info":{"total_token_usage":{"input_tokens":110,"cached_input_tokens":22,"output_tokens":33,"reasoning_output_tokens":6},"last_token_usage":{"input_tokens":10,"cached_input_tokens":2,"output_tokens":3,"reasoning_output_tokens":1}}}}"#;
    let content = format!("{}\n{}\n{}\n{}", line1, line2, line3, line4);
    let messages = read_file(&content);

    assert_eq!(messages.len(), 2);
    assert_eq!(messages[0].tokens.input, 80);
    assert_eq!(messages[0].tokens.output, 30);
    assert_eq!(messages[0].tokens.cache_read, 20);
    assert_eq!(messages[0].tokens.reasoning, 5);
    assert_eq!(messages[1].tokens.input, 8);
    assert_eq!(messages[1].tokens.output, 3);
    assert_eq!(messages[1].tokens.cache_read, 2);
    assert_eq!(messages[1].tokens.reasoning, 1);
}

#[test]
fn test_token_count_skips_regressed_totals_without_last_usage() {
    // When totals regress and last_usage is absent, the row should be
    // skipped entirely to avoid double-counting the full cumulative total.
    let line1 = r#"{"timestamp":"2026-01-01T00:00:00Z","type":"turn_context","payload":{"model":"gpt-5.2"}}"#;
    let line2 = r#"{"timestamp":"2026-01-01T00:00:01Z","type":"event_msg","payload":{"type":"token_count","info":{"total_token_usage":{"input_tokens":100,"cached_input_tokens":20,"output_tokens":30,"reasoning_output_tokens":5}}}}"#;
    // Totals regress (lower values) and no last_token_usage — should skip
    let line3 = r#"{"timestamp":"2026-01-01T00:00:02Z","type":"event_msg","payload":{"type":"token_count","info":{"total_token_usage":{"input_tokens":50,"cached_input_tokens":10,"output_tokens":15,"reasoning_output_tokens":2}}}}"#;
    // Normal continuation after reset
    let line4 = r#"{"timestamp":"2026-01-01T00:00:03Z","type":"event_msg","payload":{"type":"token_count","info":{"total_token_usage":{"input_tokens":80,"cached_input_tokens":15,"output_tokens":25,"reasoning_output_tokens":4}}}}"#;
    let content = format!("{}\n{}\n{}\n{}", line1, line2, line3, line4);
    let messages = read_file(&content);

    // Should produce 2 messages: first from line2 (full total),
    // then delta from line4 relative to line3 (baseline reset).
    assert_eq!(messages.len(), 2);
    // First message: full total
    assert_eq!(messages[0].tokens.input, 80);
    assert_eq!(messages[0].tokens.output, 30);
    assert_eq!(messages[0].tokens.cache_read, 20);
    assert_eq!(messages[0].tokens.reasoning, 5);
    // Second message: delta from 50→80
    assert_eq!(messages[1].tokens.input, 25);
    assert_eq!(messages[1].tokens.output, 10);
    assert_eq!(messages[1].tokens.cache_read, 5);
    assert_eq!(messages[1].tokens.reasoning, 2);
}

#[test]
fn test_into_tokens_clamps_cached_to_input() {
    // When cached > input (malformed data), cached should be clamped to input
    // so that input + cache_read never exceeds the raw input value.
    let totals = CodexTotals {
        input: 50,
        output: 30,
        cached: 100, // More than input — malformed
        reasoning: 5,
    };
    let tokens = totals.into_tokens();
    assert_eq!(tokens.cache_read, 50); // Clamped to input
    assert_eq!(tokens.input, 0); // input - clamped_cached = 0
    assert_eq!(tokens.output, 30);
    assert_eq!(tokens.reasoning, 5);
}

#[test]
fn test_token_count_ignores_negative_fallback_usage_in_baseline() {
    let line1 = r#"{"timestamp":"2026-01-01T00:00:00Z","type":"turn_context","payload":{"model":"gpt-5.2"}}"#;
    let line2 = r#"{"timestamp":"2026-01-01T00:00:01Z","type":"event_msg","payload":{"type":"token_count","info":{"total_token_usage":{"input_tokens":100,"cached_input_tokens":20,"output_tokens":30,"reasoning_output_tokens":5},"last_token_usage":{"input_tokens":100,"cached_input_tokens":20,"output_tokens":30,"reasoning_output_tokens":5}}}}"#;
    let line3 = r#"{"timestamp":"2026-01-01T00:00:02Z","type":"event_msg","payload":{"type":"token_count","info":{"last_token_usage":{"input_tokens":-10,"cached_input_tokens":-2,"output_tokens":-3,"reasoning_output_tokens":-1}}}}"#;
    let line4 = r#"{"timestamp":"2026-01-01T00:00:03Z","type":"event_msg","payload":{"type":"token_count","info":{"total_token_usage":{"input_tokens":110,"cached_input_tokens":22,"output_tokens":33,"reasoning_output_tokens":6},"last_token_usage":{"input_tokens":10,"cached_input_tokens":2,"output_tokens":3,"reasoning_output_tokens":1}}}}"#;
    let content = format!("{}\n{}\n{}\n{}", line1, line2, line3, line4);
    let messages = read_file(&content);

    assert_eq!(messages.len(), 2);
    assert_eq!(messages[0].tokens.input, 80);
    assert_eq!(messages[0].tokens.output, 30);
    assert_eq!(messages[0].tokens.cache_read, 20);
    assert_eq!(messages[0].tokens.reasoning, 5);
    assert_eq!(messages[1].tokens.input, 8);
    assert_eq!(messages[1].tokens.output, 3);
    assert_eq!(messages[1].tokens.cache_read, 2);
    assert_eq!(messages[1].tokens.reasoning, 1);
}

#[test]
fn test_token_count_avoids_double_counting_stale_cumulative_regressions() {
    let line1 = r#"{"timestamp":"2026-01-01T00:00:00Z","type":"turn_context","payload":{"model":"gpt-5.2"}}"#;
    let line2 = r#"{"timestamp":"2026-01-01T00:00:01Z","type":"event_msg","payload":{"type":"token_count","info":{"total_token_usage":{"input_tokens":100,"cached_input_tokens":20,"output_tokens":30,"reasoning_output_tokens":5},"last_token_usage":{"input_tokens":100,"cached_input_tokens":20,"output_tokens":30,"reasoning_output_tokens":5}}}}"#;
    let line3 = r#"{"timestamp":"2026-01-01T00:00:02Z","type":"event_msg","payload":{"type":"token_count","info":{"total_token_usage":{"input_tokens":110,"cached_input_tokens":22,"output_tokens":33,"reasoning_output_tokens":6},"last_token_usage":{"input_tokens":10,"cached_input_tokens":2,"output_tokens":3,"reasoning_output_tokens":1}}}}"#;
    let line4 = r#"{"timestamp":"2026-01-01T00:00:03Z","type":"event_msg","payload":{"type":"token_count","info":{"total_token_usage":{"input_tokens":109,"cached_input_tokens":21,"output_tokens":32,"reasoning_output_tokens":6},"last_token_usage":{"input_tokens":9,"cached_input_tokens":1,"output_tokens":2,"reasoning_output_tokens":0}}}}"#;
    let line5 = r#"{"timestamp":"2026-01-01T00:00:04Z","type":"event_msg","payload":{"type":"token_count","info":{"total_token_usage":{"input_tokens":119,"cached_input_tokens":23,"output_tokens":35,"reasoning_output_tokens":6},"last_token_usage":{"input_tokens":10,"cached_input_tokens":2,"output_tokens":3,"reasoning_output_tokens":0}}}}"#;
    let content = format!("{}\n{}\n{}\n{}\n{}", line1, line2, line3, line4, line5);
    let messages = read_file(&content);

    assert_eq!(messages.len(), 3);
    assert_eq!(messages[0].tokens.input, 80);
    assert_eq!(messages[0].tokens.output, 30);
    assert_eq!(messages[0].tokens.cache_read, 20);
    assert_eq!(messages[0].tokens.reasoning, 5);

    assert_eq!(messages[1].tokens.input, 8);
    assert_eq!(messages[1].tokens.output, 3);
    assert_eq!(messages[1].tokens.cache_read, 2);
    assert_eq!(messages[1].tokens.reasoning, 1);

    // Stale snapshot (line4) is now skipped entirely; messages[2]
    // comes from line5's last_token_usage instead.
    assert_eq!(messages[2].tokens.input, 8);
    assert_eq!(messages[2].tokens.output, 3);
    assert_eq!(messages[2].tokens.cache_read, 2);
    assert_eq!(messages[2].tokens.reasoning, 0);
}

#[test]
fn test_token_count_handles_multiple_stale_regressions_before_recovery() {
    let line1 = r#"{"timestamp":"2026-01-01T00:00:00Z","type":"turn_context","payload":{"model":"gpt-5.2"}}"#;
    let line2 = r#"{"timestamp":"2026-01-01T00:00:01Z","type":"event_msg","payload":{"type":"token_count","info":{"total_token_usage":{"input_tokens":100,"cached_input_tokens":20,"output_tokens":30,"reasoning_output_tokens":5},"last_token_usage":{"input_tokens":100,"cached_input_tokens":20,"output_tokens":30,"reasoning_output_tokens":5}}}}"#;
    let line3 = r#"{"timestamp":"2026-01-01T00:00:02Z","type":"event_msg","payload":{"type":"token_count","info":{"total_token_usage":{"input_tokens":110,"cached_input_tokens":22,"output_tokens":33,"reasoning_output_tokens":6},"last_token_usage":{"input_tokens":10,"cached_input_tokens":2,"output_tokens":3,"reasoning_output_tokens":1}}}}"#;
    let line4 = r#"{"timestamp":"2026-01-01T00:00:03Z","type":"event_msg","payload":{"type":"token_count","info":{"total_token_usage":{"input_tokens":109,"cached_input_tokens":21,"output_tokens":32,"reasoning_output_tokens":6},"last_token_usage":{"input_tokens":9,"cached_input_tokens":1,"output_tokens":2,"reasoning_output_tokens":0}}}}"#;
    let line5 = r#"{"timestamp":"2026-01-01T00:00:04Z","type":"event_msg","payload":{"type":"token_count","info":{"total_token_usage":{"input_tokens":118,"cached_input_tokens":22,"output_tokens":34,"reasoning_output_tokens":6},"last_token_usage":{"input_tokens":9,"cached_input_tokens":1,"output_tokens":2,"reasoning_output_tokens":0}}}}"#;
    let line6 = r#"{"timestamp":"2026-01-01T00:00:05Z","type":"event_msg","payload":{"type":"token_count","info":{"total_token_usage":{"input_tokens":128,"cached_input_tokens":24,"output_tokens":37,"reasoning_output_tokens":6},"last_token_usage":{"input_tokens":10,"cached_input_tokens":2,"output_tokens":3,"reasoning_output_tokens":0}}}}"#;
    let content = format!(
        "{}\n{}\n{}\n{}\n{}\n{}",
        line1, line2, line3, line4, line5, line6
    );
    let messages = read_file(&content);

    // Stale line4 is skipped; messages come from lines 2, 3, 5, 6.
    assert_eq!(messages.len(), 4);
    assert_eq!(messages[0].tokens.input, 80);
    assert_eq!(messages[1].tokens.input, 8);
    assert_eq!(messages[2].tokens.input, 8);
    assert_eq!(messages[2].tokens.output, 2);
    assert_eq!(messages[2].tokens.cache_read, 1);
    assert_eq!(messages[2].tokens.reasoning, 0);
    assert_eq!(messages[3].tokens.input, 8);
    assert_eq!(messages[3].tokens.output, 3);
    assert_eq!(messages[3].tokens.cache_read, 2);
    assert_eq!(messages[3].tokens.reasoning, 0);
}

#[test]
fn test_token_count_treats_large_regressions_as_real_resets() {
    let line1 = r#"{"timestamp":"2026-01-01T00:00:00Z","type":"turn_context","payload":{"model":"gpt-5.2"}}"#;
    let line2 = r#"{"timestamp":"2026-01-01T00:00:01Z","type":"event_msg","payload":{"type":"token_count","info":{"total_token_usage":{"input_tokens":10000,"cached_input_tokens":1000,"output_tokens":400,"reasoning_output_tokens":50},"last_token_usage":{"input_tokens":10000,"cached_input_tokens":1000,"output_tokens":400,"reasoning_output_tokens":50}}}}"#;
    let line3 = r#"{"timestamp":"2026-01-01T00:00:02Z","type":"event_msg","payload":{"type":"token_count","info":{"total_token_usage":{"input_tokens":7600,"cached_input_tokens":800,"output_tokens":280,"reasoning_output_tokens":35},"last_token_usage":{"input_tokens":25,"cached_input_tokens":5,"output_tokens":4,"reasoning_output_tokens":1}}}}"#;
    let line4 = r#"{"timestamp":"2026-01-01T00:00:03Z","type":"event_msg","payload":{"type":"token_count","info":{"total_token_usage":{"input_tokens":7625,"cached_input_tokens":805,"output_tokens":284,"reasoning_output_tokens":36},"last_token_usage":{"input_tokens":25,"cached_input_tokens":5,"output_tokens":4,"reasoning_output_tokens":1}}}}"#;
    let content = format!("{}\n{}\n{}\n{}", line1, line2, line3, line4);
    let messages = read_file(&content);

    assert_eq!(messages.len(), 3);
    assert_eq!(messages[0].tokens.input, 9000);
    assert_eq!(messages[0].tokens.output, 400);
    assert_eq!(messages[0].tokens.cache_read, 1000);
    assert_eq!(messages[0].tokens.reasoning, 50);

    assert_eq!(messages[1].tokens.input, 20);
    assert_eq!(messages[1].tokens.output, 4);
    assert_eq!(messages[1].tokens.cache_read, 5);
    assert_eq!(messages[1].tokens.reasoning, 1);

    assert_eq!(messages[2].tokens.input, 20);
    assert_eq!(messages[2].tokens.output, 4);
    assert_eq!(messages[2].tokens.cache_read, 5);
    assert_eq!(messages[2].tokens.reasoning, 1);
}

#[test]
fn test_first_event_uses_last_not_total_for_resumed_sessions() {
    let line1 = r#"{"timestamp":"2026-01-01T00:00:00Z","type":"turn_context","payload":{"model":"gpt-5.2"}}"#;
    let line2 = r#"{"timestamp":"2026-01-01T00:00:01Z","type":"event_msg","payload":{"type":"token_count","info":{"total_token_usage":{"input_tokens":5000,"cached_input_tokens":500,"output_tokens":800,"reasoning_output_tokens":100},"last_token_usage":{"input_tokens":12,"cached_input_tokens":2,"output_tokens":5,"reasoning_output_tokens":1}}}}"#;
    let line3 = r#"{"timestamp":"2026-01-01T00:00:02Z","type":"event_msg","payload":{"type":"token_count","info":{"total_token_usage":{"input_tokens":5012,"cached_input_tokens":502,"output_tokens":805,"reasoning_output_tokens":101},"last_token_usage":{"input_tokens":12,"cached_input_tokens":2,"output_tokens":5,"reasoning_output_tokens":1}}}}"#;
    let content = format!("{}\n{}\n{}", line1, line2, line3);
    let messages = read_file(&content);

    assert_eq!(messages.len(), 2);
    assert_eq!(messages[0].tokens.input, 10);
    assert_eq!(messages[0].tokens.output, 5);
    assert_eq!(messages[0].tokens.cache_read, 2);
    assert_eq!(messages[0].tokens.reasoning, 1);
    assert_eq!(messages[1].tokens.input, 10);
    assert_eq!(messages[1].tokens.output, 5);
    assert_eq!(messages[1].tokens.cache_read, 2);
    assert_eq!(messages[1].tokens.reasoning, 1);
}

#[test]
fn test_zero_token_snapshot_does_not_inflate_later_deltas() {
    let line1 = r#"{"timestamp":"2026-01-01T00:00:00Z","type":"turn_context","payload":{"model":"gpt-5.2"}}"#;
    let line2 = r#"{"timestamp":"2026-01-01T00:00:01Z","type":"event_msg","payload":{"type":"token_count","info":{"total_token_usage":{"input_tokens":500,"cached_input_tokens":50,"output_tokens":80,"reasoning_output_tokens":10},"last_token_usage":{"input_tokens":500,"cached_input_tokens":50,"output_tokens":80,"reasoning_output_tokens":10}}}}"#;
    let line3 = r#"{"timestamp":"2026-01-01T00:00:02Z","type":"event_msg","payload":{"type":"token_count","info":{"total_token_usage":{"input_tokens":0,"cached_input_tokens":0,"output_tokens":0,"reasoning_output_tokens":0},"last_token_usage":{"input_tokens":0,"cached_input_tokens":0,"output_tokens":0,"reasoning_output_tokens":0}}}}"#;
    let line4 = r#"{"timestamp":"2026-01-01T00:00:03Z","type":"event_msg","payload":{"type":"token_count","info":{"total_token_usage":{"input_tokens":510,"cached_input_tokens":52,"output_tokens":83,"reasoning_output_tokens":11},"last_token_usage":{"input_tokens":10,"cached_input_tokens":2,"output_tokens":3,"reasoning_output_tokens":1}}}}"#;
    let content = format!("{}\n{}\n{}\n{}", line1, line2, line3, line4);
    let messages = read_file(&content);

    assert_eq!(messages.len(), 2);
    assert_eq!(messages[0].tokens.input, 450);
    assert_eq!(messages[0].tokens.output, 80);
    assert_eq!(messages[0].tokens.cache_read, 50);
    assert_eq!(messages[0].tokens.reasoning, 10);
    assert_eq!(messages[1].tokens.input, 8);
    assert_eq!(messages[1].tokens.output, 3);
    assert_eq!(messages[1].tokens.cache_read, 2);
    assert_eq!(messages[1].tokens.reasoning, 1);
}

#[test]
fn test_model_info_slug_from_turn_context() {
    let line1 = r#"{"timestamp":"2026-01-01T00:00:00Z","type":"turn_context","payload":{"model_info":{"slug":"o3-pro"}}}"#;
    let line2 = r#"{"timestamp":"2026-01-01T00:00:01Z","type":"event_msg","payload":{"type":"token_count","info":{"total_token_usage":{"input_tokens":10,"cached_input_tokens":2,"output_tokens":3,"reasoning_output_tokens":1},"last_token_usage":{"input_tokens":10,"cached_input_tokens":2,"output_tokens":3,"reasoning_output_tokens":1}}}}"#;
    let content = format!("{}\n{}", line1, line2);
    let messages = read_file(&content);

    assert_eq!(messages.len(), 1);
    assert_eq!(messages[0].model_id, "o3-pro");
}

#[test]
fn test_session_meta_provider_and_agent() {
    let line1 = r#"{"timestamp":"2026-01-01T00:00:00Z","type":"session_meta","payload":{"source":"interactive","model_provider":"azure","agent_nickname":"my-agent"}}"#;
    let line2 = r#"{"timestamp":"2026-01-01T00:00:01Z","type":"turn_context","payload":{"model":"gpt-5.2"}}"#;
    let line3 = r#"{"timestamp":"2026-01-01T00:00:02Z","type":"event_msg","payload":{"type":"token_count","info":{"total_token_usage":{"input_tokens":10,"cached_input_tokens":2,"output_tokens":3,"reasoning_output_tokens":1},"last_token_usage":{"input_tokens":10,"cached_input_tokens":2,"output_tokens":3,"reasoning_output_tokens":1}}}}"#;
    let content = format!("{}\n{}\n{}", line1, line2, line3);
    let messages = read_file(&content);

    assert_eq!(messages.len(), 1);
    assert_eq!(messages[0].provider_id, "azure");
    assert_eq!(messages[0].agent.as_deref(), Some("my-agent"));
}

#[test]
fn test_interactive_sessions_without_agent_nickname_fall_back_to_codex() {
    let line1 = r#"{"timestamp":"2026-01-01T00:00:00Z","type":"session_meta","payload":{"source":"interactive","model_provider":"openai"}}"#;
    let line2 = r#"{"timestamp":"2026-01-01T00:00:01Z","type":"turn_context","payload":{"model":"gpt-5.2"}}"#;
    let line3 = r#"{"timestamp":"2026-01-01T00:00:02Z","type":"event_msg","payload":{"type":"token_count","info":{"total_token_usage":{"input_tokens":10,"cached_input_tokens":2,"output_tokens":3,"reasoning_output_tokens":1},"last_token_usage":{"input_tokens":10,"cached_input_tokens":2,"output_tokens":3,"reasoning_output_tokens":1}}}}"#;
    let content = format!("{}\n{}\n{}", line1, line2, line3);
    let messages = read_file(&content);

    assert_eq!(messages.len(), 1);
    assert_eq!(messages[0].agent.as_deref(), Some("Codex"));
}

#[test]
fn test_cached_tokens_takes_max_of_both_fields() {
    let usage = CodexTokenUsage {
        input_tokens: Some(100),
        output_tokens: Some(30),
        cached_input_tokens: Some(10),
        cache_read_input_tokens: Some(20),
        reasoning_output_tokens: Some(5),
    };
    let totals = CodexTotals::from_usage(&usage);
    assert_eq!(totals.cached, 20);
}

#[test]
fn test_compaction_total_drop_uses_last_as_increment() {
    let line1 = r#"{"timestamp":"2026-01-01T00:00:00Z","type":"turn_context","payload":{"model":"gpt-5.2"}}"#;
    let line2 = r#"{"timestamp":"2026-01-01T00:00:01Z","type":"event_msg","payload":{"type":"token_count","info":{"total_token_usage":{"input_tokens":150000,"cached_input_tokens":10000,"output_tokens":20000,"reasoning_output_tokens":5000},"last_token_usage":{"input_tokens":150000,"cached_input_tokens":10000,"output_tokens":20000,"reasoning_output_tokens":5000}}}}"#;
    let line3 = r#"{"timestamp":"2026-01-01T00:00:02Z","type":"event_msg","payload":{"type":"token_count","info":{"total_token_usage":{"input_tokens":200000,"cached_input_tokens":15000,"output_tokens":25000,"reasoning_output_tokens":6000},"last_token_usage":{"input_tokens":50,"cached_input_tokens":5,"output_tokens":10,"reasoning_output_tokens":2}}}}"#;
    let content = format!("{}\n{}\n{}", line1, line2, line3);
    let messages = read_file(&content);

    assert_eq!(messages.len(), 2);
    assert_eq!(messages[1].tokens.input, 45);
    assert_eq!(messages[1].tokens.output, 10);
    assert_eq!(messages[1].tokens.cache_read, 5);
    assert_eq!(messages[1].tokens.reasoning, 2);
}

#[test]
fn test_headless_fallback_uses_session_provider_and_agent() {
    // session_meta sets provider to "azure" and agent to "my-bot",
    // then a line falls through to headless parsing (no structured entry_type)
    let line1 = r#"{"timestamp":"2026-01-01T00:00:00Z","type":"session_meta","payload":{"model_provider":"azure","agent_nickname":"my-bot"}}"#;
    let line2 = r#"{"type":"turn.completed","model":"gpt-4o","usage":{"input_tokens":100,"output_tokens":50}}"#;
    let content = format!("{}\n{}", line1, line2);
    let messages = read_file(&content);

    assert_eq!(messages.len(), 1);
    assert_eq!(messages[0].provider_id, "azure");
    assert_eq!(messages[0].agent.as_deref(), Some("my-bot"));
}

#[test]
fn test_headless_fallback_defaults_to_openai_without_session_meta() {
    // No session_meta — headless fallback should default to "openai"
    let content = r#"{"type":"turn.completed","model":"gpt-4o-mini","usage":{"input_tokens":120,"cached_input_tokens":20,"output_tokens":30}}"#;
    let messages = read_file(&content);

    assert_eq!(messages.len(), 1);
    assert_eq!(messages[0].provider_id, "openai");
    assert!(messages[0].agent.is_none());
}

#[test]
fn test_extract_model_skips_empty_slug_falls_through_to_model() {
    // model_info.slug is empty string, but payload.model has a valid value.
    // extract_model should skip the empty slug and return payload.model.
    let line1 = r#"{"timestamp":"2026-01-01T00:00:00Z","type":"turn_context","payload":{"model_info":{"slug":""},"model":"gpt-4o"}}"#;
    let line2 = r#"{"timestamp":"2026-01-01T00:00:01Z","type":"event_msg","payload":{"type":"token_count","info":{"last_token_usage":{"input_tokens":10,"output_tokens":5}}}}"#;
    let content = format!("{}\n{}", line1, line2);
    let messages = read_file(&content);

    assert_eq!(messages.len(), 1);
    assert_eq!(messages[0].model_id, "gpt-4o");
}

#[test]
fn an_empty_file_has_no_messages() {
    assert_eq!(read_file("").len(), 0);
    assert_eq!(read_file("\n   \n\t\u{3000}\n").len(), 0);
}

#[test]
fn lines_that_are_no_json_are_passed_over() {
    let content = format!(
        "{}\n{}\n{}",
        "not json at all",
        r#"{"type":"turn.completed","usage":{"input_tokens":7}}"#,
        r#"{"broken": "#
    );
    let messages = read_file(&content);

    assert_eq!(messages.len(), 1);
    assert_eq!(messages[0].client, "codex");
    assert_eq!(messages[0].session_id, "session");
    assert_eq!(messages[0].model_id, "unknown");
    assert_eq!(messages[0].timestamp, 0);
    assert_eq!(messages[0].tokens.input, 7);
    assert_eq!(messages[0].tokens.cache_write, 0);
}

#[test]
fn blank_lines_and_white_space_around_lines_change_nothing() {
    let line = r#"{"type":"turn.completed","model":"m","usage":{"input_tokens":7}}"#;
    let bare = read_file(line);
    let padded = read_file(&format!("\n  \n\t {} \u{a0}\n\n", line));

    assert_eq!(bare.len(), 1);
    assert_eq!(padded.len(), 1);
    assert_eq!(padded[0].model_id, bare[0].model_id);
    assert_eq!(padded[0].tokens, bare[0].tokens);
}

#[test]
fn a_report_has_the_instant_of_its_entry_or_the_fallback() {
    let report = r#""type":"event_msg","payload":{"type":"token_count","info":{"last_token_usage":{"input_tokens":10}}}}"#;
    let content = format!(
        "{}{}\n{}{}\n{}{}",
        r#"{"timestamp":"1970-01-01T00:00:01.500Z","#,
        report,
        r#"{"timestamp":"yesterday","#,
        report,
        "{",
        report
    );
    let messages = parse_codex_file(&lines(&content), "session", 77);

    assert_eq!(messages.len(), 3);
    assert_eq!(messages[0].timestamp, 1_500);
    assert_eq!(messages[1].timestamp, 77);
    assert_eq!(messages[2].timestamp, 77);
}

#[test]
fn a_turn_without_a_model_takes_the_model_away() {
    let content = format!(
        "{}\n{}\n{}",
        r#"{"type":"turn_context","payload":{"model":"gpt-5.2"}}"#,
        r#"{"type":"turn_context","payload":{"model":""}}"#,
        r#"{"type":"event_msg","payload":{"type":"token_count","info":{"last_token_usage":{"input_tokens":10}}}}"#
    );
    let messages = read_file(&content);

    assert_eq!(messages.len(), 1);
    assert_eq!(messages[0].model_id, "unknown");
}

#[test]
fn counters_name_a_model_over_the_payload() {
    let content = r#"{"type":"event_msg","payload":{"type":"token_count","model":"outer","info":{"model_name":"inner","last_token_usage":{"input_tokens":10}}}}"#;
    assert_eq!(read_file(content)[0].model_id, "inner");

    let content = r#"{"type":"event_msg","payload":{"type":"token_count","model":"outer","info":{"model":"","last_token_usage":{"input_tokens":10}}}}"#;
    assert_eq!(read_file(content)[0].model_id, "");
}

#[test]
fn a_usage_line_sets_the_model_of_later_lines() {
    let content = format!(
        "{}\n{}",
        r#"{"type":"turn.completed","model":"gpt-4o","usage":{"input_tokens":1}}"#,
        r#"{"type":"turn.completed","usage":{"output_tokens":2}}"#
    );
    let messages = read_file(&content);

    assert_eq!(messages.len(), 2);
    assert_eq!(messages[1].model_id, "gpt-4o");
    assert_eq!(messages[1].tokens.output, 2);
}

#[test]
fn a_bare_session_meta_is_no_usage_line_of_a_file() {
    let content = r#"{"type":"session_meta","usage":{"input_tokens":5}}"#;
    assert_eq!(read_file(content).len(), 0);
}

#[test]
fn entries_of_other_types_can_be_usage_lines() {
    let content = r#"{"type":"event_msg","payload":{"type":"agent_message"},"usage":{"input_tokens":5}}"#;
    let messages = read_file(content);

    assert_eq!(messages.len(), 1);
    assert_eq!(messages[0].tokens.input, 5);
}

#[test]
fn an_empty_provider_counts_in_a_file() {
    let content = format!(
        "{}\n{}",
        r#"{"type":"session_meta","payload":{"model_provider":""}}"#,
        r#"{"type":"turn.completed","usage":{"input_tokens":5}}"#
    );
    assert_eq!(read_file(&content)[0].provider_id, "");
}

#[test]
fn reading_line_by_line_is_reading_the_file() {
    let content = format!(
        "{}\n{}\n{}",
        r#"{"type":"session_meta","payload":{"source":"exec","model_provider":"azure"}}"#,
        r#"{"type":"event_msg","payload":{"type":"token_count","info":{"total_token_usage":{"input_tokens":10}}}}"#,
        r#"{"type":"event_msg","payload":{"type":"token_count","info":{"total_token_usage":{"input_tokens":25}}}}"#
    );
    let all = lines(&content);
    let whole = parse_codex_file(&all, "session", 5);
    let mut reader = CodexFileReader::new("session", 5);
    for line in &all {
        reader.read_line(line);
    }
    let parts = reader.into_messages();

    assert_eq!(whole.len(), 2);
    assert_eq!(parts.len(), 2);
    assert_eq!(whole[1].tokens.input, 15);
    assert_eq!(parts[1].tokens, whole[1].tokens);
    assert_eq!(parts[1].provider_id, "azure");
    assert_eq!(parts[1].agent.as_deref(), Some("headless"));
}

#[test]
fn a_session_that_turns_headless_stays_headless() {
    let content = format!(
        "{}\n{}\n{}\n{}",
        r#"{"type":"session_meta","payload":{"source":"exec","agent_nickname":"bot"}}"#,
        r#"{"type":"session_meta","payload":{"source":"interactive"}}"#,
        r#"{"type":"turn.completed","usage":{"input_tokens":5}}"#,
        r#"{"type":"event_msg","payload":{"type":"token_count","info":{"last_token_usage":{"input_tokens":10}}}}"#
    );
    let messages = read_file(&content);

    assert_eq!(messages.len(), 2);
    assert_eq!(messages[0].agent.as_deref(), Some("headless"));
    assert_eq!(messages[1].agent.as_deref(), Some("headless"));
}

#[test]
fn messages_of_growing_totals_add_up_to_the_last() {
    let content = format!(
        "{}\n{}\n{}\n{}",
        r#"{"type":"event_msg","payload":{"type":"token_count","info":{"total_token_usage":{"input_tokens":100,"cached_input_tokens":30,"output_tokens":10}}}}"#,
        r#"{"type":"event_msg","payload":{"type":"token_count","info":{"total_token_usage":{"input_tokens":100,"cached_input_tokens":45,"output_tokens":10}}}}"#,
        r#"{"type":"event_msg","payload":{"type":"token_count","info":{"total_token_usage":{"input_tokens":170,"cached_input_tokens":90,"output_tokens":10,"reasoning_output_tokens":4}}}}"#,
        r#"{"type":"event_msg","payload":{"type":"token_count","info":{"total_token_usage":{"input_tokens":170,"cached_input_tokens":90,"output_tokens":25,"reasoning_output_tokens":4}}}}"#
    );
    let mut total = 0;
    for message in read_file(&content) {
        total += message.tokens.total();
    }
    assert_eq!(total, 170 + 25 + 4);
}

#[test]
fn a_repeated_line_gives_one_message() {
    let line = r#"{"type":"event_msg","payload":{"type":"token_count","info":{"total_token_usage":{"input_tokens":100},"last_token_usage":{"input_tokens":40}}}}"#;
    let messages = read_file(&format!("{}\n{}\n{}", line, line, line));

    assert_eq!(messages.len(), 1);
    assert_eq!(messages[0].tokens.input, 40);
}

//! Short texts of the live monitor.

use crate::text::text_of;
use vstd::prelude::*;

verus! {

/// `String::push` appends one character.
pub assume_specification[ String::push ](text: &mut String, c: char)
    ensures
        final(text)@ == old(text)@.push(c),
;

/// What stands where there is nothing to show.
pub const NOTHING: &'static str = "-";

/// What stands for the part of a text that is left out.
pub const ELLIPSIS: &'static str = "...";

/// `text` cut to at most `max_chars` characters. Where there is room, a cut text ends with an
/// ellipsis.
pub open spec fn truncated(text: Seq<char>, max_chars: nat) -> Seq<char> {
    if text.len() <= max_chars {
        text
    } else if max_chars <= 3 {
        text.take(max_chars as int)
    } else {
        text.take(max_chars - 3) + ELLIPSIS@
    }
}

/// `text` cut to at most `max_chars` characters.
pub fn truncate(text: &str, max_chars: usize) -> (cut: String)
    ensures
        cut@ == truncated(text@, max_chars as nat),
{
    let count: usize = text.unicode_len();
    if count <= max_chars {
        text.to_string()
    } else if max_chars <= 3 {
        assert(text@.take(max_chars as int) =~= text@.subrange(0, max_chars as int));
        text.substring_char(0, max_chars).to_string()
    } else {
        assert(text@.take(max_chars - 3) =~= text@.subrange(0, max_chars - 3));
        let mut cut = text.substring_char(0, max_chars - 3).to_string();
        cut.append(ELLIPSIS);
        cut
    }
}

/// A cut text fits, keeps what it starts with, and is cut no further.
pub proof fn truncation_fits(text: Seq<char>, max_chars: nat)
    ensures
        truncated(text, max_chars).len() <= max_chars,
        text.len() <= max_chars ==> truncated(text, max_chars) == text,
        text.len() > max_chars ==> truncated(text, max_chars).len() == max_chars,
        truncated(truncated(text, max_chars), max_chars) == truncated(text, max_chars),
{
    reveal_strlit("...");
}

/// The digit `d`.
pub open spec fn digit(d: nat) -> char {
    if d == 0 {
        '0'
    } else if d == 1 {
        '1'
    } else if d == 2 {
        '2'
    } else if d == 3 {
        '3'
    } else if d == 4 {
        '4'
    } else if d == 5 {
        '5'
    } else if d == 6 {
        '6'
    } else if d == 7 {
        '7'
    } else if d == 8 {
        '8'
    } else {
        '9'
    }
}

/// `n` in decimal.
pub open spec fn decimal(n: nat) -> Seq<char>
    decreases n,
{
    if n < 10 {
        seq![digit(n)]
    } else {
        decimal(n / 10).push(digit(n % 10))
    }
}

fn digit_char(d: u64) -> (c: char)
    requires
        d < 10,
    ensures
        c == digit(d as nat),
{
    match d {
        0 => '0',
        1 => '1',
        2 => '2',
        3 => '3',
        4 => '4',
        5 => '5',
        6 => '6',
        7 => '7',
        8 => '8',
        _ => '9',
    }
}

/// `n` in decimal.
pub fn decimal_text(n: u64) -> (text: String)
    ensures
        text@ == decimal(n as nat),
    decreases n,
{
    if n < 10 {
        let mut text = String::new();
        text.push(digit_char(n));
        assert(text@ =~= decimal(n as nat));
        text
    } else {
        let mut text = decimal_text(n / 10);
        text.push(digit_char(n % 10));
        text
    }
}

/// `n` in two digits.
pub open spec fn two_digits(n: nat) -> Seq<char> {
    seq![digit(n / 10), digit(n % 10)]
}

/// The time of day at `second` of a day.
pub open spec fn clock(second: nat) -> Seq<char> {
    two_digits(second / 3600) + seq![':'] + two_digits(second / 60 % 60) + seq![':'] + two_digits(
        second % 60,
    )
}

/// The first instant that has a date, in milliseconds since the Unix epoch.
pub const FIRST_DATED_MS: i64 = -8_334_601_228_800_000;

/// The last instant that has a date, in milliseconds since the Unix epoch.
pub const LAST_DATED_MS: i64 = 8_210_266_876_799_999;

/// The second of the day at `timestamp_ms`, `offset_secs` seconds ahead of UTC.
pub open spec fn second_of_day(timestamp_ms: i64, offset_secs: i32) -> nat {
    ((timestamp_ms as int / 1000 + offset_secs) % 86_400) as nat
}

/// Calls `chrono::FixedOffset::east_opt` and `chrono::DateTime::from_timestamp_millis`, brings the
/// instant to the offset with `with_timezone` and formats its time of day with `format`. Claims
/// that there is one exactly for the instants that have a date, and that it is the time of day at
/// this instant and offset. An offset of a day or more is none that `chrono` takes.
#[verifier::external_body]
fn time_at_offset(timestamp_ms: i64, offset_secs: i32) -> (time: Option<String>)
    requires
        -86_400 < offset_secs < 86_400,
    ensures
        text_of(time) == (if FIRST_DATED_MS <= timestamp_ms <= LAST_DATED_MS {
            Some(clock(second_of_day(timestamp_ms, offset_secs)))
        } else {
            None
        }),
{
    let offset = chrono::FixedOffset::east_opt(offset_secs)?;
    let instant = chrono::DateTime::<chrono::Utc>::from_timestamp_millis(timestamp_ms)?;
    Some(instant.with_timezone(&offset).format("%H:%M:%S").to_string())
}

/// `label`, or what stands for nothing.
pub fn label_or_nothing(label: Option<String>) -> (shown: String)
    ensures
        shown@ == (match text_of(label) {
            Some(text) => text,
            None => NOTHING@,
        }),
{
    match label {
        Some(text) => text,
        None => NOTHING.to_string(),
    }
}

/// What stands for the instant `timestamp_ms`, `offset_secs` seconds ahead of UTC: its time of day
/// where it has a date.
pub open spec fn instant_label(timestamp_ms: i64, offset_secs: i32) -> Seq<char> {
    if FIRST_DATED_MS <= timestamp_ms <= LAST_DATED_MS {
        clock(second_of_day(timestamp_ms, offset_secs))
    } else {
        NOTHING@
    }
}

/// The time of day at `timestamp_ms`, `offset_secs` seconds ahead of UTC.
pub fn format_updated_at(timestamp_ms: i64, offset_secs: i32) -> (shown: String)
    requires
        -86_400 < offset_secs < 86_400,
    ensures
        shown@ == instant_label(timestamp_ms, offset_secs),
{
    label_or_nothing(time_at_offset(timestamp_ms, offset_secs))
}

/// Times of day repeat every day, and an hour of offset is an hour of time.
pub proof fn offsets_shift_the_clock(timestamp_ms: i64, offset_secs: i32)
    requires
        FIRST_DATED_MS <= timestamp_ms <= LAST_DATED_MS - 86_400_000,
        -86_400 < offset_secs < 82_800,
    ensures
        instant_label((timestamp_ms + 86_400_000) as i64, offset_secs) == instant_label(
            timestamp_ms,
            offset_secs,
        ),
        instant_label((timestamp_ms + 3_600_000) as i64, offset_secs) == instant_label(
            timestamp_ms,
            (offset_secs + 3_600) as i32,
        ),
{
    let second = timestamp_ms as int / 1000;
    assert((timestamp_ms + 86_400_000) / 1000 == second + 86_400);
    assert((timestamp_ms + 3_600_000) / 1000 == second + 3_600);
    assert((second + 86_400 + offset_secs) % 86_400 == (second + offset_secs) % 86_400);
    assert(second_of_day((timestamp_ms + 86_400_000) as i64, offset_secs) == second_of_day(
        timestamp_ms,
        offset_secs,
    ));
    assert(second_of_day((timestamp_ms + 3_600_000) as i64, offset_secs) == second_of_day(
        timestamp_ms,
        (offset_secs + 3_600) as i32,
    ));
}

/// What the panel says when there is no session to show.
pub open spec fn empty_message(codex_enabled: bool) -> Seq<char> {
    if codex_enabled {
        "No live Codex traces in the last 10 minutes.\nKeep a Codex CLI session active and this panel will fill in."@
    } else {
        "Codex is filtered out.\nPress 's' to enable it."@
    }
}

/// What the panel says when there is no session to show.
pub fn get_empty_message(codex_enabled: bool) -> (message: String)
    ensures
        message@ == empty_message(codex_enabled),
{
    if !codex_enabled {
        "Codex is filtered out.\nPress 's' to enable it.".to_string()
    } else {
        "No live Codex traces in the last 10 minutes.\nKeep a Codex CLI session active and this panel will fill in.".to_string()
    }
}

} // verus!

//! The live monitor.

use tokscale_codex::activity::CodexActivityPhase;
use tokscale_codex::now::deck::{deck_layout, render_trace_deck};
use tokscale_codex::now::geometry::{centered_content_rect, Area};
use tokscale_codex::now::history::SessionHistories;
use tokscale_codex::now::labels::{
    decimal_text, format_updated_at, get_empty_message, truncate, FIRST_DATED_MS, LAST_DATED_MS,
};
use tokscale_codex::now::panel::{
    history_bars, history_peak, session_bars, total_recent_tokens, CurrentSession, Level, NowState,
};
use tokscale_codex::now::render::{
    render_focus_box, render_focus_strip, render_live_gauges, render_main_panel,
    render_throughput_chart, render_trace_card,
};
use tokscale_codex::now::screen::render;
use tokscale_codex::now::style::{phase_color, phase_label, Piece, StyledText, Tone};
use tokscale_codex::now::wave::{current_wave_amplitude, render_current_wave};

fn area(x: u16, y: u16, width: u16, height: u16) -> Area {
    Area { x, y, width, height }
}

fn session(id: &str, recent_tokens: u64) -> CurrentSession {
    CurrentSession {
        session_id: id.to_string(),
        model: "gpt-5.3-codex".to_string(),
        provider: "openai".to_string(),
        cwd: Some("/work/repo".to_string()),
        repo_name: Some("repo".to_string()),
        phase: CodexActivityPhase::Streaming,
        recent_tokens,
        total_tokens: 1_000,
    }
}

fn state(count: usize) -> NowState {
    NowState {
        sessions: (0..count).map(|i| session(&format!("s{}", i), i as u64 + 1)).collect(),
        global_history: vec![3, 9, 4],
        session_histories: SessionHistories::new(),
        scroll_offset: 0,
        selected_index: 0,
        terminal_width: 100,
        narrow: false,
        updated_at_ms: None,
        utc_offset_secs: 0,
        refresh_age_secs: 12,
        codex_enabled: true,
        spinner_frame: 0,
    }
}

/// The text of a line, with numbers of tokens in angle brackets.
fn shown(line: &Vec<StyledText>) -> String {
    let mut text = String::new();
    for part in line {
        text.push_str(&piece_text(&part.piece));
    }
    text
}

fn piece_text(piece: &Piece) -> String {
    match piece {
        Piece::Text(text) => text.clone(),
        Piece::Tokens(n) => format!("<{}>", n),
        Piece::Provider(provider) => format!("<{}>", provider),
    }
}

#[test]
fn texts_are_cut_with_an_ellipsis() {
    assert_eq!(truncate("abcdef", 6), "abcdef");
    assert_eq!(truncate("abcdefg", 6), "abc...");
    assert_eq!(truncate("abcdefg", 4), "a...");
    assert_eq!(truncate("abcdefg", 3), "abc");
    assert_eq!(truncate("abcdefg", 0), "");
    assert_eq!(truncate("", 0), "");
    assert_eq!(truncate("\u{e9}\u{e9}\u{e9}\u{e9}\u{e9}", 4), "\u{e9}...");
    assert_eq!(truncate(&truncate("abcdefg", 5), 5), truncate("abcdefg", 5));
}

#[test]
fn numbers_are_written_in_decimal() {
    assert_eq!(decimal_text(0), "0");
    assert_eq!(decimal_text(10), "10");
    assert_eq!(decimal_text(1_234_567_890), "1234567890");
    assert_eq!(decimal_text(u64::MAX), u64::MAX.to_string());
}

#[test]
fn instants_are_shown_as_time_of_day_at_an_offset() {
    let noon = 1_767_268_800_000;
    assert_eq!(format_updated_at(noon, 0), "12:00:00");
    assert_eq!(format_updated_at(noon + 61_999, 0), "12:01:01");
    assert_eq!(format_updated_at(noon, 3_600), "13:00:00");
    assert_eq!(format_updated_at(noon, -45_296), "23:25:04");
    assert_eq!(format_updated_at(noon, 43_200), "00:00:00");
    assert_eq!(format_updated_at(0, 86_399), "23:59:59");
    assert_eq!(format_updated_at(0, -86_399), "00:00:01");
    assert_eq!(format_updated_at(-1, 0), "23:59:59");
}

#[test]
fn a_clock_repeats_every_day_and_moves_with_its_offset() {
    let instant = 1_767_268_812_345;
    assert_eq!(format_updated_at(instant + 86_400_000, 7_200), format_updated_at(instant, 7_200));
    assert_eq!(format_updated_at(instant + 3_600_000, 7_200), format_updated_at(instant, 10_800));
}

#[test]
fn instants_without_a_date_are_not_shown() {
    assert_eq!(format_updated_at(FIRST_DATED_MS, 0), "00:00:00");
    assert_eq!(format_updated_at(FIRST_DATED_MS, -1), "23:59:59");
    assert_eq!(format_updated_at(LAST_DATED_MS, 0), "23:59:59");
    assert_eq!(format_updated_at(LAST_DATED_MS, 1), "00:00:00");
    assert_eq!(format_updated_at(FIRST_DATED_MS - 1, 0), "-");
    assert_eq!(format_updated_at(LAST_DATED_MS + 1, 0), "-");
    assert_eq!(format_updated_at(i64::MAX, 3_600), "-");
}

#[test]
fn an_empty_deck_says_why() {
    assert_eq!(get_empty_message(false), "Codex is filtered out.\nPress 's' to enable it.");
    assert_eq!(
        get_empty_message(true),
        "No live Codex traces in the last 10 minutes.\nKeep a Codex CLI session active and this panel will fill in."
    );
}

#[test]
fn phases_have_colours_and_labels() {
    assert_eq!(phase_color(CodexActivityPhase::Streaming), Tone::Rgb(0, 255, 163));
    assert_eq!(phase_color(CodexActivityPhase::Settling), Tone::Rgb(255, 207, 90));
    assert_eq!(phase_color(CodexActivityPhase::Preparing), Tone::Rgb(95, 195, 255));
    assert_eq!(phase_color(CodexActivityPhase::Idle), Tone::Rgb(112, 123, 140));
    assert_eq!(phase_label(CodexActivityPhase::Streaming), "streaming");
    assert_eq!(phase_label(CodexActivityPhase::Idle), "idle");
}

#[test]
fn a_pulse_reaches_as_far_as_its_session_is_active() {
    let idle = CodexActivityPhase::Idle;
    assert_eq!(current_wave_amplitude(idle, 0), 1);
    assert_eq!(current_wave_amplitude(idle, 1), 2);
    assert_eq!(current_wave_amplitude(idle, 999), 2);
    assert_eq!(current_wave_amplitude(idle, 1_000), 3);
    assert_eq!(current_wave_amplitude(idle, 9_999), 3);
    assert_eq!(current_wave_amplitude(idle, 10_000), 4);
    assert_eq!(current_wave_amplitude(idle, 99_999), 4);
    assert_eq!(current_wave_amplitude(idle, 100_000), 5);
    assert_eq!(current_wave_amplitude(CodexActivityPhase::Preparing, 0), 3);
    assert_eq!(current_wave_amplitude(CodexActivityPhase::Settling, 0), 4);
    assert_eq!(current_wave_amplitude(CodexActivityPhase::Streaming, 0), 5);
    assert_eq!(current_wave_amplitude(CodexActivityPhase::Preparing, 50_000), 4);
}

#[test]
fn a_pulse_closes_in_on_the_middle() {
    let wave = |frame: usize| render_current_wave(CodexActivityPhase::Preparing, 0, frame, 20);
    assert_eq!(wave(0), "───╭──│──╯──");
    assert_eq!(wave(1), "────╭─│─╯───");
    assert_eq!(wave(2), "─────╭│╯────");
    assert_eq!(wave(3), "──────╯─────");
    assert_eq!(wave(4), wave(0));
    assert_eq!(wave(7), wave(3));
}

#[test]
fn a_wave_has_eight_columns_at_least() {
    let wave = |width: usize| render_current_wave(CodexActivityPhase::Streaming, 0, 0, width);
    assert_eq!(wave(0), "─╭──│──╯");
    assert_eq!(wave(15), wave(0));
    assert_eq!(wave(16), wave(0));
    assert_eq!(wave(17).chars().count(), 9);
    assert_eq!(wave(40).chars().count(), 32);
    let idle = render_current_wave(CodexActivityPhase::Idle, 0, 3, 0);
    assert_eq!(idle, "────╯───");
}

#[test]
fn histories_are_shown_in_bars() {
    assert_eq!(history_bars(&Vec::new()), vec![0]);
    assert_eq!(history_bars(&vec![5, 0, 2]), vec![5, 0, 2]);
    assert_eq!(history_peak(&Vec::new()), 1);
    assert_eq!(history_peak(&vec![0, 0]), 1);
    assert_eq!(history_peak(&vec![5, 0, 2]), 5);
    assert_eq!(history_peak(&vec![2, 7]), 7);

    let histories = SessionHistories::new().with("a", vec![1, 4]).with("b", vec![3]);
    assert_eq!(session_bars(&histories, "b"), (vec![3], 3));
    assert_eq!(session_bars(&histories, "a"), (vec![1, 4], 4));
    assert_eq!(session_bars(&histories, "c"), (vec![0], 1));
}

#[test]
fn a_session_has_one_history() {
    let histories = SessionHistories::new();
    assert!(histories.samples("a").is_none());
    let histories = histories.with("a", vec![1]).with("b", vec![2]).with("a", vec![3, 4]);
    assert_eq!(histories.samples("a"), Some(&vec![3, 4]));
    assert_eq!(histories.samples("b"), Some(&vec![2]));
    assert!(histories.samples("").is_none());
}

#[test]
fn recent_tokens_are_added_up() {
    assert_eq!(total_recent_tokens(&Vec::new()), 0);
    assert_eq!(total_recent_tokens(&state(4).sessions), 10);
}

#[test]
fn a_session_works_in_its_repository_or_directory() {
    let mut lead = session("a", 0);
    assert_eq!(lead.place_text(), "repo");
    lead.repo_name = None;
    assert_eq!(lead.place_text(), "/work/repo");
    lead.cwd = None;
    assert_eq!(lead.place_text(), "-");
}

#[test]
fn wide_content_is_centered() {
    assert_eq!(centered_content_rect(area(1, 2, 100, 30), 156), area(1, 2, 100, 30));
    assert_eq!(centered_content_rect(area(1, 2, 156, 30), 156), area(1, 2, 156, 30));
    assert_eq!(centered_content_rect(area(1, 2, 201, 30), 156), area(23, 2, 156, 30));
}

#[test]
fn a_box_leaves_what_is_inside_its_borders() {
    let focus = render_focus_box(
        area(3, 4, 10, 5),
        " title ",
        Piece::Text("value".to_string()),
        Tone::Highlight,
    );
    assert_eq!(focus.panel.area, area(3, 4, 10, 5));
    assert_eq!(focus.value_area, area(4, 5, 8, 3));
    assert_eq!(focus.panel.border, Tone::Highlight);
    assert_eq!(piece_text(&focus.panel.title.piece), " title ");
    assert_eq!(piece_text(&focus.value), "value");

    let flat = render_focus_box(area(3, 4, 0, 1), "", Piece::Tokens(1), Tone::Muted);
    assert_eq!(flat.value_area, area(3, 5, 0, 0));
}

#[test]
fn the_upper_part_is_split_seventy_to_thirty() {
    let (chart, gauges) = render_main_panel(&state(1), area(0, 0, 100, 12));
    assert_eq!(chart.panel.area, area(0, 0, 70, 12));
    assert_eq!(gauges.panel.area, area(70, 0, 30, 12));
}

#[test]
fn the_throughput_chart_shows_the_history_and_the_lead() {
    let chart = render_throughput_chart(&state(2), area(0, 0, 70, 12));
    assert_eq!(chart.chart_area, area(1, 1, 68, 8));
    assert_eq!(chart.footer_area, area(1, 9, 68, 2));
    assert_eq!(chart.history, vec![3, 9, 4]);
    assert_eq!(chart.max_value, 9);
    assert_eq!(shown(&chart.footer), "burst <3>  •  lead gpt-5.3-codex  •  phase streaming");
    assert_eq!(chart.footer[7].tone, Tone::Rgb(0, 255, 163));
    assert!(chart.footer[7].bold);

    let empty = render_throughput_chart(&state(0), area(0, 0, 70, 12));
    assert_eq!(shown(&empty.footer), "burst <0>  •  lead -  •  phase idle");
}

#[test]
fn the_gauges_show_sessions_burst_and_freshness() {
    let mut now = state(2);
    now.sessions[0].repo_name = Some("a-repository-with-a-long-name".to_string());
    let gauges = render_live_gauges(&now, area(70, 0, 30, 12));

    assert_eq!(gauges.sessions.area, area(71, 1, 28, 2));
    assert_eq!(gauges.burst.area, area(71, 3, 28, 2));
    assert_eq!(gauges.fresh.area, area(71, 5, 28, 2));
    assert_eq!(gauges.meta_area, area(71, 7, 28, 4));
    assert_eq!(gauges.sessions.level, Level::Share { part: 2, whole: 6 });
    assert_eq!(piece_text(&gauges.sessions.label), "2 live");
    assert_eq!(gauges.burst.level, Level::Share { part: 3, whole: 9 });
    assert_eq!(piece_text(&gauges.burst.label), "<3>");
    assert_eq!(gauges.fresh.level, Level::Freshness);
    assert_eq!(piece_text(&gauges.fresh.label), "12s");
    assert_eq!(shown(&gauges.updated), "updated -");
    assert_eq!(shown(&gauges.root), "root    a-repository-wi...");

    now.updated_at_ms = Some(1_000);
    now.utc_offset_secs = 5_400;
    now.sessions[0].repo_name = None;
    let gauges = render_live_gauges(&now, area(70, 0, 30, 12));
    assert_eq!(shown(&gauges.updated), "updated 01:30:01");
    assert_eq!(shown(&gauges.root), "root    -");
}

#[test]
fn the_boxes_show_the_leading_session() {
    let mut now = state(1);
    let strip = render_focus_strip(&now, area(0, 12, 100, 7));
    assert_eq!(strip.model.panel.area, area(0, 12, 32, 7));
    assert_eq!(strip.worktree.panel.area, area(32, 12, 34, 7));
    assert_eq!(strip.provider.panel.area, area(66, 12, 34, 7));
    assert_eq!(piece_text(&strip.model.value), "gpt-5.3-codex");
    assert_eq!(strip.model.tone, Tone::LeadModel);
    assert_eq!(piece_text(&strip.worktree.value), "repo");
    assert_eq!(piece_text(&strip.provider.value), "<openai>");

    now.narrow = true;
    let strip = render_focus_strip(&now, area(0, 12, 100, 7));
    assert_eq!(strip.model.panel.area.y, 12);
    assert_eq!(strip.worktree.panel.area.y, 14);
    assert_eq!(strip.provider.panel.area.y, 16);

    let empty = render_focus_strip(&state(0), area(0, 12, 100, 7));
    assert_eq!(piece_text(&empty.model.value), "-");
    assert_eq!(empty.model.tone, Tone::Foreground);
    assert_eq!(piece_text(&empty.provider.value), "-");
}

#[test]
fn a_card_shows_its_session() {
    let mut now = state(1);
    now.session_histories = SessionHistories::new().with("s1", vec![9]).with("s0", vec![2, 6]);
    let card = render_trace_card(&now, area(0, 0, 102, 7), &now.sessions[0], 0);

    assert_eq!(piece_text(&card.panel.title.piece), " gpt-5.3-codex ");
    assert_eq!(card.panel.border, Tone::Accent);
    assert_eq!(card.panel.background, Some(Tone::Selection));
    assert_eq!(card.header_area, area(1, 1, 100, 2));
    assert_eq!(card.wave_area, area(1, 3, 100, 1));
    assert_eq!(card.bottom_area, area(1, 4, 100, 2));
    assert_eq!(card.counters_area, area(1, 4, 62, 2));
    assert_eq!(card.history_area, area(63, 4, 38, 2));
    assert_eq!(card.history_inner, area(63, 5, 38, 1));
    assert_eq!(shown(&card.header), "repo  •  streaming");
    assert_eq!(shown(&card.counters), "burst <1>  total <1000>");
    assert_eq!(
        shown(&card.wave),
        format!("current {}", render_current_wave(CodexActivityPhase::Streaming, 1, 0, 100))
    );
    assert_eq!(card.history, vec![2, 6]);
    assert_eq!(card.history_max, 6);

    let other = render_trace_card(&now, area(0, 0, 102, 7), &now.sessions[0], 1);
    assert_eq!(other.panel.border, Tone::Rgb(0, 255, 163));
    assert_eq!(other.panel.background, Some(Tone::Background));
}

#[test]
fn decks_have_two_columns_where_there_is_room() {
    let columns = |count: usize, width: u16| deck_layout(count, width, 30, 0).columns;
    assert_eq!(columns(2, 200), 1);
    assert_eq!(columns(3, 169), 1);
    assert_eq!(columns(3, 170), 2);
    assert_eq!(columns(4, 119), 1);
    assert_eq!(columns(4, 120), 2);
    assert_eq!(deck_layout(3, 100, 30, 0).card_height, 7);
    assert_eq!(deck_layout(4, 100, 30, 0).card_height, 6);
}

#[test]
fn decks_show_a_run_of_sessions() {
    let run = |count: usize, width: u16, height: u16, offset: usize| {
        let layout = deck_layout(count, width, height, offset);
        (layout.visible, layout.start, layout.end)
    };
    assert_eq!(run(10, 100, 18, 0), (3, 0, 3));
    assert_eq!(run(10, 100, 18, 4), (3, 4, 7));
    assert_eq!(run(10, 100, 18, 99), (3, 7, 10));
    assert_eq!(run(10, 100, 2, 5), (1, 5, 6));
    assert_eq!(run(10, 120, 12, 3), (4, 2, 6));
    assert_eq!(run(10, 120, 12, 99), (4, 6, 10));
    assert_eq!(run(2, 100, 30, 1), (4, 0, 2));
    for index in 0..10 {
        let (_, start, end) = run(10, 100, 18, index);
        assert!(start <= index && index < end);
    }
}

#[test]
fn the_last_of_an_odd_number_of_sessions_may_have_no_card() {
    let layout = deck_layout(5, 120, 12, 99);
    assert_eq!((layout.visible, layout.start, layout.end), (4, 0, 4));
}

#[test]
fn two_columns_can_be_scrolled_to_all_other_sessions() {
    for index in 0..10 {
        let layout = deck_layout(10, 120, 12, index);
        assert!(layout.start <= index && index < layout.end);
    }
    for index in 0..4 {
        let layout = deck_layout(5, 120, 12, index);
        assert!(layout.start <= index && index < layout.end);
    }
}

#[test]
fn panels_lie_on_the_screen() {
    let outer = area(5, 6, 60, 40);
    let inside = |inner: Area| {
        inner.x >= outer.x
            && inner.y >= outer.y
            && inner.x + inner.width <= outer.x + outer.width
            && inner.y + inner.height <= outer.y + outer.height
    };
    let screen = render(&state(5), outer);
    assert!(inside(screen.throughput.panel.area));
    assert!(inside(screen.gauges.panel.area));
    assert!(inside(screen.focus.provider.panel.area));
    assert!(inside(screen.deck.panel.area));
    assert_eq!(screen.deck.cards.len(), 2);
    for card in &screen.deck.cards {
        assert!(inside(card.panel.area));
    }
}

#[test]
fn a_deck_without_sessions_shows_a_message() {
    let mut now = state(0);
    now.codex_enabled = false;
    let deck = render_trace_deck(&now, area(0, 19, 100, 20));

    assert_eq!(deck.empty_message, Some(get_empty_message(false)));
    assert_eq!(deck.max_visible_items, 1);
    assert_eq!(deck.inner, area(1, 20, 98, 18));
    assert!(deck.cards.is_empty());
    assert!(deck.footer.is_none());
}

#[test]
fn a_deck_of_one_column_shows_cards_and_counts_the_rest() {
    let mut now = state(5);
    now.scroll_offset = 1;
    let deck = render_trace_deck(&now, area(0, 19, 100, 20));

    assert_eq!(deck.max_visible_items, 3);
    assert_eq!(deck.cards.len(), 3);
    assert_eq!(deck.rows.len(), 3);
    assert_eq!(deck.cards[0].panel.area, area(1, 20, 98, 6));
    assert_eq!(deck.cards[1].panel.area, area(1, 26, 98, 6));
    assert_eq!(shown(&deck.cards[0].counters), "burst <2>  total <1000>");
    let footer = deck.footer.unwrap();
    assert_eq!(footer.area, area(1, 37, 98, 1));
    assert_eq!(shown(&footer.text), "+1 more traces");
    assert!(deck.empty_message.is_none());
}

#[test]
fn a_deck_of_two_columns_fills_its_rows() {
    let mut now = state(5);
    now.terminal_width = 130;
    let deck = render_trace_deck(&now, area(0, 0, 102, 20));

    assert_eq!(deck.max_visible_items, 6);
    assert_eq!(deck.cards.len(), 5);
    assert_eq!(deck.rows.len(), 3);
    assert_eq!(deck.cards[0].panel.area, area(1, 1, 50, 6));
    assert_eq!(deck.cards[1].panel.area, area(51, 1, 50, 6));
    assert_eq!(deck.cards[4].panel.area, area(1, 13, 50, 6));
    assert!(deck.footer.is_none());
}

#[test]
fn the_footer_of_a_flat_deck_stays_on_the_screen() {
    let deck = render_trace_deck(&state(5), area(0, u16::MAX - 1, 100, 1));
    assert_eq!(deck.inner, area(1, u16::MAX, 98, 0));
    assert_eq!(deck.footer.unwrap().area, area(1, u16::MAX, 98, 0));
}

#[test]
fn the_screen_is_laid_out_from_top_to_bottom() {
    let screen = render(&state(1), area(0, 0, 202, 50));

    assert_eq!(screen.panel.area, area(0, 0, 202, 50));
    assert_eq!(piece_text(&screen.panel.title.piece), " live // codex monitor ");
    assert_eq!(screen.panel.background, Some(Tone::Background));
    assert_eq!(screen.main_area, area(23, 1, 156, 12));
    assert_eq!(screen.focus_area, area(23, 13, 156, 7));
    assert_eq!(screen.deck.panel.area, area(23, 20, 156, 29));
    assert_eq!(screen.deck.cards.len(), 1);
    assert_eq!(screen.deck.max_visible_items, 3);
}

//! Laying out the live monitor.

use crate::activity::CodexActivityPhase;
use crate::now::geometry::{
    block_inner, inside, is_split, split, Area, Axis, SizeRule, ALL_BORDERS, NO_BORDERS,
};
use crate::now::labels::{
    decimal, decimal_text, format_updated_at, instant_label, truncate, truncated, NOTHING,
};
use crate::now::panel::{
    bars, history_bars, history_peak, is_panel, peak, recent_sum, samples_of, session_bars,
    total_recent_tokens, CurrentSession, FocusBox, FocusStrip, GaugeView, Level, LiveGauges,
    NowState, Panel, ThroughputChart, TraceCard,
};
use crate::now::style::{
    bold, line_of, phase_color, phase_label, phase_tone, plain, styled, styled_tokens, tokens,
    Piece, PieceView, StyledText, StyledView, Tone,
};
use crate::now::wave::{reach, render_current_wave, wave, wave_columns};
use vstd::prelude::*;

verus! {

/// What stands between two parts of a line.
pub const SEPARATOR: &'static str = "  •  ";

/// The sessions that make the sessions gauge full.
pub const FULL_HOUSE: u64 = 6;

/// The widest that the monitor gets.
pub const MAX_CONTENT_WIDTH: u16 = 156;

/// The model of the leading session.
pub open spec fn lead_model(state: NowState) -> Seq<char> {
    if state.sessions@.len() > 0 {
        state.sessions@[0].model@
    } else {
        NOTHING@
    }
}

/// The phase of the leading session.
pub open spec fn lead_phase(state: NowState) -> CodexActivityPhase {
    if state.sessions@.len() > 0 {
        state.sessions@[0].phase
    } else {
        CodexActivityPhase::Idle
    }
}

/// The place of the leading session.
pub open spec fn lead_place(state: NowState) -> Seq<char> {
    if state.sessions@.len() > 0 {
        state.sessions@[0].place()
    } else {
        NOTHING@
    }
}

/// The repository of the leading session.
pub open spec fn lead_repo(state: NowState) -> Seq<char> {
    if state.sessions@.len() > 0 && state.sessions@[0].repo_name is Some {
        state.sessions@[0].repo_name->0@
    } else {
        NOTHING@
    }
}

/// The recent tokens of all sessions can be added up.
pub open spec fn burst_fits(state: NowState) -> bool {
    recent_sum(state.sessions@) <= u64::MAX
}

/// The machine's offset from UTC is less than a day, where an instant is to be shown.
pub open spec fn offset_fits(state: NowState) -> bool {
    state.updated_at_ms is Some ==> -86_400 < state.utc_offset_secs < 86_400
}

/// A block with all borders.
fn bordered_panel(
    area: Area,
    title: &str,
    title_tone: Tone,
    border: Tone,
    background: Option<Tone>,
) -> (panel: Panel)
    ensures
        is_panel(panel, area, title@, title_tone, border, background),
{
    Panel { area, title: bold(title, title_tone), border, background }
}

/// How the throughput panel is split: the chart, and its footer.
pub open spec fn throughput_rules() -> Seq<SizeRule> {
    seq![SizeRule::Min(4), SizeRule::Length(2)]
}

/// The footer of the throughput panel.
pub open spec fn throughput_footer(state: NowState) -> Seq<StyledView> {
    seq![
        styled("burst "@, Tone::Muted, false),
        styled_tokens(recent_sum(state.sessions@) as u64, Tone::Foreground, true),
        styled(SEPARATOR@, Tone::Border, false),
        styled("lead "@, Tone::Muted, false),
        styled(truncated(lead_model(state), 20), Tone::Highlight, false),
        styled(SEPARATOR@, Tone::Border, false),
        styled("phase "@, Tone::Muted, false),
        styled(lead_phase(state).name(), phase_tone(lead_phase(state)), true),
    ]
}

/// The throughput panel in `area`.
pub open spec fn is_throughput_chart(chart: ThroughputChart, state: NowState, area: Area) -> bool {
    &&& is_panel(chart.panel, area, " throughput "@, Tone::Accent, Tone::Border, None)
    &&& is_split(
        inside(area, ALL_BORDERS),
        Axis::Vertical,
        throughput_rules(),
        seq![chart.chart_area, chart.footer_area],
    )
    &&& chart.history@ == bars(state.global_history@)
    &&& chart.max_value == peak(state.global_history@)
    &&& line_of(chart.footer@) == throughput_footer(state)
}

/// The throughput of all sessions.
pub fn render_throughput_chart(state: &NowState, area: Area) -> (chart: ThroughputChart)
    requires
        burst_fits(*state),
    ensures
        is_throughput_chart(chart, *state, area),
{
    let inner = block_inner(area, ALL_BORDERS, " throughput ");
    let rules: Vec<SizeRule> = vec![SizeRule::Min(4), SizeRule::Length(2)];
    assert(rules@ =~= throughput_rules());
    let parts = split(inner, Axis::Vertical, &rules);
    assert(parts@ =~= seq![parts@[0], parts@[1]]);
    let (model, phase) = if state.sessions.len() > 0 {
        (state.sessions[0].model.as_str(), state.sessions[0].phase)
    } else {
        (NOTHING, CodexActivityPhase::Idle)
    };
    let footer: Vec<StyledText> = vec![
        plain("burst ", Tone::Muted),
        tokens(total_recent_tokens(&state.sessions), Tone::Foreground, true),
        plain(SEPARATOR, Tone::Border),
        plain("lead ", Tone::Muted),
        plain(truncate(model, 20).as_str(), Tone::Highlight),
        plain(SEPARATOR, Tone::Border),
        plain("phase ", Tone::Muted),
        bold(phase_label(phase), phase_color(phase)),
    ];
    assert(line_of(footer@) =~= throughput_footer(*state));
    ThroughputChart {
        panel: bordered_panel(area, " throughput ", Tone::Accent, Tone::Border, None),
        chart_area: parts[0],
        history: history_bars(&state.global_history),
        max_value: history_peak(&state.global_history),
        footer_area: parts[1],
        footer,
    }
}

/// How the gauges panel is split: three gauges, and two lines of text.
pub open spec fn gauge_rules() -> Seq<SizeRule> {
    seq![SizeRule::Length(2), SizeRule::Length(2), SizeRule::Length(2), SizeRule::Min(0)]
}

/// `gauge` has this title, level, label and colour.
pub open spec fn is_gauge(
    gauge: GaugeView,
    title: Seq<char>,
    level: Level,
    label: PieceView,
    tone: Tone,
) -> bool {
    &&& gauge.title@ == title
    &&& gauge.level == level
    &&& gauge.label@ == label
    &&& gauge.tone == tone
}

/// When the sessions were last updated.
pub open spec fn updated_label(state: NowState) -> Seq<char> {
    match state.updated_at_ms {
        Some(timestamp_ms) => instant_label(timestamp_ms, state.utc_offset_secs),
        None => NOTHING@,
    }
}

/// The line that tells when the sessions were last updated.
pub open spec fn updated_line(state: NowState) -> Seq<StyledView> {
    seq![
        styled("updated "@, Tone::Muted, false),
        styled(updated_label(state), Tone::Foreground, false),
    ]
}

/// The line that tells where the leading session works.
pub open spec fn root_line(state: NowState) -> Seq<StyledView> {
    seq![
        styled("root    "@, Tone::Muted, false),
        styled(truncated(lead_repo(state), 18), Tone::Foreground, false),
    ]
}

/// The gauges panel in `area`.
pub open spec fn is_live_gauges(gauges: LiveGauges, state: NowState, area: Area) -> bool {
    let burst = recent_sum(state.sessions@) as u64;
    &&& is_panel(gauges.panel, area, " live gauges "@, Tone::Accent, Tone::Border, None)
    &&& is_split(
        inside(area, ALL_BORDERS),
        Axis::Vertical,
        gauge_rules(),
        seq![gauges.sessions.area, gauges.burst.area, gauges.fresh.area, gauges.meta_area],
    )
    &&& is_gauge(
        gauges.sessions,
        "Sessions"@,
        Level::Share { part: state.sessions@.len() as u64, whole: FULL_HOUSE },
        PieceView::Text(decimal(state.sessions@.len()) + " live"@),
        Tone::Highlight,
    )
    &&& is_gauge(
        gauges.burst,
        "Burst"@,
        Level::Share { part: burst, whole: peak(state.global_history@) },
        PieceView::Tokens(burst),
        Tone::Accent,
    )
    &&& is_gauge(
        gauges.fresh,
        "Fresh"@,
        Level::Freshness,
        PieceView::Text(decimal(state.refresh_age_secs as nat) + "s"@),
        Tone::Foreground,
    )
    &&& line_of(gauges.updated@) == updated_line(state)
    &&& line_of(gauges.root@) == root_line(state)
}

/// The gauges of the monitor.
pub fn render_live_gauges(state: &NowState, area: Area) -> (gauges: LiveGauges)
    requires
        burst_fits(*state),
        offset_fits(*state),
    ensures
        is_live_gauges(gauges, *state, area),
{
    let inner = block_inner(area, ALL_BORDERS, " live gauges ");
    let rules: Vec<SizeRule> = vec![
        SizeRule::Length(2),
        SizeRule::Length(2),
        SizeRule::Length(2),
        SizeRule::Min(0),
    ];
    assert(rules@ =~= gauge_rules());
    let parts = split(inner, Axis::Vertical, &rules);
    assert(parts@ =~= seq![parts@[0], parts@[1], parts@[2], parts@[3]]);
    let burst = total_recent_tokens(&state.sessions);
    let count = state.sessions.len() as u64;
    let mut live = decimal_text(count);
    live.append(" live");
    let mut elapsed = decimal_text(state.refresh_age_secs);
    elapsed.append("s");
    let updated_at = match state.updated_at_ms {
        Some(timestamp_ms) => format_updated_at(timestamp_ms, state.utc_offset_secs),
        None => NOTHING.to_string(),
    };
    let updated: Vec<StyledText> = vec![
        plain("updated ", Tone::Muted),
        plain(updated_at.as_str(), Tone::Foreground),
    ];
    assert(line_of(updated@) =~= updated_line(*state));
    let repo = if state.sessions.len() > 0 {
        match &state.sessions[0].repo_name {
            Some(repo) => repo.as_str(),
            None => NOTHING,
        }
    } else {
        NOTHING
    };
    let root: Vec<StyledText> = vec![
        plain("root    ", Tone::Muted),
        plain(truncate(repo, 18).as_str(), Tone::Foreground),
    ];
    assert(line_of(root@) =~= root_line(*state));
    LiveGauges {
        panel: bordered_panel(area, " live gauges ", Tone::Accent, Tone::Border, None),
        sessions: GaugeView {
            area: parts[0],
            title: "Sessions".to_string(),
            level: Level::Share { part: count, whole: FULL_HOUSE },
            label: Piece::Text(live),
            tone: Tone::Highlight,
        },
        burst: GaugeView {
            area: parts[1],
            title: "Burst".to_string(),
            level: Level::Share { part: burst, whole: history_peak(&state.global_history) },
            label: Piece::Tokens(burst),
            tone: Tone::Accent,
        },
        fresh: GaugeView {
            area: parts[2],
            title: "Fresh".to_string(),
            level: Level::Freshness,
            label: Piece::Text(elapsed),
            tone: Tone::Foreground,
        },
        meta_area: parts[3],
        updated,
        root,
    }
}

/// How the upper part is split: throughput, and gauges.
pub open spec fn main_rules() -> Seq<SizeRule> {
    seq![SizeRule::Percentage(70), SizeRule::Percentage(30)]
}

/// The upper part of the monitor in `area`.
pub open spec fn is_main_panel(
    chart: ThroughputChart,
    gauges: LiveGauges,
    state: NowState,
    area: Area,
) -> bool {
    &&& is_split(
        area,
        Axis::Horizontal,
        main_rules(),
        seq![chart.panel.area, gauges.panel.area],
    )
    &&& is_throughput_chart(chart, state, chart.panel.area)
    &&& is_live_gauges(gauges, state, gauges.panel.area)
}

/// The upper part of the monitor: throughput, and gauges.
pub fn render_main_panel(state: &NowState, area: Area) -> (panels: (ThroughputChart, LiveGauges))
    requires
        burst_fits(*state),
        offset_fits(*state),
    ensures
        is_main_panel(panels.0, panels.1, *state, area),
{
    let rules: Vec<SizeRule> = vec![SizeRule::Percentage(70), SizeRule::Percentage(30)];
    assert(rules@ =~= main_rules());
    let parts = split(area, Axis::Horizontal, &rules);
    assert(parts@ =~= seq![parts@[0], parts@[1]]);
    (render_throughput_chart(state, parts[0]), render_live_gauges(state, parts[1]))
}

/// `focus` is a box in `area` that shows `value`.
pub open spec fn is_focus_box(
    focus: FocusBox,
    area: Area,
    title: Seq<char>,
    value: PieceView,
    tone: Tone,
) -> bool {
    &&& is_panel(focus.panel, area, title, tone, tone, None)
    &&& focus.value_area == inside(area, ALL_BORDERS)
    &&& focus.value@ == value
    &&& focus.tone == tone
}

/// A box that shows `value`.
pub fn render_focus_box(area: Area, title: &str, value: Piece, tone: Tone) -> (focus: FocusBox)
    ensures
        is_focus_box(focus, area, title@, value@, tone),
{
    FocusBox {
        panel: bordered_panel(area, title, tone, tone, None),
        value_area: block_inner(area, ALL_BORDERS, title),
        value,
        tone,
    }
}

/// How the boxes are set: one above the other where the terminal is narrow, else side by side.
pub open spec fn focus_axis(narrow: bool) -> Axis {
    if narrow {
        Axis::Vertical
    } else {
        Axis::Horizontal
    }
}

/// How the boxes share the strip.
pub open spec fn focus_rules(narrow: bool) -> Seq<SizeRule> {
    if narrow {
        seq![SizeRule::Length(2), SizeRule::Length(2), SizeRule::Length(2)]
    } else {
        seq![SizeRule::Percentage(32), SizeRule::Percentage(34), SizeRule::Percentage(34)]
    }
}

/// The provider of the leading session.
pub open spec fn lead_provider(state: NowState) -> PieceView {
    if state.sessions@.len() > 0 {
        PieceView::Provider(state.sessions@[0].provider@)
    } else {
        PieceView::Text(NOTHING@)
    }
}

/// The boxes in `area`.
pub open spec fn is_focus_strip(strip: FocusStrip, state: NowState, area: Area) -> bool {
    &&& is_split(
        area,
        focus_axis(state.narrow),
        focus_rules(state.narrow),
        seq![strip.model.panel.area, strip.worktree.panel.area, strip.provider.panel.area],
    )
    &&& is_focus_box(
        strip.model,
        strip.model.panel.area,
        " lead model "@,
        PieceView::Text(truncated(lead_model(state), 24)),
        if state.sessions@.len() > 0 {
            Tone::LeadModel
        } else {
            Tone::Foreground
        },
    )
    &&& is_focus_box(
        strip.worktree,
        strip.worktree.panel.area,
        " worktree "@,
        PieceView::Text(truncated(lead_place(state), 24)),
        Tone::Highlight,
    )
    &&& is_focus_box(
        strip.provider,
        strip.provider.panel.area,
        " provider "@,
        lead_provider(state),
        Tone::Foreground,
    )
}

/// The boxes with values of the leading session.
pub fn render_focus_strip(state: &NowState, area: Area) -> (strip: FocusStrip)
    ensures
        is_focus_strip(strip, *state, area),
{
    let rules: Vec<SizeRule> = if state.narrow {
        vec![SizeRule::Length(2), SizeRule::Length(2), SizeRule::Length(2)]
    } else {
        vec![SizeRule::Percentage(32), SizeRule::Percentage(34), SizeRule::Percentage(34)]
    };
    assert(rules@ =~= focus_rules(state.narrow));
    let axis = if state.narrow {
        Axis::Vertical
    } else {
        Axis::Horizontal
    };
    let parts = split(area, axis, &rules);
    assert(parts@ =~= seq![parts@[0], parts@[1], parts@[2]]);
    let (model, place, provider, model_tone) = if state.sessions.len() > 0 {
        let lead = &state.sessions[0];
        (
            lead.model.as_str(),
            lead.place_text(),
            Piece::Provider(lead.provider.clone()),
            Tone::LeadModel,
        )
    } else {
        (NOTHING, NOTHING, Piece::Text(NOTHING.to_string()), Tone::Foreground)
    };
    FocusStrip {
        model: render_focus_box(
            parts[0],
            " lead model ",
            Piece::Text(truncate(model, 24)),
            model_tone,
        ),
        worktree: render_focus_box(
            parts[1],
            " worktree ",
            Piece::Text(truncate(place, 24)),
            Tone::Highlight,
        ),
        provider: render_focus_box(parts[2], " provider ", provider, Tone::Foreground),
    }
}

/// How a card is split: its header, its wave, and its counters.
pub open spec fn card_rules() -> Seq<SizeRule> {
    seq![SizeRule::Length(2), SizeRule::Length(1), SizeRule::Length(2)]
}

/// How the lower part of a card is split: counters, and history.
pub open spec fn bottom_rules() -> Seq<SizeRule> {
    seq![SizeRule::Percentage(62), SizeRule::Percentage(38)]
}

/// The header of a card.
pub open spec fn card_header(session: CurrentSession) -> Seq<StyledView> {
    seq![
        styled(truncated(session.place(), 34), Tone::Foreground, false),
        styled(SEPARATOR@, Tone::Border, false),
        styled(session.phase.name(), phase_tone(session.phase), true),
    ]
}

/// The wave of a card, on a line of `width` columns.
pub open spec fn card_wave(session: CurrentSession, spinner_frame: usize, width: u16) -> Seq<
    StyledView,
> {
    seq![
        styled("current "@, Tone::Muted, false),
        styled(
            wave(
                wave_columns(width as usize),
                spinner_frame,
                reach(session.phase, session.recent_tokens),
            ),
            phase_tone(session.phase),
            true,
        ),
    ]
}

/// The counters of a card.
pub open spec fn card_counters(session: CurrentSession) -> Seq<StyledView> {
    seq![
        styled("burst "@, Tone::Muted, false),
        styled_tokens(session.recent_tokens, phase_tone(session.phase), true),
        styled("  total "@, Tone::Muted, false),
        styled_tokens(session.total_tokens, Tone::Foreground, false),
    ]
}

/// The card of the session at `index`, in `area`.
pub open spec fn is_trace_card(
    card: TraceCard,
    state: NowState,
    area: Area,
    session: CurrentSession,
    index: int,
) -> bool {
    let selected = index == state.selected_index;
    let border = if selected {
        Tone::Accent
    } else {
        phase_tone(session.phase)
    };
    &&& is_panel(
        card.panel,
        area,
        " "@ + truncated(session.model@, 22) + " "@,
        border,
        border,
        Some(
            if selected {
                Tone::Selection
            } else {
                Tone::Background
            },
        ),
    )
    &&& is_split(
        inside(area, ALL_BORDERS),
        Axis::Vertical,
        card_rules(),
        seq![card.header_area, card.wave_area, card.bottom_area],
    )
    &&& is_split(
        card.bottom_area,
        Axis::Horizontal,
        bottom_rules(),
        seq![card.counters_area, card.history_area],
    )
    &&& card.history_inner == inside(card.history_area, NO_BORDERS)
    &&& line_of(card.header@) == card_header(session)
    &&& line_of(card.wave@) == card_wave(session, state.spinner_frame, card.wave_area.width)
    &&& line_of(card.counters@) == card_counters(session)
    &&& card.history@ == bars(samples_of(state.session_histories@, session.session_id@))
    &&& card.history_max == peak(samples_of(state.session_histories@, session.session_id@))
    &&& card.tone == phase_tone(session.phase)
}

/// The card of `session`, which stands at `absolute_index` among the sessions.
pub fn render_trace_card(
    state: &NowState,
    area: Area,
    session: &CurrentSession,
    absolute_index: usize,
) -> (card: TraceCard)
    ensures
        is_trace_card(card, *state, area, *session, absolute_index as int),
{
    let selected = absolute_index == state.selected_index;
    let tone = phase_color(session.phase);
    let border = if selected {
        Tone::Accent
    } else {
        tone
    };
    let background = if selected {
        Tone::Selection
    } else {
        Tone::Background
    };
    let mut title = " ".to_string();
    title.append(truncate(session.model.as_str(), 22).as_str());
    title.append(" ");
    let inner = block_inner(area, ALL_BORDERS, title.as_str());
    let rules: Vec<SizeRule> = vec![
        SizeRule::Length(2),
        SizeRule::Length(1),
        SizeRule::Length(2),
    ];
    assert(rules@ =~= card_rules());
    let parts = split(inner, Axis::Vertical, &rules);
    assert(parts@ =~= seq![parts@[0], parts@[1], parts@[2]]);
    let halves_rules: Vec<SizeRule> = vec![SizeRule::Percentage(62), SizeRule::Percentage(38)];
    assert(halves_rules@ =~= bottom_rules());
    let halves = split(parts[2], Axis::Horizontal, &halves_rules);
    assert(halves@ =~= seq![halves@[0], halves@[1]]);
    let header: Vec<StyledText> = vec![
        plain(truncate(session.place_text(), 34).as_str(), Tone::Foreground),
        plain(SEPARATOR, Tone::Border),
        bold(phase_label(session.phase), tone),
    ];
    assert(line_of(header@) =~= card_header(*session));
    let pulse = render_current_wave(
        session.phase,
        session.recent_tokens,
        state.spinner_frame,
        parts[1].width as usize,
    );
    let wave_line: Vec<StyledText> = vec![
        plain("current ", Tone::Muted),
        bold(pulse.as_str(), tone),
    ];
    assert(line_of(wave_line@) =~= card_wave(*session, state.spinner_frame, parts@[1].width));
    let counters: Vec<StyledText> = vec![
        plain("burst ", Tone::Muted),
        tokens(session.recent_tokens, tone, true),
        plain("  total ", Tone::Muted),
        tokens(session.total_tokens, Tone::Foreground, false),
    ];
    assert(line_of(counters@) =~= card_counters(*session));
    let (history, history_max) = session_bars(
        &state.session_histories,
        session.session_id.as_str(),
    );
    TraceCard {
        panel: bordered_panel(area, title.as_str(), border, border, Some(background)),
        header_area: parts[0],
        header,
        wave_area: parts[1],
        wave: wave_line,
        bottom_area: parts[2],
        counters_area: halves[0],
        counters,
        history_area: halves[1],
        history_inner: block_inner(halves[1], NO_BORDERS, "history"),
        history,
        history_max,
        tone,
    }
}

} // verus!

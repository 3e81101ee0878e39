//! What the live monitor shows, in plain texts, numbers and places.

use crate::activity::CodexActivityPhase;
use crate::now::deck::{a_deck_shows_a_run_of_sessions, is_trace_deck, layout_of};
use crate::now::geometry::{
    centered, inside, is_split, may_split_into, Area, Axis, SizeRule, ALL_BORDERS, NO_BORDERS,
};
use crate::now::labels::{clock, decimal, instant_label, truncated};
use crate::now::panel::{
    bars, peak, recent_sum, samples_of, the_peak_is_the_largest_sample, CurrentSession, DeckFooter,
    FocusBox, FocusStrip, Level, LiveGauges, NowScreen, NowState, Panel, ThroughputChart, TraceCard,
    TraceDeck,
};
use crate::now::render::{
    burst_fits, is_focus_box, is_focus_strip, is_live_gauges, is_main_panel, is_throughput_chart,
    is_trace_card,
};
use crate::now::screen::is_now_screen;
use crate::now::style::{line_of, phase_tone, PieceView, StyledText, StyledView, Tone};
use crate::now::wave::{reach, wave, wave_columns};
use vstd::prelude::*;

verus! {

/// Each session adds its recent tokens to the burst, whatever its phase, and no session has none.
pub proof fn every_session_adds_to_the_burst(sessions: Seq<CurrentSession>, added: CurrentSession)
    ensures
        recent_sum(Seq::<CurrentSession>::empty()) == 0,
        recent_sum(sessions.push(added)) == recent_sum(sessions) + added.recent_tokens,
{
    assert(sessions.push(added).drop_last() =~= sessions);
}

/// A session adds its recent tokens to the burst wherever it stands.
pub proof fn the_burst_does_not_depend_on_the_order(
    sessions: Seq<CurrentSession>,
    added: CurrentSession,
    i: int,
)
    requires
        0 <= i <= sessions.len(),
    ensures
        recent_sum(sessions.insert(i, added)) == recent_sum(sessions) + added.recent_tokens,
    decreases sessions.len(),
{
    let longer = sessions.insert(i, added);
    if i == sessions.len() {
        assert(longer.drop_last() =~= sessions);
    } else {
        assert(longer.drop_last() =~= sessions.drop_last().insert(i, added));
        the_burst_does_not_depend_on_the_order(sessions.drop_last(), added, i);
    }
}

/// The burst depends on nothing of the sessions but their recent tokens.
pub proof fn the_burst_depends_on_recent_tokens_alone(
    sessions: Seq<CurrentSession>,
    others: Seq<CurrentSession>,
)
    requires
        sessions.len() == others.len(),
        forall|i: int|
            0 <= i < sessions.len() ==> (#[trigger] sessions[i]).recent_tokens
                == others[i].recent_tokens,
    ensures
        recent_sum(sessions) == recent_sum(others),
    decreases sessions.len(),
{
    if sessions.len() > 0 {
        let last = sessions.len() - 1;
        assert(sessions[last].recent_tokens == others[last].recent_tokens);
        assert forall|i: int| 0 <= i < sessions.drop_last().len() implies (
        #[trigger] sessions.drop_last()[i]).recent_tokens == others.drop_last()[i].recent_tokens by {
            assert(sessions[i].recent_tokens == others[i].recent_tokens);
        }
        the_burst_depends_on_recent_tokens_alone(sessions.drop_last(), others.drop_last());
    }
}

/// `shown` is `text` cut to `max` characters: as it is where it fits, and else what it starts with,
/// of which three dots take the last three places if there are more than three.
pub open spec fn is_cut(shown: Seq<char>, text: Seq<char>, max: int) -> bool {
    if text.len() <= max {
        shown == text
    } else {
        &&& shown.len() == max
        &&& forall|i: int| 0 <= i < max - 3 ==> #[trigger] shown[i] == text[i]
        &&& max <= 3 ==> forall|i: int| 0 <= i < max ==> #[trigger] shown[i] == text[i]
        &&& max > 3 ==> shown[max - 3] == '.' && shown[max - 2] == '.' && shown[max - 1] == '.'
    }
}

/// Texts are cut with three dots.
pub proof fn texts_are_cut(text: Seq<char>, max_chars: nat)
    ensures
        is_cut(truncated(text, max_chars), text, max_chars as int),
{
    reveal_strlit("...");
}

/// The number that decimal digits stand for.
pub open spec fn value_of(digits: Seq<char>) -> int
    decreases digits.len(),
{
    if digits.len() == 0 {
        0
    } else {
        10 * value_of(digits.drop_last()) + (digits.last() as int - '0' as int)
    }
}

/// A number is written in decimal digits that stand for it, and does not start with a zero unless it
/// is zero.
pub proof fn numbers_are_written_in_decimal(n: nat)
    ensures
        value_of(decimal(n)) == n,
        decimal(n).len() > 0,
        forall|i: int| 0 <= i < decimal(n).len() ==> '0' <= #[trigger] decimal(n)[i] <= '9',
        n > 0 ==> decimal(n)[0] != '0',
        n == 0 ==> decimal(n).len() == 1,
    decreases n,
{
    if n < 10 {
        assert(decimal(n).drop_last() =~= Seq::empty());
        assert(value_of(decimal(n).drop_last()) == 0);
    } else {
        numbers_are_written_in_decimal(n / 10);
        assert(decimal(n).drop_last() =~= decimal(n / 10));
        assert forall|i: int| 0 <= i < decimal(n).len() implies '0' <= #[trigger] decimal(n)[i]
            <= '9' by {
            if i < decimal(n / 10).len() {
                assert(decimal(n)[i] == decimal(n / 10)[i]);
            }
        }
        assert(decimal(n)[0] == decimal(n / 10)[0]);
    }
}

/// `shown` is a time of day: two digits each of hours, minutes and seconds, with colons between.
pub open spec fn is_time(shown: Seq<char>, hours: int, minutes: int, seconds: int) -> bool {
    &&& shown.len() == 8
    &&& 10 * (shown[0] as int - '0' as int) + (shown[1] as int - '0' as int) == hours
    &&& shown[2] == ':'
    &&& 10 * (shown[3] as int - '0' as int) + (shown[4] as int - '0' as int) == minutes
    &&& shown[5] == ':'
    &&& 10 * (shown[6] as int - '0' as int) + (shown[7] as int - '0' as int) == seconds
}

/// A clock shows the hours, minutes and seconds that have passed of a day.
pub proof fn clocks_show_the_time(hours: nat, minutes: nat, seconds: nat)
    requires
        hours < 24,
        minutes < 60,
        seconds < 60,
    ensures
        is_time(
            clock((3600 * hours + 60 * minutes + seconds) as nat),
            hours as int,
            minutes as int,
            seconds as int,
        ),
{
    let second = (3600 * hours + 60 * minutes + seconds) as nat;
    assert(second / 3600 == hours);
    assert(second / 60 == 60 * hours + minutes);
    assert(second / 60 % 60 == minutes);
    assert(second % 60 == seconds);
}

/// An instant is shown as the time that has passed of the day that it lies in, ahead of UTC by the
/// offset. One without a date is not shown.
pub proof fn instants_are_shown_as_times(
    timestamp_ms: i64,
    offset_secs: i32,
    days: int,
    hours: nat,
    minutes: nat,
    seconds: nat,
    millis: int,
)
    requires
        hours < 24,
        minutes < 60,
        seconds < 60,
        0 <= millis < 1000,
        timestamp_ms + 1000 * offset_secs == 1000 * (86_400 * days + 3600 * hours + 60 * minutes
            + seconds) + millis,
    ensures
        -8_334_601_228_800_000 <= timestamp_ms <= 8_210_266_876_799_999 ==> is_time(
            instant_label(timestamp_ms, offset_secs),
            hours as int,
            minutes as int,
            seconds as int,
        ),
        !(-8_334_601_228_800_000 <= timestamp_ms <= 8_210_266_876_799_999) ==> instant_label(
            timestamp_ms,
            offset_secs,
        ) == "-"@,
{
    let second = 3600 * hours + 60 * minutes + seconds;
    assert(timestamp_ms as int / 1000 == 86_400 * days + second - offset_secs);
    assert((86_400 * days + second) % 86_400 == second);
    clocks_show_the_time(hours, minutes, seconds);
}

/// `part` shows `text` in this colour.
pub open spec fn shows(part: StyledView, text: Seq<char>, tone: Tone, bold: bool) -> bool {
    &&& part.piece == PieceView::Text(text)
    &&& part.tone == tone
    &&& part.bold == bold
}

/// `part` shows `text`, cut to `max` characters, in this colour.
pub open spec fn shows_cut(
    part: StyledView,
    text: Seq<char>,
    max: int,
    tone: Tone,
    bold: bool,
) -> bool {
    &&& part.piece is Text
    &&& is_cut(part.piece->Text_0, text, max)
    &&& part.tone == tone
    &&& part.bold == bold
}

/// `part` shows a number of tokens in this colour.
pub open spec fn shows_tokens(part: StyledView, n: int, tone: Tone, bold: bool) -> bool {
    &&& part.piece is Tokens
    &&& part.piece->Tokens_0 == n
    &&& part.tone == tone
    &&& part.bold == bold
}

/// The colour of a phase.
pub open spec fn is_tone_of(tone: Tone, phase: CodexActivityPhase) -> bool {
    match phase {
        CodexActivityPhase::Streaming => tone == Tone::Rgb(0, 255, 163),
        CodexActivityPhase::Settling => tone == Tone::Rgb(255, 207, 90),
        CodexActivityPhase::Preparing => tone == Tone::Rgb(95, 195, 255),
        CodexActivityPhase::Idle => tone == Tone::Rgb(112, 123, 140),
    }
}

/// Phases have their colours.
pub proof fn phases_have_colours(phase: CodexActivityPhase)
    ensures
        is_tone_of(phase_tone(phase), phase),
{
}

/// `panel` is a block in `area` with this bold title.
pub open spec fn is_titled(
    panel: Panel,
    area: Area,
    title: Seq<char>,
    tone: Tone,
    border: Tone,
    background: Option<Tone>,
) -> bool {
    &&& panel.area == area
    &&& shows(panel.title@, title, tone, true)
    &&& panel.border == border
    &&& panel.background == background
}

/// A line is shown part by part.
pub proof fn lines_are_shown_part_by_part(line: Seq<StyledText>, i: int)
    requires
        0 <= i < line.len(),
    ensures
        line_of(line).len() == line.len(),
        line_of(line)[i].piece == line[i].piece@,
        line_of(line)[i].tone == line[i].tone,
        line_of(line)[i].bold == line[i].bold,
{
}

/// `shown` are the bars of `history`, or one empty bar, and `max` is the height of the largest, at
/// least one.
pub open spec fn are_bars(shown: Seq<u64>, max: u64, history: Seq<u64>) -> bool {
    &&& history.len() > 0 ==> shown == history
    &&& history.len() == 0 ==> shown.len() == 1 && shown[0] == 0
    &&& max >= 1
    &&& forall|i: int| 0 <= i < history.len() ==> #[trigger] history[i] <= max
    &&& max == 1 || exists|i: int| 0 <= i < history.len() && #[trigger] history[i] == max
}

/// Histories are shown in bars.
pub proof fn histories_are_shown_in_bars(history: Seq<u64>)
    ensures
        are_bars(bars(history), peak(history), history),
{
    the_peak_is_the_largest_sample(history);
}

/// The model of the leading session, if there is one.
pub open spec fn leading_model(state: NowState) -> Seq<char> {
    if state.sessions@.len() == 0 {
        "-"@
    } else {
        state.sessions@[0].model@
    }
}

/// The phase of the leading session; that of no session is idle.
pub open spec fn leading_phase(state: NowState) -> CodexActivityPhase {
    if state.sessions@.len() == 0 {
        CodexActivityPhase::Idle
    } else {
        state.sessions@[0].phase
    }
}

/// Where a session works: its repository, or else its directory.
pub open spec fn works_at(session: CurrentSession, place: Seq<char>) -> bool {
    &&& session.repo_name matches Some(repo) ==> place == repo@
    &&& session.repo_name is None ==> (session.cwd matches Some(cwd) ==> place == cwd@)
    &&& session.repo_name is None && session.cwd is None ==> place == "-"@
}

/// Sessions work at their repository, or else in their directory.
pub proof fn sessions_have_places(session: CurrentSession)
    ensures
        works_at(session, session.place()),
{
}

/// The throughput panel shows the history of all sessions, their burst, and the model and the phase
/// of the leading one.
pub proof fn the_chart_shows_history_burst_and_lead(
    chart: ThroughputChart,
    state: NowState,
    area: Area,
)
    requires
        is_throughput_chart(chart, state, area),
        burst_fits(state),
    ensures
        is_titled(chart.panel, area, " throughput "@, Tone::Accent, Tone::Border, None),
        are_bars(chart.history@, chart.max_value, state.global_history@),
        is_split(
            inside(area, ALL_BORDERS),
            Axis::Vertical,
            seq![SizeRule::Min(4), SizeRule::Length(2)],
            seq![chart.chart_area, chart.footer_area],
        ),
        chart.footer@.len() == 8,
        shows(chart.footer@[0]@, "burst "@, Tone::Muted, false),
        shows_tokens(
            chart.footer@[1]@,
            recent_sum(state.sessions@) as int,
            Tone::Foreground,
            true,
        ),
        shows(chart.footer@[2]@, "  •  "@, Tone::Border, false),
        shows(chart.footer@[3]@, "lead "@, Tone::Muted, false),
        shows_cut(chart.footer@[4]@, leading_model(state), 20, Tone::Highlight, false),
        shows(chart.footer@[5]@, "  •  "@, Tone::Border, false),
        shows(chart.footer@[6]@, "phase "@, Tone::Muted, false),
        chart.footer@[7]@.piece == PieceView::Text(leading_phase(state).name()),
        is_tone_of(chart.footer@[7]@.tone, leading_phase(state)),
        chart.footer@[7]@.bold,
{
    texts_are_cut(leading_model(state), 20);
    histories_are_shown_in_bars(state.global_history@);
    let line = line_of(chart.footer@);
    assert(line.len() == chart.footer@.len());
    assert(forall|i: int| 0 <= i < line.len() ==> #[trigger] line[i] == chart.footer@[i]@);
    assert(line.len() == 8);
    assert(line[0] == chart.footer@[0]@ && line[1] == chart.footer@[1]@ && line[2]
        == chart.footer@[2]@ && line[3] == chart.footer@[3]@);
    assert(line[4] == chart.footer@[4]@ && line[5] == chart.footer@[5]@ && line[6]
        == chart.footer@[6]@ && line[7] == chart.footer@[7]@);
}

/// The gauges show how many sessions there are, out of six, how the burst stands to the largest of
/// the history, and how long ago the sessions were looked at; below them stand the time of the last
/// update and the repository of the leading session.
pub proof fn the_gauges_show_sessions_burst_and_age(
    gauges: LiveGauges,
    state: NowState,
    area: Area,
    max: u64,
    repo: Seq<char>,
)
    requires
        is_live_gauges(gauges, state, area),
        burst_fits(state),
        are_bars(bars(state.global_history@), max, state.global_history@),
        state.sessions@.len() > 0 && state.sessions@[0].repo_name is Some ==> repo
            == state.sessions@[0].repo_name->0@,
        state.sessions@.len() == 0 || state.sessions@[0].repo_name is None ==> repo == "-"@,
    ensures
        is_titled(gauges.panel, area, " live gauges "@, Tone::Accent, Tone::Border, None),
        is_split(
            inside(area, ALL_BORDERS),
            Axis::Vertical,
            seq![SizeRule::Length(2), SizeRule::Length(2), SizeRule::Length(2), SizeRule::Min(0)],
            seq![gauges.sessions.area, gauges.burst.area, gauges.fresh.area, gauges.meta_area],
        ),
        gauges.sessions.title@ == "Sessions"@,
        gauges.sessions.level == (Level::Share {
            part: state.sessions@.len() as u64,
            whole: 6,
        }),
        gauges.sessions.label@ == PieceView::Text(decimal(state.sessions@.len()) + " live"@),
        gauges.sessions.tone == Tone::Highlight,
        gauges.burst.title@ == "Burst"@,
        gauges.burst.level == (Level::Share {
            part: recent_sum(state.sessions@) as u64,
            whole: max,
        }),
        gauges.burst.label@ == PieceView::Tokens(recent_sum(state.sessions@) as u64),
        gauges.burst.tone == Tone::Accent,
        gauges.fresh.title@ == "Fresh"@,
        gauges.fresh.level == Level::Freshness,
        gauges.fresh.label@ == PieceView::Text(decimal(state.refresh_age_secs as nat) + "s"@),
        gauges.fresh.tone == Tone::Foreground,
        gauges.updated@.len() == 2,
        shows(gauges.updated@[0]@, "updated "@, Tone::Muted, false),
        state.updated_at_ms matches Some(updated) ==> shows(
            gauges.updated@[1]@,
            instant_label(updated, state.utc_offset_secs),
            Tone::Foreground,
            false,
        ),
        state.updated_at_ms is None ==> shows(
            gauges.updated@[1]@,
            "-"@,
            Tone::Foreground,
            false,
        ),
        gauges.root@.len() == 2,
        shows(gauges.root@[0]@, "root    "@, Tone::Muted, false),
        shows_cut(gauges.root@[1]@, repo, 18, Tone::Foreground, false),
{
    texts_are_cut(repo, 18);
    one_height_is_the_largest(state.global_history@, max);
    let updated = line_of(gauges.updated@);
    let root = line_of(gauges.root@);
    assert(updated.len() == 2 && root.len() == 2);
    assert(updated[0] == gauges.updated@[0]@ && updated[1] == gauges.updated@[1]@);
    assert(root[0] == gauges.root@[0]@ && root[1] == gauges.root@[1]@);
}

proof fn one_height_is_the_largest(history: Seq<u64>, max: u64)
    requires
        are_bars(bars(history), max, history),
    ensures
        max == peak(history),
{
    histories_are_shown_in_bars(history);
    if max != peak(history) {
        if max > peak(history) {
            let i = choose|i: int| 0 <= i < history.len() && #[trigger] history[i] == max;
            assert(history[i] <= peak(history));
        } else {
            let i = choose|i: int| 0 <= i < history.len() && #[trigger] history[i] == peak(history);
            assert(history[i] <= max);
        }
    }
}

/// What an area is split into is an outcome of splitting it by these rules: one part for each rule,
/// as wide or as high as the area across the axis, and within the area.
pub proof fn parts_come_from_splitting(
    area: Area,
    axis: Axis,
    rules: Seq<SizeRule>,
    parts: Seq<Area>,
    i: int,
)
    requires
        is_split(area, axis, rules, parts),
        0 <= i < parts.len(),
    ensures
        may_split_into(area, axis, rules, parts),
        parts.len() == rules.len(),
        axis is Vertical ==> parts[i].x == area.x && parts[i].width == area.width,
        axis is Horizontal ==> parts[i].y == area.y && parts[i].height == area.height,
        area.x + area.width <= u16::MAX && area.y + area.height <= u16::MAX ==> {
            &&& area.x <= parts[i].x
            &&& area.y <= parts[i].y
            &&& parts[i].x + parts[i].width <= area.x + area.width
            &&& parts[i].y + parts[i].height <= area.y + area.height
        },
{
}

/// The upper part gives seventy percent to the throughput and thirty to the gauges.
pub proof fn the_upper_part_is_shared(
    chart: ThroughputChart,
    gauges: LiveGauges,
    state: NowState,
    area: Area,
)
    requires
        is_main_panel(chart, gauges, state, area),
    ensures
        is_split(
            area,
            Axis::Horizontal,
            seq![SizeRule::Percentage(70), SizeRule::Percentage(30)],
            seq![chart.panel.area, gauges.panel.area],
        ),
        is_throughput_chart(chart, state, chart.panel.area),
        is_live_gauges(gauges, state, gauges.panel.area),
{
}

/// `focus` shows `value` in `area`, all in one colour.
pub open spec fn shows_value(
    focus: FocusBox,
    area: Area,
    title: Seq<char>,
    value: PieceView,
    tone: Tone,
) -> bool {
    &&& is_titled(focus.panel, area, title, tone, tone, None)
    &&& focus.value_area == inside(area, ALL_BORDERS)
    &&& focus.value@ == value
    &&& focus.tone == tone
}

/// A box shows its value in its area, all in one colour.
pub proof fn boxes_show_their_value(
    focus: FocusBox,
    area: Area,
    title: Seq<char>,
    value: PieceView,
    tone: Tone,
)
    requires
        is_focus_box(focus, area, title, value, tone),
    ensures
        shows_value(focus, area, title, value, tone),
{
}

/// The boxes show the model, the place and the provider of the leading session, side by side, or one
/// above the other where the terminal is narrow.
pub proof fn the_boxes_show_the_lead(
    strip: FocusStrip,
    state: NowState,
    area: Area,
    place: Seq<char>,
)
    requires
        is_focus_strip(strip, state, area),
        state.sessions@.len() > 0 ==> works_at(state.sessions@[0], place),
        state.sessions@.len() == 0 ==> place == "-"@,
    ensures
        state.narrow ==> is_split(
            area,
            Axis::Vertical,
            seq![SizeRule::Length(2), SizeRule::Length(2), SizeRule::Length(2)],
            seq![strip.model.panel.area, strip.worktree.panel.area, strip.provider.panel.area],
        ),
        !state.narrow ==> is_split(
            area,
            Axis::Horizontal,
            seq![SizeRule::Percentage(32), SizeRule::Percentage(34), SizeRule::Percentage(34)],
            seq![strip.model.panel.area, strip.worktree.panel.area, strip.provider.panel.area],
        ),
        strip.model.value@ is Text,
        is_cut(strip.model.value@->Text_0, leading_model(state), 24),
        strip.worktree.value@ is Text,
        is_cut(strip.worktree.value@->Text_0, place, 24),
        state.sessions@.len() > 0 ==> strip.provider.value@ == PieceView::Provider(
            state.sessions@[0].provider@,
        ),
        state.sessions@.len() == 0 ==> strip.provider.value@ == PieceView::Text("-"@),
        shows_value(
            strip.model,
            strip.model.panel.area,
            " lead model "@,
            strip.model.value@,
            if state.sessions@.len() > 0 {
                Tone::LeadModel
            } else {
                Tone::Foreground
            },
        ),
        shows_value(
            strip.worktree,
            strip.worktree.panel.area,
            " worktree "@,
            strip.worktree.value@,
            Tone::Highlight,
        ),
        shows_value(
            strip.provider,
            strip.provider.panel.area,
            " provider "@,
            strip.provider.value@,
            Tone::Foreground,
        ),
{
    texts_are_cut(leading_model(state), 24);
    texts_are_cut(place, 24);
}

/// A card shows where its session works, its phase, its pulse, its recent and all of its tokens, and
/// its own history, in the colour of its phase. That of the selected session stands out.
pub proof fn cards_show_their_session(
    card: TraceCard,
    state: NowState,
    area: Area,
    session: CurrentSession,
    index: int,
    place: Seq<char>,
    title: Seq<char>,
)
    requires
        is_trace_card(card, state, area, session, index),
        works_at(session, place),
        is_cut(title, session.model@, 22),
    ensures
        card.panel.area == area,
        card.panel.title@.piece == PieceView::Text(" "@ + title + " "@),
        card.panel.title@.bold,
        card.panel.title@.tone == card.panel.border,
        index == state.selected_index ==> card.panel.border == Tone::Accent
            && card.panel.background == Some(Tone::Selection),
        index != state.selected_index ==> is_tone_of(card.panel.border, session.phase)
            && card.panel.background == Some(Tone::Background),
        is_split(
            inside(area, ALL_BORDERS),
            Axis::Vertical,
            seq![SizeRule::Length(2), SizeRule::Length(1), SizeRule::Length(2)],
            seq![card.header_area, card.wave_area, card.bottom_area],
        ),
        is_split(
            card.bottom_area,
            Axis::Horizontal,
            seq![SizeRule::Percentage(62), SizeRule::Percentage(38)],
            seq![card.counters_area, card.history_area],
        ),
        card.history_inner == inside(card.history_area, NO_BORDERS),
        is_tone_of(card.tone, session.phase),
        card.header@.len() == 3,
        shows_cut(card.header@[0]@, place, 34, Tone::Foreground, false),
        shows(card.header@[1]@, "  •  "@, Tone::Border, false),
        shows(card.header@[2]@, session.phase.name(), card.tone, true),
        card.wave@.len() == 2,
        shows(card.wave@[0]@, "current "@, Tone::Muted, false),
        shows(
            card.wave@[1]@,
            wave(
                wave_columns(card.wave_area.width as usize),
                state.spinner_frame,
                reach(session.phase, session.recent_tokens),
            ),
            card.tone,
            true,
        ),
        card.counters@.len() == 4,
        shows(card.counters@[0]@, "burst "@, Tone::Muted, false),
        shows_tokens(card.counters@[1]@, session.recent_tokens as int, card.tone, true),
        shows(card.counters@[2]@, "  total "@, Tone::Muted, false),
        shows_tokens(card.counters@[3]@, session.total_tokens as int, Tone::Foreground, false),
        state.session_histories@.contains_key(session.session_id@) ==> are_bars(
            card.history@,
            card.history_max,
            state.session_histories@[session.session_id@],
        ),
        !state.session_histories@.contains_key(session.session_id@) ==> are_bars(
            card.history@,
            card.history_max,
            Seq::empty(),
        ),
{
    texts_are_cut(place, 34);
    texts_are_cut(session.model@, 22);
    one_cut_is_the_same(title, truncated(session.model@, 22), session.model@, 22);
    histories_are_shown_in_bars(samples_of(state.session_histories@, session.session_id@));
    let header = line_of(card.header@);
    let pulse = line_of(card.wave@);
    let counters = line_of(card.counters@);
    assert(header.len() == 3 && pulse.len() == 2 && counters.len() == 4);
    assert(header[0] == card.header@[0]@ && header[1] == card.header@[1]@ && header[2]
        == card.header@[2]@);
    assert(pulse[0] == card.wave@[0]@ && pulse[1] == card.wave@[1]@);
    assert(counters[0] == card.counters@[0]@ && counters[1] == card.counters@[1]@ && counters[2]
        == card.counters@[2]@ && counters[3] == card.counters@[3]@);
}

proof fn one_cut_is_the_same(a: Seq<char>, b: Seq<char>, text: Seq<char>, max: int)
    requires
        is_cut(a, text, max),
        is_cut(b, text, max),
        max > 3,
    ensures
        a == b,
{
    if text.len() > max {
        assert forall|i: int| 0 <= i < max implies a[i] == b[i] by {
            if i < max - 3 {
                assert(a[i] == text[i] && b[i] == text[i]);
            }
        }
        assert(a =~= b);
    }
}

/// A deck has cards of seven lines for up to three sessions and of six for more, in two columns
/// where there are four sessions and 120 columns of the terminal, or three and 170.
pub proof fn decks_are_laid_out_by_size(
    session_count: nat,
    terminal_width: u16,
    inner_height: u16,
    scroll_offset: usize,
)
    requires
        session_count <= usize::MAX,
    ensures
        ({
            let layout = layout_of(session_count, terminal_width, inner_height, scroll_offset);
            &&& session_count <= 3 ==> layout.card_height == 7
            &&& session_count > 3 ==> layout.card_height == 6
            &&& layout.columns == 2 <==> terminal_width >= 170 && session_count >= 3
                || terminal_width >= 120 && session_count >= 4
            &&& layout.columns == 1 || layout.columns == 2
            &&& layout.rows >= 1
            &&& inner_height < 2 * layout.card_height ==> layout.rows == 1
            &&& inner_height >= layout.card_height ==> layout.rows * layout.card_height
                <= inner_height < (layout.rows + 1) * layout.card_height
            &&& layout.visible == layout.rows * layout.columns
        }),
{
    let layout = layout_of(session_count, terminal_width, inner_height, scroll_offset);
    if session_count <= 3 {
        assert(layout.card_height == 7);
    } else {
        assert(layout.card_height == 6);
    }
    assert(layout.rows <= 0xffff);
}

/// A deck starts with the session scrolled to, unless fewer than fit would then be left, and with
/// the row of that session. It ends where there is no more room or no more session.
pub proof fn decks_start_where_scrolled_to(
    session_count: nat,
    terminal_width: u16,
    inner_height: u16,
    scroll_offset: usize,
)
    requires
        session_count <= usize::MAX,
    ensures
        ({
            let layout = layout_of(session_count, terminal_width, inner_height, scroll_offset);
            let first = if scroll_offset + layout.visible <= session_count {
                scroll_offset as int
            } else if layout.visible <= session_count {
                session_count - layout.visible
            } else {
                0
            };
            &&& layout.columns == 1 ==> layout.start == first
            &&& layout.columns == 2 ==> layout.start % 2 == 0 && (layout.start == first
                || layout.start == first - 1)
            &&& layout.start + layout.visible <= session_count ==> layout.end == layout.start
                + layout.visible
            &&& layout.start + layout.visible > session_count ==> layout.end == session_count
        }),
{
    decks_are_laid_out_by_size(session_count, terminal_width, inner_height, scroll_offset);
    let layout = layout_of(session_count, terminal_width, inner_height, scroll_offset);
    assert(layout.rows <= 0xffff);
}

/// A deck shows one card after the other of the sessions from its start to its end, each in its cell
/// of its row, and says how many come after them.
pub proof fn decks_show_cards_in_order(deck: TraceDeck, state: NowState, area: Area)
    requires
        is_trace_deck(deck, state, area),
        state.sessions@.len() > 0,
    ensures
        ({
            let count = state.sessions@.len();
            let layout = layout_of(
                count,
                state.terminal_width,
                deck.inner.height,
                state.scroll_offset,
            );
            &&& is_titled(deck.panel, area, " active traces "@, Tone::Accent, Tone::Border, None)
            &&& deck.inner == inside(area, ALL_BORDERS)
            &&& deck.empty_message is None
            &&& deck.max_visible_items == layout.visible
            &&& deck.cards@.len() == layout.end - layout.start
            &&& is_split(
                deck.inner,
                Axis::Vertical,
                Seq::new(layout.rows as nat, |i: int| SizeRule::Length(layout.card_height)),
                deck.row_areas@,
            )
            &&& layout.columns == 1 ==> forall|k: int|
                #![trigger deck.cards@[k]]
                0 <= k < deck.cards@.len() ==> {
                    &&& is_split(
                        deck.row_areas@[k],
                        Axis::Horizontal,
                        seq![SizeRule::Percentage(100)],
                        deck.rows@[k].cells@,
                    )
                    &&& is_trace_card(
                        deck.cards@[k],
                        state,
                        deck.rows@[k].cells@[0],
                        state.sessions@[layout.start + k],
                        layout.start + k,
                    )
                }
            &&& layout.columns == 2 ==> forall|k: int|
                #![trigger deck.cards@[k]]
                0 <= k < deck.cards@.len() ==> {
                    &&& is_split(
                        deck.row_areas@[k / 2],
                        Axis::Horizontal,
                        seq![SizeRule::Percentage(50), SizeRule::Percentage(50)],
                        deck.rows@[k / 2].cells@,
                    )
                    &&& is_trace_card(
                        deck.cards@[k],
                        state,
                        deck.rows@[k / 2].cells@[k % 2],
                        state.sessions@[layout.start + k],
                        layout.start + k,
                    )
                }
            &&& deck.footer is Some <==> count > layout.end
            &&& deck.footer matches Some(footer) ==> tells_more(
                footer,
                deck.inner,
                count - layout.end,
            )
        }),
{
    let count = state.sessions@.len();
    let layout = layout_of(count, state.terminal_width, deck.inner.height, state.scroll_offset);
    assert(count == state.sessions.len());
    a_deck_shows_a_run_of_sessions(
        count,
        state.terminal_width,
        deck.inner.height,
        state.scroll_offset,
    );
    if layout.columns == 1 {
        assert forall|k: int|
            #![trigger deck.cards@[k]]
            0 <= k < deck.cards@.len() implies {
            &&& is_split(
                deck.row_areas@[k],
                Axis::Horizontal,
                seq![SizeRule::Percentage(100)],
                deck.rows@[k].cells@,
            )
            &&& is_trace_card(
                deck.cards@[k],
                state,
                deck.rows@[k].cells@[0],
                state.sessions@[layout.start + k],
                layout.start + k,
            )
        } by {
            assert(deck.rows@[k].area == deck.row_areas@[k]);
        }
    } else {
        assert forall|k: int|
            #![trigger deck.cards@[k]]
            0 <= k < deck.cards@.len() implies {
            &&& is_split(
                deck.row_areas@[k / 2],
                Axis::Horizontal,
                seq![SizeRule::Percentage(50), SizeRule::Percentage(50)],
                deck.rows@[k / 2].cells@,
            )
            &&& is_trace_card(
                deck.cards@[k],
                state,
                deck.rows@[k / 2].cells@[k % 2],
                state.sessions@[layout.start + k],
                layout.start + k,
            )
        } by {
            assert(deck.rows@[k / 2].area == deck.row_areas@[k / 2]);
        }
    }
    if let Some(footer) = deck.footer {
        let text = line_of(footer.text@);
        assert(text.len() == 3);
        assert(text[0] == footer.text@[0]@ && text[1] == footer.text@[1]@ && text[2]
            == footer.text@[2]@);
    }
}

/// `footer` tells of `hidden` more sessions, on the last line of `inner`.
pub open spec fn tells_more(footer: DeckFooter, inner: Area, hidden: int) -> bool {
    &&& footer.area.x == inner.x
    &&& inner.height > 0 && inner.y + inner.height <= u16::MAX ==> footer.area.y == inner.y
        + inner.height - 1 && footer.area.height == 1
    &&& inner.x + inner.width <= u16::MAX ==> footer.area.width == inner.width
    &&& footer.text@.len() == 3
    &&& shows(footer.text@[0]@, "+"@, Tone::Muted, false)
    &&& shows(footer.text@[1]@, decimal(hidden as nat), Tone::Foreground, false)
    &&& shows(footer.text@[2]@, " more traces"@, Tone::Muted, false)
}

/// A deck without sessions shows no card, and says why: that Codex is filtered out, or that there is
/// no live session.
pub proof fn empty_decks_say_why(deck: TraceDeck, state: NowState, area: Area)
    requires
        is_trace_deck(deck, state, area),
        state.sessions@.len() == 0,
    ensures
        is_titled(deck.panel, area, " active traces "@, Tone::Accent, Tone::Border, None),
        deck.inner == inside(area, ALL_BORDERS),
        deck.cards@.len() == 0,
        deck.rows@.len() == 0,
        deck.footer is None,
        deck.max_visible_items == 1,
        deck.empty_message is Some,
        state.codex_enabled ==> deck.empty_message->0@
            == "No live Codex traces in the last 10 minutes.\nKeep a Codex CLI session active and this panel will fill in."@,
        !state.codex_enabled ==> deck.empty_message->0@
            == "Codex is filtered out.\nPress 's' to enable it."@,
{
}

/// Content that is too wide is cut to its width in the middle: what is left on either side differs
/// by one column at most.
pub proof fn content_is_centered(area: Area, max_width: u16)
    requires
        area.fits(),
    ensures
        ({
            let content = centered(area, max_width);
            let left = content.x - area.x;
            let right = area.x + area.width - content.x - content.width;
            &&& content.y == area.y
            &&& content.height == area.height
            &&& area.width <= max_width ==> content == area
            &&& area.width > max_width ==> content.width == max_width && 0 <= left <= right <= left
                + 1
        }),
{
}

/// The screen is a titled block with the upper part, the boxes and the deck one below the other, at
/// most 156 columns wide.
pub proof fn the_screen_shows_its_parts(screen: NowScreen, state: NowState, area: Area)
    requires
        is_now_screen(screen, state, area),
    ensures
        is_titled(
            screen.panel,
            area,
            " live // codex monitor "@,
            Tone::Accent,
            Tone::Border,
            Some(Tone::Background),
        ),
        is_split(
            centered(inside(area, ALL_BORDERS), 156),
            Axis::Vertical,
            seq![SizeRule::Length(12), SizeRule::Length(7), SizeRule::Min(0)],
            seq![screen.main_area, screen.focus_area, screen.deck.panel.area],
        ),
        is_main_panel(screen.throughput, screen.gauges, state, screen.main_area),
        is_focus_strip(screen.focus, state, screen.focus_area),
        is_trace_deck(screen.deck, state, screen.deck.panel.area),
{
}

/// A pulse reaches further the more active its session is: by its phase, or by its recent tokens if
/// that is further.
pub proof fn pulses_reach_by_activity(phase: CodexActivityPhase, recent_tokens: u64, k: usize)
    requires
        phase is Streaming ==> k == 5,
        phase is Settling ==> k == 4,
        phase is Preparing ==> k == 3,
        phase is Idle ==> k == 1,
    ensures
        reach(phase, recent_tokens) >= k,
        recent_tokens > 0 ==> reach(phase, recent_tokens) >= 2,
        recent_tokens >= 1_000 ==> reach(phase, recent_tokens) >= 3,
        recent_tokens >= 10_000 ==> reach(phase, recent_tokens) >= 4,
        recent_tokens >= 100_000 ==> reach(phase, recent_tokens) == 5,
        reach(phase, recent_tokens) <= 5,
        reach(phase, recent_tokens) == k || {
            ||| reach(phase, recent_tokens) == 2 && 0 < recent_tokens < 1_000
            ||| reach(phase, recent_tokens) == 3 && 1_000 <= recent_tokens < 10_000
            ||| reach(phase, recent_tokens) == 4 && 10_000 <= recent_tokens < 100_000
            ||| reach(phase, recent_tokens) == 5 && recent_tokens >= 100_000
        },
{
}

/// A wave takes what its label of eight columns leaves of a line, and eight at least.
pub proof fn waves_take_what_is_left(width: usize)
    ensures
        wave_columns(width) >= 8,
        width >= 16 ==> wave_columns(width) + 8 == width,
        width <= 16 ==> wave_columns(width) == 8,
{
}

/// In each frame of four a pulse stands one column closer to the middle, from where it reaches to,
/// and no closer than the middle. The line is flat elsewhere.
pub proof fn pulses_close_in_frame_by_frame(columns: nat, frame: usize, amplitude: usize, i: int)
    requires
        columns >= 8,
        1 <= amplitude <= 5,
        0 <= i < columns,
    ensures
        ({
            let shown = wave(columns, frame, amplitude);
            let middle = (columns / 2) as int;
            let farthest_left = if amplitude < middle {
                middle - amplitude
            } else {
                1
            };
            let farthest_right = if middle + amplitude < columns {
                middle + amplitude
            } else {
                columns - 1
            };
            let steps = if frame % 4 > amplitude {
                amplitude as int
            } else {
                (frame % 4) as int
            };
            &&& shown.len() == columns
            &&& i == farthest_right - steps ==> shown[i] == '╯'
            &&& i != farthest_right - steps && i == middle ==> shown[i] == '│'
            &&& i != farthest_right - steps && i != middle && i == farthest_left + steps
                ==> shown[i] == '╭'
            &&& i != farthest_right - steps && i != middle && i != farthest_left + steps
                ==> shown[i] == '─'
        }),
{
}

} // verus!

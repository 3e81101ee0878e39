//! The state that the live monitor shows, and the panels that it shows it in.

use crate::activity::CodexActivityPhase;
use crate::now::geometry::Area;
use crate::now::history::SessionHistories;
use crate::now::labels::NOTHING;
use crate::now::style::{styled, Piece, StyledText, Tone};
use vstd::prelude::*;

verus! {

/// A session that the monitor shows.
#[derive(Debug)]
pub struct CurrentSession {
    pub session_id: String,
    pub model: String,
    pub provider: String,
    pub cwd: Option<String>,
    pub repo_name: Option<String>,
    pub phase: CodexActivityPhase,
    pub recent_tokens: u64,
    pub total_tokens: u64,
}

/// What the monitor shows.
#[derive(Debug)]
pub struct NowState {
    /// The sessions, the leading one first.
    pub sessions: Vec<CurrentSession>,
    /// Recent tokens of all sessions, sample by sample.
    pub global_history: Vec<u64>,
    /// Recent tokens of each session.
    pub session_histories: SessionHistories,
    pub scroll_offset: usize,
    pub selected_index: usize,
    pub terminal_width: u16,
    /// The terminal is too narrow to put boxes side by side.
    pub narrow: bool,
    pub updated_at_ms: Option<i64>,
    /// How far the machine's clocks are ahead of UTC at `updated_at_ms`, in seconds.
    pub utc_offset_secs: i32,
    /// Seconds since the sessions were last looked at.
    pub refresh_age_secs: u64,
    /// Codex is among the clients that are shown.
    pub codex_enabled: bool,
    pub spinner_frame: usize,
}

/// The recent tokens of `sessions`, added up.
pub open spec fn recent_sum(sessions: Seq<CurrentSession>) -> nat
    decreases sessions.len(),
{
    if sessions.len() == 0 {
        0
    } else {
        recent_sum(sessions.drop_last()) + sessions.last().recent_tokens as nat
    }
}

/// More sessions never have fewer recent tokens.
pub proof fn recent_sums_grow(sessions: Seq<CurrentSession>, count: int)
    requires
        0 <= count <= sessions.len(),
    ensures
        recent_sum(sessions.take(count)) <= recent_sum(sessions),
    decreases sessions.len(),
{
    if count < sessions.len() {
        recent_sums_grow(sessions.drop_last(), count);
        assert(sessions.drop_last().take(count) =~= sessions.take(count));
    } else {
        assert(sessions.take(count) =~= sessions);
    }
}

/// The recent tokens of `sessions`, added up.
pub fn total_recent_tokens(sessions: &Vec<CurrentSession>) -> (sum: u64)
    requires
        recent_sum(sessions@) <= u64::MAX,
    ensures
        sum == recent_sum(sessions@),
{
    let mut sum: u64 = 0;
    let mut i: usize = 0;
    while i < sessions.len()
        invariant
            i <= sessions@.len(),
            recent_sum(sessions@) <= u64::MAX,
            sum == recent_sum(sessions@.take(i as int)),
        decreases sessions@.len() - i,
    {
        proof {
            recent_sums_grow(sessions@, i + 1);
            assert(sessions@.take(i + 1).drop_last() =~= sessions@.take(i as int));
        }
        sum = sum + sessions[i].recent_tokens;
        i = i + 1;
    }
    assert(sessions@.take(i as int) =~= sessions@);
    sum
}

/// The bars that show a history: one empty bar where there is no sample.
pub open spec fn bars(history: Seq<u64>) -> Seq<u64> {
    if history.len() == 0 {
        seq![0u64]
    } else {
        history
    }
}

/// The bars that show a history.
pub fn history_bars(history: &Vec<u64>) -> (bars_shown: Vec<u64>)
    ensures
        bars_shown@ == bars(history@),
{
    let mut bars_shown: Vec<u64> = Vec::new();
    if history.is_empty() {
        bars_shown.push(0);
        return bars_shown;
    }
    let mut i: usize = 0;
    while i < history.len()
        invariant
            i <= history@.len(),
            bars_shown@ == history@.take(i as int),
        decreases history@.len() - i,
    {
        bars_shown.push(history[i]);
        assert(bars_shown@ =~= history@.take(i + 1));
        i = i + 1;
    }
    assert(bars_shown@ =~= history@);
    bars_shown
}

/// The value that a full bar stands for: the largest sample, and one at the least.
pub open spec fn peak(history: Seq<u64>) -> u64
    decreases history.len(),
{
    if history.len() == 0 {
        1
    } else if history.last() > peak(history.drop_last()) {
        history.last()
    } else {
        peak(history.drop_last())
    }
}

/// No sample is above the peak, and the peak is a sample unless all of them are below one.
pub proof fn the_peak_is_the_largest_sample(history: Seq<u64>)
    ensures
        peak(history) >= 1,
        forall|i: int| 0 <= i < history.len() ==> #[trigger] history[i] <= peak(history),
        peak(history) == 1 || history.contains(peak(history)),
    decreases history.len(),
{
    if history.len() > 0 {
        let rest = history.drop_last();
        the_peak_is_the_largest_sample(rest);
        assert forall|i: int| 0 <= i < history.len() implies #[trigger] history[i] <= peak(
            history,
        ) by {
            if i < rest.len() {
                assert(rest[i] <= peak(rest));
            }
        }
        if peak(history) != 1 {
            if history.last() > peak(rest) {
                assert(history[history.len() - 1] == peak(history));
            } else {
                let i = choose|i: int| 0 <= i < rest.len() && rest[i] == peak(rest);
                assert(history[i] == peak(history));
            }
        }
    }
}

/// The value that a full bar stands for.
pub fn history_peak(history: &Vec<u64>) -> (max: u64)
    ensures
        max == peak(history@),
{
    let mut max: u64 = 1;
    let mut i: usize = 0;
    while i < history.len()
        invariant
            i <= history@.len(),
            max == peak(history@.take(i as int)),
        decreases history@.len() - i,
    {
        assert(history@.take(i + 1).drop_last() =~= history@.take(i as int));
        if history[i] > max {
            max = history[i];
        }
        i = i + 1;
    }
    assert(history@.take(i as int) =~= history@);
    max
}

/// The samples of the session `session_id`: none where it has no history.
pub open spec fn samples_of(
    histories: Map<Seq<char>, Seq<u64>>,
    session_id: Seq<char>,
) -> Seq<u64> {
    if histories.contains_key(session_id) {
        histories[session_id]
    } else {
        Seq::empty()
    }
}

/// The bars of the session `session_id`, and the value that a full one stands for.
pub fn session_bars(histories: &SessionHistories, session_id: &str) -> (shown: (Vec<u64>, u64))
    ensures
        shown.0@ == bars(samples_of(histories@, session_id@)),
        shown.1 == peak(samples_of(histories@, session_id@)),
{
    match histories.samples(session_id) {
        Some(samples) => (history_bars(samples), history_peak(samples)),
        None => {
            let none: Vec<u64> = Vec::new();
            (history_bars(&none), history_peak(&none))
        },
    }
}

impl CurrentSession {
    /// What tells where the session works: its repository, else its directory.
    pub open spec fn place(self) -> Seq<char> {
        match (self.repo_name, self.cwd) {
            (Some(repo), _) => repo@,
            (None, Some(cwd)) => cwd@,
            (None, None) => NOTHING@,
        }
    }

    /// What tells where the session works: its repository, else its directory.
    pub fn place_text(&self) -> (place: &str)
        ensures
            place@ == self.place(),
    {
        match &self.repo_name {
            Some(repo) => repo.as_str(),
            None => match &self.cwd {
                Some(cwd) => cwd.as_str(),
                None => NOTHING,
            },
        }
    }
}

/// A bordered, titled block.
#[derive(Debug)]
pub struct Panel {
    pub area: Area,
    pub title: StyledText,
    pub border: Tone,
    pub background: Option<Tone>,
}

/// `panel` is a block in `area` with a bold title.
pub open spec fn is_panel(
    panel: Panel,
    area: Area,
    title: Seq<char>,
    title_tone: Tone,
    border: Tone,
    background: Option<Tone>,
) -> bool {
    &&& panel.area == area
    &&& panel.title@ == styled(title, title_tone, true)
    &&& panel.border == border
    &&& panel.background == background
}

/// The throughput of all sessions.
#[derive(Debug)]
pub struct ThroughputChart {
    pub panel: Panel,
    pub chart_area: Area,
    pub history: Vec<u64>,
    pub max_value: u64,
    pub footer_area: Area,
    pub footer: Vec<StyledText>,
}

/// How full a gauge is.
#[derive(Debug, Clone, Copy, PartialEq, Eq, Structural)]
pub enum Level {
    /// As full as `part` is of `whole`, and no fuller than full.
    Share { part: u64, whole: u64 },
    /// The fuller, the more recently the sessions were looked at.
    Freshness,
}

/// A gauge.
#[derive(Debug)]
pub struct GaugeView {
    pub area: Area,
    pub title: String,
    pub level: Level,
    pub label: Piece,
    pub tone: Tone,
}

/// The gauges of the monitor.
#[derive(Debug)]
pub struct LiveGauges {
    pub panel: Panel,
    pub sessions: GaugeView,
    pub burst: GaugeView,
    pub fresh: GaugeView,
    pub meta_area: Area,
    pub updated: Vec<StyledText>,
    pub root: Vec<StyledText>,
}

/// A box with one value of the leading session.
#[derive(Debug)]
pub struct FocusBox {
    pub panel: Panel,
    pub value_area: Area,
    pub value: Piece,
    pub tone: Tone,
}

/// The boxes with values of the leading session.
#[derive(Debug)]
pub struct FocusStrip {
    pub model: FocusBox,
    pub worktree: FocusBox,
    pub provider: FocusBox,
}

/// The card of a session.
#[derive(Debug)]
pub struct TraceCard {
    pub panel: Panel,
    pub header_area: Area,
    pub header: Vec<StyledText>,
    pub wave_area: Area,
    pub wave: Vec<StyledText>,
    pub bottom_area: Area,
    pub counters_area: Area,
    pub counters: Vec<StyledText>,
    pub history_area: Area,
    pub history_inner: Area,
    pub history: Vec<u64>,
    pub history_max: u64,
    pub tone: Tone,
}

/// A row of cards.
#[derive(Debug)]
pub struct DeckRow {
    pub area: Area,
    pub cells: Vec<Area>,
}

/// What the deck says of the sessions that have no card.
#[derive(Debug)]
pub struct DeckFooter {
    pub area: Area,
    pub text: Vec<StyledText>,
}

/// The cards of the sessions.
#[derive(Debug)]
pub struct TraceDeck {
    pub panel: Panel,
    pub inner: Area,
    /// What stands in place of cards where there is no session.
    pub empty_message: Option<String>,
    pub max_visible_items: usize,
    pub row_areas: Vec<Area>,
    pub rows: Vec<DeckRow>,
    pub cards: Vec<TraceCard>,
    pub footer: Option<DeckFooter>,
}

/// The whole monitor.
#[derive(Debug)]
pub struct NowScreen {
    pub panel: Panel,
    pub main_area: Area,
    pub throughput: ThroughputChart,
    pub gauges: LiveGauges,
    pub focus_area: Area,
    pub focus: FocusStrip,
    pub deck: TraceDeck,
}

} // verus!

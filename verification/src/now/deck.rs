//! The deck of session cards.

use crate::now::geometry::{
    area_at, block_inner, inside, is_split, new_area, split, Area, Axis, SizeRule, ALL_BORDERS,
};
use crate::now::labels::{decimal, decimal_text, empty_message, get_empty_message};
use crate::now::panel::{is_panel, DeckFooter, DeckRow, NowState, Panel, TraceCard, TraceDeck};
use crate::now::render::{is_trace_card, render_trace_card};
use crate::now::style::{bold, line_of, plain, styled, StyledText, StyledView, Tone};
use crate::text::text_of;
use vstd::prelude::*;

verus! {

/// Which cards a deck shows, and how they are set.
#[derive(Debug, Clone, Copy, PartialEq, Eq, Structural)]
pub struct DeckLayout {
    pub card_height: u16,
    pub columns: usize,
    pub rows: usize,
    /// The number of cards that there is room for.
    pub visible: usize,
    /// The first session that has a card.
    pub start: usize,
    /// The session after the last one that has a card.
    pub end: usize,
}

/// The height of a card: a few sessions get taller cards.
pub open spec fn card_height(session_count: nat) -> u16 {
    if session_count <= 3 {
        7
    } else {
        6
    }
}

/// The columns of a deck: two where there are cards and room for them. A wide terminal has two
/// columns for three cards already.
pub open spec fn deck_columns(session_count: nat, terminal_width: u16) -> usize {
    if session_count >= 4 && terminal_width >= 120 || session_count == 3 && terminal_width >= 170 {
        2
    } else {
        1
    }
}

/// The rows that a deck has room for: always one.
pub open spec fn deck_rows(session_count: nat, inner_height: u16) -> usize {
    if inner_height < card_height(session_count) {
        1
    } else {
        (inner_height / card_height(session_count)) as usize
    }
}

/// The first session with a card, before it is brought to the start of its row: the one scrolled
/// to, but no later than needed to fill the deck.
pub open spec fn scrolled_to(session_count: nat, visible: nat, scroll_offset: usize) -> nat {
    let last_start = if visible < session_count {
        (session_count - visible) as nat
    } else {
        0
    };
    if scroll_offset < last_start {
        scroll_offset as nat
    } else {
        last_start
    }
}

/// The layout of a deck of `session_count` sessions.
pub open spec fn layout_of(
    session_count: nat,
    terminal_width: u16,
    inner_height: u16,
    scroll_offset: usize,
) -> DeckLayout {
    let columns = deck_columns(session_count, terminal_width);
    let rows = deck_rows(session_count, inner_height);
    let visible = if columns == 2 {
        2 * rows
    } else {
        rows as int
    };
    let scrolled = scrolled_to(session_count, visible as nat, scroll_offset);
    let start = if columns == 2 {
        scrolled - scrolled % 2
    } else {
        scrolled as int
    };
    DeckLayout {
        card_height: card_height(session_count),
        columns,
        rows,
        visible: visible as usize,
        start: start as usize,
        end: (if start + visible < session_count {
            start + visible
        } else {
            session_count as int
        }) as usize,
    }
}

proof fn a_deck_has_a_row(session_count: nat, inner_height: u16)
    ensures
        1 <= deck_rows(session_count, inner_height) <= u16::MAX,
{
    let height = card_height(session_count);
    if inner_height >= height {
        assert(1 <= inner_height / height <= inner_height) by (nonlinear_arith)
            requires
                inner_height >= height,
                height > 0,
        ;
    }
}

/// A deck shows a run of sessions that there is room for, full rows first, and at least one of
/// them. It starts with a row, no later than scrolled to.
pub proof fn a_deck_shows_a_run_of_sessions(
    session_count: nat,
    terminal_width: u16,
    inner_height: u16,
    scroll_offset: usize,
)
    requires
        0 < session_count <= usize::MAX,
    ensures
        ({
            let layout = layout_of(session_count, terminal_width, inner_height, scroll_offset);
            &&& layout.start < layout.end <= session_count
            &&& layout.end - layout.start <= layout.visible
            &&& layout.start <= scroll_offset
            &&& layout.columns == 2 ==> layout.start % 2 == 0
            &&& layout.end - layout.start < layout.visible ==> layout.end == session_count
            &&& session_count <= layout.visible ==> layout.start == 0 && layout.end == session_count
        }),
{
    a_deck_has_a_row(session_count, inner_height);
}

/// The session at `index` is the last of an odd number that do not all fit into two columns. As a
/// deck of two columns starts with a full row, no scrolling brings it up.
pub open spec fn is_left_over(
    session_count: nat,
    terminal_width: u16,
    inner_height: u16,
    index: usize,
) -> bool {
    &&& deck_columns(session_count, terminal_width) == 2
    &&& session_count % 2 == 1
    &&& index == session_count - 1
    &&& layout_of(session_count, terminal_width, inner_height, index).visible < session_count
}

/// Every session can be scrolled to, but for one that is left over.
pub proof fn every_session_can_be_scrolled_to(
    session_count: nat,
    terminal_width: u16,
    inner_height: u16,
    index: usize,
)
    requires
        index < session_count <= usize::MAX,
        !is_left_over(session_count, terminal_width, inner_height, index),
    ensures
        ({
            let layout = layout_of(session_count, terminal_width, inner_height, index);
            layout.start <= index < layout.end
        }),
{
    a_deck_has_a_row(session_count, inner_height);
}

/// The layout of a deck of `session_count` sessions.
pub fn deck_layout(
    session_count: usize,
    terminal_width: u16,
    inner_height: u16,
    scroll_offset: usize,
) -> (layout: DeckLayout)
    ensures
        layout == layout_of(session_count as nat, terminal_width, inner_height, scroll_offset),
{
    let card_height: u16 = if session_count <= 3 {
        7
    } else {
        6
    };
    let columns: usize = if terminal_width >= 170 && session_count >= 3 {
        2
    } else if session_count <= 3 || terminal_width < 120 {
        1
    } else {
        2
    };
    let fitting: u16 = inner_height / card_height;
    let rows: usize = if fitting >= 1 {
        fitting as usize
    } else {
        1
    };
    let visible: usize = if columns == 2 {
        2 * rows
    } else {
        rows
    };
    let shown: usize = if visible < session_count {
        visible
    } else {
        session_count
    };
    let mut start: usize = if scroll_offset < session_count - shown {
        scroll_offset
    } else {
        session_count - shown
    };
    if columns > 1 {
        start = start - start % 2;
    }
    let end: usize = if visible < session_count - start {
        start + visible
    } else {
        session_count
    };
    DeckLayout { card_height, columns, rows, visible, start, end }
}

/// How the deck is split into rows.
pub open spec fn row_rules(layout: DeckLayout) -> Seq<SizeRule> {
    Seq::new(layout.rows as nat, |i: int| SizeRule::Length(layout.card_height))
}

/// How a row is split into cells.
pub open spec fn cell_rules(columns: usize) -> Seq<SizeRule> {
    if columns == 2 {
        seq![SizeRule::Percentage(50), SizeRule::Percentage(50)]
    } else {
        seq![SizeRule::Percentage(100)]
    }
}

/// The row of a card, counted among the cards.
pub open spec fn row_of(card: int, columns: usize) -> int {
    if columns == 2 {
        card / 2
    } else {
        card
    }
}

/// The column of a card, counted among the cards.
pub open spec fn column_of(card: int, columns: usize) -> int {
    if columns == 2 {
        card % 2
    } else {
        0
    }
}

/// The rows that `cards` cards take.
pub open spec fn rows_for(cards: int, columns: usize) -> int {
    if columns == 2 {
        (cards + 1) / 2
    } else {
        cards
    }
}

/// What the deck says of the sessions that have no card.
pub open spec fn more_traces(hidden: nat) -> Seq<StyledView> {
    seq![
        styled("+"@, Tone::Muted, false),
        styled(decimal(hidden), Tone::Foreground, false),
        styled(" more traces"@, Tone::Muted, false),
    ]
}

/// The rows of a deck are split off the areas that the deck was split into.
pub open spec fn are_rows(rows: Seq<DeckRow>, row_areas: Seq<Area>, columns: usize) -> bool {
    &&& rows.len() <= row_areas.len()
    &&& forall|r: int|
        0 <= r < rows.len() ==> {
            &&& (#[trigger] rows[r]).area == row_areas[r]
            &&& is_split(rows[r].area, Axis::Horizontal, cell_rules(columns), rows[r].cells@)
        }
}

/// The cards of a deck, row by row, are those of the sessions from `start` on.
pub open spec fn are_cards(
    cards: Seq<TraceCard>,
    rows: Seq<DeckRow>,
    state: NowState,
    start: int,
    columns: usize,
) -> bool {
    forall|k: int|
        0 <= k < cards.len() ==> is_trace_card(
            #[trigger] cards[k],
            state,
            rows[row_of(k, columns)].cells@[column_of(k, columns)],
            state.sessions@[start + k],
            start + k,
        )
}

/// The footer of a deck in `inner`, if some of `session_count` sessions come after `end`.
pub open spec fn is_deck_footer(
    footer: Option<DeckFooter>,
    inner: Area,
    session_count: nat,
    end: int,
) -> bool {
    match footer {
        Some(footer) => {
            &&& session_count > end
            &&& footer.area == area_at(
                inner.x,
                if inner.height > 0 {
                    (inner.y + inner.height - 1) as u16
                } else {
                    inner.y
                },
                inner.width,
                1,
            )
            &&& line_of(footer.text@) == more_traces((session_count - end) as nat)
        },
        None => session_count <= end,
    }
}

/// The deck in `area`.
pub open spec fn is_trace_deck(deck: TraceDeck, state: NowState, area: Area) -> bool {
    let count = state.sessions@.len();
    let layout = layout_of(count, state.terminal_width, deck.inner.height, state.scroll_offset);
    &&& is_panel(deck.panel, area, " active traces "@, Tone::Accent, Tone::Border, None)
    &&& deck.inner == inside(area, ALL_BORDERS)
    &&& if count == 0 {
        &&& text_of(deck.empty_message) == Some(empty_message(state.codex_enabled))
        &&& deck.max_visible_items == 1
        &&& deck.row_areas@.len() == 0
        &&& deck.rows@.len() == 0
        &&& deck.cards@.len() == 0
        &&& deck.footer is None
    } else {
        &&& deck.empty_message is None
        &&& deck.max_visible_items == layout.visible
        &&& is_split(deck.inner, Axis::Vertical, row_rules(layout), deck.row_areas@)
        &&& deck.rows@.len() == rows_for(layout.end - layout.start, layout.columns)
        &&& are_rows(deck.rows@, deck.row_areas@, layout.columns)
        &&& deck.cards@.len() == layout.end - layout.start
        &&& are_cards(deck.cards@, deck.rows@, state, layout.start as int, layout.columns)
        &&& is_deck_footer(deck.footer, deck.inner, count, layout.end as int)
    }
}

fn split_rows(inner: Area, layout: DeckLayout) -> (row_areas: Vec<Area>)
    ensures
        is_split(inner, Axis::Vertical, row_rules(layout), row_areas@),
{
    let mut rules: Vec<SizeRule> = Vec::new();
    while rules.len() < layout.rows
        invariant
            rules@.len() <= layout.rows,
            rules@ == row_rules(layout).take(rules@.len() as int),
        decreases layout.rows - rules@.len(),
    {
        rules.push(SizeRule::Length(layout.card_height));
        assert(rules@ =~= row_rules(layout).take(rules@.len() as int));
    }
    assert(rules@ =~= row_rules(layout));
    split(inner, Axis::Vertical, &rules)
}

fn split_row(area: Area, columns: usize) -> (row: DeckRow)
    requires
        columns == 1 || columns == 2,
    ensures
        row.area == area,
        is_split(area, Axis::Horizontal, cell_rules(columns), row.cells@),
{
    let rules: Vec<SizeRule> = if columns == 2 {
        vec![SizeRule::Percentage(50), SizeRule::Percentage(50)]
    } else {
        vec![SizeRule::Percentage(100)]
    };
    assert(rules@ =~= cell_rules(columns));
    DeckRow { area, cells: split(area, Axis::Horizontal, &rules) }
}

fn deck_footer(inner: Area, session_count: usize, end: usize) -> (footer: Option<DeckFooter>)
    requires
        inner.fits(),
    ensures
        is_deck_footer(footer, inner, session_count as nat, end as int),
{
    if session_count > end {
        let hidden = decimal_text((session_count - end) as u64);
        let text: Vec<StyledText> = vec![
            plain("+", Tone::Muted),
            plain(hidden.as_str(), Tone::Foreground),
            plain(" more traces", Tone::Muted),
        ];
        assert(line_of(text@) =~= more_traces((session_count - end) as nat));
        let area = new_area(
            inner.x,
            inner.y + inner.height.saturating_sub(1),
            inner.width,
            1,
        );
        Some(DeckFooter { area, text })
    } else {
        None
    }
}

/// The cards of the sessions, as far as there is room for them.
pub fn render_trace_deck(state: &NowState, area: Area) -> (deck: TraceDeck)
    requires
        area.fits(),
    ensures
        is_trace_deck(deck, *state, area),
{
    let inner = block_inner(area, ALL_BORDERS, " active traces ");
    let panel = Panel {
        area,
        title: bold(" active traces ", Tone::Accent),
        border: Tone::Border,
        background: None,
    };
    let count = state.sessions.len();
    if count == 0 {
        return TraceDeck {
            panel,
            inner,
            empty_message: Some(get_empty_message(state.codex_enabled)),
            max_visible_items: 1,
            row_areas: Vec::new(),
            rows: Vec::new(),
            cards: Vec::new(),
            footer: None,
        };
    }
    let layout = deck_layout(count, state.terminal_width, inner.height, state.scroll_offset);
    proof {
        a_deck_shows_a_run_of_sessions(
            count as nat,
            state.terminal_width,
            inner.height,
            state.scroll_offset,
        );
    }
    let row_areas = split_rows(inner, layout);
    let mut rows: Vec<DeckRow> = Vec::new();
    let mut cards: Vec<TraceCard> = Vec::new();
    while cards.len() < layout.end - layout.start
        invariant
            count == state.sessions@.len(),
            layout.columns == 1 || layout.columns == 2,
            layout.visible == (if layout.columns == 2 {
                2 * layout.rows
            } else {
                layout.rows as int
            }),
            layout.start < layout.end <= count,
            layout.end - layout.start <= layout.visible,
            row_areas@.len() == layout.rows,
            cards@.len() <= layout.end - layout.start,
            rows@.len() == rows_for(cards@.len() as int, layout.columns),
            are_rows(rows@, row_areas@, layout.columns),
            are_cards(cards@, rows@, *state, layout.start as int, layout.columns),
        decreases layout.end - layout.start - cards@.len(),
    {
        let k: usize = cards.len();
        let ghost rows_before = rows@;
        let (row, column): (usize, usize) = if layout.columns == 2 {
            (k / 2, k % 2)
        } else {
            (k, 0)
        };
        if column == 0 {
            rows.push(split_row(row_areas[row], layout.columns));
        }
        assert(rows_before.is_prefix_of(rows@));
        assert(are_rows(rows@, row_areas@, layout.columns));
        assert(rows@[row as int].cells@.len() == layout.columns);
        let index = layout.start + k;
        let card = render_trace_card(
            state,
            rows[row].cells[column],
            &state.sessions[index],
            index,
        );
        cards.push(card);
    }
    let footer = deck_footer(inner, count, layout.end);
    TraceDeck {
        panel,
        inner,
        empty_message: None,
        max_visible_items: layout.visible,
        row_areas,
        rows,
        cards,
        footer,
    }
}

} // verus!

//! The whole screen of the live monitor.

use crate::now::deck::{is_trace_deck, render_trace_deck};
use crate::now::geometry::{
    block_inner, centered, centered_content_rect, inside, is_split, split, Area, Axis, SizeRule,
    ALL_BORDERS,
};
use crate::now::panel::{is_panel, NowScreen, NowState, Panel};
use crate::now::render::{
    burst_fits, is_focus_strip, is_main_panel, offset_fits, render_focus_strip, render_main_panel,
    MAX_CONTENT_WIDTH,
};
use crate::now::style::{bold, Tone};
use vstd::prelude::*;

verus! {

/// How the screen is split: the upper part, the boxes, and the deck.
pub open spec fn screen_rules() -> Seq<SizeRule> {
    seq![SizeRule::Length(12), SizeRule::Length(7), SizeRule::Min(0)]
}

/// The monitor in `area`.
pub open spec fn is_now_screen(screen: NowScreen, state: NowState, area: Area) -> bool {
    &&& is_panel(
        screen.panel,
        area,
        " live // codex monitor "@,
        Tone::Accent,
        Tone::Border,
        Some(Tone::Background),
    )
    &&& is_split(
        centered(inside(area, ALL_BORDERS), MAX_CONTENT_WIDTH),
        Axis::Vertical,
        screen_rules(),
        seq![screen.main_area, screen.focus_area, screen.deck.panel.area],
    )
    &&& is_main_panel(screen.throughput, screen.gauges, state, screen.main_area)
    &&& is_focus_strip(screen.focus, state, screen.focus_area)
    &&& is_trace_deck(screen.deck, state, screen.deck.panel.area)
}

/// The monitor in `area`.
pub fn render(state: &NowState, area: Area) -> (screen: NowScreen)
    requires
        area.fits(),
        burst_fits(*state),
        offset_fits(*state),
    ensures
        is_now_screen(screen, *state, area),
{
    let inner = block_inner(area, ALL_BORDERS, " live // codex monitor ");
    let content = centered_content_rect(inner, MAX_CONTENT_WIDTH);
    let rules: Vec<SizeRule> = vec![
        SizeRule::Length(12),
        SizeRule::Length(7),
        SizeRule::Min(0),
    ];
    assert(rules@ =~= screen_rules());
    let parts = split(content, Axis::Vertical, &rules);
    assert(parts@ =~= seq![parts@[0], parts@[1], parts@[2]]);
    let (throughput, gauges) = render_main_panel(state, parts[0]);
    NowScreen {
        panel: Panel {
            area,
            title: bold(" live // codex monitor ", Tone::Accent),
            border: Tone::Border,
            background: Some(Tone::Background),
        },
        main_area: parts[0],
        throughput,
        gauges,
        focus_area: parts[1],
        focus: render_focus_strip(state, parts[1]),
        deck: render_trace_deck(state, parts[2]),
    }
}

/// Every panel of the monitor lies in the area that the monitor was given.
pub proof fn panels_stay_on_the_screen(screen: NowScreen, state: NowState, area: Area)
    requires
        area.fits(),
        is_now_screen(screen, state, area),
    ensures
        screen.throughput.panel.area.lies_in(area),
        screen.gauges.panel.area.lies_in(area),
        screen.focus.model.panel.area.lies_in(area),
        screen.focus.worktree.panel.area.lies_in(area),
        screen.focus.provider.panel.area.lies_in(area),
        screen.deck.panel.area.lies_in(area),
        forall|k: int|
            0 <= k < screen.deck.cards@.len() ==> (#[trigger] screen.deck.cards@[k]).panel.area.lies_in(
                area,
            ),
{
}

} // verus!

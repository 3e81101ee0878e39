//! Colours and styled text of the live monitor.

use crate::activity::CodexActivityPhase;
use vstd::prelude::*;

verus! {

/// A colour: one of the theme's, the one of the leading session's model, or a fixed one.
#[derive(Debug, Clone, Copy, PartialEq, Eq, Structural)]
pub enum Tone {
    Border,
    Accent,
    Background,
    Foreground,
    Muted,
    Highlight,
    Selection,
    LeadModel,
    Rgb(u8, u8, u8),
}

/// The colour of a phase.
pub open spec fn phase_tone(phase: CodexActivityPhase) -> Tone {
    match phase {
        CodexActivityPhase::Streaming => Tone::Rgb(0, 255, 163),
        CodexActivityPhase::Settling => Tone::Rgb(255, 207, 90),
        CodexActivityPhase::Preparing => Tone::Rgb(95, 195, 255),
        CodexActivityPhase::Idle => Tone::Rgb(112, 123, 140),
    }
}

/// The colour of a phase.
pub fn phase_color(phase: CodexActivityPhase) -> (tone: Tone)
    ensures
        tone == phase_tone(phase),
{
    match phase {
        CodexActivityPhase::Streaming => Tone::Rgb(0, 255, 163),
        CodexActivityPhase::Settling => Tone::Rgb(255, 207, 90),
        CodexActivityPhase::Preparing => Tone::Rgb(95, 195, 255),
        CodexActivityPhase::Idle => Tone::Rgb(112, 123, 140),
    }
}

/// The label of a phase: its name.
pub fn phase_label(phase: CodexActivityPhase) -> (label: &'static str)
    ensures
        label@ == phase.name(),
{
    match phase {
        CodexActivityPhase::Streaming => "streaming",
        CodexActivityPhase::Settling => "settling",
        CodexActivityPhase::Preparing => "preparing",
        CodexActivityPhase::Idle => "idle",
    }
}

/// Phases are told apart by their colours.
pub proof fn phases_differ_in_colour(a: CodexActivityPhase, b: CodexActivityPhase)
    ensures
        phase_tone(a) == phase_tone(b) <==> a == b,
{
}

/// A piece of text: one that stands as it is, a number of tokens to be shortened, or a provider to
/// be given its display name.
#[derive(Debug)]
pub enum Piece {
    Text(String),
    Tokens(u64),
    Provider(String),
}

/// A piece of text, as specifications speak of it.
pub ghost enum PieceView {
    Text(Seq<char>),
    Tokens(u64),
    Provider(Seq<char>),
}

impl View for Piece {
    type V = PieceView;

    open spec fn view(&self) -> PieceView {
        match self {
            Piece::Text(text) => PieceView::Text(text@),
            Piece::Tokens(n) => PieceView::Tokens(*n),
            Piece::Provider(provider) => PieceView::Provider(provider@),
        }
    }
}

/// A piece of text in a colour.
#[derive(Debug)]
pub struct StyledText {
    pub piece: Piece,
    pub tone: Tone,
    pub bold: bool,
}

/// A piece of text in a colour, as specifications speak of it.
pub ghost struct StyledView {
    pub piece: PieceView,
    pub tone: Tone,
    pub bold: bool,
}

impl View for StyledText {
    type V = StyledView;

    open spec fn view(&self) -> StyledView {
        StyledView { piece: self.piece@, tone: self.tone, bold: self.bold }
    }
}

/// A line of styled text.
pub open spec fn line_of(line: Seq<StyledText>) -> Seq<StyledView> {
    line.map_values(|text: StyledText| text@)
}

/// Text in a colour.
pub open spec fn styled(text: Seq<char>, tone: Tone, bold: bool) -> StyledView {
    StyledView { piece: PieceView::Text(text), tone, bold }
}

/// A number of tokens in a colour.
pub open spec fn styled_tokens(n: u64, tone: Tone, bold: bool) -> StyledView {
    StyledView { piece: PieceView::Tokens(n), tone, bold }
}

/// Text in a colour.
pub fn plain(text: &str, tone: Tone) -> (styled_text: StyledText)
    ensures
        styled_text@ == styled(text@, tone, false),
{
    StyledText { piece: Piece::Text(text.to_string()), tone, bold: false }
}

/// Bold text in a colour.
pub fn bold(text: &str, tone: Tone) -> (styled_text: StyledText)
    ensures
        styled_text@ == styled(text@, tone, true),
{
    StyledText { piece: Piece::Text(text.to_string()), tone, bold: true }
}

/// A number of tokens in a colour.
pub fn tokens(n: u64, tone: Tone, bold: bool) -> (styled_text: StyledText)
    ensures
        styled_text@ == styled_tokens(n, tone, bold),
{
    StyledText { piece: Piece::Tokens(n), tone, bold }
}

} // verus!

//! The pulse that shows how much a session is doing.

use crate::activity::CodexActivityPhase;
use vstd::prelude::*;

verus! {

/// The reach of the pulse for a phase.
pub open spec fn phase_reach(phase: CodexActivityPhase) -> usize {
    match phase {
        CodexActivityPhase::Streaming => 5,
        CodexActivityPhase::Settling => 4,
        CodexActivityPhase::Preparing => 3,
        CodexActivityPhase::Idle => 1,
    }
}

/// The reach of the pulse for a number of recent tokens: one more for each power of ten from a
/// thousand on.
pub open spec fn token_reach(recent_tokens: u64) -> usize {
    if recent_tokens == 0 {
        1
    } else if recent_tokens < 1_000 {
        2
    } else if recent_tokens < 10_000 {
        3
    } else if recent_tokens < 100_000 {
        4
    } else {
        5
    }
}

/// The reach of the pulse: the larger one of that for the phase and that for the tokens.
pub open spec fn reach(phase: CodexActivityPhase, recent_tokens: u64) -> usize {
    if phase_reach(phase) >= token_reach(recent_tokens) {
        phase_reach(phase)
    } else {
        token_reach(recent_tokens)
    }
}

/// The reach of a session's pulse.
pub fn current_wave_amplitude(phase: CodexActivityPhase, recent_tokens: u64) -> (amplitude: usize)
    ensures
        amplitude == reach(phase, recent_tokens),
        1 <= amplitude <= 5,
{
    let phase_amp: usize = match phase {
        CodexActivityPhase::Streaming => 5,
        CodexActivityPhase::Settling => 4,
        CodexActivityPhase::Preparing => 3,
        CodexActivityPhase::Idle => 1,
    };
    let token_amp: usize = if recent_tokens == 0 {
        1
    } else if recent_tokens <= 999 {
        2
    } else if recent_tokens <= 9_999 {
        3
    } else if recent_tokens <= 99_999 {
        4
    } else {
        5
    };
    if phase_amp >= token_amp {
        phase_amp
    } else {
        token_amp
    }
}

/// The columns that a wave takes of `width`: eight go to its label, but it never has less than
/// eight of its own.
pub open spec fn wave_columns(width: usize) -> nat {
    if width < 16 {
        8
    } else {
        (width - 8) as nat
    }
}

/// How far the pulse has closed in on the middle in a frame of the animation.
pub open spec fn closed_in(spinner_frame: usize, amplitude: usize) -> nat {
    if spinner_frame % 4 <= amplitude {
        (spinner_frame % 4) as nat
    } else {
        amplitude as nat
    }
}

/// The column of the left flank of the pulse.
pub open spec fn left_flank(columns: nat, spinner_frame: usize, amplitude: usize) -> nat {
    let middle = columns / 2;
    let peak = if amplitude < middle {
        middle - amplitude
    } else {
        1
    };
    (peak + closed_in(spinner_frame, amplitude)) as nat
}

/// The column of the right flank of the pulse.
pub open spec fn right_flank(columns: nat, spinner_frame: usize, amplitude: usize) -> nat {
    let middle = columns / 2;
    let peak = if middle + amplitude < columns {
        middle + amplitude
    } else {
        columns - 1
    };
    (peak - closed_in(spinner_frame, amplitude)) as nat
}

/// The wave: a line with a bar in its middle and the flanks of the pulse around it. Where they
/// meet, the right flank stands over the bar and the bar over the left flank.
pub open spec fn wave(columns: nat, spinner_frame: usize, amplitude: usize) -> Seq<char> {
    Seq::new(
        columns,
        |i: int|
            if i == right_flank(columns, spinner_frame, amplitude) {
                '╯'
            } else if i == columns / 2 {
                '│'
            } else if i == left_flank(columns, spinner_frame, amplitude) {
                '╭'
            } else {
                '─'
            },
    )
}

/// The flanks of a pulse stand on the line, on either side of its middle, and no further from it
/// than the pulse reaches.
pub proof fn a_pulse_surrounds_the_middle(columns: nat, spinner_frame: usize, amplitude: usize)
    requires
        columns >= 8,
        1 <= amplitude <= 5,
    ensures
        left_flank(columns, spinner_frame, amplitude) <= columns / 2,
        columns / 2 <= right_flank(columns, spinner_frame, amplitude) < columns,
        columns / 2 - left_flank(columns, spinner_frame, amplitude) <= amplitude,
        right_flank(columns, spinner_frame, amplitude) - columns / 2 <= amplitude,
{
}

/// The animation repeats every four frames.
pub proof fn the_pulse_repeats(columns: nat, spinner_frame: usize, amplitude: usize)
    requires
        spinner_frame <= usize::MAX - 4,
    ensures
        wave(columns, (spinner_frame + 4) as usize, amplitude) == wave(
            columns,
            spinner_frame,
            amplitude,
        ),
{
}

fn wave_text(columns: usize, spinner_frame: usize, amplitude: usize) -> (text: String)
    requires
        columns >= 8,
        1 <= amplitude <= 5,
    ensures
        text@ == wave(columns as nat, spinner_frame, amplitude),
{
    let center = columns / 2;
    let phase = spinner_frame % 4;
    let left_peak = center - (if amplitude < center - 1 {
        amplitude
    } else {
        center - 1
    });
    let right_peak = if amplitude < columns - center {
        center + amplitude
    } else {
        columns - 1
    };
    let shift = if phase < amplitude {
        phase
    } else {
        amplitude
    };
    let left = left_peak + shift;
    let right = right_peak - shift;
    let mut text = String::new();
    let mut i: usize = 0;
    while i < columns
        invariant
            i <= columns,
            center == columns / 2,
            left == left_flank(columns as nat, spinner_frame, amplitude),
            right == right_flank(columns as nat, spinner_frame, amplitude),
            text@ == wave(columns as nat, spinner_frame, amplitude).take(i as int),
        decreases columns - i,
    {
        let c = if i == right {
            '╯'
        } else if i == center {
            '│'
        } else if i == left {
            '╭'
        } else {
            '─'
        };
        text.push(c);
        assert(text@ =~= wave(columns as nat, spinner_frame, amplitude).take(i + 1));
        i = i + 1;
    }
    assert(text@ =~= wave(columns as nat, spinner_frame, amplitude));
    text
}

/// The wave of a session in this phase and with these recent tokens, in a frame of the animation,
/// for a line of `width` columns.
pub fn render_current_wave(
    phase: CodexActivityPhase,
    recent_tokens: u64,
    spinner_frame: usize,
    width: usize,
) -> (text: String)
    ensures
        text@ == wave(wave_columns(width), spinner_frame, reach(phase, recent_tokens)),
{
    let room: usize = width.saturating_sub(8);
    let columns: usize = if room >= 8 {
        room
    } else {
        8
    };
    wave_text(columns, spinner_frame, current_wave_amplitude(phase, recent_tokens))
}

} // verus!

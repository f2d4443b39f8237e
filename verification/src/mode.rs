//! The six visualization modes and the order in which Tab cycles through them.

use crate::text::str_eq;
use vstd::prelude::*;
use vstd::string::*;

verus! {

/// A visualization mode.
#[derive(Clone, Copy, Debug, PartialEq, Eq, Structural)]
pub enum VisualMode {
    Bars,
    Waveform,
    Circle,
    Spectrogram,
    Lissajous,
    VuMeter,
}

/// The configuration name of a mode.
pub open spec fn mode_name(m: VisualMode) -> Seq<char> {
    match m {
        VisualMode::Bars => "bars"@,
        VisualMode::Waveform => "waveform"@,
        VisualMode::Circle => "circle"@,
        VisualMode::Spectrogram => "spectrogram"@,
        VisualMode::Lissajous => "lissajous"@,
        VisualMode::VuMeter => "vu_meter"@,
    }
}

/// The mode a configuration name denotes, if any.
pub open spec fn mode_of(s: Seq<char>) -> Option<VisualMode> {
    if s == "bars"@ {
        Some(VisualMode::Bars)
    } else if s == "waveform"@ {
        Some(VisualMode::Waveform)
    } else if s == "circle"@ {
        Some(VisualMode::Circle)
    } else if s == "spectrogram"@ {
        Some(VisualMode::Spectrogram)
    } else if s == "lissajous"@ {
        Some(VisualMode::Lissajous)
    } else if s == "vu_meter"@ {
        Some(VisualMode::VuMeter)
    } else {
        None
    }
}

/// The mode that follows `m` in the Tab cycle.
pub open spec fn successor(m: VisualMode) -> VisualMode {
    match m {
        VisualMode::Bars => VisualMode::Waveform,
        VisualMode::Waveform => VisualMode::Circle,
        VisualMode::Circle => VisualMode::Spectrogram,
        VisualMode::Spectrogram => VisualMode::Lissajous,
        VisualMode::Lissajous => VisualMode::VuMeter,
        VisualMode::VuMeter => VisualMode::Bars,
    }
}

/// The name Tab switches to from the mode named `s`; an unknown name switches to bars.
pub open spec fn next_mode_name(s: Seq<char>) -> Seq<char> {
    match mode_of(s) {
        Some(m) => mode_name(successor(m)),
        None => "bars"@,
    }
}

proof fn lemma_mode_literals()
    ensures
        "bars"@.len() == 4 && "bars"@[0] == 'b',
        "waveform"@.len() == 8 && "waveform"@[0] == 'w',
        "circle"@.len() == 6 && "circle"@[0] == 'c',
        "spectrogram"@.len() == 11 && "spectrogram"@[0] == 's',
        "lissajous"@.len() == 9 && "lissajous"@[0] == 'l',
        "vu_meter"@.len() == 8 && "vu_meter"@[0] == 'v',
{
    reveal_strlit("bars");
    reveal_strlit("waveform");
    reveal_strlit("circle");
    reveal_strlit("spectrogram");
    reveal_strlit("lissajous");
    reveal_strlit("vu_meter");
}

/// Every mode's name denotes that mode.
pub proof fn lemma_mode_name_parses(m: VisualMode)
    ensures
        mode_of(mode_name(m)) == Some(m),
{
    lemma_mode_literals();
}

/// Pressing Tab six times from any mode returns to it, and from any name
/// whatsoever Tab lands on a valid mode.
pub proof fn lemma_tab_cycle(m: VisualMode, s: Seq<char>)
    ensures
        next_mode_name(next_mode_name(next_mode_name(next_mode_name(next_mode_name(next_mode_name(
            mode_name(m))))))) == mode_name(m),
        mode_of(next_mode_name(s)) is Some,
{
    lemma_mode_literals();
}

/// The mode a configuration name denotes, if any.
pub fn parse_mode(s: &str) -> (m: Option<VisualMode>)
    ensures
        m == mode_of(s@),
{
    if str_eq(s, "bars") {
        Some(VisualMode::Bars)
    } else if str_eq(s, "waveform") {
        Some(VisualMode::Waveform)
    } else if str_eq(s, "circle") {
        Some(VisualMode::Circle)
    } else if str_eq(s, "spectrogram") {
        Some(VisualMode::Spectrogram)
    } else if str_eq(s, "lissajous") {
        Some(VisualMode::Lissajous)
    } else if str_eq(s, "vu_meter") {
        Some(VisualMode::VuMeter)
    } else {
        None
    }
}

/// The configuration name of a mode.
pub fn mode_str(m: VisualMode) -> (s: &'static str)
    ensures
        s@ == mode_name(m),
{
    match m {
        VisualMode::Bars => "bars",
        VisualMode::Waveform => "waveform",
        VisualMode::Circle => "circle",
        VisualMode::Spectrogram => "spectrogram",
        VisualMode::Lissajous => "lissajous",
        VisualMode::VuMeter => "vu_meter",
    }
}

/// The mode name Tab switches to from `current`: bars, waveform, circle,
/// spectrogram, lissajous, vu_meter, then bars again; unknown names go to bars.
pub fn next_mode(current: &str) -> (next: &'static str)
    ensures
        next@ == next_mode_name(current@),
{
    match parse_mode(current) {
        Some(m) => mode_str(match m {
            VisualMode::Bars => VisualMode::Waveform,
            VisualMode::Waveform => VisualMode::Circle,
            VisualMode::Circle => VisualMode::Spectrogram,
            VisualMode::Spectrogram => VisualMode::Lissajous,
            VisualMode::Lissajous => VisualMode::VuMeter,
            VisualMode::VuMeter => VisualMode::Bars,
        }),
        None => "bars",
    }
}

} // verus!

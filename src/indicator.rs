//! The state of the masked-input indicator: which phase it is in and which
//! of its segments is lit.
use vstd::prelude::*;
use rand::Rng;
use crate::input_line::{InputLine, KeyInput};

verus! {

/// Whether the last keystroke added or removed a character.
#[derive(Clone, Copy, Debug, PartialEq, Eq, Structural)]
pub enum IndicatorInputPhase {
    Add,
    Delete,
}

impl Default for IndicatorInputPhase {
    fn default() -> (r: IndicatorInputPhase)
        ensures
            r == IndicatorInputPhase::Add,
    {
        IndicatorInputPhase::Add
    }
}

/// The lit segment, if any, and the kind of the last keystroke.
#[derive(Clone, Copy, Debug, PartialEq, Eq, Structural)]
pub struct IndicatorInputState {
    pub highlighted_segment: Option<u8>,
    pub phase: IndicatorInputPhase,
}

/// The fresh input state: nothing lit, adding.
pub open spec fn fresh_input() -> IndicatorInputState {
    IndicatorInputState { highlighted_segment: None, phase: IndicatorInputPhase::Add }
}

impl Default for IndicatorInputState {
    fn default() -> (r: IndicatorInputState)
        ensures
            r == fresh_input(),
    {
        IndicatorInputState { highlighted_segment: None, phase: IndicatorInputPhase::Add }
    }
}

/// What the indicator is doing.
#[derive(Clone, Copy, Debug, PartialEq, Eq, Structural)]
pub enum IndicatorPhase {
    Visible(IndicatorInputState),
    Hidden(IndicatorInputState),
    Submitting,
    Inactive,
}

impl Default for IndicatorPhase {
    fn default() -> (r: IndicatorPhase)
        ensures
            r == IndicatorPhase::Inactive,
    {
        IndicatorPhase::Inactive
    }
}

/// The input state with its lit segment replaced.
pub open spec fn with_highlight(s: IndicatorInputState, h: Option<u8>) -> IndicatorInputState {
    IndicatorInputState { highlighted_segment: h, ..s }
}

/// The phase with `f` applied to its input state, if it is taking input.
pub open spec fn map_input(p: IndicatorPhase, f: spec_fn(IndicatorInputState) -> IndicatorInputState) -> IndicatorPhase {
    match p {
        IndicatorPhase::Visible(s) => IndicatorPhase::Visible(f(s)),
        IndicatorPhase::Hidden(s) => IndicatorPhase::Hidden(f(s)),
        other => other,
    }
}

/// The segment lit after a draw of `draw`, when `previous` was lit: a draw
/// equal to the lit segment lights segment zero instead.
pub open spec fn highlight_after(previous: Option<u8>, draw: u8) -> u8 {
    match previous {
        Some(index) => if draw == index {
            0
        } else {
            draw
        },
        None => draw,
    }
}

/// A value drawn uniformly from `low..high`.
///
/// Relies on rand's `rng()` and `Rng::random_range`, which returns a value
/// of the half-open range and panics when it is empty.
#[verifier::external_body]
fn random_in(low: u8, high: u8) -> (r: u8)
    requires
        low < high,
    ensures
        low <= r < high,
{
    rand::rng().random_range(low..high)
}

impl IndicatorPhase {
    /// Records the kind of the last keystroke, while taking input.
    pub fn set_input_phase(&mut self, input_phase: IndicatorInputPhase)
        ensures
            *final(self) == map_input(
                *old(self),
                |s: IndicatorInputState| IndicatorInputState { phase: input_phase, ..s },
            ),
    {
        match self {
            IndicatorPhase::Visible(state) => {
                state.phase = input_phase;
            },
            IndicatorPhase::Hidden(state) => {
                state.phase = input_phase;
            },
            _ => {},
        }
    }

    /// Enters the submitting phase.
    pub fn submit(&mut self)
        ensures
            *final(self) == IndicatorPhase::Submitting,
    {
        *self = IndicatorPhase::Submitting;
    }

    /// Starts taking input (masked if `hidden`) unless it already is.
    pub fn edit(&mut self, hidden: bool)
        ensures
            match *old(self) {
                IndicatorPhase::Visible(_) | IndicatorPhase::Hidden(_) => *final(self) == *old(self),
                _ => *final(self) == if hidden {
                    IndicatorPhase::Hidden(fresh_input())
                } else {
                    IndicatorPhase::Visible(fresh_input())
                },
            },
    {
        match self {
            IndicatorPhase::Visible(_) | IndicatorPhase::Hidden(_) => {},
            _ => {
                *self = if hidden {
                    IndicatorPhase::Hidden(IndicatorInputState::default())
                } else {
                    IndicatorPhase::Visible(IndicatorInputState::default())
                };
            },
        }
    }

    /// Whether the phase takes input, and so lights segments.
    pub open spec fn takes_input(self) -> bool {
        self is Visible || self is Hidden
    }

    /// The kind of the last keystroke, while taking input.
    pub open spec fn input_phase(self) -> Option<IndicatorInputPhase> {
        match self {
            IndicatorPhase::Visible(s) => Some(s.phase),
            IndicatorPhase::Hidden(s) => Some(s.phase),
            _ => None,
        }
    }

    /// The lit segment, while taking input.
    pub open spec fn lit(self) -> Option<u8> {
        match self {
            IndicatorPhase::Visible(s) => s.highlighted_segment,
            IndicatorPhase::Hidden(s) => s.highlighted_segment,
            _ => None,
        }
    }

    /// Lights the segment that a draw of `draw` selects (see
    /// `highlight_after`), while taking input.
    pub fn next_highlight_with(&mut self, draw: u8)
        ensures
            *final(self) == map_input(
                *old(self),
                |s: IndicatorInputState| with_highlight(s, Some(highlight_after(s.highlighted_segment, draw))),
            ),
    {
        match self {
            IndicatorPhase::Visible(state) => {
                state.highlighted_segment = Some(next_index(state.highlighted_segment, draw));
            },
            IndicatorPhase::Hidden(state) => {
                state.highlighted_segment = Some(next_index(state.highlighted_segment, draw));
            },
            _ => {},
        }
    }

    /// Lights a random segment of `segments`, never the one lit before,
    /// while taking input.
    pub fn next_highlight(&mut self, segments: u8)
        requires
            old(self).takes_input() ==> segments >= 1,
            old(self).lit() is Some ==> segments >= 2,
        ensures
            !old(self).takes_input() ==> *final(self) == *old(self),
            old(self).takes_input() ==> exists|draw: u8|
                #![trigger highlight_after(old(self).lit(), draw)]
                *final(self) == map_input(
                    *old(self),
                    |s: IndicatorInputState| with_highlight(s, Some(highlight_after(s.highlighted_segment, draw))),
                ),
            old(self).takes_input() ==> final(self).lit() is Some && final(self).lit()->Some_0 < segments,
            old(self).lit() is Some ==> final(self).lit() != old(self).lit(),
            final(self).input_phase() == old(self).input_phase(),
            *final(self) is Visible <==> *old(self) is Visible,
            *final(self) is Hidden <==> *old(self) is Hidden,
    {
        if self.takes_input_exec() {
            let low: u8 = if self.lit_exec().is_some() { 1 } else { 0 };
            let draw = random_in(low, segments);
            self.next_highlight_with(draw);
        }
    }

    /// Whether the phase takes input.
    pub fn takes_input_exec(&self) -> (r: bool)
        ensures
            r == self.takes_input(),
    {
        match self {
            IndicatorPhase::Visible(_) | IndicatorPhase::Hidden(_) => true,
            _ => false,
        }
    }

    /// The lit segment, while taking input.
    pub fn lit_exec(&self) -> (r: Option<u8>)
        ensures
            r == self.lit(),
    {
        match self {
            IndicatorPhase::Visible(s) => s.highlighted_segment,
            IndicatorPhase::Hidden(s) => s.highlighted_segment,
            _ => None,
        }
    }

    /// Acts on one key typed into the indicator's `line`: text is appended
    /// and Backspace removes a character, each recording its kind and
    /// lighting another of `segments` (a Backspace on an empty line does
    /// nothing); Enter hands out the line and empties it.
    pub fn on_key(&mut self, line: &mut InputLine, key: KeyInput, segments: u8) -> (r: Option<String>)
        requires
            old(self).takes_input() ==> segments >= 1,
            old(self).lit() is Some ==> segments >= 2,
        ensures
            match key {
                KeyInput::Text(t) => r is None && final(line).text() == old(line).text() + t@
                    && keyed(*old(self), *final(self), IndicatorInputPhase::Add, segments),
                KeyInput::Backspace => r is None && if old(line).text().len() > 0 {
                    final(line).text() == old(line).text().drop_last() && keyed(
                        *old(self),
                        *final(self),
                        IndicatorInputPhase::Delete,
                        segments,
                    )
                } else {
                    final(line).text() == old(line).text() && *final(self) == *old(self)
                },
                KeyInput::Enter => *final(self) == *old(self) && final(line).text() == Seq::<char>::empty()
                    && match r {
                    Some(s) => s@ == old(line).text(),
                    None => false,
                },
            },
    {
        match key {
            KeyInput::Text(t) => {
                line.push_str(&t);
                self.set_input_phase(IndicatorInputPhase::Add);
                self.next_highlight(segments);
                None
            },
            KeyInput::Backspace => {
                if line.is_empty() {
                    None
                } else {
                    line.pop();
                    self.set_input_phase(IndicatorInputPhase::Delete);
                    self.next_highlight(segments);
                    None
                }
            },
            KeyInput::Enter => Some(line.take()),
        }
    }

    /// Turns the lit segment off, while taking input.
    pub fn clear_highlight(&mut self)
        ensures
            *final(self) == map_input(*old(self), |s: IndicatorInputState| with_highlight(s, None)),
    {
        match self {
            IndicatorPhase::Visible(state) => {
                state.highlighted_segment = None;
            },
            IndicatorPhase::Hidden(state) => {
                state.highlighted_segment = None;
            },
            _ => {},
        }
    }
}

/// After a keystroke of kind `kind`, phase `b` follows `a`: an indicator not
/// taking input is left as it is; one taking input keeps its variant, records
/// `kind`, and lights a segment of `segments` other than the one lit before.
pub open spec fn keyed(a: IndicatorPhase, b: IndicatorPhase, kind: IndicatorInputPhase, segments: u8) -> bool {
    if a.takes_input() {
        &&& (b is Visible <==> a is Visible)
        &&& (b is Hidden <==> a is Hidden)
        &&& b.input_phase() == Some(kind)
        &&& b.lit() is Some
        &&& b.lit()->Some_0 < segments
        &&& (a.lit() is Some ==> b.lit() != a.lit())
    } else {
        b == a
    }
}

fn next_index(previous: Option<u8>, draw: u8) -> (r: u8)
    ensures
        r == highlight_after(previous, draw),
{
    match previous {
        Some(index) => if draw == index {
            0
        } else {
            draw
        },
        None => draw,
    }
}

} // verus!

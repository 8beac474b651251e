//! The line level, the gestures and the states of the recogniser.

use vstd::prelude::*;

verus! {

/// Logic level of the input line. The button is wired active-low.
#[derive(Clone, Copy, Debug, PartialEq, Eq, Structural)]
pub enum LineLevel {
    /// The contact is closed: the button is down.
    Low,
    /// The contact is open: the button is up.
    High,
}

/// A classified press sequence.
#[derive(Clone, Copy, Debug, PartialEq, Eq, Structural)]
pub enum Gesture {
    /// One press held for at least the long-press threshold.
    LongPress,
    /// A short press followed by a second press.
    DoublePress,
}

/// Where the recogniser stands in a press sequence.
#[derive(Clone, Copy, Debug, PartialEq, Eq, Structural)]
pub enum ButtonState {
    /// No sequence is in progress.
    Idle,
    /// The button went down and is still down.
    Pressed,
    /// A short press has ended; a second press would make it a double press.
    ReleasedPendingSingle,
    /// The second press of a double press is down.
    PressedPendingDouble,
}

impl LineLevel {
    /// The level that a sample of the pin's "is low" input stands for.
    pub fn from_is_low(is_low: bool) -> (level: LineLevel)
        ensures
            level == (if is_low { LineLevel::Low } else { LineLevel::High }),
    {
        if is_low {
            LineLevel::Low
        } else {
            LineLevel::High
        }
    }
}

impl ButtonState {
    /// The text that a log line shows for the state.
    ///
    /// Only `Pressed` reads as pressed; every other state, the second press
    /// of a double press included, reads as released.
    pub open spec fn label_text(self) -> Seq<char> {
        if self is Pressed {
            "Pressed"@
        } else {
            "Released"@
        }
    }

    /// The text that a log line shows for the state.
    pub fn label(self) -> (text: &'static str)
        ensures
            text@ == self.label_text(),
    {
        match self {
            ButtonState::Pressed => "Pressed",
            _ => "Released",
        }
    }
}

impl Gesture {
    /// The text that a log line shows for the gesture.
    pub open spec fn message_text(self) -> Seq<char> {
        match self {
            Gesture::LongPress => "Long press"@,
            Gesture::DoublePress => "Double press"@,
        }
    }

    /// The text that a log line shows for the gesture.
    pub fn message(self) -> (text: &'static str)
        ensures
            text@ == self.message_text(),
    {
        match self {
            Gesture::LongPress => "Long press",
            Gesture::DoublePress => "Double press",
        }
    }
}

} // verus!

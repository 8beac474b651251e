//! The button handler: the recogniser's state together with the clock
//! readings of the last press and the last release, and the edge transition
//! that is the only way to change them.
//!
//! A low level is a press edge, a high level a release edge. The hold is the
//! time from the last press edge to the release:
//!
//! | State                   | Edge                          | Next state              | Gesture       |
//! |-------------------------|-------------------------------|-------------------------|---------------|
//! | `Idle`                  | press                         | `Pressed`               |               |
//! | `Pressed`               | release, hold of 1000 ms or more | `Idle`               | `LongPress`   |
//! | `Pressed`               | release, shorter hold         | `ReleasedPendingSingle` |               |
//! | `ReleasedPendingSingle` | press                         | `PressedPendingDouble`  |               |
//! | `PressedPendingDouble`  | release, any hold             | `Idle`                  | `DoublePress` |
//! | `Idle`, `ReleasedPendingSingle` | release               | unchanged               |               |
//! | `Pressed`, `PressedPendingDouble` | press               | unchanged               |               |
//!
//! Every press edge records its reading as the time of the last press, and
//! every release edge records its reading as the time of the last release.
//! A pending short press has no timeout: nothing reports it as a gesture of
//! its own, and it waits for the next press however long that takes.

use crate::button::{ButtonState, Gesture, LineLevel};
use crate::elapsed::millis_between;
use vstd::prelude::*;

verus! {

/// Held time, in milliseconds, from which a release counts as a long press.
pub const LONG_PRESS_MS: u32 = 1000;

/// Guard window, in milliseconds, that lets contact bounce settle after a raw
/// edge before the line is sampled.
pub const DEBOUNCE_GUARD_MS: u16 = 30;

/// A reading of the monotonic clock, in milliseconds.
pub type Timestamp = u32;

/// What a [`ButtonHandler`] holds, as mathematical values.
pub struct HandlerModel {
    pub state: ButtonState,
    pub last_pressed_at: int,
    pub last_released_at: int,
}

impl ButtonState {
    /// The state after a press edge.
    ///
    /// A press starts a sequence or turns a pending short press into the
    /// second press of a double press. A press while the button already
    /// counts as down changes nothing.
    pub open spec fn on_press(self) -> ButtonState {
        match self {
            ButtonState::Idle => ButtonState::Pressed,
            ButtonState::ReleasedPendingSingle => ButtonState::PressedPendingDouble,
            ButtonState::Pressed => ButtonState::Pressed,
            ButtonState::PressedPendingDouble => ButtonState::PressedPendingDouble,
        }
    }

    /// The state after a release edge that ends a hold of `held` milliseconds.
    pub open spec fn on_release(self, held: int) -> ButtonState {
        match self {
            ButtonState::Pressed => if held >= LONG_PRESS_MS {
                ButtonState::Idle
            } else {
                ButtonState::ReleasedPendingSingle
            },
            ButtonState::PressedPendingDouble => ButtonState::Idle,
            ButtonState::Idle => ButtonState::Idle,
            ButtonState::ReleasedPendingSingle => ButtonState::ReleasedPendingSingle,
        }
    }

    /// The gesture that a release edge completes after a hold of `held`
    /// milliseconds, if it completes one.
    pub open spec fn gesture_on_release(self, held: int) -> Option<Gesture> {
        match self {
            ButtonState::Pressed => if held >= LONG_PRESS_MS {
                Some(Gesture::LongPress)
            } else {
                None
            },
            ButtonState::PressedPendingDouble => Some(Gesture::DoublePress),
            ButtonState::Idle => None,
            ButtonState::ReleasedPendingSingle => None,
        }
    }
}

impl HandlerModel {
    /// The handler at start-up: idle, with both readings at zero.
    pub open spec fn initial() -> HandlerModel {
        HandlerModel { state: ButtonState::Idle, last_pressed_at: 0, last_released_at: 0 }
    }

    /// Milliseconds from the last press edge to `now`. Negative when `now`
    /// lies before the recorded press, which then counts as a short hold.
    pub open spec fn held(self, now: int) -> int {
        now - self.last_pressed_at
    }

    /// The handler after the edge to `level` observed at `now`.
    ///
    /// Every press edge records `now` as the time of the last press, every
    /// release edge records it as the time of the last release.
    pub open spec fn after_edge(self, level: LineLevel, now: int) -> HandlerModel {
        match level {
            LineLevel::Low => HandlerModel {
                state: self.state.on_press(),
                last_pressed_at: now,
                last_released_at: self.last_released_at,
            },
            LineLevel::High => HandlerModel {
                state: self.state.on_release(self.held(now)),
                last_pressed_at: self.last_pressed_at,
                last_released_at: now,
            },
        }
    }

    /// The gesture that the edge to `level` observed at `now` emits, if any.
    pub open spec fn gesture_on(self, level: LineLevel, now: int) -> Option<Gesture> {
        match level {
            LineLevel::Low => None,
            LineLevel::High => self.state.gesture_on_release(self.held(now)),
        }
    }
}

/// The recogniser's state and the readings it keeps.
///
/// The fields are private: after construction only [`ButtonHandler::on_edge`]
/// changes them.
#[derive(Clone, Copy, Debug, PartialEq, Eq, Structural)]
pub struct ButtonHandler {
    state: ButtonState,
    last_pressed_at: Timestamp,
    last_released_at: Timestamp,
}

impl View for ButtonHandler {
    type V = HandlerModel;

    closed spec fn view(&self) -> HandlerModel {
        HandlerModel {
            state: self.state,
            last_pressed_at: self.last_pressed_at as int,
            last_released_at: self.last_released_at as int,
        }
    }
}

/// Whether a hold from the reading `pressed_at` to the reading `now` is a long
/// press. A `now` before `pressed_at` is no hold at all.
pub fn held_long(pressed_at: Timestamp, now: Timestamp) -> (long: bool)
    ensures
        long == (now - pressed_at >= LONG_PRESS_MS),
{
    pressed_at <= now && millis_between(now, pressed_at) >= LONG_PRESS_MS
}

impl ButtonHandler {
    /// A handler in the idle state with both readings at zero.
    pub fn new() -> (handler: ButtonHandler)
        ensures
            handler@ == HandlerModel::initial(),
    {
        ButtonHandler { state: ButtonState::Idle, last_pressed_at: 0, last_released_at: 0 }
    }

    /// The handler that results from the edge to `level` observed at `now`,
    /// and the gesture that the edge completes, if it completes one.
    pub fn transition(self, level: LineLevel, now: Timestamp) -> (out: (
        ButtonHandler,
        Option<Gesture>,
    ))
        ensures
            out.0@ == self@.after_edge(level, now as int),
            out.1 == self@.gesture_on(level, now as int),
    {
        match level {
            LineLevel::Low => {
                let state = match self.state {
                    ButtonState::Idle => ButtonState::Pressed,
                    ButtonState::ReleasedPendingSingle => ButtonState::PressedPendingDouble,
                    held_down => held_down,
                };
                let next = ButtonHandler {
                    state,
                    last_pressed_at: now,
                    last_released_at: self.last_released_at,
                };
                (next, None)
            },
            LineLevel::High => {
                let (state, gesture) = match self.state {
                    ButtonState::PressedPendingDouble => (
                        ButtonState::Idle,
                        Some(Gesture::DoublePress),
                    ),
                    ButtonState::Pressed => if held_long(self.last_pressed_at, now) {
                        (ButtonState::Idle, Some(Gesture::LongPress))
                    } else {
                        (ButtonState::ReleasedPendingSingle, None)
                    },
                    up => (up, None),
                };
                let next = ButtonHandler {
                    state,
                    last_pressed_at: self.last_pressed_at,
                    last_released_at: now,
                };
                (next, gesture)
            },
        }
    }

    /// Takes the debounced edge to `level`, observed at `now`, and returns the
    /// gesture that it completes, if it completes one.
    pub fn on_edge(&mut self, level: LineLevel, now: Timestamp) -> (gesture: Option<Gesture>)
        ensures
            final(self)@ == old(self)@.after_edge(level, now as int),
            gesture == old(self)@.gesture_on(level, now as int),
    {
        let (next, gesture) = self.transition(level, now);
        *self = next;
        gesture
    }

    /// The current state.
    pub fn state(&self) -> (state: ButtonState)
        ensures
            state == self@.state,
    {
        self.state
    }

    /// The reading at the last press edge, zero before the first.
    pub fn last_pressed_at(&self) -> (at: Timestamp)
        ensures
            at == self@.last_pressed_at,
    {
        self.last_pressed_at
    }

    /// The reading at the last release edge, zero before the first.
    pub fn last_released_at(&self) -> (at: Timestamp)
        ensures
            at == self@.last_released_at,
    {
        self.last_released_at
    }
}

} // verus!

//! Button gesture recognition for a single debounced, active-low input line.
//!
//! A [`ButtonHandler`] consumes one debounced edge at a time, each stamped with
//! a millisecond clock reading, and classifies the sequence of edges into long
//! presses and double presses. A [`SharedStateGuard`] owns the handler where an
//! interrupt and the foreground both need it.

pub mod button;
mod elapsed;
pub mod guard;
pub mod handler;
pub mod laws;

pub use button::{ButtonState, Gesture, LineLevel};
pub use guard::SharedStateGuard;
pub use handler::{
    held_long, ButtonHandler, HandlerModel, Timestamp, DEBOUNCE_GUARD_MS, LONG_PRESS_MS,
};

//! What holds of the transition for every handler and every clock reading.

use crate::button::{ButtonState, Gesture, LineLevel};
use crate::handler::{HandlerModel, LONG_PRESS_MS};
use vstd::prelude::*;

verus! {

/// The transition is total, and row by row it is the table of
/// [`crate::handler`]: each pair of a state and a level, with the hold split
/// at the long-press threshold where it matters, has exactly the next state
/// and the gesture that its row gives. A press edge records the reading as the last press and
/// a release edge records it as the last release; the other reading stays.
pub proof fn lemma_transition_table(m: HandlerModel, level: LineLevel, now: int)
    ensures
        ({
            let next = m.after_edge(level, now);
            let gesture = m.gesture_on(level, now);
            let held = now - m.last_pressed_at;
            &&& level is Low && m.state is Idle ==> next.state is Pressed && gesture is None
            &&& level is Low && m.state is ReleasedPendingSingle ==> next.state
                is PressedPendingDouble && gesture is None
            &&& level is Low && (m.state is Pressed || m.state is PressedPendingDouble)
                ==> next.state == m.state && gesture is None
            &&& level is High && m.state is Pressed && held >= LONG_PRESS_MS ==> next.state
                is Idle && gesture == Some(Gesture::LongPress)
            &&& level is High && m.state is Pressed && held < LONG_PRESS_MS ==> next.state
                is ReleasedPendingSingle && gesture is None
            &&& level is High && m.state is PressedPendingDouble ==> next.state is Idle
                && gesture == Some(Gesture::DoublePress)
            &&& level is High && (m.state is Idle || m.state is ReleasedPendingSingle)
                ==> next.state == m.state && gesture is None
            &&& level is Low ==> next.last_pressed_at == now && next.last_released_at
                == m.last_released_at
            &&& level is High ==> next.last_released_at == now && next.last_pressed_at
                == m.last_pressed_at
        }),
{
}

/// From idle, a press and the release that follows it emit a long press and
/// return to idle exactly when the release comes at least the threshold after
/// the press. A shorter hold emits nothing and leaves a pending short press.
pub proof fn lemma_long_press_threshold(m: HandlerModel, pressed_at: int, released_at: int)
    requires
        m.state is Idle,
    ensures
        ({
            let down = m.after_edge(LineLevel::Low, pressed_at);
            let up = down.after_edge(LineLevel::High, released_at);
            let long = released_at - pressed_at >= LONG_PRESS_MS;
            &&& m.gesture_on(LineLevel::Low, pressed_at) is None
            &&& down.state is Pressed
            &&& down.gesture_on(LineLevel::High, released_at) == (if long {
                Some(Gesture::LongPress)
            } else {
                None
            })
            &&& up.state == (if long {
                ButtonState::Idle
            } else {
                ButtonState::ReleasedPendingSingle
            })
        }),
{
}

/// From idle, a short press, a second press and its release emit exactly one
/// gesture, a double press, at the last edge, and return to idle. Neither the
/// gap between the presses nor the length of the second hold matters.
pub proof fn lemma_double_press_sequence(
    m: HandlerModel,
    first_down: int,
    first_up: int,
    second_down: int,
    second_up: int,
)
    requires
        m.state is Idle,
        first_up - first_down < LONG_PRESS_MS,
    ensures
        ({
            let a = m.after_edge(LineLevel::Low, first_down);
            let b = a.after_edge(LineLevel::High, first_up);
            let c = b.after_edge(LineLevel::Low, second_down);
            let d = c.after_edge(LineLevel::High, second_up);
            &&& m.gesture_on(LineLevel::Low, first_down) is None
            &&& a.gesture_on(LineLevel::High, first_up) is None
            &&& b.gesture_on(LineLevel::Low, second_down) is None
            &&& c.gesture_on(LineLevel::High, second_up) == Some(Gesture::DoublePress)
            &&& a.state is Pressed
            &&& b.state is ReleasedPendingSingle
            &&& c.state is PressedPendingDouble
            &&& d.state is Idle
        }),
{
}

/// A release edge in the idle state emits nothing and leaves the state and the
/// time of the last press as they were; only the time of the last release is
/// recorded. Taking the same edge a second time changes nothing at all.
pub proof fn lemma_stray_release_in_idle(m: HandlerModel, now: int)
    requires
        m.state is Idle,
    ensures
        ({
            let once = m.after_edge(LineLevel::High, now);
            &&& m.gesture_on(LineLevel::High, now) is None
            &&& once.state is Idle
            &&& once.last_pressed_at == m.last_pressed_at
            &&& once.last_released_at == now
            &&& once.gesture_on(LineLevel::High, now) is None
            &&& once.after_edge(LineLevel::High, now) == once
        }),
{
}

/// A pending short press is never resolved by the passing of time: a release
/// edge, however late, emits nothing and leaves it pending. Only a press moves
/// it on, to the second press of a double press.
pub proof fn lemma_pending_single_has_no_timeout(m: HandlerModel, now: int)
    requires
        m.state is ReleasedPendingSingle,
    ensures
        m.gesture_on(LineLevel::High, now) is None,
        m.after_edge(LineLevel::High, now).state is ReleasedPendingSingle,
        m.gesture_on(LineLevel::Low, now) is None,
        m.after_edge(LineLevel::Low, now).state is PressedPendingDouble,
{
}

/// A gesture is emitted only by a release edge that ends a press, and the
/// handler is idle after every edge that emits one.
pub proof fn lemma_gesture_ends_sequence(m: HandlerModel, level: LineLevel, now: int)
    requires
        m.gesture_on(level, now) is Some,
    ensures
        level is High,
        m.state is Pressed || m.state is PressedPendingDouble,
        m.after_edge(level, now).state is Idle,
        m.gesture_on(level, now) == Some(Gesture::LongPress) <==> m.state is Pressed,
{
}

} // verus!

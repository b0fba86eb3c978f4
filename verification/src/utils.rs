//! Input-side helpers: the keys the simulation recognizes and their
//! mapping to direction angles.

use crate::scalar::{HALF_PI_RADS, PI_RADS, THREE_HALF_PI_RADS};
use crate::vec::Rads;
use vstd::prelude::*;

verus! {

/// A key on the keyboard, as far as the simulation cares: the four
/// direction keys, the confirm/close key, and everything else.
#[derive(Clone, Copy, Debug, PartialEq, Eq, Structural)]
pub enum Key {
    Up,
    Down,
    Left,
    Right,
    Return,
    Other,
}

/// An input event, as the simulation receives it from the external
/// event loop.
#[derive(Clone, Copy, Debug, PartialEq, Eq, Structural)]
pub enum Event {
    /// A key went down.
    KeyPressed { code: Key },
    /// A key went up.
    KeyReleased { code: Key },
    /// The window or session was asked to close.
    Closed,
}

/// The angle an arrow key points to, if any: the specification of
/// [`to_angle`].
pub open spec fn to_angle_spec(key: Key) -> Option<Rads> {
    match key {
        Key::Up => Some(THREE_HALF_PI_RADS),
        Key::Down => Some(HALF_PI_RADS),
        Key::Left => Some(PI_RADS),
        Key::Right => Some(0i64),
        _ => None,
    }
}

/// Transform an arrow key into an angle indicating the direction it is
/// pointing to. Screen coordinates are used: the y axis grows downwards,
/// so Down maps to `pi / 2` and Up to `3 pi / 2`, with Right at `0` and
/// Left at `pi`. Returns `None` if the key does not indicate a direction.
pub fn to_angle(key: Key) -> (r: Option<Rads>)
    ensures
        r == to_angle_spec(key),
        key == Key::Up ==> r == Some(THREE_HALF_PI_RADS),
        key == Key::Down ==> r == Some(HALF_PI_RADS),
        key == Key::Left ==> r == Some(PI_RADS),
        key == Key::Right ==> r == Some(0i64),
        !(key == Key::Up || key == Key::Down || key == Key::Left || key == Key::Right) ==> r
            is None,
{
    match key {
        Key::Up => Some(THREE_HALF_PI_RADS),
        Key::Down => Some(HALF_PI_RADS),
        Key::Left => Some(PI_RADS),
        Key::Right => Some(0),
        _ => None,
    }
}

} // verus!

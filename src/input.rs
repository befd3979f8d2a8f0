use vstd::prelude::*;

verus! {

/// The keys that the renderer reacts to; every other key is `Other`.
#[derive(Clone, Copy, Debug, PartialEq, Eq)]
pub enum Key {
    W,
    A,
    S,
    D,
    Space,
    LShift,
    RShift,
    Left,
    Right,
    Up,
    Down,
    Escape,
    Other,
}

/// A window-system event, reduced to what the frame loop and the camera controller read.
#[derive(Clone, Copy, Debug, PartialEq, Eq)]
pub enum InputEvent {
    KeyDown(Key),
    KeyUp(Key),
    /// The window's new size in pixels, as the window system reports it.
    Resized(i32, i32),
    /// The window was closed.
    Quit,
    Other,
}

} // verus!

//! Semantic input actions, and the pure key-to-action mapping.
//!
//! Polling the window's events is the unverified shell's work; it hands
//! each pressed key or mouse motion here as a plain value and gets the
//! semantic action back.

use vstd::prelude::*;

verus! {

/// What the user asked for, one discrete event at a time.
#[derive(Clone, Copy, Debug, PartialEq, Eq, Structural)]
pub enum Action {
    Quit,
    Continue,
    PanUp,
    PanDown,
    PanRight,
    PanLeft,
    Up,
    Down,
    Right,
    Left,
    Forward,
    Backward,
    Stop,
    YawLeft,
    YawRight,
    MouseMotion { x: i32, y: i32, dx: i32, dy: i32 },
    TimeFaster,
    TimeSlower,
    BoxFaster,
    BoxSlower,
}

/// The keys the sandbox reacts to, already freed of the windowing
/// library's own key type.
#[derive(Clone, Copy, Debug, PartialEq, Eq, Structural)]
pub enum Key {
    Escape,
    W,
    S,
    D,
    A,
    ArrowDown,
    ArrowUp,
    ArrowRight,
    ArrowLeft,
    Space,
    Q,
    E,
    RightBracket,
    LeftBracket,
    Semicolon,
    Quote,
    Other,
}

/// The action a pressed key stands for.
pub open spec fn spec_action_for_key(k: Key) -> Action {
    match k {
        Key::Escape => Action::Quit,
        Key::W => Action::Forward,
        Key::S => Action::Backward,
        Key::D => Action::Right,
        Key::A => Action::Left,
        Key::ArrowDown => Action::PanDown,
        Key::ArrowUp => Action::PanUp,
        Key::ArrowRight => Action::PanRight,
        Key::ArrowLeft => Action::PanLeft,
        Key::Space => Action::Stop,
        Key::Q => Action::YawLeft,
        Key::E => Action::YawRight,
        Key::RightBracket => Action::TimeFaster,
        Key::LeftBracket => Action::TimeSlower,
        Key::Semicolon => Action::BoxFaster,
        Key::Quote => Action::BoxSlower,
        Key::Other => Action::Continue,
    }
}

/// Maps a pressed key to its semantic action.
pub fn action_for_key(k: Key) -> (r: Action)
    ensures
        r == spec_action_for_key(k),
{
    match k {
        Key::Escape => Action::Quit,
        Key::W => Action::Forward,
        Key::S => Action::Backward,
        Key::D => Action::Right,
        Key::A => Action::Left,
        Key::ArrowDown => Action::PanDown,
        Key::ArrowUp => Action::PanUp,
        Key::ArrowRight => Action::PanRight,
        Key::ArrowLeft => Action::PanLeft,
        Key::Space => Action::Stop,
        Key::Q => Action::YawLeft,
        Key::E => Action::YawRight,
        Key::RightBracket => Action::TimeFaster,
        Key::LeftBracket => Action::TimeSlower,
        Key::Semicolon => Action::BoxFaster,
        Key::Quote => Action::BoxSlower,
        Key::Other => Action::Continue,
    }
}

} // verus!

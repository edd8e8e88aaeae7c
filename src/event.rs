use vstd::prelude::*;
use std::time::SystemTime;

verus! {

/// Relies on std::time::SystemTime as an opaque timestamp: it is only carried.
#[verifier::external_type_specification]
#[verifier::external_body]
pub struct ExSystemTime(SystemTime);

/// Relies on SystemTime's Clone, which copies the timestamp (the type is Copy).
pub assume_specification[ <SystemTime as Clone>::clone ](t: &SystemTime) -> (r: SystemTime)
    ensures
        r == *t,
;

/// Relies on std::io::Error as an opaque error value: it is only carried.
#[verifier::external_type_specification]
#[verifier::external_body]
pub struct ExIoError(std::io::Error);

/// Errors of a listening session.
#[derive(Debug)]
#[non_exhaustive]
pub enum ListenError {
    KeyHookError(u32),
    MouseHookError(u32),
}

/// Errors of a grabbing session.
#[derive(Debug)]
#[non_exhaustive]
pub enum GrabError {
    KeyHookError(u32),
    MouseHookError(u32),
    SimulateError,
    IoError(std::io::Error),
}

/// Errors of the display geometry queries.
#[non_exhaustive]
#[derive(Debug)]
pub enum DisplayError {
    NoDisplay,
    ConversionError,
}

/// An event could not be injected into the input stream.
#[derive(Debug)]
pub struct SimulateError;

impl SimulateError {
    /// The message that describes this error.
    pub fn message(&self) -> (r: String)
        ensures
            r@ == "Could not simulate event"@,
    {
        String::from_str("Could not simulate event")
    }
}

impl From<SimulateError> for GrabError {
    fn from(e: SimulateError) -> (r: GrabError)
        ensures
            r is SimulateError,
    {
        GrabError::SimulateError
    }
}

impl vstd::std_specs::convert::FromSpecImpl<SimulateError> for GrabError {
    open spec fn obeys_from_spec() -> bool {
        true
    }

    open spec fn from_spec(e: SimulateError) -> GrabError {
        GrabError::SimulateError
    }
}

impl From<std::io::Error> for GrabError {
    fn from(err: std::io::Error) -> (r: GrabError)
        ensures
            r == GrabError::IoError(err),
    {
        GrabError::IoError(err)
    }
}

impl vstd::std_specs::convert::FromSpecImpl<std::io::Error> for GrabError {
    open spec fn obeys_from_spec() -> bool {
        true
    }

    open spec fn from_spec(err: std::io::Error) -> GrabError {
        GrabError::IoError(err)
    }
}

/// Logical keys, laid out as on a standard QWERTY keyboard. Codes without a
/// logical name are kept in `Unknown`.
#[derive(Debug, Copy, Clone, PartialEq, Eq, Hash, Structural)]
pub enum Key {
    /// Alt key on Linux and Windows (option key on macOS)
    Alt,
    AltGr,
    Backspace,
    CapsLock,
    ControlLeft,
    ControlRight,
    Delete,
    DownArrow,
    End,
    Escape,
    F1,
    F10,
    F11,
    F12,
    F2,
    F3,
    F4,
    F5,
    F6,
    F7,
    F8,
    F9,
    Home,
    LeftArrow,
    /// also known as "windows", "super", and "command"
    MetaLeft,
    /// also known as "windows", "super", and "command"
    MetaRight,
    PageDown,
    PageUp,
    Return,
    RightArrow,
    ShiftLeft,
    ShiftRight,
    Space,
    Tab,
    UpArrow,
    PrintScreen,
    ScrollLock,
    Pause,
    NumLock,
    BackQuote,
    Num1,
    Num2,
    Num3,
    Num4,
    Num5,
    Num6,
    Num7,
    Num8,
    Num9,
    Num0,
    Minus,
    Equal,
    KeyQ,
    KeyW,
    KeyE,
    KeyR,
    KeyT,
    KeyY,
    KeyU,
    KeyI,
    KeyO,
    KeyP,
    LeftBracket,
    RightBracket,
    KeyA,
    KeyS,
    KeyD,
    KeyF,
    KeyG,
    KeyH,
    KeyJ,
    KeyK,
    KeyL,
    SemiColon,
    Quote,
    BackSlash,
    IntlBackslash,
    KeyZ,
    KeyX,
    KeyC,
    KeyV,
    KeyB,
    KeyN,
    KeyM,
    Comma,
    Dot,
    Slash,
    Insert,
    KpReturn,
    KpMinus,
    KpPlus,
    KpMultiply,
    KpDivide,
    Kp0,
    Kp1,
    Kp2,
    Kp3,
    Kp4,
    Kp5,
    Kp6,
    Kp7,
    Kp8,
    Kp9,
    KpDelete,
    Function,
    Unknown(u32),
}

/// Standard mouse buttons. Extra buttons are reported as `Unknown`.
#[derive(Debug, Copy, Clone, PartialEq, Eq, Hash, Structural)]
pub enum Button {
    Left,
    Right,
    Middle,
    Unknown(u8),
}

/// What happened, independently of the platform.
#[derive(Debug, Copy, Clone, PartialEq, Eq, Structural)]
pub enum EventType {
    KeyPress(Key),
    KeyRelease(Key),
    ButtonPress(Button),
    ButtonRelease(Button),
    /// Absolute pointer position in pixels; `{x: 0, y: 0}` is the top left corner.
    MouseMove { x: i32, y: i32 },
    /// Scroll in notches: positive is up (`delta_y`) or right (`delta_x`).
    Wheel { delta_x: i64, delta_y: i64 },
}

/// An event as delivered to a subscriber: what happened, when, and the text
/// that a key press produced, if any.
#[derive(Debug, Clone, PartialEq)]
pub struct Event {
    pub time: SystemTime,
    pub name: Option<String>,
    pub event_type: EventType,
}

/// The text of an optional string, as a sequence of characters.
pub open spec fn opt_text(s: Option<String>) -> Option<Seq<char>> {
    match s {
        Some(t) => Some(t@),
        None => None,
    }
}

impl Event {
    /// Assembles an event. A name is kept only for a key press: no other kind
    /// of event carries text.
    pub fn assemble(event_type: EventType, time: SystemTime, name: Option<String>) -> (r: Event)
        ensures
            r.event_type == event_type,
            r.time == time,
            r.name == (if event_type is KeyPress { name } else { None }),
    {
        let name = match event_type {
            EventType::KeyPress(_) => name,
            _ => None,
        };
        Event { time, name, event_type }
    }
}

} // verus!

use vstd::prelude::*;
use crate::decode::WHEEL_DELTA;
use crate::event::Button;
use crate::event::DisplayError;
use crate::event::EventType;
use crate::event::SimulateError;
use crate::keycodes::code_from_key;
use crate::keycodes::code_of_key;

verus! {

/// The span of absolute pointer coordinates in an injected move.
pub const ABSOLUTE_SPAN: i64 = 65535;

/// A screen dimension as reported by the platform, as an unsigned size; a
/// negative report cannot be represented.
pub fn screen_dimension(metric: i32) -> (r: Result<u64, DisplayError>)
    ensures
        metric >= 0 ==> r == Ok::<u64, DisplayError>(metric as u64),
        metric < 0 ==> r matches Err(DisplayError::ConversionError),
{
    if metric >= 0 {
        Ok(metric as u64)
    } else {
        Err(DisplayError::ConversionError)
    }
}

/// A mouse input to inject.
#[derive(Debug, Copy, Clone, PartialEq, Eq, Structural)]
pub enum MouseAction {
    LeftDown,
    LeftUp,
    MiddleDown,
    MiddleUp,
    RightDown,
    RightUp,
    /// An extended button goes down; carries the button number.
    XDown(u32),
    XUp(u32),
    /// Vertical wheel; carries the wheel data word.
    Wheel(u32),
    /// Horizontal wheel; carries the wheel data word.
    HWheel(u32),
    /// Move to an absolute position on the virtual desktop, in units of
    /// 1/65535 of its width and height.
    MoveAbsolute { dx: i32, dy: i32 },
}

/// One input to inject into the platform's input stream.
#[derive(Debug, Copy, Clone, PartialEq, Eq, Structural)]
pub enum SyntheticInput {
    Keyboard { vk: u16, key_up: bool },
    Mouse(MouseAction),
}

/// Integer division truncated toward zero.
pub open spec fn trunc_div(a: int, b: int) -> int {
    let q = (if a >= 0 { a } else { -a }) / (if b >= 0 { b } else { -b });
    if (a >= 0) == (b >= 0) { q } else { -q }
}

/// The wheel data word for a number of notches: notches times the notch unit
/// as a 16-bit signed value, widened with its sign. `None` where that does
/// not fit in 16 bits.
pub open spec fn wheel_word(notches: int) -> Option<u32> {
    let units = notches * WHEEL_DELTA as int;
    if -32768 <= units <= 32767 {
        Some((if units >= 0 { units } else { units + 0x1_0000_0000 }) as u32)
    } else {
        None
    }
}

/// One absolute coordinate of an injected move: the pixel scaled to the
/// span over the screen size, `None` where it does not fit in 32 bits.
pub open spec fn absolute_coordinate(pixel: i32, size: i32) -> Option<i32> {
    let scaled = (pixel as int + 1) * ABSOLUTE_SPAN as int;
    if i32::MIN <= scaled <= i32::MAX {
        Some(trunc_div(scaled, size as int) as i32)
    } else {
        None
    }
}

pub open spec fn button_down(b: Button) -> MouseAction {
    match b {
        Button::Left => MouseAction::LeftDown,
        Button::Middle => MouseAction::MiddleDown,
        Button::Right => MouseAction::RightDown,
        Button::Unknown(code) => MouseAction::XDown(code as u32),
    }
}

pub open spec fn button_up(b: Button) -> MouseAction {
    match b {
        Button::Left => MouseAction::LeftUp,
        Button::Middle => MouseAction::MiddleUp,
        Button::Right => MouseAction::RightUp,
        Button::Unknown(code) => MouseAction::XUp(code as u32),
    }
}

/// The wheel inputs for a scroll: horizontal first, then vertical, each only
/// where its delta is nonzero.
pub open spec fn wheel_inputs(delta_x: i64, delta_y: i64) -> Option<Seq<SyntheticInput>> {
    let h: Option<Seq<SyntheticInput>> = if delta_x == 0 {
        Some(Seq::empty())
    } else {
        match wheel_word(delta_x as int) {
            Some(w) => Some(seq![SyntheticInput::Mouse(MouseAction::HWheel(w))]),
            None => None,
        }
    };
    let v: Option<Seq<SyntheticInput>> = if delta_y == 0 {
        Some(Seq::empty())
    } else {
        match wheel_word(delta_y as int) {
            Some(w) => Some(seq![SyntheticInput::Mouse(MouseAction::Wheel(w))]),
            None => None,
        }
    };
    match (h, v) {
        (Some(a), Some(b)) => Some(a + b),
        _ => None,
    }
}

/// The inputs that inject an event, given the virtual desktop's size; `None`
/// where the event cannot be injected.
pub open spec fn planned(e: EventType, width: i32, height: i32) -> Option<Seq<SyntheticInput>> {
    match e {
        EventType::KeyPress(k) => match code_of_key(k) {
            Some(vk) => Some(seq![SyntheticInput::Keyboard { vk, key_up: false }]),
            None => None,
        },
        EventType::KeyRelease(k) => match code_of_key(k) {
            Some(vk) => Some(seq![SyntheticInput::Keyboard { vk, key_up: true }]),
            None => None,
        },
        EventType::ButtonPress(b) => Some(seq![SyntheticInput::Mouse(button_down(b))]),
        EventType::ButtonRelease(b) => Some(seq![SyntheticInput::Mouse(button_up(b))]),
        EventType::Wheel { delta_x, delta_y } => wheel_inputs(delta_x, delta_y),
        EventType::MouseMove { x, y } => {
            if width == 0 || height == 0 {
                None
            } else {
                match (absolute_coordinate(x, width), absolute_coordinate(y, height)) {
                    (Some(dx), Some(dy)) => Some(
                        seq![SyntheticInput::Mouse(MouseAction::MoveAbsolute { dx, dy })],
                    ),
                    _ => None,
                }
            }
        },
    }
}

fn wheel_data(notches: i64) -> (r: Option<u32>)
    ensures
        r == wheel_word(notches as int),
{
    if notches < -273 || notches > 273 {
        return None;
    }
    let units: i64 = notches * 120;
    if units < -32768 || units > 32767 {
        None
    } else if units >= 0 {
        Some(units as u32)
    } else {
        Some((units + 0x1_0000_0000i64) as u32)
    }
}

fn absolute(pixel: i32, size: i32) -> (r: Option<i32>)
    requires
        size != 0,
    ensures
        r == absolute_coordinate(pixel, size),
{
    let scaled: i64 = (pixel as i64 + 1) * ABSOLUTE_SPAN;
    if scaled < i32::MIN as i64 || scaled > i32::MAX as i64 {
        return None;
    }
    let a: u64 = if scaled >= 0 { scaled as u64 } else { (-scaled) as u64 };
    let b: u64 = if size >= 0 { size as u64 } else { (-(size as i64)) as u64 };
    let q: u64 = a / b;
    assert(q <= a);
    let r: i64 = if (scaled >= 0) == (size >= 0) { q as i64 } else { -(q as i64) };
    Some(r as i32)
}

/// Plans the inputs that inject an event: one key input for a key with a
/// code, one button input, up to two wheel inputs, or one absolute move
/// scaled to the virtual desktop of `width` by `height` pixels. Fails for a
/// key without a code, a scroll too large for a wheel word, an empty desktop,
/// or a position too large to scale.
pub fn plan_simulation(event_type: &EventType, width: i32, height: i32) -> (r: Result<
    Vec<SyntheticInput>,
    SimulateError,
>)
    ensures
        r is Ok <==> planned(*event_type, width, height) is Some,
        r matches Ok(v) ==> planned(*event_type, width, height) == Some(v@),
{
    let mut inputs: Vec<SyntheticInput> = Vec::new();
    match event_type {
        EventType::KeyPress(key) => match code_from_key(*key) {
            Some(vk) => inputs.push(SyntheticInput::Keyboard { vk, key_up: false }),
            None => return Err(SimulateError),
        },
        EventType::KeyRelease(key) => match code_from_key(*key) {
            Some(vk) => inputs.push(SyntheticInput::Keyboard { vk, key_up: true }),
            None => return Err(SimulateError),
        },
        EventType::ButtonPress(button) => {
            let a = match button {
                Button::Left => MouseAction::LeftDown,
                Button::Middle => MouseAction::MiddleDown,
                Button::Right => MouseAction::RightDown,
                Button::Unknown(code) => MouseAction::XDown(*code as u32),
            };
            inputs.push(SyntheticInput::Mouse(a));
        },
        EventType::ButtonRelease(button) => {
            let a = match button {
                Button::Left => MouseAction::LeftUp,
                Button::Middle => MouseAction::MiddleUp,
                Button::Right => MouseAction::RightUp,
                Button::Unknown(code) => MouseAction::XUp(*code as u32),
            };
            inputs.push(SyntheticInput::Mouse(a));
        },
        EventType::Wheel { delta_x, delta_y } => {
            if *delta_x != 0 {
                match wheel_data(*delta_x) {
                    Some(w) => inputs.push(SyntheticInput::Mouse(MouseAction::HWheel(w))),
                    None => return Err(SimulateError),
                }
            }
            if *delta_y != 0 {
                match wheel_data(*delta_y) {
                    Some(w) => inputs.push(SyntheticInput::Mouse(MouseAction::Wheel(w))),
                    None => return Err(SimulateError),
                }
            }
        },
        EventType::MouseMove { x, y } => {
            if width == 0 || height == 0 {
                return Err(SimulateError);
            }
            match (absolute(*x, width), absolute(*y, height)) {
                (Some(dx), Some(dy)) => inputs.push(
                    SyntheticInput::Mouse(MouseAction::MoveAbsolute { dx, dy }),
                ),
                _ => return Err(SimulateError),
            }
        },
    }
    assert(planned(*event_type, width, height) == Some(inputs@));
    Ok(inputs)
}

} // verus!

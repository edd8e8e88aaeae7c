use vstd::prelude::*;
use crate::event::Button;
use crate::event::EventType;
use crate::keycodes::key_from_code;
use crate::keycodes::key_of_code;

verus! {

/// Dispatch codes of the low-level hooks (the window message of the event).
pub const WM_MOUSEMOVE: usize = 0x0200;
pub const WM_KEYDOWN: usize = 0x0100;
pub const WM_KEYUP: usize = 0x0101;
pub const WM_SYSKEYDOWN: usize = 0x0104;
pub const WM_SYSKEYUP: usize = 0x0105;
pub const WM_LBUTTONDOWN: usize = 0x0201;
pub const WM_LBUTTONUP: usize = 0x0202;
pub const WM_RBUTTONDOWN: usize = 0x0204;
pub const WM_RBUTTONUP: usize = 0x0205;
pub const WM_MBUTTONDOWN: usize = 0x0207;
pub const WM_MBUTTONUP: usize = 0x0208;
pub const WM_MOUSEWHEEL: usize = 0x020A;
pub const WM_XBUTTONDOWN: usize = 0x020B;
pub const WM_XBUTTONUP: usize = 0x020C;
pub const WM_MOUSEHWHEEL: usize = 0x020E;

/// Wheel units in one notch.
pub const WHEEL_DELTA: u32 = 120;

/// The fields that the decoder reads from a low-level keyboard record.
#[derive(Debug, Copy, Clone, PartialEq, Eq, Structural)]
pub struct KeyboardRecord {
    pub vk_code: u32,
    pub scan_code: u32,
}

/// The fields that the decoder reads from a low-level mouse record.
#[derive(Debug, Copy, Clone, PartialEq, Eq, Structural)]
pub struct MouseRecord {
    pub x: i32,
    pub y: i32,
    pub mouse_data: u32,
}

/// A record handed to a low-level hook, by the hook that received it.
#[derive(Debug, Copy, Clone, PartialEq, Eq, Structural)]
pub enum RawRecord {
    Keyboard(KeyboardRecord),
    Mouse(MouseRecord),
}

/// Which kind of record comes with a dispatch code.
#[derive(Debug, Copy, Clone, PartialEq, Eq, Structural)]
pub enum RecordKind {
    Keyboard,
    Mouse,
}

pub open spec fn is_key_down(param: usize) -> bool {
    param == WM_KEYDOWN || param == WM_SYSKEYDOWN
}

pub open spec fn is_key_up(param: usize) -> bool {
    param == WM_KEYUP || param == WM_SYSKEYUP
}

pub open spec fn is_mouse_message(param: usize) -> bool {
    param == WM_MOUSEMOVE || param == WM_LBUTTONDOWN || param == WM_LBUTTONUP
        || param == WM_RBUTTONDOWN || param == WM_RBUTTONUP || param == WM_MBUTTONDOWN
        || param == WM_MBUTTONUP || param == WM_MOUSEWHEEL || param == WM_XBUTTONDOWN
        || param == WM_XBUTTONUP || param == WM_MOUSEHWHEEL
}

/// The kind of record that a dispatch code comes with; `None` for a code that
/// the decoder does not represent.
pub open spec fn kind_of(param: usize) -> Option<RecordKind> {
    if is_key_down(param) || is_key_up(param) {
        Some(RecordKind::Keyboard)
    } else if is_mouse_message(param) {
        Some(RecordKind::Mouse)
    } else {
        None
    }
}

/// The high-order 16 bits.
pub open spec fn hiword(l: u32) -> u16 {
    (l as int / 65536) as u16
}

/// A 16-bit value read as two's complement.
pub open spec fn signed16(h: u16) -> int {
    if h < 32768 { h as int } else { h as int - 65536 }
}

/// Whole notches in a wheel delta, truncated toward zero.
pub open spec fn notches(d: int) -> int {
    if d >= 0 { d / WHEEL_DELTA as int } else { -((-d) / WHEEL_DELTA as int) }
}

/// The wheel notches that a mouse record reports.
pub open spec fn wheel_notches(m: MouseRecord) -> int {
    notches(signed16(hiword(m.mouse_data)))
}

/// The number of an extended button: the low byte of the high-order word.
pub open spec fn x_button(m: MouseRecord) -> u8 {
    (hiword(m.mouse_data) % 256) as u8
}

/// What a dispatch code and its record decode to.
pub open spec fn decoded(param: usize, record: RawRecord) -> Option<EventType> {
    match record {
        RawRecord::Keyboard(k) => {
            if is_key_down(param) {
                Some(EventType::KeyPress(key_of_code((k.vk_code % 65536) as u16)))
            } else if is_key_up(param) {
                Some(EventType::KeyRelease(key_of_code((k.vk_code % 65536) as u16)))
            } else {
                None
            }
        },
        RawRecord::Mouse(m) => {
            if param == WM_LBUTTONDOWN {
                Some(EventType::ButtonPress(Button::Left))
            } else if param == WM_LBUTTONUP {
                Some(EventType::ButtonRelease(Button::Left))
            } else if param == WM_MBUTTONDOWN {
                Some(EventType::ButtonPress(Button::Middle))
            } else if param == WM_MBUTTONUP {
                Some(EventType::ButtonRelease(Button::Middle))
            } else if param == WM_RBUTTONDOWN {
                Some(EventType::ButtonPress(Button::Right))
            } else if param == WM_RBUTTONUP {
                Some(EventType::ButtonRelease(Button::Right))
            } else if param == WM_XBUTTONDOWN {
                Some(EventType::ButtonPress(Button::Unknown(x_button(m))))
            } else if param == WM_XBUTTONUP {
                Some(EventType::ButtonRelease(Button::Unknown(x_button(m))))
            } else if param == WM_MOUSEMOVE {
                Some(EventType::MouseMove { x: m.x, y: m.y })
            } else if param == WM_MOUSEWHEEL {
                Some(EventType::Wheel { delta_x: 0, delta_y: wheel_notches(m) as i64 })
            } else if param == WM_MOUSEHWHEEL {
                Some(EventType::Wheel { delta_x: wheel_notches(m) as i64, delta_y: 0 })
            } else {
                None
            }
        },
    }
}

/// The kind of record that comes with a dispatch code, so that the hook can
/// read it; `None` where the decoder represents no event for the code.
pub fn record_kind(param: usize) -> (r: Option<RecordKind>)
    ensures
        r == kind_of(param),
{
    match param {
        WM_KEYDOWN | WM_SYSKEYDOWN | WM_KEYUP | WM_SYSKEYUP => Some(RecordKind::Keyboard),
        WM_MOUSEMOVE | WM_LBUTTONDOWN | WM_LBUTTONUP | WM_RBUTTONDOWN | WM_RBUTTONUP
        | WM_MBUTTONDOWN | WM_MBUTTONUP | WM_MOUSEWHEEL | WM_XBUTTONDOWN | WM_XBUTTONUP
        | WM_MOUSEHWHEEL => Some(RecordKind::Mouse),
        _ => None,
    }
}

/// The high-order word of a double word.
#[allow(non_snake_case)]
pub fn HIWORD(l: u32) -> (r: u16)
    ensures
        r == hiword(l),
{
    let w = (l >> 16u32) & 0xffffu32;
    assert(w == l / 65536) by (bit_vector)
        requires
            w == (l >> 16u32) & 0xffffu32,
    ;
    w as u16
}

/// The virtual-key code of a keyboard record.
pub fn get_code(record: &KeyboardRecord) -> (r: u32)
    ensures
        r == record.vk_code,
{
    record.vk_code
}

/// The scan code of a keyboard record.
pub fn get_scan_code(record: &KeyboardRecord) -> (r: u32)
    ensures
        r == record.scan_code,
{
    record.scan_code
}

/// The pointer position of a mouse record.
pub fn get_point(record: &MouseRecord) -> (r: (i32, i32))
    ensures
        r == (record.x, record.y),
{
    (record.x, record.y)
}

/// The raw wheel delta of a mouse record.
pub fn get_delta(record: &MouseRecord) -> (r: u16)
    ensures
        r == hiword(record.mouse_data),
{
    HIWORD(record.mouse_data)
}

/// The extended button field of a mouse record.
pub fn get_button_code(record: &MouseRecord) -> (r: u16)
    ensures
        r == hiword(record.mouse_data),
{
    HIWORD(record.mouse_data)
}

/// Whole notches in a mouse record's wheel delta, truncated toward zero.
fn wheel_delta(record: &MouseRecord) -> (r: i64)
    ensures
        r == wheel_notches(*record),
{
    let h = get_delta(record);
    if h < 32768u16 {
        (h as u32 / WHEEL_DELTA) as i64
    } else {
        let magnitude: u32 = 65536u32 - h as u32;
        -((magnitude / WHEEL_DELTA) as i64)
    }
}

/// Decodes a hook record with its dispatch code into an event type. Codes that
/// the decoder does not represent, and a record of the other kind than the
/// code calls for, give `None`. Total: every field value is accepted.
pub fn convert(param: usize, record: &RawRecord) -> (r: Option<EventType>)
    ensures
        r == decoded(param, *record),
        r is Some <==> kind_of(param) == Some(
            match record {
                RawRecord::Keyboard(_) => RecordKind::Keyboard,
                RawRecord::Mouse(_) => RecordKind::Mouse,
            },
        ),
{
    match record {
        RawRecord::Keyboard(k) => {
            let code = (get_code(k) % 65536) as u16;
            match param {
                WM_KEYDOWN | WM_SYSKEYDOWN => Some(EventType::KeyPress(key_from_code(code))),
                WM_KEYUP | WM_SYSKEYUP => Some(EventType::KeyRelease(key_from_code(code))),
                _ => None,
            }
        },
        RawRecord::Mouse(m) => match param {
            WM_LBUTTONDOWN => Some(EventType::ButtonPress(Button::Left)),
            WM_LBUTTONUP => Some(EventType::ButtonRelease(Button::Left)),
            WM_MBUTTONDOWN => Some(EventType::ButtonPress(Button::Middle)),
            WM_MBUTTONUP => Some(EventType::ButtonRelease(Button::Middle)),
            WM_RBUTTONDOWN => Some(EventType::ButtonPress(Button::Right)),
            WM_RBUTTONUP => Some(EventType::ButtonRelease(Button::Right)),
            WM_XBUTTONDOWN => {
                let code = (get_button_code(m) % 256) as u8;
                Some(EventType::ButtonPress(Button::Unknown(code)))
            },
            WM_XBUTTONUP => {
                let code = (get_button_code(m) % 256) as u8;
                Some(EventType::ButtonRelease(Button::Unknown(code)))
            },
            WM_MOUSEMOVE => {
                let (x, y) = get_point(m);
                Some(EventType::MouseMove { x, y })
            },
            WM_MOUSEWHEEL => Some(EventType::Wheel { delta_x: 0, delta_y: wheel_delta(m) }),
            WM_MOUSEHWHEEL => Some(EventType::Wheel { delta_x: wheel_delta(m), delta_y: 0 }),
            _ => None,
        },
    }
}

} // verus!

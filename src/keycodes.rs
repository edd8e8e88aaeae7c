use vstd::prelude::*;
use crate::event::Key;

verus! {

/// The virtual-key code of each named key that has one.
pub open spec fn named_code(key: Key) -> Option<u16> {
    match key {
        Key::Alt => Some(164u16),
        Key::AltGr => Some(165u16),
        Key::Backspace => Some(8u16),
        Key::CapsLock => Some(20u16),
        Key::ControlLeft => Some(162u16),
        Key::ControlRight => Some(163u16),
        Key::Delete => Some(46u16),
        Key::DownArrow => Some(40u16),
        Key::End => Some(35u16),
        Key::Escape => Some(27u16),
        Key::F1 => Some(112u16),
        Key::F2 => Some(113u16),
        Key::F3 => Some(114u16),
        Key::F4 => Some(115u16),
        Key::F5 => Some(116u16),
        Key::F6 => Some(117u16),
        Key::F7 => Some(118u16),
        Key::F8 => Some(119u16),
        Key::F9 => Some(120u16),
        Key::F10 => Some(121u16),
        Key::F11 => Some(122u16),
        Key::F12 => Some(123u16),
        Key::Home => Some(36u16),
        Key::LeftArrow => Some(37u16),
        Key::MetaLeft => Some(91u16),
        Key::MetaRight => Some(92u16),
        Key::PageDown => Some(34u16),
        Key::PageUp => Some(33u16),
        Key::Return => Some(13u16),
        Key::RightArrow => Some(39u16),
        Key::ShiftLeft => Some(160u16),
        Key::ShiftRight => Some(161u16),
        Key::Space => Some(32u16),
        Key::Tab => Some(9u16),
        Key::UpArrow => Some(38u16),
        Key::PrintScreen => Some(44u16),
        Key::ScrollLock => Some(145u16),
        Key::Pause => Some(19u16),
        Key::NumLock => Some(144u16),
        Key::BackQuote => Some(192u16),
        Key::Num0 => Some(48u16),
        Key::Num1 => Some(49u16),
        Key::Num2 => Some(50u16),
        Key::Num3 => Some(51u16),
        Key::Num4 => Some(52u16),
        Key::Num5 => Some(53u16),
        Key::Num6 => Some(54u16),
        Key::Num7 => Some(55u16),
        Key::Num8 => Some(56u16),
        Key::Num9 => Some(57u16),
        Key::Minus => Some(189u16),
        Key::Equal => Some(187u16),
        Key::KeyA => Some(65u16),
        Key::KeyB => Some(66u16),
        Key::KeyC => Some(67u16),
        Key::KeyD => Some(68u16),
        Key::KeyE => Some(69u16),
        Key::KeyF => Some(70u16),
        Key::KeyG => Some(71u16),
        Key::KeyH => Some(72u16),
        Key::KeyI => Some(73u16),
        Key::KeyJ => Some(74u16),
        Key::KeyK => Some(75u16),
        Key::KeyL => Some(76u16),
        Key::KeyM => Some(77u16),
        Key::KeyN => Some(78u16),
        Key::KeyO => Some(79u16),
        Key::KeyP => Some(80u16),
        Key::KeyQ => Some(81u16),
        Key::KeyR => Some(82u16),
        Key::KeyS => Some(83u16),
        Key::KeyT => Some(84u16),
        Key::KeyU => Some(85u16),
        Key::KeyV => Some(86u16),
        Key::KeyW => Some(87u16),
        Key::KeyX => Some(88u16),
        Key::KeyY => Some(89u16),
        Key::KeyZ => Some(90u16),
        Key::LeftBracket => Some(219u16),
        Key::RightBracket => Some(221u16),
        Key::SemiColon => Some(186u16),
        Key::Quote => Some(222u16),
        Key::BackSlash => Some(220u16),
        Key::IntlBackslash => Some(226u16),
        Key::Comma => Some(188u16),
        Key::Dot => Some(190u16),
        Key::Slash => Some(191u16),
        Key::Insert => Some(45u16),
        Key::KpMinus => Some(109u16),
        Key::KpPlus => Some(107u16),
        Key::KpMultiply => Some(106u16),
        Key::KpDivide => Some(111u16),
        Key::Kp0 => Some(96u16),
        Key::Kp1 => Some(97u16),
        Key::Kp2 => Some(98u16),
        Key::Kp3 => Some(99u16),
        Key::Kp4 => Some(100u16),
        Key::Kp5 => Some(101u16),
        Key::Kp6 => Some(102u16),
        Key::Kp7 => Some(103u16),
        Key::Kp8 => Some(104u16),
        Key::Kp9 => Some(105u16),
        Key::KpDelete => Some(110u16),
        _ => None,
    }
}

/// The named key that a virtual-key code stands for, if any.
pub open spec fn named_key(code: u16) -> Option<Key> {
    match code {
        164u16 => Some(Key::Alt),
        165u16 => Some(Key::AltGr),
        8u16 => Some(Key::Backspace),
        20u16 => Some(Key::CapsLock),
        162u16 => Some(Key::ControlLeft),
        163u16 => Some(Key::ControlRight),
        46u16 => Some(Key::Delete),
        40u16 => Some(Key::DownArrow),
        35u16 => Some(Key::End),
        27u16 => Some(Key::Escape),
        112u16 => Some(Key::F1),
        113u16 => Some(Key::F2),
        114u16 => Some(Key::F3),
        115u16 => Some(Key::F4),
        116u16 => Some(Key::F5),
        117u16 => Some(Key::F6),
        118u16 => Some(Key::F7),
        119u16 => Some(Key::F8),
        120u16 => Some(Key::F9),
        121u16 => Some(Key::F10),
        122u16 => Some(Key::F11),
        123u16 => Some(Key::F12),
        36u16 => Some(Key::Home),
        37u16 => Some(Key::LeftArrow),
        91u16 => Some(Key::MetaLeft),
        92u16 => Some(Key::MetaRight),
        34u16 => Some(Key::PageDown),
        33u16 => Some(Key::PageUp),
        13u16 => Some(Key::Return),
        39u16 => Some(Key::RightArrow),
        160u16 => Some(Key::ShiftLeft),
        161u16 => Some(Key::ShiftRight),
        32u16 => Some(Key::Space),
        9u16 => Some(Key::Tab),
        38u16 => Some(Key::UpArrow),
        44u16 => Some(Key::PrintScreen),
        145u16 => Some(Key::ScrollLock),
        19u16 => Some(Key::Pause),
        144u16 => Some(Key::NumLock),
        192u16 => Some(Key::BackQuote),
        48u16 => Some(Key::Num0),
        49u16 => Some(Key::Num1),
        50u16 => Some(Key::Num2),
        51u16 => Some(Key::Num3),
        52u16 => Some(Key::Num4),
        53u16 => Some(Key::Num5),
        54u16 => Some(Key::Num6),
        55u16 => Some(Key::Num7),
        56u16 => Some(Key::Num8),
        57u16 => Some(Key::Num9),
        189u16 => Some(Key::Minus),
        187u16 => Some(Key::Equal),
        65u16 => Some(Key::KeyA),
        66u16 => Some(Key::KeyB),
        67u16 => Some(Key::KeyC),
        68u16 => Some(Key::KeyD),
        69u16 => Some(Key::KeyE),
        70u16 => Some(Key::KeyF),
        71u16 => Some(Key::KeyG),
        72u16 => Some(Key::KeyH),
        73u16 => Some(Key::KeyI),
        74u16 => Some(Key::KeyJ),
        75u16 => Some(Key::KeyK),
        76u16 => Some(Key::KeyL),
        77u16 => Some(Key::KeyM),
        78u16 => Some(Key::KeyN),
        79u16 => Some(Key::KeyO),
        80u16 => Some(Key::KeyP),
        81u16 => Some(Key::KeyQ),
        82u16 => Some(Key::KeyR),
        83u16 => Some(Key::KeyS),
        84u16 => Some(Key::KeyT),
        85u16 => Some(Key::KeyU),
        86u16 => Some(Key::KeyV),
        87u16 => Some(Key::KeyW),
        88u16 => Some(Key::KeyX),
        89u16 => Some(Key::KeyY),
        90u16 => Some(Key::KeyZ),
        219u16 => Some(Key::LeftBracket),
        221u16 => Some(Key::RightBracket),
        186u16 => Some(Key::SemiColon),
        222u16 => Some(Key::Quote),
        220u16 => Some(Key::BackSlash),
        226u16 => Some(Key::IntlBackslash),
        188u16 => Some(Key::Comma),
        190u16 => Some(Key::Dot),
        191u16 => Some(Key::Slash),
        45u16 => Some(Key::Insert),
        109u16 => Some(Key::KpMinus),
        107u16 => Some(Key::KpPlus),
        106u16 => Some(Key::KpMultiply),
        111u16 => Some(Key::KpDivide),
        96u16 => Some(Key::Kp0),
        97u16 => Some(Key::Kp1),
        98u16 => Some(Key::Kp2),
        99u16 => Some(Key::Kp3),
        100u16 => Some(Key::Kp4),
        101u16 => Some(Key::Kp5),
        102u16 => Some(Key::Kp6),
        103u16 => Some(Key::Kp7),
        104u16 => Some(Key::Kp8),
        105u16 => Some(Key::Kp9),
        110u16 => Some(Key::KpDelete),
        _ => None,
    }
}

/// The key that a virtual-key code stands for: its named key, else `Unknown`
/// with the code.
pub open spec fn key_of_code(code: u16) -> Key {
    match named_key(code) {
        Some(k) => k,
        None => Key::Unknown(code as u32),
    }
}

/// The virtual-key code of a key: the named code, or the carried code of an
/// `Unknown` key where it fits in 16 bits.
pub open spec fn code_of_key(key: Key) -> Option<u16> {
    match key {
        Key::Unknown(c) => if c <= 0xffff { Some(c as u16) } else { None },
        _ => named_code(key),
    }
}

/// Maps a virtual-key code to its logical key; codes without a name become
/// `Key::Unknown(code)`.
pub fn key_from_code(code: u16) -> (r: Key)
    ensures
        r == key_of_code(code),
{
    match code {
        164u16 => Key::Alt,
        165u16 => Key::AltGr,
        8u16 => Key::Backspace,
        20u16 => Key::CapsLock,
        162u16 => Key::ControlLeft,
        163u16 => Key::ControlRight,
        46u16 => Key::Delete,
        40u16 => Key::DownArrow,
        35u16 => Key::End,
        27u16 => Key::Escape,
        112u16 => Key::F1,
        113u16 => Key::F2,
        114u16 => Key::F3,
        115u16 => Key::F4,
        116u16 => Key::F5,
        117u16 => Key::F6,
        118u16 => Key::F7,
        119u16 => Key::F8,
        120u16 => Key::F9,
        121u16 => Key::F10,
        122u16 => Key::F11,
        123u16 => Key::F12,
        36u16 => Key::Home,
        37u16 => Key::LeftArrow,
        91u16 => Key::MetaLeft,
        92u16 => Key::MetaRight,
        34u16 => Key::PageDown,
        33u16 => Key::PageUp,
        13u16 => Key::Return,
        39u16 => Key::RightArrow,
        160u16 => Key::ShiftLeft,
        161u16 => Key::ShiftRight,
        32u16 => Key::Space,
        9u16 => Key::Tab,
        38u16 => Key::UpArrow,
        44u16 => Key::PrintScreen,
        145u16 => Key::ScrollLock,
        19u16 => Key::Pause,
        144u16 => Key::NumLock,
        192u16 => Key::BackQuote,
        48u16 => Key::Num0,
        49u16 => Key::Num1,
        50u16 => Key::Num2,
        51u16 => Key::Num3,
        52u16 => Key::Num4,
        53u16 => Key::Num5,
        54u16 => Key::Num6,
        55u16 => Key::Num7,
        56u16 => Key::Num8,
        57u16 => Key::Num9,
        189u16 => Key::Minus,
        187u16 => Key::Equal,
        65u16 => Key::KeyA,
        66u16 => Key::KeyB,
        67u16 => Key::KeyC,
        68u16 => Key::KeyD,
        69u16 => Key::KeyE,
        70u16 => Key::KeyF,
        71u16 => Key::KeyG,
        72u16 => Key::KeyH,
        73u16 => Key::KeyI,
        74u16 => Key::KeyJ,
        75u16 => Key::KeyK,
        76u16 => Key::KeyL,
        77u16 => Key::KeyM,
        78u16 => Key::KeyN,
        79u16 => Key::KeyO,
        80u16 => Key::KeyP,
        81u16 => Key::KeyQ,
        82u16 => Key::KeyR,
        83u16 => Key::KeyS,
        84u16 => Key::KeyT,
        85u16 => Key::KeyU,
        86u16 => Key::KeyV,
        87u16 => Key::KeyW,
        88u16 => Key::KeyX,
        89u16 => Key::KeyY,
        90u16 => Key::KeyZ,
        219u16 => Key::LeftBracket,
        221u16 => Key::RightBracket,
        186u16 => Key::SemiColon,
        222u16 => Key::Quote,
        220u16 => Key::BackSlash,
        226u16 => Key::IntlBackslash,
        188u16 => Key::Comma,
        190u16 => Key::Dot,
        191u16 => Key::Slash,
        45u16 => Key::Insert,
        109u16 => Key::KpMinus,
        107u16 => Key::KpPlus,
        106u16 => Key::KpMultiply,
        111u16 => Key::KpDivide,
        96u16 => Key::Kp0,
        97u16 => Key::Kp1,
        98u16 => Key::Kp2,
        99u16 => Key::Kp3,
        100u16 => Key::Kp4,
        101u16 => Key::Kp5,
        102u16 => Key::Kp6,
        103u16 => Key::Kp7,
        104u16 => Key::Kp8,
        105u16 => Key::Kp9,
        110u16 => Key::KpDelete,
        _ => Key::Unknown(code as u32),
    }
}

/// Maps a logical key to its virtual-key code, if it has one.
pub fn code_from_key(key: Key) -> (r: Option<u16>)
    ensures
        r == code_of_key(key),
{
    match key {
        Key::Alt => Some(164u16),
        Key::AltGr => Some(165u16),
        Key::Backspace => Some(8u16),
        Key::CapsLock => Some(20u16),
        Key::ControlLeft => Some(162u16),
        Key::ControlRight => Some(163u16),
        Key::Delete => Some(46u16),
        Key::DownArrow => Some(40u16),
        Key::End => Some(35u16),
        Key::Escape => Some(27u16),
        Key::F1 => Some(112u16),
        Key::F2 => Some(113u16),
        Key::F3 => Some(114u16),
        Key::F4 => Some(115u16),
        Key::F5 => Some(116u16),
        Key::F6 => Some(117u16),
        Key::F7 => Some(118u16),
        Key::F8 => Some(119u16),
        Key::F9 => Some(120u16),
        Key::F10 => Some(121u16),
        Key::F11 => Some(122u16),
        Key::F12 => Some(123u16),
        Key::Home => Some(36u16),
        Key::LeftArrow => Some(37u16),
        Key::MetaLeft => Some(91u16),
        Key::MetaRight => Some(92u16),
        Key::PageDown => Some(34u16),
        Key::PageUp => Some(33u16),
        Key::Return => Some(13u16),
        Key::RightArrow => Some(39u16),
        Key::ShiftLeft => Some(160u16),
        Key::ShiftRight => Some(161u16),
        Key::Space => Some(32u16),
        Key::Tab => Some(9u16),
        Key::UpArrow => Some(38u16),
        Key::PrintScreen => Some(44u16),
        Key::ScrollLock => Some(145u16),
        Key::Pause => Some(19u16),
        Key::NumLock => Some(144u16),
        Key::BackQuote => Some(192u16),
        Key::Num0 => Some(48u16),
        Key::Num1 => Some(49u16),
        Key::Num2 => Some(50u16),
        Key::Num3 => Some(51u16),
        Key::Num4 => Some(52u16),
        Key::Num5 => Some(53u16),
        Key::Num6 => Some(54u16),
        Key::Num7 => Some(55u16),
        Key::Num8 => Some(56u16),
        Key::Num9 => Some(57u16),
        Key::Minus => Some(189u16),
        Key::Equal => Some(187u16),
        Key::KeyA => Some(65u16),
        Key::KeyB => Some(66u16),
        Key::KeyC => Some(67u16),
        Key::KeyD => Some(68u16),
        Key::KeyE => Some(69u16),
        Key::KeyF => Some(70u16),
        Key::KeyG => Some(71u16),
        Key::KeyH => Some(72u16),
        Key::KeyI => Some(73u16),
        Key::KeyJ => Some(74u16),
        Key::KeyK => Some(75u16),
        Key::KeyL => Some(76u16),
        Key::KeyM => Some(77u16),
        Key::KeyN => Some(78u16),
        Key::KeyO => Some(79u16),
        Key::KeyP => Some(80u16),
        Key::KeyQ => Some(81u16),
        Key::KeyR => Some(82u16),
        Key::KeyS => Some(83u16),
        Key::KeyT => Some(84u16),
        Key::KeyU => Some(85u16),
        Key::KeyV => Some(86u16),
        Key::KeyW => Some(87u16),
        Key::KeyX => Some(88u16),
        Key::KeyY => Some(89u16),
        Key::KeyZ => Some(90u16),
        Key::LeftBracket => Some(219u16),
        Key::RightBracket => Some(221u16),
        Key::SemiColon => Some(186u16),
        Key::Quote => Some(222u16),
        Key::BackSlash => Some(220u16),
        Key::IntlBackslash => Some(226u16),
        Key::Comma => Some(188u16),
        Key::Dot => Some(190u16),
        Key::Slash => Some(191u16),
        Key::Insert => Some(45u16),
        Key::KpMinus => Some(109u16),
        Key::KpPlus => Some(107u16),
        Key::KpMultiply => Some(106u16),
        Key::KpDivide => Some(111u16),
        Key::Kp0 => Some(96u16),
        Key::Kp1 => Some(97u16),
        Key::Kp2 => Some(98u16),
        Key::Kp3 => Some(99u16),
        Key::Kp4 => Some(100u16),
        Key::Kp5 => Some(101u16),
        Key::Kp6 => Some(102u16),
        Key::Kp7 => Some(103u16),
        Key::Kp8 => Some(104u16),
        Key::Kp9 => Some(105u16),
        Key::KpDelete => Some(110u16),
        Key::Unknown(c) => if c <= 0xffff { Some(c as u16) } else { None },
        _ => None,
    }
}

/// A code read into a key and back is the same code.
pub proof fn lemma_code_round_trip(code: u16)
    ensures
        code_of_key(key_of_code(code)) == Some(code),
{
}

/// A named key read into a code and back is the same key.
pub proof fn lemma_named_key_round_trip(key: Key)
    requires
        named_code(key) is Some,
    ensures
        key_of_code(named_code(key)->0) == key,
{
}

} // verus!

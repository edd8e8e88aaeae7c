use vstd::prelude::*;

verus! {

/// Positions in the key-state table.
pub const VK_SHIFT: usize = 16;
pub const VK_CAPITAL: usize = 20;
pub const VK_NUMLOCK: usize = 144;
pub const VK_LSHIFT: usize = 160;
pub const VK_RSHIFT: usize = 161;

/// The bit of a key-state byte that says the key is down.
pub const PRESSED: u8 = 0x80;
/// The bit of a key-state byte that says a lock key is on.
pub const TOGGLED: u8 = 0x01;

pub open spec fn is_down(state: Seq<u8>, vk: int) -> bool {
    state[vk] & PRESSED != 0
}

pub open spec fn is_on(state: Seq<u8>, vk: int) -> bool {
    state[vk] & TOGGLED != 0
}

/// The plain and the shifted code unit of a digit or punctuation key of the
/// US layout.
pub open spec fn symbol_pair(code: u32) -> Option<(u16, u16)> {
    match code {
        48 => Some((48u16, 41u16)),
        49 => Some((49u16, 33u16)),
        50 => Some((50u16, 64u16)),
        51 => Some((51u16, 35u16)),
        52 => Some((52u16, 36u16)),
        53 => Some((53u16, 37u16)),
        54 => Some((54u16, 94u16)),
        55 => Some((55u16, 38u16)),
        56 => Some((56u16, 42u16)),
        57 => Some((57u16, 40u16)),
        186 => Some((59u16, 58u16)),
        187 => Some((61u16, 43u16)),
        188 => Some((44u16, 60u16)),
        189 => Some((45u16, 95u16)),
        190 => Some((46u16, 62u16)),
        191 => Some((47u16, 63u16)),
        192 => Some((96u16, 126u16)),
        219 => Some((91u16, 123u16)),
        220 => Some((92u16, 124u16)),
        221 => Some((93u16, 125u16)),
        222 => Some((39u16, 34u16)),
        226 => Some((92u16, 124u16)),        _ => None,
    }
}

/// The code unit that the US layout gives for a key under the given shift,
/// caps lock and num lock states; `None` for a key that types nothing.
pub open spec fn us_unit(code: u32, shift: bool, caps: bool, numlock: bool) -> Option<u16> {
    if 65 <= code <= 90 {
        Some(if shift != caps { code as u16 } else { (code + 32) as u16 })
    } else if let Some((plain, shifted)) = symbol_pair(code) {
        Some(if shift { shifted } else { plain })
    } else if code == 8 || code == 9 || code == 13 || code == 27 || code == 32 {
        Some(code as u16)
    } else if 96 <= code <= 105 {
        if numlock { Some((code - 48) as u16) } else { None }
    } else if code == 110 {
        if numlock { Some(46u16) } else { None }
    } else if code == 106 {
        Some(42u16)
    } else if code == 107 {
        Some(43u16)
    } else if code == 109 {
        Some(45u16)
    } else if code == 111 {
        Some(47u16)
    } else {
        None
    }
}

/// The code units that the US layout types for a key in a key-state table.
pub open spec fn us_units(code: u32, state: Seq<u8>) -> Seq<u16> {
    match us_unit(code, is_down(state, VK_SHIFT as int), is_on(state, VK_CAPITAL as int), is_on(state, VK_NUMLOCK as int)) {
        Some(u) => seq![u],
        None => Seq::empty(),
    }
}

fn symbol_pair_of(code: u32) -> (r: Option<(u16, u16)>)
    ensures
        r == symbol_pair(code),
{
    match code {
        48u32 => Some((48u16, 41u16)),
        49u32 => Some((49u16, 33u16)),
        50u32 => Some((50u16, 64u16)),
        51u32 => Some((51u16, 35u16)),
        52u32 => Some((52u16, 36u16)),
        53u32 => Some((53u16, 37u16)),
        54u32 => Some((54u16, 94u16)),
        55u32 => Some((55u16, 38u16)),
        56u32 => Some((56u16, 42u16)),
        57u32 => Some((57u16, 40u16)),
        186u32 => Some((59u16, 58u16)),
        187u32 => Some((61u16, 43u16)),
        188u32 => Some((44u16, 60u16)),
        189u32 => Some((45u16, 95u16)),
        190u32 => Some((46u16, 62u16)),
        191u32 => Some((47u16, 63u16)),
        192u32 => Some((96u16, 126u16)),
        219u32 => Some((91u16, 123u16)),
        220u32 => Some((92u16, 124u16)),
        221u32 => Some((93u16, 125u16)),
        222u32 => Some((39u16, 34u16)),
        226u32 => Some((92u16, 124u16)),        _ => None,
    }
}

/// The code units that the built-in US QWERTY layout types for a virtual-key
/// code in a key-state table: letters follow shift and caps lock, digits and
/// punctuation follow shift, the keypad follows num lock. The layout has no
/// dead keys.
pub fn us_layout_units(code: u32, state: &[u8; 256]) -> (r: Vec<u16>)
    ensures
        r@ == us_units(code, state@),
{
    let shift = state[VK_SHIFT] & PRESSED != 0;
    let caps = state[VK_CAPITAL] & TOGGLED != 0;
    let numlock = state[VK_NUMLOCK] & TOGGLED != 0;
    let unit: Option<u16> = if 65 <= code && code <= 90 {
        Some(if shift != caps { code as u16 } else { (code + 32) as u16 })
    } else {
        match symbol_pair_of(code) {
            Some((plain, shifted)) => Some(if shift { shifted } else { plain }),
            None => {
                if code == 8 || code == 9 || code == 13 || code == 27 || code == 32 {
                    Some(code as u16)
                } else if 96 <= code && code <= 105 {
                    if numlock { Some((code - 48) as u16) } else { None }
                } else if code == 110 {
                    if numlock { Some(46u16) } else { None }
                } else if code == 106 {
                    Some(42u16)
                } else if code == 107 {
                    Some(43u16)
                } else if code == 109 {
                    Some(45u16)
                } else if code == 111 {
                    Some(47u16)
                } else {
                    None
                }
            },
        }
    };
    let mut units: Vec<u16> = Vec::new();
    match unit {
        Some(u) => {
            units.push(u);
        },
        None => {},
    }
    assert(units@ =~= us_units(code, state@));
    units
}

} // verus!

use vstd::prelude::*;
use crate::event::opt_text;
use crate::event::EventType;
use crate::event::Key;
use crate::keycodes::code_from_key;
use crate::keycodes::code_of_key;
use crate::layout::us_layout_units;
use crate::layout::is_down;
use crate::layout::is_on;
use crate::layout::us_units;
use crate::layout::PRESSED;
use crate::layout::TOGGLED;
use crate::layout::VK_CAPITAL;
use crate::layout::VK_LSHIFT;
use crate::layout::VK_RSHIFT;
use crate::layout::VK_SHIFT;

verus! {

/// Text that `String::from_utf16` decodes from a sequence of UTF-16 code units.
pub uninterp spec fn utf16_decoded(units: Seq<u16>) -> Option<Seq<char>>;

/// No unit of the sequence is a surrogate: each stands alone for one char.
pub open spec fn is_basic_plane(units: Seq<u16>) -> bool {
    forall|i: int| 0 <= i < units.len() ==> (units[i] < 0xD800 || units[i] >= 0xE000)
}

/// Relies on String::from_utf16: the result depends on the code units alone,
/// and units outside the surrogate range decode one for one to the chars of
/// the same value.
#[verifier::external_body]
fn text_from_utf16(units: &[u16]) -> (r: Option<String>)
    ensures
        opt_text(r) == utf16_decoded(units@),
        is_basic_plane(units@) ==> r is Some && r->0@.len() == units@.len() && (forall|i: int|
            0 <= i < units@.len() ==> r->0@[i] as u32 == units@[i] as u32),
{
    String::from_utf16(units).ok()
}

/// Decodes UTF-16 code units into text; `None` where they are not valid UTF-16.
pub fn decode_text(units: &Vec<u16>) -> (r: Option<String>)
    ensures
        opt_text(r) == utf16_decoded(units@),
        is_basic_plane(units@) ==> spells(r, units@),
{
    text_from_utf16(units.as_slice())
}

/// What the text-composition primitive reported for one key.
#[derive(Debug, Clone, PartialEq, Eq)]
pub enum KeyText {
    /// The key types nothing.
    NoChar,
    /// The key is a dead key: a composition is now pending.
    Dead,
    /// The key typed these UTF-16 code units.
    Text(Vec<u16>),
}

/// The text that a primitive outcome stands for.
pub open spec fn key_text_of(t: KeyText) -> Option<Seq<char>> {
    match t {
        KeyText::Text(units) => utf16_decoded(units@),
        _ => None,
    }
}

impl KeyText {
    /// Reads the primitive's return value: zero is no character, a negative
    /// value a dead key, a positive one the number of code units written at
    /// the start of the buffer.
    pub fn from_length(len: i32, buffer: &[u16]) -> (r: KeyText)
        requires
            len <= buffer@.len(),
        ensures
            len == 0 ==> r is NoChar,
            len < 0 ==> r is Dead,
            len > 0 ==> (r matches KeyText::Text(u) && u@ == buffer@.subrange(0, len as int)),
    {
        if len == 0 {
            KeyText::NoChar
        } else if len < 0 {
            KeyText::Dead
        } else {
            let n = len as usize;
            let mut units: Vec<u16> = Vec::new();
            let mut i: usize = 0;
            while i < n
                invariant
                    n <= buffer@.len(),
                    i <= n,
                    units@ == buffer@.subrange(0, i as int),
                decreases n - i,
            {
                units.push(buffer[i]);
                i = i + 1;
                assert(units@ =~= buffer@.subrange(0, i as int));
            }
            KeyText::Text(units)
        }
    }
}

/// The dead-key composition state: either nothing is pending, or a dead key
/// waits for the next keystroke.
#[derive(Debug, Copy, Clone, PartialEq, Eq, Structural)]
pub enum Composition {
    Idle,
    Pending { code: u32, scan_code: u32 },
}

/// The composition state after a keystroke: a pending composition is resolved
/// by the keystroke that follows it; otherwise a dead key with a nonzero code
/// becomes pending.
pub open spec fn next_composition(c: Composition, code: u32, scan_code: u32, dead: bool) -> Composition {
    match c {
        Composition::Pending { .. } => Composition::Idle,
        Composition::Idle => if dead && code != 0 {
            Composition::Pending { code, scan_code }
        } else {
            Composition::Idle
        },
    }
}

/// The key whose composition must be replayed after a keystroke, if any.
pub open spec fn flush_of(c: Composition) -> Option<(u32, u32)> {
    match c {
        Composition::Pending { code, scan_code } => Some((code, scan_code)),
        Composition::Idle => None,
    }
}

/// What a keystroke resolved to, and the primitive calls still owed, in this
/// order: clear the dead key just typed, then replay the pending one.
#[derive(Debug)]
pub struct Step {
    /// The text of this keystroke.
    pub text: Option<String>,
    /// The keystroke was a dead key: call the primitive again for it with an
    /// all-zero key state until it stops reporting a dead key.
    pub clear_dead: bool,
    /// Replay the primitive once for this (virtual code, scan code) with the
    /// current key state, to resolve the earlier composition.
    pub flush: Option<(u32, u32)>,
}

pub open spec fn pressed(s: Seq<u8>, vk: usize) -> Seq<u8> {
    s.update(vk as int, s[vk as int] | PRESSED)
}

pub open spec fn released(s: Seq<u8>, vk: usize) -> Seq<u8> {
    s.update(vk as int, s[vk as int] & !PRESSED)
}

pub open spec fn toggled(s: Seq<u8>, vk: usize) -> Seq<u8> {
    s.update(vk as int, s[vk as int] ^ TOGGLED)
}

/// The key-state table after an event, in the simulation.
pub open spec fn state_after(s: Seq<u8>, e: EventType) -> Seq<u8> {
    match e {
        EventType::KeyPress(Key::ShiftLeft) => pressed(pressed(s, VK_SHIFT), VK_LSHIFT),
        EventType::KeyPress(Key::ShiftRight) => pressed(pressed(s, VK_SHIFT), VK_RSHIFT),
        EventType::KeyPress(Key::CapsLock) => toggled(s, VK_CAPITAL),
        EventType::KeyRelease(Key::ShiftLeft) => released(released(s, VK_SHIFT), VK_LSHIFT),
        EventType::KeyRelease(Key::ShiftRight) => released(released(s, VK_SHIFT), VK_RSHIFT),
        _ => s,
    }
}

/// The virtual-key code that the simulation types for an event: a press
/// of a key other than shift and caps lock that has a code.
pub open spec fn typed_code(e: EventType) -> Option<u16> {
    match e {
        EventType::KeyPress(Key::ShiftLeft) => None,
        EventType::KeyPress(Key::ShiftRight) => None,
        EventType::KeyPress(Key::CapsLock) => None,
        EventType::KeyPress(k) => code_of_key(k),
        _ => None,
    }
}

/// The text is exactly the given code units, one char for each.
pub open spec fn spells(t: Option<String>, units: Seq<u16>) -> bool {
    t matches Some(s) && s@.len() == units.len() && (forall|i: int|
        0 <= i < units.len() ==> s@[i] as u32 == units[i] as u32)
}

/// The text typed by a key that gives these code units: none for no unit.
pub open spec fn types_as(t: Option<String>, units: Seq<u16>) -> bool {
    if units.len() == 0 {
        t is None
    } else {
        spells(t, units)
    }
}

/// The key-state table after a reset: shift and caps lock cleared.
pub open spec fn state_reset(s: Seq<u8>) -> Seq<u8> {
    s.update(VK_SHIFT as int, 0u8).update(VK_CAPITAL as int, 0u8)
}

/// The keyboard state engine: a key-state table that mirrors the platform's
/// (a pressed bit and a toggle bit per key), and the dead-key composition.
pub struct Keyboard {
    state: [u8; 256],
    composition: Composition,
}

impl Keyboard {
    /// The key-state table.
    pub closed spec fn key_state(&self) -> Seq<u8> {
        self.state@
    }

    /// The dead-key composition.
    pub closed spec fn pending(&self) -> Composition {
        self.composition
    }

    /// A keyboard with no key down, no lock on and nothing pending.
    pub fn new() -> (r: Option<Self>)
        ensures
            r matches Some(k) && k.key_state() == Seq::new(256, |i: int| 0u8) && k.pending()
                == Composition::Idle,
    {
        let k = Keyboard { state: [0u8; 256], composition: Composition::Idle };
        assert(k.state@ =~= Seq::new(256, |i: int| 0u8));
        Some(k)
    }

    /// A copy of the key-state table, as the text-composition primitive takes it.
    pub fn key_state_table(&self) -> (r: [u8; 256])
        ensures
            r@ == self.key_state(),
    {
        self.state
    }

    /// Replaces the key-state table with one read from the platform.
    pub fn set_key_state(&mut self, state: [u8; 256])
        ensures
            final(self).key_state() == state@,
            final(self).pending() == old(self).pending(),
    {
        self.state = state;
    }

    /// Resolves a keystroke from what the text-composition primitive reported
    /// for it, and advances the dead-key composition. The text of a dead key
    /// followed by a base key comes with the second keystroke.
    pub fn compose(&mut self, code: u32, scan_code: u32, outcome: &KeyText) -> (r: Step)
        ensures
            opt_text(r.text) == key_text_of(*outcome),
            *outcome matches KeyText::Text(u) ==> (is_basic_plane(u@) ==> spells(r.text, u@)),
            r.clear_dead == (*outcome is Dead),
            r.flush == flush_of(old(self).pending()),
            final(self).key_state() == old(self).key_state(),
            final(self).pending() == next_composition(
                old(self).pending(),
                code,
                scan_code,
                *outcome is Dead,
            ),
    {
        let text = match outcome {
            KeyText::Text(units) => decode_text(units),
            _ => None,
        };
        let dead = match outcome {
            KeyText::Dead => true,
            _ => false,
        };
        let flush = match self.composition {
            Composition::Pending { code: c, scan_code: s } => {
                self.composition = Composition::Idle;
                Some((c, s))
            },
            Composition::Idle => {
                if dead && code != 0 {
                    self.composition = Composition::Pending { code, scan_code };
                }
                None
            },
        };
        Step { text, clear_dead: dead, flush }
    }

    fn press(&mut self, vk: usize)
        requires
            vk < 256,
        ensures
            final(self).key_state() == pressed(old(self).key_state(), vk),
            final(self).pending() == old(self).pending(),
    {
        let b = self.state[vk] | PRESSED;
        self.state[vk] = b;
    }

    fn release(&mut self, vk: usize)
        requires
            vk < 256,
        ensures
            final(self).key_state() == released(old(self).key_state(), vk),
            final(self).pending() == old(self).pending(),
    {
        let b = self.state[vk] & !PRESSED;
        self.state[vk] = b;
    }

    fn toggle(&mut self, vk: usize)
        requires
            vk < 256,
        ensures
            final(self).key_state() == toggled(old(self).key_state(), vk),
            final(self).pending() == old(self).pending(),
    {
        let b = self.state[vk] ^ TOGGLED;
        self.state[vk] = b;
    }

    /// Looks a key up in the built-in layout against the simulated
    /// key-state table, and runs the composition logic on the outcome.
    fn type_key(&mut self, code: u32) -> (r: Option<String>)
        ensures
            types_as(r, us_units(code, old(self).key_state())),
            final(self).key_state() == old(self).key_state(),
            final(self).pending() == next_composition(old(self).pending(), code, 0, false),
    {
        let units = us_layout_units(code, &self.state);
        let outcome = if units.len() == 0 {
            KeyText::NoChar
        } else {
            KeyText::Text(units)
        };
        assert(is_basic_plane(us_units(code, self.key_state())));
        let step = self.compose(code, 0, &outcome);
        step.text
    }
}

/// Simulating a keyboard without touching the platform's state.
pub trait KeyboardState {
    /// Changes the keyboard state as if this event happened, and returns the
    /// text that it typed.
    fn add(&mut self, event_type: &EventType) -> Option<String>;

    /// Releases shift and turns caps lock off.
    fn reset(&mut self);
}

impl KeyboardState for Keyboard {
    fn add(&mut self, event_type: &EventType) -> (r: Option<String>)
        ensures
            final(self).key_state() == state_after(old(self).key_state(), *event_type),
            match typed_code(*event_type) {
                Some(c) => types_as(r, us_units(c as u32, old(self).key_state()))
                    && final(self).pending() == next_composition(old(self).pending(), c as u32, 0, false),
                None => r is None && final(self).pending() == old(self).pending(),
            },
    {
        match event_type {
            EventType::KeyPress(key) => match key {
                Key::ShiftLeft => {
                    self.press(VK_SHIFT);
                    self.press(VK_LSHIFT);
                    None
                },
                Key::ShiftRight => {
                    self.press(VK_SHIFT);
                    self.press(VK_RSHIFT);
                    None
                },
                Key::CapsLock => {
                    self.toggle(VK_CAPITAL);
                    None
                },
                _ => match code_from_key(*key) {
                    Some(code) => self.type_key(code as u32),
                    None => None,
                },
            },
            EventType::KeyRelease(key) => match key {
                Key::ShiftLeft => {
                    self.release(VK_SHIFT);
                    self.release(VK_LSHIFT);
                    None
                },
                Key::ShiftRight => {
                    self.release(VK_SHIFT);
                    self.release(VK_RSHIFT);
                    None
                },
                _ => None,
            },
            _ => None,
        }
    }

    fn reset(&mut self)
        ensures
            final(self).key_state() == state_reset(old(self).key_state()),
            final(self).pending() == old(self).pending(),
    {
        self.state[VK_SHIFT] = 0;
        self.state[VK_CAPITAL] = 0;
    }
}


/// Pressing and then releasing the left shift key, from a state where shift is
/// up, leaves the text of every key as it was.
pub proof fn lemma_shift_release_restores(s: Seq<u8>, code: u32)
    requires
        s.len() == 256,
        !is_down(s, VK_SHIFT as int),
    ensures
        us_units(
            code,
            state_after(
                state_after(s, EventType::KeyPress(Key::ShiftLeft)),
                EventType::KeyRelease(Key::ShiftLeft),
            ),
        ) == us_units(code, s),
{
    let x = s[VK_SHIFT as int];
    assert(((x | 0x80u8) & !0x80u8) & 0x80u8 == 0u8) by (bit_vector);
}

/// With caps lock off, holding the left shift key turns a letter to upper case.
pub proof fn lemma_shift_upper_case(s: Seq<u8>, code: u32)
    requires
        s.len() == 256,
        !is_on(s, VK_CAPITAL as int),
        65 <= code <= 90,
    ensures
        us_units(code, state_after(s, EventType::KeyPress(Key::ShiftLeft))) == seq![code as u16],
{
    let x = s[VK_SHIFT as int];
    assert((x | 0x80u8) & 0x80u8 != 0u8) by (bit_vector);
}

/// Two full press and release cycles of caps lock restore the key-state
/// table exactly.
pub proof fn lemma_caps_lock_two_cycles(s: Seq<u8>)
    requires
        s.len() == 256,
    ensures
        state_after(
            state_after(
                state_after(
                    state_after(s, EventType::KeyPress(Key::CapsLock)),
                    EventType::KeyRelease(Key::CapsLock),
                ),
                EventType::KeyPress(Key::CapsLock),
            ),
            EventType::KeyRelease(Key::CapsLock),
        ) == s,
{
    let x = s[VK_CAPITAL as int];
    assert((x ^ 1u8) ^ 1u8 == x) by (bit_vector);
    assert(toggled(toggled(s, VK_CAPITAL), VK_CAPITAL) =~= s);
}

/// One press and release cycle of caps lock swaps the case of a letter typed
/// without shift.
pub proof fn lemma_caps_lock_swaps_case(s: Seq<u8>, code: u32)
    requires
        s.len() == 256,
        !is_down(s, VK_SHIFT as int),
        65 <= code <= 90,
    ensures
        us_units(code, s) == seq![if is_on(s, VK_CAPITAL as int) { code as u16 } else { (code + 32) as u16 }],
        us_units(
            code,
            state_after(
                state_after(s, EventType::KeyPress(Key::CapsLock)),
                EventType::KeyRelease(Key::CapsLock),
            ),
        ) == seq![if is_on(s, VK_CAPITAL as int) { (code + 32) as u16 } else { code as u16 }],
{
    let x = s[VK_CAPITAL as int];
    assert((x ^ 1u8) & 1u8 != 0u8 <==> x & 1u8 == 0u8) by (bit_vector);
}

/// A reset after the left shift key went down, without its release, makes a
/// letter type in lower case: reset clears shift and caps lock.
pub proof fn lemma_reset_after_shift_press(s: Seq<u8>, code: u32)
    requires
        s.len() == 256,
        65 <= code <= 90,
    ensures
        us_units(code, state_reset(state_after(s, EventType::KeyPress(Key::ShiftLeft)))) == seq![
            (code + 32) as u16,
        ],
{
    assert(0u8 & 0x80u8 == 0u8 && 0u8 & 1u8 == 0u8) by (bit_vector);
}

/// A dead key followed by another keystroke: the first yields no text and
/// leaves its composition pending; the second yields its own text and asks to
/// replay the dead key, after which nothing is pending.
pub proof fn lemma_dead_key_resolves_on_next(code: u32, scan_code: u32, code2: u32, scan_code2: u32, dead2: bool)
    requires
        code != 0,
    ensures
        flush_of(next_composition(Composition::Idle, code, scan_code, true)) == Some((code, scan_code)),
        next_composition(next_composition(Composition::Idle, code, scan_code, true), code2, scan_code2, dead2)
            == Composition::Idle,
        key_text_of(KeyText::Dead) is None,
{
}

} // verus!

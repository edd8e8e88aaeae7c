use win_binder::EventType;
use win_binder::Key;
use win_binder::Keyboard;
use win_binder::KeyboardState;
use win_binder::KeyText;

#[test]
fn test_keyboard_state() {
    // S
    let mut keyboard = Keyboard::new().unwrap();
    let char_s = keyboard.add(&EventType::KeyPress(Key::KeyS)).unwrap();
    assert_eq!(
        char_s,
        "s".to_string(),
        "This test should pass only on Qwerty layout !"
    );
    let n = keyboard.add(&EventType::KeyRelease(Key::KeyS));
    assert_eq!(n, None);

    // Shift + S
    keyboard.add(&EventType::KeyPress(Key::ShiftLeft));
    let char_s = keyboard.add(&EventType::KeyPress(Key::KeyS)).unwrap();
    assert_eq!(char_s, "S".to_string());
    let n = keyboard.add(&EventType::KeyRelease(Key::KeyS));
    assert_eq!(n, None);
    keyboard.add(&EventType::KeyRelease(Key::ShiftLeft));

    // Reset
    keyboard.add(&EventType::KeyPress(Key::ShiftLeft));
    keyboard.reset();
    let char_s = keyboard.add(&EventType::KeyPress(Key::KeyS)).unwrap();
    assert_eq!(char_s, "s".to_string());
    let n = keyboard.add(&EventType::KeyRelease(Key::KeyS));
    assert_eq!(n, None);
    keyboard.add(&EventType::KeyRelease(Key::ShiftLeft));

    // CapsLock
    let char_c = keyboard.add(&EventType::KeyPress(Key::KeyC)).unwrap();
    assert_eq!(char_c, "c".to_string());
    keyboard.add(&EventType::KeyPress(Key::CapsLock));
    keyboard.add(&EventType::KeyRelease(Key::CapsLock));
    let char_c = keyboard.add(&EventType::KeyPress(Key::KeyC)).unwrap();
    assert_eq!(char_c, "C".to_string());
    let n = keyboard.add(&EventType::KeyRelease(Key::KeyS));
    assert_eq!(n, None);
    keyboard.add(&EventType::KeyPress(Key::CapsLock));
    keyboard.add(&EventType::KeyRelease(Key::CapsLock));
    let char_c = keyboard.add(&EventType::KeyPress(Key::KeyC)).unwrap();
    assert_eq!(char_c, "c".to_string());
    let n = keyboard.add(&EventType::KeyRelease(Key::KeyS));
    assert_eq!(n, None);
}

#[test]
fn fresh_keyboard_types_lower_case_s() {
    let mut keyboard = Keyboard::new().unwrap();
    assert_eq!(keyboard.add(&EventType::KeyPress(Key::KeyS)), Some("s".to_string()));
    assert_eq!(keyboard.add(&EventType::KeyRelease(Key::KeyS)), None);
}

#[test]
fn shift_then_release_restores_lower_case() {
    let mut keyboard = Keyboard::new().unwrap();
    assert_eq!(keyboard.add(&EventType::KeyPress(Key::ShiftLeft)), None);
    assert_eq!(keyboard.add(&EventType::KeyPress(Key::KeyS)), Some("S".to_string()));
    assert_eq!(keyboard.add(&EventType::KeyRelease(Key::ShiftLeft)), None);
    assert_eq!(keyboard.add(&EventType::KeyPress(Key::KeyS)), Some("s".to_string()));
}

#[test]
fn right_shift_gives_symbols() {
    let mut keyboard = Keyboard::new().unwrap();
    keyboard.add(&EventType::KeyPress(Key::ShiftRight));
    assert_eq!(keyboard.add(&EventType::KeyPress(Key::Num1)), Some("!".to_string()));
    assert_eq!(keyboard.add(&EventType::KeyPress(Key::SemiColon)), Some(":".to_string()));
    keyboard.add(&EventType::KeyRelease(Key::ShiftRight));
    assert_eq!(keyboard.add(&EventType::KeyPress(Key::Num1)), Some("1".to_string()));
    assert_eq!(keyboard.add(&EventType::KeyPress(Key::SemiColon)), Some(";".to_string()));
}

#[test]
fn caps_lock_cycles_alternate_case() {
    let mut keyboard = Keyboard::new().unwrap();
    assert_eq!(keyboard.add(&EventType::KeyPress(Key::KeyC)), Some("c".to_string()));
    for expected in ["C", "c", "C", "c"] {
        assert_eq!(keyboard.add(&EventType::KeyPress(Key::CapsLock)), None);
        assert_eq!(keyboard.add(&EventType::KeyRelease(Key::CapsLock)), None);
        assert_eq!(keyboard.add(&EventType::KeyPress(Key::KeyC)), Some(expected.to_string()));
    }
}

#[test]
fn caps_lock_and_shift_cancel_on_letters() {
    let mut keyboard = Keyboard::new().unwrap();
    keyboard.add(&EventType::KeyPress(Key::CapsLock));
    keyboard.add(&EventType::KeyPress(Key::ShiftLeft));
    assert_eq!(keyboard.add(&EventType::KeyPress(Key::KeyA)), Some("a".to_string()));
}

#[test]
fn reset_clears_held_shift() {
    let mut keyboard = Keyboard::new().unwrap();
    keyboard.add(&EventType::KeyPress(Key::ShiftLeft));
    keyboard.reset();
    assert_eq!(keyboard.add(&EventType::KeyPress(Key::KeyS)), Some("s".to_string()));
}

#[test]
fn non_printing_and_mouse_events_give_nothing() {
    let mut keyboard = Keyboard::new().unwrap();
    assert_eq!(keyboard.add(&EventType::KeyPress(Key::F5)), None);
    assert_eq!(keyboard.add(&EventType::KeyPress(Key::Function)), None);
    assert_eq!(keyboard.add(&EventType::KeyPress(Key::Unknown(0x1_0000))), None);
    assert_eq!(keyboard.add(&EventType::MouseMove { x: 3, y: 4 }), None);
    assert_eq!(keyboard.add(&EventType::Wheel { delta_x: 0, delta_y: 1 }), None);
    assert_eq!(keyboard.add(&EventType::KeyPress(Key::Space)), Some(" ".to_string()));
}

#[test]
fn keypad_follows_num_lock() {
    let mut keyboard = Keyboard::new().unwrap();
    assert_eq!(keyboard.add(&EventType::KeyPress(Key::Kp7)), None);
    assert_eq!(keyboard.add(&EventType::KeyPress(Key::KpPlus)), Some("+".to_string()));
    let mut state = keyboard.key_state_table();
    state[144] = 1;
    keyboard.set_key_state(state);
    assert_eq!(keyboard.add(&EventType::KeyPress(Key::Kp7)), Some("7".to_string()));
}

#[test]
fn dead_key_resolves_on_the_next_keystroke() {
    let mut keyboard = Keyboard::new().unwrap();
    let first = keyboard.compose(222, 40, &KeyText::Dead);
    assert_eq!(first.text, None);
    assert!(first.clear_dead);
    assert_eq!(first.flush, None);
    let second = keyboard.compose(69, 18, &KeyText::Text(vec![0xe9]));
    assert_eq!(second.text, Some("\u{e9}".to_string()));
    assert!(!second.clear_dead);
    assert_eq!(second.flush, Some((222, 40)));
    let third = keyboard.compose(69, 18, &KeyText::Text(vec![0x65]));
    assert_eq!(third.text, Some("e".to_string()));
    assert_eq!(third.flush, None);
}

#[test]
fn two_dead_keys_in_a_row_resolve_the_first_only() {
    let mut keyboard = Keyboard::new().unwrap();
    keyboard.compose(222, 40, &KeyText::Dead);
    let second = keyboard.compose(192, 41, &KeyText::Dead);
    assert!(second.clear_dead);
    assert_eq!(second.flush, Some((222, 40)));
    let third = keyboard.compose(65, 30, &KeyText::NoChar);
    assert_eq!(third.flush, None);
    assert_eq!(third.text, None);
}

#[test]
fn dead_key_with_code_zero_is_not_kept() {
    let mut keyboard = Keyboard::new().unwrap();
    keyboard.compose(0, 0, &KeyText::Dead);
    let next = keyboard.compose(65, 30, &KeyText::NoChar);
    assert_eq!(next.flush, None);
}

#[test]
fn key_text_from_primitive_length() {
    let buffer = [0x41u16, 0x42, 0x43, 0];
    assert_eq!(KeyText::from_length(0, &buffer), KeyText::NoChar);
    assert_eq!(KeyText::from_length(-1, &buffer), KeyText::Dead);
    assert_eq!(KeyText::from_length(-2, &buffer), KeyText::Dead);
    assert_eq!(KeyText::from_length(2, &buffer), KeyText::Text(vec![0x41, 0x42]));
}

#[test]
fn utf16_decoding() {
    assert_eq!(win_binder::decode_text(&vec![0x68, 0x69]), Some("hi".to_string()));
    assert_eq!(win_binder::decode_text(&vec![0xd83d, 0xde00]), Some("\u{1f600}".to_string()));
    assert_eq!(win_binder::decode_text(&vec![0xd800]), None);
}

#[test]
fn layout_units_of_letters() {
    let state = [0u8; 256];
    assert_eq!(win_binder::us_layout_units(65, &state), vec![97]);
    assert_eq!(win_binder::us_layout_units(112, &state), Vec::<u16>::new());
}

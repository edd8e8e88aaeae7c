use win_binder::convert;
use win_binder::record_kind;
use win_binder::Button;
use win_binder::EventType;
use win_binder::Key;
use win_binder::KeyboardRecord;
use win_binder::MouseRecord;
use win_binder::RawRecord;
use win_binder::RecordKind;
use win_binder::HIWORD;

fn mouse(mouse_data: u32) -> RawRecord {
    RawRecord::Mouse(MouseRecord { x: 0, y: 0, mouse_data })
}

fn keyboard(vk_code: u32) -> RawRecord {
    RawRecord::Keyboard(KeyboardRecord { vk_code, scan_code: 31 })
}

#[test]
fn wheel_two_notches_up() {
    assert_eq!(
        convert(0x020A, &mouse(240 << 16)),
        Some(EventType::Wheel { delta_x: 0, delta_y: 2 })
    );
}

#[test]
fn wheel_one_notch_down() {
    let raw = ((-120i16) as u16 as u32) << 16;
    assert_eq!(convert(0x020A, &mouse(raw)), Some(EventType::Wheel { delta_x: 0, delta_y: -1 }));
}

#[test]
fn horizontal_wheel_truncates_toward_zero() {
    let raw = ((-250i16) as u16 as u32) << 16;
    assert_eq!(convert(0x020E, &mouse(raw)), Some(EventType::Wheel { delta_x: -2, delta_y: 0 }));
    assert_eq!(convert(0x020E, &mouse(119 << 16)), Some(EventType::Wheel { delta_x: 0, delta_y: 0 }));
}

#[test]
fn key_messages_decode_with_system_variants() {
    assert_eq!(convert(0x0100, &keyboard(83)), Some(EventType::KeyPress(Key::KeyS)));
    assert_eq!(convert(0x0104, &keyboard(164)), Some(EventType::KeyPress(Key::Alt)));
    assert_eq!(convert(0x0101, &keyboard(160)), Some(EventType::KeyRelease(Key::ShiftLeft)));
    assert_eq!(convert(0x0105, &keyboard(13)), Some(EventType::KeyRelease(Key::Return)));
}

#[test]
fn unmapped_key_code_is_unknown() {
    assert_eq!(convert(0x0100, &keyboard(16)), Some(EventType::KeyPress(Key::Unknown(16))));
    assert_eq!(
        convert(0x0100, &keyboard(0x1_0041)),
        Some(EventType::KeyPress(Key::KeyA))
    );
}

#[test]
fn buttons_decode() {
    assert_eq!(convert(0x0201, &mouse(0)), Some(EventType::ButtonPress(Button::Left)));
    assert_eq!(convert(0x0202, &mouse(0)), Some(EventType::ButtonRelease(Button::Left)));
    assert_eq!(convert(0x0204, &mouse(0)), Some(EventType::ButtonPress(Button::Right)));
    assert_eq!(convert(0x0205, &mouse(0)), Some(EventType::ButtonRelease(Button::Right)));
    assert_eq!(convert(0x0207, &mouse(0)), Some(EventType::ButtonPress(Button::Middle)));
    assert_eq!(convert(0x0208, &mouse(0)), Some(EventType::ButtonRelease(Button::Middle)));
}

#[test]
fn extended_buttons_carry_the_low_byte_of_the_high_word() {
    assert_eq!(convert(0x020B, &mouse(2 << 16)), Some(EventType::ButtonPress(Button::Unknown(2))));
    assert_eq!(
        convert(0x020C, &mouse(0x0301_0000)),
        Some(EventType::ButtonRelease(Button::Unknown(1)))
    );
}

#[test]
fn mouse_move_keeps_coordinates() {
    let record = RawRecord::Mouse(MouseRecord { x: -5, y: 1080, mouse_data: 0 });
    assert_eq!(convert(0x0200, &record), Some(EventType::MouseMove { x: -5, y: 1080 }));
}

#[test]
fn unknown_dispatch_codes_and_mismatched_records_give_none() {
    assert_eq!(convert(0x0300, &mouse(0)), None);
    assert_eq!(convert(usize::MAX, &keyboard(65)), None);
    assert_eq!(convert(0x0100, &mouse(0)), None);
    assert_eq!(convert(0x0201, &keyboard(65)), None);
}

#[test]
fn garbage_fields_never_crash() {
    for param in [0x0100usize, 0x0101, 0x0104, 0x0105, 0x0200, 0x0201, 0x020A, 0x020B, 0x020C, 0x020E] {
        for data in [0u32, u32::MAX, 0x8000_0000, 0x7fff_ffff] {
            let m = RawRecord::Mouse(MouseRecord { x: i32::MIN, y: i32::MAX, mouse_data: data });
            let k = RawRecord::Keyboard(KeyboardRecord { vk_code: data, scan_code: data });
            let _ = convert(param, &m);
            let _ = convert(param, &k);
        }
    }
    let extreme = ((i16::MIN) as u16 as u32) << 16;
    assert_eq!(convert(0x020A, &mouse(extreme)), Some(EventType::Wheel { delta_x: 0, delta_y: -273 }));
}

#[test]
fn record_kinds() {
    assert_eq!(record_kind(0x0100), Some(RecordKind::Keyboard));
    assert_eq!(record_kind(0x0105), Some(RecordKind::Keyboard));
    assert_eq!(record_kind(0x020E), Some(RecordKind::Mouse));
    assert_eq!(record_kind(0x0102), None);
}

#[test]
fn high_word() {
    assert_eq!(HIWORD(0x1234_5678), 0x1234);
    assert_eq!(HIWORD(0xffff), 0);
}

#[test]
fn record_field_getters() {
    let k = KeyboardRecord { vk_code: 65, scan_code: 30 };
    assert_eq!(win_binder::get_code(&k), 65);
    assert_eq!(win_binder::get_scan_code(&k), 30);
    let m = MouseRecord { x: 7, y: 9, mouse_data: 0x0078_0000 };
    assert_eq!(win_binder::get_point(&m), (7, 9));
    assert_eq!(win_binder::get_delta(&m), 120);
    assert_eq!(win_binder::get_button_code(&m), 120);
}

#[test]
fn key_codes_round_trip() {
    for code in 0..=u16::MAX {
        assert_eq!(win_binder::code_from_key(win_binder::key_from_code(code)), Some(code));
    }
    assert_eq!(win_binder::code_from_key(Key::KpReturn), None);
    assert_eq!(win_binder::code_from_key(Key::Unknown(70000)), None);
    assert_eq!(win_binder::key_from_code(20), Key::CapsLock);
}

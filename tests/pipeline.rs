use std::time::SystemTime;
use win_binder::first_setup_action;
use win_binder::grab_propagation;
use win_binder::hook_event;
use win_binder::next_setup_action;
use win_binder::plan_simulation;
use win_binder::screen_dimension;
use win_binder::wants_name;
use win_binder::Button;
use win_binder::DisplayError;
use win_binder::Event;
use win_binder::EventType;
use win_binder::GrabError;
use win_binder::HookError;
use win_binder::HookKind;
use win_binder::Key;
use win_binder::KeyboardRecord;
use win_binder::ListenError;
use win_binder::MouseAction;
use win_binder::Propagation;
use win_binder::RawRecord;
use win_binder::SetupAction;
use win_binder::SimulateError;
use win_binder::SyntheticInput;

#[test]
fn keyboard_hook_failure_aborts_before_the_mouse_hook() {
    assert_eq!(first_setup_action(), SetupAction::Install(HookKind::Keyboard));
    let step = next_setup_action(HookKind::Keyboard, Err(5));
    assert_eq!(step, SetupAction::Abort { error: HookError::Key(5), remove_keyboard_hook: false });
    match step {
        SetupAction::Abort { error, .. } => {
            assert!(matches!(ListenError::from(error), ListenError::KeyHookError(5)));
            assert!(matches!(GrabError::from(error), GrabError::KeyHookError(5)));
        }
        _ => panic!("startup went on"),
    }
}

#[test]
fn mouse_hook_failure_removes_the_keyboard_hook() {
    assert_eq!(next_setup_action(HookKind::Keyboard, Ok(())), SetupAction::Install(HookKind::Mouse));
    assert_eq!(
        next_setup_action(HookKind::Mouse, Err(1428)),
        SetupAction::Abort { error: HookError::Mouse(1428), remove_keyboard_hook: true }
    );
    assert!(matches!(ListenError::from(HookError::Mouse(1428)), ListenError::MouseHookError(1428)));
    assert_eq!(next_setup_action(HookKind::Mouse, Ok(())), SetupAction::RunMessageLoop);
}

#[test]
fn hook_decodes_live_actions_only() {
    let record = RawRecord::Keyboard(KeyboardRecord { vk_code: 83, scan_code: 31 });
    assert_eq!(hook_event(0, 0x0100, &record), Some(EventType::KeyPress(Key::KeyS)));
    assert_eq!(hook_event(3, 0x0100, &record), None);
    assert_eq!(hook_event(-1, 0x0100, &record), None);
}

#[test]
fn only_key_presses_want_a_name() {
    assert!(wants_name(&EventType::KeyPress(Key::KeyA)));
    assert!(!wants_name(&EventType::KeyRelease(Key::KeyA)));
    assert!(!wants_name(&EventType::ButtonPress(Button::Left)));
}

#[test]
fn grab_reply_decides_propagation() {
    let event = Event::assemble(EventType::KeyPress(Key::KeyA), SystemTime::now(), None);
    assert_eq!(grab_propagation(&None), Propagation::Consume);
    assert_eq!(grab_propagation(&Some(event)), Propagation::Forward);
}

#[test]
fn names_only_stay_on_key_presses() {
    let now = SystemTime::now();
    let press = Event::assemble(EventType::KeyPress(Key::KeyA), now, Some("a".to_string()));
    assert_eq!(press.name, Some("a".to_string()));
    assert_eq!(press.time, now);
    let release = Event::assemble(EventType::KeyRelease(Key::KeyA), now, Some("a".to_string()));
    assert_eq!(release.name, None);
    assert_eq!(release.event_type, EventType::KeyRelease(Key::KeyA));
}

#[test]
fn error_conversions() {
    assert!(matches!(GrabError::from(SimulateError), GrabError::SimulateError));
    let io = std::io::Error::new(std::io::ErrorKind::Other, "x");
    assert!(matches!(GrabError::from(io), GrabError::IoError(_)));
    assert_eq!(SimulateError.message(), "Could not simulate event");
}

#[test]
fn screen_dimensions() {
    assert_eq!(screen_dimension(1920).unwrap(), 1920);
    assert_eq!(screen_dimension(0).unwrap(), 0);
    assert!(matches!(screen_dimension(-1), Err(DisplayError::ConversionError)));
}

#[test]
fn simulate_keys_and_buttons() {
    assert_eq!(
        plan_simulation(&EventType::KeyPress(Key::KeyA), 0, 0).unwrap(),
        vec![SyntheticInput::Keyboard { vk: 65, key_up: false }]
    );
    assert_eq!(
        plan_simulation(&EventType::KeyRelease(Key::Return), 0, 0).unwrap(),
        vec![SyntheticInput::Keyboard { vk: 13, key_up: true }]
    );
    assert!(plan_simulation(&EventType::KeyPress(Key::Function), 0, 0).is_err());
    assert_eq!(
        plan_simulation(&EventType::ButtonRelease(Button::Unknown(2)), 0, 0).unwrap(),
        vec![SyntheticInput::Mouse(MouseAction::XUp(2))]
    );
}

#[test]
fn simulate_wheel() {
    assert_eq!(
        plan_simulation(&EventType::Wheel { delta_x: 1, delta_y: -1 }, 0, 0).unwrap(),
        vec![
            SyntheticInput::Mouse(MouseAction::HWheel(120)),
            SyntheticInput::Mouse(MouseAction::Wheel(0xffff_ff88)),
        ]
    );
    assert_eq!(plan_simulation(&EventType::Wheel { delta_x: 0, delta_y: 0 }, 0, 0).unwrap(), vec![]);
    assert!(plan_simulation(&EventType::Wheel { delta_x: 0, delta_y: 300 }, 0, 0).is_err());
}

#[test]
fn simulate_mouse_move() {
    assert_eq!(
        plan_simulation(&EventType::MouseMove { x: 99, y: 49 }, 1000, 500).unwrap(),
        vec![SyntheticInput::Mouse(MouseAction::MoveAbsolute { dx: 6553, dy: 6553 })]
    );
    assert_eq!(
        plan_simulation(&EventType::MouseMove { x: -3, y: 0 }, 100, 100).unwrap(),
        vec![SyntheticInput::Mouse(MouseAction::MoveAbsolute { dx: -1310, dy: 655 })]
    );
    assert!(plan_simulation(&EventType::MouseMove { x: 1, y: 1 }, 0, 100).is_err());
    assert!(plan_simulation(&EventType::MouseMove { x: 40000, y: 1 }, 100, 100).is_err());
}

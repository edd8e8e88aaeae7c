//! Keyboard and mouse capture: the event model, the decoder for low-level hook
//! records, the keyboard state engine that turns keystrokes into text, and the
//! decisions of the hook pipeline.
mod decode;
mod event;
mod hook;
mod inject;
mod keyboard;
mod keycodes;
mod layout;

pub use crate::event::Button;
pub use crate::event::DisplayError;
pub use crate::event::Event;
pub use crate::event::EventType;
pub use crate::event::GrabError;
pub use crate::event::Key;
pub use crate::event::ListenError;
pub use crate::event::SimulateError;
pub use crate::keycodes::code_from_key;
pub use crate::keycodes::key_from_code;
pub use crate::decode::convert;
pub use crate::decode::get_button_code;
pub use crate::decode::get_code;
pub use crate::decode::get_delta;
pub use crate::decode::get_point;
pub use crate::decode::get_scan_code;
pub use crate::decode::record_kind;
pub use crate::decode::KeyboardRecord;
pub use crate::decode::MouseRecord;
pub use crate::decode::RawRecord;
pub use crate::decode::RecordKind;
pub use crate::decode::HIWORD;
pub use crate::layout::us_layout_units;
pub use crate::keyboard::decode_text;
pub use crate::keyboard::Composition;
pub use crate::keyboard::Keyboard;
pub use crate::keyboard::KeyboardState;
pub use crate::keyboard::Step;
pub use crate::keyboard::KeyText;
pub use crate::hook::first_setup_action;
pub use crate::hook::grab_propagation;
pub use crate::hook::hook_event;
pub use crate::hook::next_setup_action;
pub use crate::hook::wants_name;
pub use crate::hook::HookError;
pub use crate::hook::HookKind;
pub use crate::hook::Propagation;
pub use crate::hook::SetupAction;
pub use crate::inject::plan_simulation;
pub use crate::inject::screen_dimension;
pub use crate::inject::MouseAction;
pub use crate::inject::SyntheticInput;

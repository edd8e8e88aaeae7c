use vstd::prelude::*;
use crate::decode::convert;
use crate::decode::decoded;
use crate::decode::RawRecord;
use crate::event::Event;
use crate::event::EventType;
use crate::event::GrabError;
use crate::event::ListenError;

verus! {

/// The hook code that marks a live input action (not a peek).
pub const HC_ACTION: i32 = 0;

/// A hook could not be installed; carries the platform error code.
#[derive(Debug, Copy, Clone, PartialEq, Eq, Structural)]
pub enum HookError {
    Mouse(u32),
    Key(u32),
}

/// The listening session's error for a hook failure.
pub open spec fn listen_error_of(error: HookError) -> ListenError {
    match error {
        HookError::Mouse(code) => ListenError::MouseHookError(code),
        HookError::Key(code) => ListenError::KeyHookError(code),
    }
}

/// The grabbing session's error for a hook failure.
pub open spec fn grab_error_of(error: HookError) -> GrabError {
    match error {
        HookError::Mouse(code) => GrabError::MouseHookError(code),
        HookError::Key(code) => GrabError::KeyHookError(code),
    }
}

impl From<HookError> for ListenError {
    fn from(error: HookError) -> (r: ListenError)
        ensures
            r == listen_error_of(error),
    {
        match error {
            HookError::Mouse(code) => ListenError::MouseHookError(code),
            HookError::Key(code) => ListenError::KeyHookError(code),
        }
    }
}

impl vstd::std_specs::convert::FromSpecImpl<HookError> for ListenError {
    open spec fn obeys_from_spec() -> bool {
        true
    }

    open spec fn from_spec(error: HookError) -> ListenError {
        listen_error_of(error)
    }
}

impl From<HookError> for GrabError {
    fn from(error: HookError) -> (r: GrabError)
        ensures
            r == grab_error_of(error),
    {
        match error {
            HookError::Mouse(code) => GrabError::MouseHookError(code),
            HookError::Key(code) => GrabError::KeyHookError(code),
        }
    }
}

impl vstd::std_specs::convert::FromSpecImpl<HookError> for GrabError {
    open spec fn obeys_from_spec() -> bool {
        true
    }

    open spec fn from_spec(error: HookError) -> GrabError {
        grab_error_of(error)
    }
}

/// The two low-level hooks of a session.
#[derive(Debug, Copy, Clone, PartialEq, Eq, Structural)]
pub enum HookKind {
    Keyboard,
    Mouse,
}

/// What the session's startup does next.
#[derive(Debug, Copy, Clone, PartialEq, Eq, Structural)]
pub enum SetupAction {
    /// Install this hook.
    Install(HookKind),
    /// Both hooks are in place: enter the blocking message loop.
    RunMessageLoop,
    /// Stop with this error, after removing the keyboard hook where it is in
    /// place, so that no partial session is left running.
    Abort { error: HookError, remove_keyboard_hook: bool },
}

/// The startup step that follows an installation attempt: the keyboard hook
/// first, then the mouse hook, then the message loop; the first failure ends
/// the startup with the error of the hook that failed.
pub open spec fn setup_after(installed: HookKind, outcome: Result<(), u32>) -> SetupAction {
    match (installed, outcome) {
        (HookKind::Keyboard, Ok(())) => SetupAction::Install(HookKind::Mouse),
        (HookKind::Keyboard, Err(code)) => SetupAction::Abort {
            error: HookError::Key(code),
            remove_keyboard_hook: false,
        },
        (HookKind::Mouse, Ok(())) => SetupAction::RunMessageLoop,
        (HookKind::Mouse, Err(code)) => SetupAction::Abort {
            error: HookError::Mouse(code),
            remove_keyboard_hook: true,
        },
    }
}

/// The first startup step: install the keyboard hook.
pub fn first_setup_action() -> (r: SetupAction)
    ensures
        r == SetupAction::Install(HookKind::Keyboard),
{
    SetupAction::Install(HookKind::Keyboard)
}

/// The startup step after an attempt to install a hook; `outcome` carries the
/// platform error code of a failure.
pub fn next_setup_action(installed: HookKind, outcome: Result<(), u32>) -> (r: SetupAction)
    ensures
        r == setup_after(installed, outcome),
{
    match installed {
        HookKind::Keyboard => match outcome {
            Ok(()) => SetupAction::Install(HookKind::Mouse),
            Err(code) => SetupAction::Abort { error: HookError::Key(code), remove_keyboard_hook: false },
        },
        HookKind::Mouse => match outcome {
            Ok(()) => SetupAction::RunMessageLoop,
            Err(code) => SetupAction::Abort { error: HookError::Mouse(code), remove_keyboard_hook: true },
        },
    }
}

/// When the keyboard hook cannot be installed, the mouse hook is not
/// attempted and the error names the keyboard hook with the platform code.
pub proof fn lemma_keyboard_hook_failure_stops(code: u32)
    ensures
        !(setup_after(HookKind::Keyboard, Err(code)) is Install),
        !(setup_after(HookKind::Keyboard, Err(code)) is RunMessageLoop),
        setup_after(HookKind::Keyboard, Err(code)) matches SetupAction::Abort { error, .. }
            && error == HookError::Key(code)
            && listen_error_of(error) == ListenError::KeyHookError(code)
            && grab_error_of(error) == GrabError::KeyHookError(code),
{
}

/// The message loop is entered only after both hooks were installed.
pub proof fn lemma_loop_needs_both_hooks(installed: HookKind, outcome: Result<(), u32>)
    ensures
        setup_after(installed, outcome) is RunMessageLoop <==> (installed == HookKind::Mouse
            && outcome is Ok),
        setup_after(installed, outcome) is Install ==> installed == HookKind::Keyboard,
{
}

/// What the hook callback decodes: events only for a live action, as the
/// decoder gives them.
pub fn hook_event(code: i32, param: usize, record: &RawRecord) -> (r: Option<EventType>)
    ensures
        r == (if code == HC_ACTION { decoded(param, *record) } else { None }),
{
    if code == HC_ACTION {
        convert(param, record)
    } else {
        None
    }
}

/// Whether the keyboard state engine is asked for the text of an event: only
/// for a key press.
pub fn wants_name(event_type: &EventType) -> (r: bool)
    ensures
        r == (*event_type is KeyPress),
{
    match event_type {
        EventType::KeyPress(_) => true,
        _ => false,
    }
}

/// Whether the input as received goes on to the rest of the system.
#[derive(Debug, Copy, Clone, PartialEq, Eq, Structural)]
pub enum Propagation {
    /// Hand the input to the next hook in the chain.
    Forward,
    /// Stop the input here.
    Consume,
}

/// In grab mode, a subscriber's reply of no event suppresses the input; any
/// event in the reply lets the input as received through unchanged.
pub fn grab_propagation(reply: &Option<Event>) -> (r: Propagation)
    ensures
        r == (if reply is None { Propagation::Consume } else { Propagation::Forward }),
{
    match reply {
        None => Propagation::Consume,
        Some(_) => Propagation::Forward,
    }
}

} // verus!

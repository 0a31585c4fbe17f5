//! Tray dispatcher: routes tray-icon interactions to window toggles.
//!
//! A left-button release toggles the quick picker, a right-button release
//! toggles the main window, and every other tray event is ignored.

use vstd::prelude::*;

use crate::window::WindowKind;

verus! {

/// Which mouse button a tray click reported.
#[derive(Clone, Copy, PartialEq, Eq, Structural, Debug)]
pub enum TrayButton {
    LeftButton,
    RightButton,
    OtherButton,
}

/// Whether the button was pressed down or released.
#[derive(Clone, Copy, PartialEq, Eq, Structural, Debug)]
pub enum TrayButtonState {
    Down,
    Up,
}

/// A tray-icon interaction as the GUI runtime reports it: a click with its
/// button and press state, or any other kind of tray event (double click,
/// drag, pointer motion, ...).
#[derive(Clone, Copy, PartialEq, Eq, Structural, Debug)]
pub enum TrayEvent {
    Click { button: TrayButton, state: TrayButtonState },
    OtherEvent,
}

/// What the shell must do in response to a tray event.
#[derive(Clone, Copy, PartialEq, Eq, Structural, Debug)]
pub enum TrayAction {
    /// Toggle the named window, off the event-delivery thread, logging any
    /// failure instead of propagating it.
    Toggle(WindowKind),
    /// Ignore the event.
    Ignore,
}

/// The dispatch rule: only button releases act, the left button on the
/// quick picker, the right button on the main window.
pub open spec fn spec_dispatch(e: TrayEvent) -> TrayAction {
    match e {
        TrayEvent::Click { button: TrayButton::LeftButton, state: TrayButtonState::Up } =>
            TrayAction::Toggle(WindowKind::QuickPicker),
        TrayEvent::Click { button: TrayButton::RightButton, state: TrayButtonState::Up } =>
            TrayAction::Toggle(WindowKind::Main),
        _ => TrayAction::Ignore,
    }
}

/// Decide what to do with a tray event.
pub fn dispatch(e: TrayEvent) -> (a: TrayAction)
    ensures
        a == spec_dispatch(e),
{
    match e {
        TrayEvent::Click { button: TrayButton::LeftButton, state: TrayButtonState::Up } =>
            TrayAction::Toggle(WindowKind::QuickPicker),
        TrayEvent::Click { button: TrayButton::RightButton, state: TrayButtonState::Up } =>
            TrayAction::Toggle(WindowKind::Main),
        _ => TrayAction::Ignore,
    }
}

/// No press, drag or other non-release event ever toggles a window.
pub proof fn lemma_only_releases_act(e: TrayEvent)
    requires
        forall|b: TrayButton| e != (TrayEvent::Click { button: b, state: TrayButtonState::Up }),
    ensures
        spec_dispatch(e) == TrayAction::Ignore,
{
    match e {
        TrayEvent::Click { button, state } => {
            assert(e != (TrayEvent::Click { button, state: TrayButtonState::Up }));
        }
        TrayEvent::OtherEvent => {
        }
    }
}

} // verus!

//! Window toggle controller: the decision logic for the two named windows.
//!
//! The GUI runtime owns the windows; this module decides, from what the
//! caller observed (does the window exist, is it visible), which action the
//! runtime must perform, and models how that action changes the window's
//! state. The quick-picker window is created lazily with a fixed
//! configuration; the main window is never created here.

use vstd::prelude::*;

verus! {

/// The two windows this controller knows.
#[derive(Clone, Copy, PartialEq, Eq, Structural, Debug)]
pub enum WindowKind {
    Main,
    QuickPicker,
}

/// What the caller observed of a window just before toggling.
#[derive(Clone, Copy, PartialEq, Eq, Structural, Debug)]
pub struct WindowState {
    pub exists: bool,
    pub visible: bool,
    pub focused: bool,
}

/// What the GUI runtime must do to a window.
#[derive(Clone, Copy, PartialEq, Eq, Structural, Debug)]
pub enum ToggleAction {
    /// Build the quick-picker window with its fixed configuration, then
    /// focus it.
    CreateAndFocus,
    /// Hide the window.
    Hide,
    /// Show the window, then focus it.
    ShowAndFocus,
    /// Do nothing (toggling an absent main window succeeds as a no-op).
    NoAction,
}

/// The toggle decision: hide a visible window, show-and-focus a hidden one,
/// create the quick picker when absent, and leave an absent main window
/// alone.
pub open spec fn spec_toggle_action(kind: WindowKind, s: WindowState) -> ToggleAction {
    if s.exists {
        if s.visible {
            ToggleAction::Hide
        } else {
            ToggleAction::ShowAndFocus
        }
    } else {
        if kind == WindowKind::QuickPicker {
            ToggleAction::CreateAndFocus
        } else {
            ToggleAction::NoAction
        }
    }
}

pub fn toggle_action(kind: WindowKind, s: WindowState) -> (a: ToggleAction)
    ensures
        a == spec_toggle_action(kind, s),
{
    if s.exists {
        if s.visible {
            ToggleAction::Hide
        } else {
            ToggleAction::ShowAndFocus
        }
    } else {
        match kind {
            WindowKind::QuickPicker => ToggleAction::CreateAndFocus,
            WindowKind::Main => ToggleAction::NoAction,
        }
    }
}

/// How each action changes a window's state, as the GUI runtime performs
/// it: hiding removes visibility and focus, showing and creating make the
/// window visible and focused, and no action changes nothing.
pub open spec fn spec_apply_action(s: WindowState, a: ToggleAction) -> WindowState {
    match a {
        ToggleAction::CreateAndFocus => WindowState { exists: true, visible: true, focused: true },
        ToggleAction::Hide => WindowState { exists: s.exists, visible: false, focused: false },
        ToggleAction::ShowAndFocus => WindowState {
            exists: s.exists,
            visible: true,
            focused: true,
        },
        ToggleAction::NoAction => s,
    }
}

pub fn apply_action(s: WindowState, a: ToggleAction) -> (r: WindowState)
    ensures
        r == spec_apply_action(s, a),
{
    match a {
        ToggleAction::CreateAndFocus => WindowState { exists: true, visible: true, focused: true },
        ToggleAction::Hide => WindowState { exists: s.exists, visible: false, focused: false },
        ToggleAction::ShowAndFocus => WindowState {
            exists: s.exists,
            visible: true,
            focused: true,
        },
        ToggleAction::NoAction => s,
    }
}

/// One whole toggle as the model sees it: decide, then perform.
pub open spec fn spec_toggle(kind: WindowKind, s: WindowState) -> WindowState {
    spec_apply_action(s, spec_toggle_action(kind, s))
}

/// Decide the action for a window in state `s` and model its effect.
pub fn toggle(kind: WindowKind, s: WindowState) -> (r: (ToggleAction, WindowState))
    ensures
        r.0 == spec_toggle_action(kind, s),
        r.1 == spec_toggle(kind, s),
{
    let a = toggle_action(kind, s);
    let after = apply_action(s, a);
    (a, after)
}

/// Toggling the quick picker from nothing creates, focuses and shows it;
/// toggling again hides it; a third toggle shows and focuses it again.
pub proof fn lemma_quick_picker_toggle_cycle(s0: WindowState)
    requires
        !s0.exists,
    ensures
        ({
            let s1 = spec_toggle(WindowKind::QuickPicker, s0);
            let s2 = spec_toggle(WindowKind::QuickPicker, s1);
            let s3 = spec_toggle(WindowKind::QuickPicker, s2);
            &&& spec_toggle_action(WindowKind::QuickPicker, s0) == ToggleAction::CreateAndFocus
            &&& s1 == (WindowState { exists: true, visible: true, focused: true })
            &&& spec_toggle_action(WindowKind::QuickPicker, s1) == ToggleAction::Hide
            &&& s2 == (WindowState { exists: true, visible: false, focused: false })
            &&& spec_toggle_action(WindowKind::QuickPicker, s2) == ToggleAction::ShowAndFocus
            &&& s3 == (WindowState { exists: true, visible: true, focused: true })
        }),
{
}

/// For any existing window, two consecutive toggles restore its visibility.
pub proof fn lemma_toggle_involution(kind: WindowKind, s: WindowState)
    requires
        s.exists,
    ensures
        spec_toggle(kind, spec_toggle(kind, s)).visible == s.visible,
        spec_toggle(kind, spec_toggle(kind, s)).exists,
{
}

/// Toggling an absent main window is a no-op: no window is created and the
/// state is unchanged.
pub proof fn lemma_main_absent_noop(s: WindowState)
    requires
        !s.exists,
    ensures
        spec_toggle_action(WindowKind::Main, s) == ToggleAction::NoAction,
        spec_toggle(WindowKind::Main, s) == s,
{
}

/// The fixed configuration the quick-picker window is created with.
#[derive(Clone, Copy, PartialEq, Eq, Structural, Debug)]
pub struct QuickPickerConfig {
    pub width: u32,
    pub height: u32,
    pub min_width: u32,
    pub min_height: u32,
    pub centered: bool,
    pub resizable: bool,
    pub decorations: bool,
    pub transparent: bool,
    pub always_on_top: bool,
    pub skip_taskbar: bool,
}

/// The quick picker's fixed geometry and style: 500x300 by default, at
/// least 400x200, centered, resizable, undecorated, transparent, always on
/// top and out of the taskbar.
pub fn quick_picker_config() -> (c: QuickPickerConfig)
    ensures
        c.width == 500,
        c.height == 300,
        c.min_width == 400,
        c.min_height == 200,
        c.centered,
        c.resizable,
        !c.decorations,
        c.transparent,
        c.always_on_top,
        c.skip_taskbar,
{
    QuickPickerConfig {
        width: 500,
        height: 300,
        min_width: 400,
        min_height: 200,
        centered: true,
        resizable: true,
        decorations: false,
        transparent: true,
        always_on_top: true,
        skip_taskbar: true,
    }
}

/// The quick-picker window's label, as the GUI runtime knows it.
pub fn quick_picker_label() -> (r: &'static str)
    ensures
        r@ == "quick_picker"@,
{
    "quick_picker"
}

/// The main window's label.
pub fn main_window_label() -> (r: &'static str)
    ensures
        r@ == "main"@,
{
    "main"
}

/// The page the quick-picker window loads.
pub fn quick_picker_url() -> (r: &'static str)
    ensures
        r@ == "quick_picker.html"@,
{
    "quick_picker.html"
}

/// The quick-picker window's title.
pub fn quick_picker_title() -> (r: &'static str)
    ensures
        r@ == "Quick Picker"@,
{
    "Quick Picker"
}

/// What a failed window operation is reported as: creation failures are
/// told apart from failures of the show/hide/focus/visibility calls, and
/// the runtime's own message is kept.
#[derive(Debug)]
pub enum WindowError {
    CreateFailed(String),
    OperationFailed(String),
}

impl WindowError {
    /// The runtime's message carried by this error.
    pub fn message(&self) -> (r: &String)
        ensures
            match self {
                WindowError::CreateFailed(m) => r@ == m@,
                WindowError::OperationFailed(m) => r@ == m@,
            },
    {
        match self {
            WindowError::CreateFailed(m) => m,
            WindowError::OperationFailed(m) => m,
        }
    }
}

} // verus!

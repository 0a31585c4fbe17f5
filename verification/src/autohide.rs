//! Focus-loss auto-hide for the quick-picker window.
//!
//! When the quick picker loses focus, a one-shot deferred check is
//! scheduled: after a short grace interval the window's focus is queried
//! again, and only if it is still unfocused is it hidden. The grace
//! interval gives the window's embedded UI time to run its own dismissal
//! logic (an Escape press) before the native layer hides the window.

use vstd::prelude::*;

use crate::window::ToggleAction;
use crate::window::WindowState;
use crate::window::spec_apply_action;

verus! {

/// The grace interval, in milliseconds, between losing focus and the
/// deferred re-check.
pub fn grace_interval_ms() -> (r: u64)
    ensures
        r == 100,
{
    100
}

/// Whether a focus-change event schedules the deferred check: only the
/// quick-picker window, and only on focus loss.
pub open spec fn spec_schedule_check(is_quick_picker: bool, focused: bool) -> bool {
    is_quick_picker && !focused
}

pub fn schedule_check(is_quick_picker: bool, focused: bool) -> (r: bool)
    ensures
        r == spec_schedule_check(is_quick_picker, focused),
{
    is_quick_picker && !focused
}

/// What the deferred check does once the grace interval has elapsed,
/// given the window's state as re-queried at that moment: hide the window
/// only if it is still unfocused, otherwise leave it alone.
pub open spec fn spec_resolve_focus_loss(s: WindowState) -> WindowState {
    if s.focused {
        s
    } else {
        spec_apply_action(s, ToggleAction::Hide)
    }
}

/// Decide and model the deferred check: the returned action is what the
/// runtime must perform, the returned state is the window's state after it.
pub fn resolve_focus_loss(s: WindowState) -> (r: (ToggleAction, WindowState))
    ensures
        r.0 == (if s.focused {
            ToggleAction::NoAction
        } else {
            ToggleAction::Hide
        }),
        r.1 == spec_resolve_focus_loss(s),
{
    if s.focused {
        (ToggleAction::NoAction, s)
    } else {
        let hidden = WindowState { exists: s.exists, visible: false, focused: false };
        (ToggleAction::Hide, hidden)
    }
}

/// If the window regained focus within the grace interval it stays
/// visible; if it did not, the deferred check hides it.
pub proof fn lemma_focus_loss_outcome(s: WindowState)
    requires
        s.exists,
        s.visible,
    ensures
        s.focused ==> spec_resolve_focus_loss(s) == s && spec_resolve_focus_loss(s).visible,
        !s.focused ==> !spec_resolve_focus_loss(s).visible,
{
}

} // verus!

//! Visibility control of the managed window.

use vstd::prelude::*;

verus! {

/// What toggling does to the managed window.
#[derive(Clone, Copy, Debug, PartialEq, Eq, Structural)]
pub enum VisibilityChange {
    /// Hide the window.
    Hide,
    /// Show the window, then request input focus for it.
    ShowAndFocus,
}

/// The change that toggling makes, given what the visibility query returned:
/// `Some` with the window's visibility, or `None` when the query failed. A
/// failed query counts as "not visible", so that a lost window is brought back
/// rather than left hidden.
pub open spec fn toggled(visible: Option<bool>) -> VisibilityChange {
    if visible == Some(true) {
        VisibilityChange::Hide
    } else {
        VisibilityChange::ShowAndFocus
    }
}

impl VisibilityChange {
    /// Whether the window is visible once the change has been made.
    pub open spec fn visible_after(self) -> bool {
        self is ShowAndFocus
    }

    /// Whether the change asks for input focus.
    pub open spec fn requests_focus(self) -> bool {
        self is ShowAndFocus
    }
}

/// Decides what toggling does, from the result of the visibility query.
pub fn toggle_visibility(visible: Option<bool>) -> (change: VisibilityChange)
    ensures
        change == toggled(visible),
        visible is Some ==> change.visible_after() == !visible->0,
        visible is None ==> change == VisibilityChange::ShowAndFocus,
{
    match visible {
        Some(true) => VisibilityChange::Hide,
        _ => VisibilityChange::ShowAndFocus,
    }
}

/// Toggling twice, with the visibility query succeeding both times, leaves
/// the window as visible as it was before.
pub proof fn toggling_twice_restores_visibility(visible: bool)
    ensures
        toggled(Some(toggled(Some(visible)).visible_after())).visible_after() == visible,
{
}

} // verus!

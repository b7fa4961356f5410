//! The closed set of semantic events that key presses resolve to.

use vstd::prelude::*;

verus! {

/// Navigation within user-interface elements, shared by all screens.
#[derive(Debug, Clone, Copy, PartialEq, Eq, Structural)]
pub enum NavEvent {
    Up,
    Down,
    Left,
    Right,
    /// Confirms the highlighted element (the Enter key).
    Select,
}

/// Events that concern the application as a whole.
#[derive(Debug, Clone, Copy, PartialEq, Eq, Structural)]
pub enum AppEvent {
    /// The user requested that the next tab be displayed.
    NextTab,
    /// The user requested that the application exit.
    ExitRequested,
}

/// View-mode toggles of the variable inspector.
#[derive(Debug, Clone, Copy, PartialEq, Eq, Structural)]
pub enum VarsEvent {
    /// Show the selected variable's value as it is.
    RawDetail,
    /// Show the selected variable's value split into path segments.
    SplitDetail,
}

/// A semantic event.
#[derive(Debug, Clone, Copy, PartialEq, Eq, Structural)]
pub enum Event {
    App(AppEvent),
    Nav(NavEvent),
    Vars(VarsEvent),
}

} // verus!

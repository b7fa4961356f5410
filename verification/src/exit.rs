//! The exit confirmation: a modal overlay with the options Confirm and Cancel
//! that captures all input while it shows.

use crate::event::{Event, NavEvent};
use vstd::prelude::*;

verus! {

/// An option of the exit modal.
#[derive(Debug, Clone, Copy, PartialEq, Eq, Structural)]
pub enum ExitOption {
    /// Exit the application. The modal shows it as "Ok".
    Confirm,
    Cancel,
}

/// Whether the exit modal shows, and which of its options is highlighted.
#[derive(Debug, Clone, Copy, PartialEq, Eq, Structural)]
pub enum ExitState {
    NotExiting,
    PresentModal { highlighted_option: ExitOption },
}

impl Default for ExitOption {
    /// Cancel, so that an exit takes a deliberate choice.
    fn default() -> (option: ExitOption)
        ensures
            option == ExitOption::Cancel,
    {
        ExitOption::Cancel
    }
}

impl Default for ExitState {
    /// No modal.
    fn default() -> (state: ExitState)
        ensures
            state == ExitState::NotExiting,
    {
        ExitState::NotExiting
    }
}

impl ExitOption {
    /// The other option.
    pub open spec fn spec_toggled(&self) -> ExitOption {
        match self {
            ExitOption::Confirm => ExitOption::Cancel,
            ExitOption::Cancel => ExitOption::Confirm,
        }
    }

    /// Returns the other option.
    #[verifier::when_used_as_spec(spec_toggled)]
    pub fn toggled(&self) -> (other: ExitOption)
        ensures
            other == self.spec_toggled(),
    {
        match self {
            ExitOption::Confirm => ExitOption::Cancel,
            ExitOption::Cancel => ExitOption::Confirm,
        }
    }
}

impl ExitState {
    /// The state in which the modal has just been requested: it shows, with
    /// Cancel highlighted.
    pub open spec fn spec_requested() -> ExitState {
        ExitState::PresentModal { highlighted_option: ExitOption::Cancel }
    }

    /// Whether the modal shows.
    pub open spec fn spec_is_modal(&self) -> bool {
        self is PresentModal
    }

    /// The state after an event, and whether the application should exit.
    /// Without the modal nothing happens. With it, Left and Right both
    /// highlight the other option, whichever way they point; Select confirms
    /// the highlighted option and closes the modal, and the application
    /// exits exactly where that option is Confirm; everything else is ignored.
    pub open spec fn after(self, event: Event) -> (ExitState, bool) {
        match self {
            ExitState::NotExiting => (self, false),
            ExitState::PresentModal { highlighted_option } => match event {
                Event::Nav(NavEvent::Left) | Event::Nav(NavEvent::Right) => (
                    ExitState::PresentModal { highlighted_option: highlighted_option.toggled() },
                    false,
                ),
                Event::Nav(NavEvent::Select) => (
                    ExitState::NotExiting,
                    highlighted_option == ExitOption::Confirm,
                ),
                _ => (self, false),
            },
        }
    }

    /// Returns the state in which the modal has just been requested.
    #[verifier::when_used_as_spec(spec_requested)]
    pub fn requested() -> (state: ExitState)
        ensures
            state == ExitState::spec_requested(),
    {
        ExitState::PresentModal { highlighted_option: ExitOption::Cancel }
    }

    /// Returns whether the modal shows.
    #[verifier::when_used_as_spec(spec_is_modal)]
    pub fn is_modal(&self) -> (modal: bool)
        ensures
            modal == self.spec_is_modal(),
    {
        match self {
            ExitState::PresentModal { .. } => true,
            ExitState::NotExiting => false,
        }
    }

    /// Handles an event while the modal shows, and returns whether the
    /// application should exit.
    pub fn handle_event(&mut self, event: &Event) -> (should_exit: bool)
        ensures
            (*final(self), should_exit) == old(self).after(*event),
    {
        match *self {
            ExitState::NotExiting => false,
            ExitState::PresentModal { highlighted_option } => match event {
                Event::Nav(NavEvent::Left) | Event::Nav(NavEvent::Right) => {
                    *self = ExitState::PresentModal {
                        highlighted_option: highlighted_option.toggled(),
                    };
                    false
                },
                Event::Nav(NavEvent::Up) | Event::Nav(NavEvent::Down) => false,
                Event::Nav(NavEvent::Select) => {
                    *self = ExitState::NotExiting;
                    match highlighted_option {
                        ExitOption::Confirm => true,
                        ExitOption::Cancel => false,
                    }
                },
                _ => false,
            },
        }
    }
}

/// Highlighting the other option twice, with Left or with Right in any
/// mixture, leads back to the option that was highlighted, and never exits.
pub proof fn lemma_toggle_twice(option: ExitOption, first: NavEvent, second: NavEvent)
    requires
        first == NavEvent::Left || first == NavEvent::Right,
        second == NavEvent::Left || second == NavEvent::Right,
    ensures
        ({
            let modal = ExitState::PresentModal { highlighted_option: option };
            let once = modal.after(Event::Nav(first));
            let twice = once.0.after(Event::Nav(second));
            &&& once == (
                ExitState::PresentModal { highlighted_option: option.toggled() },
                false,
            )
            &&& twice == (modal, false)
        }),
{
}

/// Selecting while Cancel is highlighted closes the modal without exiting.
/// So does toggling once from Confirm and then selecting. Selecting while
/// Confirm is highlighted closes the modal and exits.
pub proof fn lemma_select(toggle: NavEvent)
    requires
        toggle == NavEvent::Left || toggle == NavEvent::Right,
    ensures
        (ExitState::PresentModal { highlighted_option: ExitOption::Cancel }).after(
            Event::Nav(NavEvent::Select),
        ) == (ExitState::NotExiting, false),
        (ExitState::PresentModal { highlighted_option: ExitOption::Confirm }).after(
            Event::Nav(toggle),
        ).0.after(Event::Nav(NavEvent::Select)) == (ExitState::NotExiting, false),
        (ExitState::PresentModal { highlighted_option: ExitOption::Confirm }).after(
            Event::Nav(NavEvent::Select),
        ) == (ExitState::NotExiting, true),
{
}

/// While the modal shows, only Left, Right and Select change anything.
pub proof fn lemma_modal_ignores_other_events(state: ExitState, event: Event)
    requires
        event != Event::Nav(NavEvent::Left),
        event != Event::Nav(NavEvent::Right),
        event != Event::Nav(NavEvent::Select),
    ensures
        state.after(event) == (state, false),
{
}

} // verus!

//! The screens of the application and the order in which tabs cycle.

use vstd::prelude::*;

verus! {

/// One of the five screens. Exactly one is active at a time.
#[derive(Debug, Clone, Copy, PartialEq, Eq, Structural)]
pub enum Screen {
    Home,
    Prompt,
    Vars,
    Trace,
    Output,
}

impl Screen {
    /// The position of the screen's tab in display order.
    pub open spec fn spec_tab_index(&self) -> usize {
        match self {
            Screen::Home => 0,
            Screen::Prompt => 1,
            Screen::Vars => 2,
            Screen::Trace => 3,
            Screen::Output => 4,
        }
    }

    /// The cyclic successor: Home, Prompt, Vars, Trace, Output, and Home again.
    pub open spec fn spec_next_tab(&self) -> Screen {
        match self {
            Screen::Home => Screen::Prompt,
            Screen::Prompt => Screen::Vars,
            Screen::Vars => Screen::Trace,
            Screen::Trace => Screen::Output,
            Screen::Output => Screen::Home,
        }
    }

    /// The title of the screen's tab.
    pub open spec fn spec_title(&self) -> Seq<char> {
        match self {
            Screen::Home => "Home"@,
            Screen::Prompt => "Prompt"@,
            Screen::Vars => "Vars"@,
            Screen::Trace => "Trace"@,
            Screen::Output => "Output"@,
        }
    }

    /// Returns the title of the screen's tab.
    pub fn title(&self) -> (title: &'static str)
        ensures
            title@ == self.spec_title(),
    {
        match self {
            Screen::Home => "Home",
            Screen::Prompt => "Prompt",
            Screen::Vars => "Vars",
            Screen::Trace => "Trace",
            Screen::Output => "Output",
        }
    }

    /// Returns the index of the screen's tab, which decides the tab to highlight.
    #[verifier::when_used_as_spec(spec_tab_index)]
    pub fn tab_index(&self) -> (index: usize)
        ensures
            index == self.spec_tab_index(),
    {
        match self {
            Screen::Home => 0,
            Screen::Prompt => 1,
            Screen::Vars => 2,
            Screen::Trace => 3,
            Screen::Output => 4,
        }
    }

    /// Returns the screen that follows this one in the tab cycle.
    #[verifier::when_used_as_spec(spec_next_tab)]
    pub fn next_tab(&self) -> (next: Screen)
        ensures
            next == self.spec_next_tab(),
    {
        match self {
            Screen::Home => Screen::Prompt,
            Screen::Prompt => Screen::Vars,
            Screen::Vars => Screen::Trace,
            Screen::Trace => Screen::Output,
            Screen::Output => Screen::Home,
        }
    }
}

/// Following the tab cycle moves one position forward in display order and
/// wraps from the last tab to the first.
pub proof fn lemma_next_tab_advances_index(screen: Screen)
    ensures
        screen.spec_next_tab().spec_tab_index() == (screen.spec_tab_index() + 1) % 5,
{
}

/// Tab cycling is a cyclic order over the five screens: five steps from any
/// screen lead back to it, and fewer than five never do.
pub proof fn lemma_next_tab_cycle(screen: Screen)
    ensures
        screen.spec_next_tab().spec_next_tab().spec_next_tab().spec_next_tab().spec_next_tab()
            == screen,
        screen.spec_next_tab() != screen,
        screen.spec_next_tab().spec_next_tab() != screen,
        screen.spec_next_tab().spec_next_tab().spec_next_tab() != screen,
        screen.spec_next_tab().spec_next_tab().spec_next_tab().spec_next_tab() != screen,
{
}

} // verus!

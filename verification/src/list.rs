//! The selection cursor of a list, shared by the variable list, the list of
//! path segments and the list of stack frames.

use ratatui::widgets::ListState;
use vstd::prelude::*;

verus! {

/// `ratatui::widgets::ListState::default`, read back with `selected`: a new
/// list state selects nothing.
#[verifier::external_body]
fn default_selection() -> (selected: Option<usize>)
    ensures
        selected is None,
{
    ListState::default().selected()
}

/// `ratatui::widgets::ListState::select_first` on a state that selects
/// `selected`: the first item is selected afterwards, whatever was before.
#[verifier::external_body]
fn first_selection(selected: Option<usize>) -> (first: Option<usize>)
    ensures
        first == Some(0usize),
{
    let mut state = ListState::default().with_selected(selected);
    state.select_first();
    state.selected()
}

/// `ratatui::widgets::ListState::select_next` on a state that selects
/// `selected`: the index after the selected one, which stays at `usize::MAX`
/// once it is there, or the first item where nothing was selected.
#[verifier::external_body]
fn next_selection(selected: Option<usize>) -> (next: Option<usize>)
    ensures
        next == Some(
            match selected {
                Some(i) => if i < usize::MAX {
                    (i + 1) as usize
                } else {
                    i
                },
                None => 0usize,
            },
        ),
{
    let mut state = ListState::default().with_selected(selected);
    state.select_next();
    state.selected()
}

/// `ratatui::widgets::ListState::select_previous` on a state that selects
/// `selected`: the index before the selected one, which stays at 0 once it
/// is there, or `usize::MAX` where nothing was selected.
#[verifier::external_body]
fn previous_selection(selected: Option<usize>) -> (previous: Option<usize>)
    ensures
        previous == Some(
            match selected {
                Some(i) => if i > 0 {
                    (i - 1) as usize
                } else {
                    i
                },
                None => usize::MAX,
            },
        ),
{
    let mut state = ListState::default().with_selected(selected);
    state.select_previous();
    state.selected()
}

/// The selection after moving up in a list: the index before the selected
/// one, or the selection unchanged at the first item and where nothing is
/// selected.
pub open spec fn moved_up(selected: Option<usize>) -> Option<usize> {
    match selected {
        Some(i) => if i > 0 {
            Some((i - 1) as usize)
        } else {
            selected
        },
        None => None,
    }
}

/// The selection after moving down in a list of `len` items: the index after
/// the selected one, or the selection unchanged at the last item, beyond it
/// and where nothing is selected.
pub open spec fn moved_down(selected: Option<usize>, len: nat) -> Option<usize> {
    match selected {
        Some(i) => if i + 1 < len {
            Some((i + 1) as usize)
        } else {
            selected
        },
        None => None,
    }
}

/// The selection of a new list of `len` items: the first item, or nothing
/// where the list is empty.
pub open spec fn initial_selection(len: nat) -> Option<usize> {
    if len > 0 {
        Some(0usize)
    } else {
        None
    }
}

/// Whether a selection points into a list of `len` items.
pub open spec fn selection_in_range(selected: Option<usize>, len: nat) -> bool {
    selected matches Some(i) ==> i < len
}

/// The selection cursor of a list: the index of the selected item, or
/// nothing.
#[derive(Debug, Clone, Copy)]
pub struct ListCursor {
    selected: Option<usize>,
}

impl View for ListCursor {
    type V = Option<usize>;

    closed spec fn view(&self) -> Option<usize> {
        self.selected
    }
}

impl Default for ListCursor {
    /// A cursor that selects nothing.
    fn default() -> (cursor: ListCursor)
        ensures
            cursor@ is None,
    {
        ListCursor { selected: default_selection() }
    }
}

impl ListCursor {
    /// Returns the index of the selected item.
    pub fn selected(&self) -> (selected: Option<usize>)
        ensures
            selected == self@,
    {
        self.selected
    }

    /// Selects the first item.
    pub fn select_first(&mut self)
        ensures
            final(self)@ == Some(0usize),
    {
        self.selected = first_selection(self.selected);
    }

    /// Selects the item after the selected one, or the first item where
    /// nothing is selected. The index does not move past `usize::MAX`.
    pub fn select_next(&mut self)
        ensures
            old(self)@ matches Some(i) ==> final(self)@ == Some(
                if i < usize::MAX {
                    (i + 1) as usize
                } else {
                    i
                },
            ),
            old(self)@ is None ==> final(self)@ == Some(0usize),
    {
        self.selected = next_selection(self.selected);
    }

    /// Selects the item before the selected one, or index `usize::MAX` where
    /// nothing is selected. The index does not move below 0.
    pub fn select_previous(&mut self)
        ensures
            old(self)@ matches Some(i) ==> final(self)@ == Some(
                if i > 0 {
                    (i - 1) as usize
                } else {
                    i
                },
            ),
            old(self)@ is None ==> final(self)@ == Some(usize::MAX),
    {
        self.selected = previous_selection(self.selected);
    }

    /// Moves the selection up by one item. At the first item, and where
    /// nothing is selected, the cursor stays as it is: it never wraps.
    pub fn move_up(&mut self)
        ensures
            final(self)@ == moved_up(old(self)@),
    {
        if let Some(idx) = self.selected() {
            if idx > 0 {
                self.select_previous();
            }
        }
    }

    /// Moves the selection down by one item in a list of `len` items. At the
    /// last item, and where nothing is selected, the cursor stays as it is:
    /// it never wraps.
    pub fn move_down(&mut self, len: usize)
        ensures
            final(self)@ == moved_down(old(self)@, len as nat),
    {
        if let Some(idx) = self.selected() {
            if len > 0 && idx < len - 1 {
                self.select_next();
            }
        }
    }
}

/// Returns the cursor of a new list of `len` items: it selects the first item,
/// or nothing where the list is empty.
pub fn initial_list_state(len: usize) -> (cursor: ListCursor)
    ensures
        cursor@ == initial_selection(len as nat),
{
    let mut cursor = ListCursor::default();
    if len > 0 {
        cursor.select_first();
    }
    cursor
}

/// Moving up from the first item changes nothing, and neither does moving
/// down from the last item of a list that is not empty.
pub proof fn lemma_cursor_clamped(last: usize, len: nat)
    requires
        last + 1 == len,
    ensures
        moved_up(Some(0usize)) == Some(0usize),
        moved_down(Some(last), len) == Some(last),
{
}

/// A selection that points into the list still does after any movement.
pub proof fn lemma_movement_stays_in_range(selected: Option<usize>, len: nat)
    requires
        selection_in_range(selected, len),
    ensures
        selection_in_range(moved_up(selected), len),
        selection_in_range(moved_down(selected, len), len),
{
}

} // verus!

//! The environment inspector: the captured variables sorted by name, the
//! cursor over them, the focused pane and the detail view of the selected
//! variable.

use crate::event::{Event, NavEvent, VarsEvent};
use crate::list::{
    initial_list_state, initial_selection, moved_down, moved_up, selection_in_range, ListCursor,
};
use crate::order::{chars_le, insertion_point, sorted_by_name, Entry};
use crate::text::{chars_of, split, split_str, string_texts, texts};
use vstd::prelude::*;

verus! {

/// The character that separates the paths of a path list, as on Unix-like
/// platforms.
pub const PATH_LIST_SEPARATOR: char = ':';

/// How the value of the selected variable is shown.
#[derive(Debug, Clone)]
pub enum VarDetailState {
    /// The value as it is.
    Raw,
    /// The value split into path segments, with a cursor over the segments.
    Split { items: Vec<String>, list_state: ListCursor },
}

/// What a `VarDetailState` holds, as plain values.
pub enum DetailView {
    Raw,
    Split { items: Seq<Seq<char>>, selected: Option<usize> },
}

impl View for VarDetailState {
    type V = DetailView;

    open spec fn view(&self) -> DetailView {
        match self {
            VarDetailState::Raw => DetailView::Raw,
            VarDetailState::Split { items, list_state } => DetailView::Split {
                items: string_texts(items@),
                selected: list_state@,
            },
        }
    }
}

impl DetailView {
    /// The split view of a value: its path segments, with the first segment
    /// selected.
    pub open spec fn split_of(value: Seq<char>) -> DetailView {
        let items = split(value, PATH_LIST_SEPARATOR);
        DetailView::Split { items, selected: initial_selection(items.len()) }
    }

    /// The selected segment of a split view, if there is one.
    pub open spec fn selected_item(self) -> Option<Seq<char>> {
        match self {
            DetailView::Split { items, selected: Some(i) } => if i < items.len() {
                Some(items[i as int])
            } else {
                None
            },
            _ => None,
        }
    }

    /// A cursor over split segments points at one of them.
    pub open spec fn wf(self) -> bool {
        self matches DetailView::Split { items, selected } ==> selection_in_range(
            selected,
            items.len(),
        )
    }
}

impl VarDetailState {
    /// Initializes the split state from a list of items: the cursor selects
    /// the first item, or nothing where there is none.
    pub fn init_split(items: &[String]) -> (state: VarDetailState)
        ensures
            state@ == (DetailView::Split {
                items: string_texts(items@),
                selected: initial_selection(items@.len()),
            }),
    {
        let mut copy: Vec<String> = Vec::new();
        let mut i: usize = 0;
        while i < items.len()
            invariant
                i <= items@.len(),
                string_texts(copy@) == string_texts(items@).take(i as int),
            decreases items@.len() - i,
        {
            let ghost before = string_texts(copy@);
            let item = items[i].clone();
            copy.push(item);
            proof {
                assert(string_texts(copy@) =~= before.push(item@));
                assert(string_texts(items@).take(i + 1) =~= string_texts(items@).take(
                    i as int,
                ).push(items@[i as int]@));
            }
            i += 1;
        }
        proof {
            assert(string_texts(items@).take(i as int) =~= string_texts(items@));
        }
        let list_state = initial_list_state(copy.len());
        VarDetailState::Split { items: copy, list_state }
    }

    /// Returns the selected item of the split view if it exists.
    pub fn selected_split_item(&self) -> (item: Option<String>)
        ensures
            match item {
                Some(item) => self@.selected_item() == Some(item@),
                None => self@.selected_item() is None,
            },
    {
        match self {
            VarDetailState::Raw => None,
            VarDetailState::Split { items, list_state } => match list_state.selected() {
                Some(idx) => if idx < items.len() {
                    proof {
                        assert(string_texts(items@)[idx as int] == items@[idx as int]@);
                    }
                    Some(items[idx].clone())
                } else {
                    None
                },
                None => None,
            },
        }
    }
}

/// The state of the environment inspector.
#[derive(Debug, Clone)]
pub struct Env {
    vars: Vec<String>,
    values: Vec<String>,
    var_list_focused: bool,
    detail_state: VarDetailState,
    var_list_state: ListCursor,
}

/// What an `Env` holds, as plain values.
pub struct EnvView {
    /// The names of the variables.
    pub vars: Seq<Seq<char>>,
    /// The values of the variables: `values[i]` is the value of `vars[i]`.
    pub values: Seq<Seq<char>>,
    /// Whether the list of names is focused, rather than the detail pane.
    pub var_list_focused: bool,
    pub detail: DetailView,
    /// The index of the selected variable.
    pub selected: Option<usize>,
}

/// The views of the pairs of a captured environment.
pub open spec fn entries_of(pairs: Seq<(String, String)>) -> Seq<Entry> {
    Seq::new(pairs.len(), |i: int| (pairs[i].0@, pairs[i].1@))
}

impl EnvView {
    /// The variables as pairs of name and value.
    pub open spec fn entries(self) -> Seq<Entry> {
        Seq::new(self.vars.len(), |i: int| (self.vars[i], self.values[i]))
    }

    /// Names and values are aligned, and each cursor points into its list.
    pub open spec fn wf(self) -> bool {
        &&& self.vars.len() == self.values.len()
        &&& selection_in_range(self.selected, self.vars.len())
        &&& self.detail.wf()
    }

    /// The name of the selected variable, if one is selected.
    pub open spec fn selected_var(self) -> Option<Seq<char>> {
        match self.selected {
            Some(i) => if i < self.vars.len() {
                Some(self.vars[i as int])
            } else {
                None
            },
            None => None,
        }
    }

    /// The value of the selected variable, if one is selected.
    pub open spec fn selected_value(self) -> Option<Seq<char>> {
        match self.selected {
            Some(i) => if i < self.values.len() {
                Some(self.values[i as int])
            } else {
                None
            },
            None => None,
        }
    }

    /// The state after an event.
    ///
    /// Up and Down move the cursor of the focused list, which is the list of
    /// names or, in the detail pane, the list of split segments; at either
    /// end of a list they change nothing. Left focuses the list of names and
    /// Right the detail pane. The raw view drops the split view with its
    /// cursor. The split view is a snapshot of the selected variable's value
    /// at this moment: it stays as it is when another variable is selected
    /// afterwards, and without a selected variable the view does not change.
    pub open spec fn after(self, event: Event) -> EnvView {
        match event {
            Event::Nav(NavEvent::Up) => if self.var_list_focused {
                EnvView { selected: moved_up(self.selected), ..self }
            } else {
                match self.detail {
                    DetailView::Split { items, selected } => EnvView {
                        detail: DetailView::Split { items, selected: moved_up(selected) },
                        ..self
                    },
                    DetailView::Raw => self,
                }
            },
            Event::Nav(NavEvent::Down) => if self.var_list_focused {
                EnvView { selected: moved_down(self.selected, self.vars.len()), ..self }
            } else {
                match self.detail {
                    DetailView::Split { items, selected } => EnvView {
                        detail: DetailView::Split {
                            items,
                            selected: moved_down(selected, items.len()),
                        },
                        ..self
                    },
                    DetailView::Raw => self,
                }
            },
            Event::Nav(NavEvent::Left) => EnvView { var_list_focused: true, ..self },
            Event::Nav(NavEvent::Right) => EnvView { var_list_focused: false, ..self },
            Event::Nav(NavEvent::Select) => self,
            Event::Vars(VarsEvent::RawDetail) => EnvView { detail: DetailView::Raw, ..self },
            Event::Vars(VarsEvent::SplitDetail) => match self.selected_value() {
                Some(value) => EnvView { detail: DetailView::split_of(value), ..self },
                None => self,
            },
            Event::App(_) => self,
        }
    }
}

impl View for Env {
    type V = EnvView;

    closed spec fn view(&self) -> EnvView {
        EnvView {
            vars: string_texts(self.vars@),
            values: string_texts(self.values@),
            var_list_focused: self.var_list_focused,
            detail: self.detail_state@,
            selected: self.var_list_state@,
        }
    }
}

impl Env {
    /// Initializes the state with a captured environment: pairs of a
    /// variable's name and its value. The variables are sorted by name, and
    /// variables of the same name keep their order. The list of names is
    /// focused, the detail view is raw, and the first variable is selected
    /// unless there is none.
    pub fn with_env(env: Vec<(String, String)>) -> (state: Env)
        ensures
            state@.wf(),
            state@.entries() == sorted_by_name(entries_of(env@)),
            state@.vars.len() == env@.len(),
            state@.var_list_focused,
            state@.detail == DetailView::Raw,
            state@.selected == initial_selection(env@.len()),
    {
        let mut vars: Vec<String> = Vec::new();
        let mut values: Vec<String> = Vec::new();
        let mut keys: Vec<Vec<char>> = Vec::new();
        let ghost mut done: Seq<Entry> = Seq::empty();
        proof {
            assert(entries_of(env@).take(0) =~= Seq::<Entry>::empty());
        }
        for pair in it: env
            invariant
                it.seq() == env@,
                vars@.len() == it.index(),
                values@.len() == it.index(),
                keys@.len() == it.index(),
                texts(keys@) == string_texts(vars@),
                done == sorted_by_name(entries_of(env@).take(it.index() as int)),
                done.len() == it.index(),
                forall|i: int|
                    0 <= i < it.index() ==> #[trigger] done[i] == (vars@[i]@, values@[i]@),
        {
            let ghost index = it.index() as int;
            let (name, value) = pair;
            let ghost entry: Entry = (name@, value@);
            proof {
                assert(entries_of(env@).take(index + 1).drop_last() =~= entries_of(env@).take(
                    index,
                ));
                assert(entries_of(env@).take(index + 1).last() == entry);
            }
            let key = chars_of(name.as_str());
            let mut p: usize = 0;
            proof {
                assert(done.skip(0) =~= done);
                assert forall|i: int| 0 <= i < keys@.len() implies #[trigger] keys@[i]@
                    == done[i].0 by {
                    assert(texts(keys@)[i] == string_texts(vars@)[i]);
                }
            }
            while p < keys.len() && chars_le(&keys[p], &key)
                invariant
                    p <= keys@.len(),
                    keys@.len() == done.len(),
                    key@ == entry.0,
                    forall|i: int| 0 <= i < keys@.len() ==> #[trigger] keys@[i]@ == done[i].0,
                    insertion_point(done, entry.0) == p + insertion_point(
                        done.skip(p as int),
                        entry.0,
                    ),
                decreases keys@.len() - p,
            {
                proof {
                    assert(done.skip(p as int).first() == done[p as int]);
                    assert(done.skip(p as int).drop_first() =~= done.skip(p + 1));
                }
                p += 1;
            }
            proof {
                if p < keys@.len() {
                    assert(done.skip(p as int).first() == done[p as int]);
                }
                assert(insertion_point(done, entry.0) == p);
            }
            let ghost old_vars = vars@;
            let ghost old_values = values@;
            let ghost old_keys = keys@;
            vars.insert(p, name);
            values.insert(p, value);
            keys.insert(p, key);
            proof {
                let placed = done.insert(p as int, entry);
                assert(placed.len() == index + 1);
                assert forall|i: int| 0 <= i < index + 1 implies #[trigger] placed[i] == (
                    vars@[i]@,
                    values@[i]@,
                ) by {
                    if i < p {
                        assert(placed[i] == done[i]);
                    } else if i > p {
                        assert(placed[i] == done[i - 1]);
                    }
                }
                assert(texts(keys@) =~= string_texts(vars@)) by {
                    assert forall|i: int| 0 <= i < keys@.len() implies texts(keys@)[i]
                        == string_texts(vars@)[i] by {
                        if i < p {
                            assert(keys@[i] == old_keys[i]);
                            assert(texts(old_keys)[i] == string_texts(old_vars)[i]);
                        } else if i > p {
                            assert(keys@[i] == old_keys[i - 1]);
                            assert(texts(old_keys)[i - 1] == string_texts(old_vars)[i - 1]);
                        }
                    }
                }
                done = placed;
            }
        }
        proof {
            assert(entries_of(env@).take(env@.len() as int) =~= entries_of(env@));
        }
        let var_list_state = initial_list_state(vars.len());
        let state = Env {
            vars,
            values,
            var_list_focused: true,
            detail_state: VarDetailState::Raw,
            var_list_state,
        };
        proof {
            assert(state@.entries() =~= done);
        }
        state
    }

    /// Returns a slice of the environment variable names.
    pub fn vars(&self) -> (names: &[String])
        ensures
            string_texts(names@) == self@.vars,
    {
        self.vars.as_slice()
    }

    /// Returns the cursor over the list of names.
    pub fn var_list_state(&mut self) -> (cursor: &mut ListCursor)
        ensures
            cursor@ == old(self)@.selected,
            final(self)@ == (EnvView { selected: final(cursor)@, ..old(self)@ }),
    {
        &mut self.var_list_state
    }

    /// Returns how the selected variable is represented.
    pub fn var_detail_state(&self) -> (detail: &VarDetailState)
        ensures
            detail@ == self@.detail,
    {
        &self.detail_state
    }

    /// Returns how the selected variable is represented, for changing it.
    pub fn var_detail_state_mut(&mut self) -> (detail: &mut VarDetailState)
        ensures
            detail@ == old(self)@.detail,
            final(self)@ == (EnvView { detail: final(detail)@, ..old(self)@ }),
    {
        &mut self.detail_state
    }

    /// Returns whether the variable list is focused. When false, the detail
    /// view is focused.
    pub fn var_list_focused(&self) -> (focused: bool)
        ensures
            focused == self@.var_list_focused,
    {
        self.var_list_focused
    }

    /// Returns the selected variable name, or nothing where no variable is
    /// selected.
    pub fn selected_var(&self) -> (name: Option<String>)
        ensures
            match name {
                Some(name) => self@.selected_var() == Some(name@),
                None => self@.selected_var() is None,
            },
    {
        match self.var_list_state.selected() {
            Some(idx) => if idx < self.vars.len() {
                proof {
                    assert(string_texts(self.vars@)[idx as int] == self.vars@[idx as int]@);
                }
                Some(self.vars[idx].clone())
            } else {
                None
            },
            None => None,
        }
    }

    /// Returns the value of the selected variable, or nothing where no
    /// variable is selected.
    pub fn selected_var_value(&self) -> (value: Option<String>)
        ensures
            match value {
                Some(value) => self@.selected_value() == Some(value@),
                None => self@.selected_value() is None,
            },
    {
        match self.var_list_state.selected() {
            Some(idx) => if idx < self.values.len() {
                proof {
                    assert(string_texts(self.values@)[idx as int] == self.values@[idx as int]@);
                }
                Some(self.values[idx].clone())
            } else {
                None
            },
            None => None,
        }
    }

    /// Returns the split view of the selected variable: the segments of its
    /// value between path-list separators.
    pub fn selected_var_split_value(&self) -> (segments: Option<Vec<String>>)
        ensures
            match segments {
                Some(segments) => self@.selected_value() matches Some(value) && string_texts(
                    segments@,
                ) == split(value, PATH_LIST_SEPARATOR),
                None => self@.selected_value() is None,
            },
    {
        match self.selected_var_value() {
            Some(value) => Some(split_str(value.as_str(), PATH_LIST_SEPARATOR)),
            None => None,
        }
    }

    /// Returns the selected list item in the split detail view.
    pub fn selected_detail_item(&self) -> (item: Option<String>)
        ensures
            match item {
                Some(item) => self@.detail.selected_item() == Some(item@),
                None => self@.detail.selected_item() is None,
            },
    {
        self.detail_state.selected_split_item()
    }

    /// Handles navigation and view toggles of the variable inspector.
    pub fn handle_event(&mut self, event: &Event)
        ensures
            final(self)@ == old(self)@.after(*event),
            old(self)@.wf() ==> final(self)@.wf(),
    {
        match event {
            Event::Nav(NavEvent::Up) => {
                if self.var_list_focused {
                    self.var_list_state.move_up();
                } else {
                    match &mut self.detail_state {
                        VarDetailState::Split { list_state, .. } => {
                            list_state.move_up();
                        },
                        VarDetailState::Raw => {},
                    }
                }
            },
            Event::Nav(NavEvent::Down) => {
                if self.var_list_focused {
                    let len = self.vars.len();
                    self.var_list_state.move_down(len);
                } else {
                    match &mut self.detail_state {
                        VarDetailState::Split { list_state, items } => {
                            list_state.move_down(items.len());
                        },
                        VarDetailState::Raw => {},
                    }
                }
            },
            Event::Nav(NavEvent::Left) => {
                self.var_list_focused = true;
            },
            Event::Nav(NavEvent::Right) => {
                self.var_list_focused = false;
            },
            Event::Nav(NavEvent::Select) => {},
            Event::Vars(VarsEvent::RawDetail) => {
                self.detail_state = VarDetailState::Raw;
            },
            Event::Vars(VarsEvent::SplitDetail) => {
                match self.selected_var_split_value() {
                    Some(segments) => {
                        self.detail_state = VarDetailState::init_split(segments.as_slice());
                    },
                    None => {},
                }
            },
            Event::App(_) => {},
        }
    }
}

/// The cursor of the variable list is clamped: while the list of names is
/// focused, Up changes nothing at the first variable and Down changes
/// nothing at the last one, for every list that is not empty.
pub proof fn lemma_env_cursor_clamped(env: EnvView)
    requires
        env.wf(),
        env.var_list_focused,
        env.vars.len() > 0,
    ensures
        env.selected == Some(0usize) ==> env.after(Event::Nav(NavEvent::Up)) == env,
        (env.selected matches Some(last) && last + 1 == env.vars.len()) ==> env.after(
            Event::Nav(NavEvent::Down),
        ) == env,
{
}

/// The cursor over split segments is clamped in the same way while the
/// detail pane is focused.
pub proof fn lemma_split_cursor_clamped(env: EnvView)
    requires
        env.wf(),
        !env.var_list_focused,
        env.detail is Split,
        env.detail->items.len() > 0,
    ensures
        env.detail->selected == Some(0usize) ==> env.after(Event::Nav(NavEvent::Up)) == env,
        (env.detail->selected matches Some(last) && last + 1 == env.detail->items.len())
            ==> env.after(Event::Nav(NavEvent::Down)) == env,
{
}

/// No event breaks the alignment of names and values or moves a cursor out
/// of its list, and no event changes the variables.
pub proof fn lemma_env_after_keeps_wf(env: EnvView, event: Event)
    requires
        env.wf(),
    ensures
        env.after(event).wf(),
        env.after(event).vars == env.vars,
        env.after(event).values == env.values,
{
    crate::text::lemma_split_not_empty(
        match env.selected_value() {
            Some(value) => value,
            None => Seq::empty(),
        },
        PATH_LIST_SEPARATOR,
    );
}

} // verus!

//! The configured key bindings, and the resolver that turns a key press into
//! at most one semantic event for the active screen and modal state.

use crate::event::{AppEvent, Event, NavEvent, VarsEvent};
use crate::exit::ExitState;
use crate::keys::{DisplayKeyCombo, KeyCode, KeyEvent};
use crate::screen::Screen;
use vstd::prelude::*;
use vstd::string::*;

verus! {

/// The events that a sequence of bindings gives to keys, the later binding
/// of a key replacing an earlier one. Keys are held in normalized form, so
/// that key presses that count as the same key share one entry.
pub open spec fn bound(entries: Seq<(KeyEvent, Event)>) -> Map<KeyEvent, Event>
    decreases entries.len(),
{
    if entries.len() == 0 {
        Map::empty()
    } else {
        bind(bound(entries.drop_last()), entries.last().0, entries.last().1)
    }
}

/// A map of bindings with `key` bound to `event`.
pub open spec fn bind(map: Map<KeyEvent, Event>, key: KeyEvent, event: Event) -> Map<
    KeyEvent,
    Event,
> {
    map.insert(key.normalized(), event)
}

/// The event that a map of bindings gives to a key press, if any.
pub open spec fn lookup(map: Map<KeyEvent, Event>, key: KeyEvent) -> Option<Event> {
    if map.dom().contains(key.normalized()) {
        Some(map[key.normalized()])
    } else {
        None
    }
}

/// A mapping from key presses to events.
#[derive(Debug, Clone)]
pub struct Keymap {
    entries: Vec<(KeyEvent, Event)>,
}

impl View for Keymap {
    type V = Map<KeyEvent, Event>;

    closed spec fn view(&self) -> Map<KeyEvent, Event> {
        bound(self.entries@)
    }
}

impl Keymap {
    /// Creates a mapping without bindings.
    pub fn new() -> (keymap: Keymap)
        ensures
            keymap@ == Map::<KeyEvent, Event>::empty(),
    {
        Keymap { entries: Vec::new() }
    }

    /// Returns the event bound to a key press, if any.
    pub fn get(&self, key: &KeyEvent) -> (event: Option<&Event>)
        ensures
            match event {
                Some(event) => lookup(self@, *key) == Some(*event),
                None => lookup(self@, *key) is None,
            },
    {
        let mut i: usize = self.entries.len();
        proof {
            assert(self.entries@.take(i as int) =~= self.entries@);
        }
        while i > 0
            invariant
                i <= self.entries.len(),
                lookup(self@, *key) == lookup(bound(self.entries@.take(i as int)), *key),
            decreases i,
        {
            proof {
                assert(self.entries@.take(i as int).drop_last() =~= self.entries@.take(i - 1));
                assert(self.entries@.take(i as int).last() == self.entries@[i - 1]);
            }
            i -= 1;
            if self.entries[i].0.matches(key) {
                return Some(&self.entries[i].1);
            }
        }
        None
    }

    /// Binds a key press to an event. A binding of the same key is replaced
    /// and its event returned.
    pub fn insert(&mut self, key: KeyEvent, event: Event) -> (existing: Option<Event>)
        ensures
            final(self)@ == bind(old(self)@, key, event),
            existing == lookup(old(self)@, key),
    {
        let existing = match self.get(&key) {
            Some(existing) => Some(*existing),
            None => None,
        };
        let ghost before = self.entries@;
        self.entries.push((key, event));
        proof {
            assert(self.entries@.drop_last() =~= before);
        }
        existing
    }
}

/// The key bindings available on every screen.
#[derive(Debug, Clone, Copy)]
pub struct GlobalKeyBindings {
    pub exit: KeyEvent,
    pub next_tab: KeyEvent,
}

/// The key bindings of the home screen.
#[derive(Debug, Clone, Copy)]
pub struct HomeKeyBindings {}

/// The key bindings of the prompt screen.
#[derive(Debug, Clone, Copy)]
pub struct PromptKeyBindings {}

/// The key bindings of the variable inspector.
#[derive(Debug, Clone, Copy)]
pub struct VarsKeyBindings {
    pub next_var: KeyEvent,
    pub previous_var: KeyEvent,
    pub focus_var_list: KeyEvent,
    pub focus_var_detail: KeyEvent,
    pub raw_detail: KeyEvent,
    pub split_detail: KeyEvent,
}

/// The key bindings of the trace screen.
#[derive(Debug, Clone, Copy)]
pub struct TraceKeyBindings {
    pub next_frame: KeyEvent,
    pub previous_frame: KeyEvent,
}

/// The key bindings of the output screen.
#[derive(Debug, Clone, Copy)]
pub struct OutputKeyBindings {}

/// The complete set of configured key bindings for the application.
#[derive(Debug, Clone, Copy)]
pub struct KeyBindings {
    /// The key bindings available at all times.
    pub global: GlobalKeyBindings,
    pub home: HomeKeyBindings,
    pub prompt: PromptKeyBindings,
    pub vars: VarsKeyBindings,
    pub trace: TraceKeyBindings,
    pub output: OutputKeyBindings,
}

impl Default for GlobalKeyBindings {
    /// `q` asks to exit, and Tab shows the next tab.
    fn default() -> (bindings: GlobalKeyBindings)
        ensures
            bindings.exit == KeyEvent::plain(KeyCode::Char('q')),
            bindings.next_tab == KeyEvent::plain(KeyCode::Tab),
    {
        GlobalKeyBindings {
            exit: KeyEvent::plain(KeyCode::Char('q')),
            next_tab: KeyEvent::plain(KeyCode::Tab),
        }
    }
}

impl Default for HomeKeyBindings {
    fn default() -> (bindings: HomeKeyBindings) {
        HomeKeyBindings {  }
    }
}

impl Default for PromptKeyBindings {
    fn default() -> (bindings: PromptKeyBindings) {
        PromptKeyBindings {  }
    }
}

impl Default for OutputKeyBindings {
    fn default() -> (bindings: OutputKeyBindings) {
        OutputKeyBindings {  }
    }
}

impl Default for VarsKeyBindings {
    /// The arrow keys move the cursor and switch the pane, `r` shows the raw
    /// value and `s` the split value.
    fn default() -> (bindings: VarsKeyBindings)
        ensures
            bindings.next_var == KeyEvent::plain(KeyCode::Down),
            bindings.previous_var == KeyEvent::plain(KeyCode::Up),
            bindings.focus_var_list == KeyEvent::plain(KeyCode::Left),
            bindings.focus_var_detail == KeyEvent::plain(KeyCode::Right),
            bindings.raw_detail == KeyEvent::plain(KeyCode::Char('r')),
            bindings.split_detail == KeyEvent::plain(KeyCode::Char('s')),
    {
        VarsKeyBindings {
            next_var: KeyEvent::plain(KeyCode::Down),
            previous_var: KeyEvent::plain(KeyCode::Up),
            focus_var_list: KeyEvent::plain(KeyCode::Left),
            focus_var_detail: KeyEvent::plain(KeyCode::Right),
            raw_detail: KeyEvent::plain(KeyCode::Char('r')),
            split_detail: KeyEvent::plain(KeyCode::Char('s')),
        }
    }
}

impl Default for TraceKeyBindings {
    /// Down and Up move the frame cursor.
    fn default() -> (bindings: TraceKeyBindings)
        ensures
            bindings.next_frame == KeyEvent::plain(KeyCode::Down),
            bindings.previous_frame == KeyEvent::plain(KeyCode::Up),
    {
        TraceKeyBindings {
            next_frame: KeyEvent::plain(KeyCode::Down),
            previous_frame: KeyEvent::plain(KeyCode::Up),
        }
    }
}

impl Default for KeyBindings {
    /// The default bindings of every set.
    fn default() -> (bindings: KeyBindings)
        ensures
            bindings == KeyBindings::defaults(),
    {
        KeyBindings {
            global: GlobalKeyBindings::default(),
            home: HomeKeyBindings::default(),
            prompt: PromptKeyBindings::default(),
            vars: VarsKeyBindings::default(),
            trace: TraceKeyBindings::default(),
            output: OutputKeyBindings::default(),
        }
    }
}

/// The bindings while the exit modal shows: Left, Right and Enter, each
/// pressed alone, and nothing else.
pub open spec fn modal_keymap() -> Map<KeyEvent, Event> {
    bind(
        bind(
            bind(Map::empty(), KeyEvent::plain(KeyCode::Left), Event::Nav(NavEvent::Left)),
            KeyEvent::plain(KeyCode::Right),
            Event::Nav(NavEvent::Right),
        ),
        KeyEvent::plain(KeyCode::Enter),
        Event::Nav(NavEvent::Select),
    )
}

impl GlobalKeyBindings {
    /// The global bindings as a mapping. Where both are bound to the same
    /// key, the next tab wins.
    pub open spec fn keymap(self) -> Map<KeyEvent, Event> {
        bind(
            bind(Map::empty(), self.exit, Event::App(AppEvent::ExitRequested)),
            self.next_tab,
            Event::App(AppEvent::NextTab),
        )
    }
}

impl VarsKeyBindings {
    /// `below` overlaid with the bindings of the variable inspector.
    pub open spec fn overlay(self, below: Map<KeyEvent, Event>) -> Map<KeyEvent, Event> {
        bind(
            bind(
                bind(
                    bind(
                        bind(
                            bind(below, self.next_var, Event::Nav(NavEvent::Down)),
                            self.previous_var,
                            Event::Nav(NavEvent::Up),
                        ),
                        self.focus_var_list,
                        Event::Nav(NavEvent::Left),
                    ),
                    self.focus_var_detail,
                    Event::Nav(NavEvent::Right),
                ),
                self.raw_detail,
                Event::Vars(VarsEvent::RawDetail),
            ),
            self.split_detail,
            Event::Vars(VarsEvent::SplitDetail),
        )
    }
}

impl TraceKeyBindings {
    /// `below` overlaid with the bindings of the trace screen.
    pub open spec fn overlay(self, below: Map<KeyEvent, Event>) -> Map<KeyEvent, Event> {
        bind(
            bind(below, self.next_frame, Event::Nav(NavEvent::Down)),
            self.previous_frame,
            Event::Nav(NavEvent::Up),
        )
    }
}

impl KeyBindings {
    /// The default bindings.
    pub open spec fn defaults() -> KeyBindings {
        KeyBindings {
            global: GlobalKeyBindings {
                exit: KeyEvent::plain(KeyCode::Char('q')),
                next_tab: KeyEvent::plain(KeyCode::Tab),
            },
            home: HomeKeyBindings {  },
            prompt: PromptKeyBindings {  },
            vars: VarsKeyBindings {
                next_var: KeyEvent::plain(KeyCode::Down),
                previous_var: KeyEvent::plain(KeyCode::Up),
                focus_var_list: KeyEvent::plain(KeyCode::Left),
                focus_var_detail: KeyEvent::plain(KeyCode::Right),
                raw_detail: KeyEvent::plain(KeyCode::Char('r')),
                split_detail: KeyEvent::plain(KeyCode::Char('s')),
            },
            trace: TraceKeyBindings {
                next_frame: KeyEvent::plain(KeyCode::Down),
                previous_frame: KeyEvent::plain(KeyCode::Up),
            },
            output: OutputKeyBindings {  },
        }
    }

    /// The bindings in force on a screen in a modal state. While the exit
    /// modal shows, only its own keys are bound. Otherwise the global
    /// bindings hold, overlaid with those of the screen: on a key that both
    /// bind, the screen's binding wins.
    pub open spec fn keymap(self, screen: Screen, exit_state: ExitState) -> Map<KeyEvent, Event> {
        if exit_state is PresentModal {
            modal_keymap()
        } else {
            match screen {
                Screen::Vars => self.vars.overlay(self.global.keymap()),
                Screen::Trace => self.trace.overlay(self.global.keymap()),
                _ => self.global.keymap(),
            }
        }
    }

    /// The event that a key press resolves to on a screen in a modal state,
    /// if any.
    pub open spec fn resolved(self, screen: Screen, exit_state: ExitState, key: KeyEvent) -> Option<
        Event,
    > {
        lookup(self.keymap(screen, exit_state), key)
    }

    /// Returns the configured global key bindings.
    pub fn global(&self) -> (bindings: GlobalKeyBindings)
        ensures
            bindings == self.global,
    {
        self.global
    }

    /// Returns the configured key bindings for the home screen.
    pub fn home(&self) -> (bindings: HomeKeyBindings)
        ensures
            bindings == self.home,
    {
        self.home
    }

    /// Returns the configured key bindings for the prompt screen.
    pub fn prompt(&self) -> (bindings: PromptKeyBindings)
        ensures
            bindings == self.prompt,
    {
        self.prompt
    }

    /// Returns the configured key bindings for the vars screen.
    pub fn vars(&self) -> (bindings: VarsKeyBindings)
        ensures
            bindings == self.vars,
    {
        self.vars
    }

    /// Returns the configured key bindings for the trace screen.
    pub fn trace(&self) -> (bindings: TraceKeyBindings)
        ensures
            bindings == self.trace,
    {
        self.trace
    }

    /// Returns the configured key bindings for the output screen.
    pub fn output(&self) -> (bindings: OutputKeyBindings)
        ensures
            bindings == self.output,
    {
        self.output
    }

    /// Returns a mapping from key press to application event given the
    /// current screen and modal state.
    pub fn current_keymap(&self, screen: &Screen, exit_state: &ExitState) -> (keymap: Keymap)
        ensures
            keymap@ == self.keymap(*screen, *exit_state),
    {
        let mut keymap = Keymap::new();

        // While the modal shows, only navigation keys are bound.
        if let ExitState::PresentModal { .. } = exit_state {
            keymap.insert(KeyEvent::plain(KeyCode::Left), Event::Nav(NavEvent::Left));
            keymap.insert(KeyEvent::plain(KeyCode::Right), Event::Nav(NavEvent::Right));
            keymap.insert(KeyEvent::plain(KeyCode::Enter), Event::Nav(NavEvent::Select));
            return keymap;
        }
        keymap.insert(self.global.exit, Event::App(AppEvent::ExitRequested));
        keymap.insert(self.global.next_tab, Event::App(AppEvent::NextTab));

        match screen {
            Screen::Vars => {
                keymap.insert(self.vars.next_var, Event::Nav(NavEvent::Down));
                keymap.insert(self.vars.previous_var, Event::Nav(NavEvent::Up));
                keymap.insert(self.vars.focus_var_list, Event::Nav(NavEvent::Left));
                keymap.insert(self.vars.focus_var_detail, Event::Nav(NavEvent::Right));
                keymap.insert(self.vars.raw_detail, Event::Vars(VarsEvent::RawDetail));
                keymap.insert(self.vars.split_detail, Event::Vars(VarsEvent::SplitDetail));
            },
            Screen::Trace => {
                keymap.insert(self.trace.next_frame, Event::Nav(NavEvent::Down));
                keymap.insert(self.trace.previous_frame, Event::Nav(NavEvent::Up));
            },
            _ => {},
        }
        keymap
    }

    /// Resolves a key press on a screen in a modal state to at most one
    /// event. A key that is not bound there resolves to nothing.
    pub fn resolve(&self, screen: &Screen, exit_state: &ExitState, key: &KeyEvent) -> (event:
        Option<Event>)
        ensures
            event == self.resolved(*screen, *exit_state, *key),
    {
        let keymap = self.current_keymap(screen, exit_state);
        match keymap.get(key) {
            Some(event) => Some(*event),
            None => None,
        }
    }
}

/// While the exit modal shows, a key press resolves to Left, Right or Select
/// of the navigation events or to nothing, whatever the bindings and the
/// screen: no global and no screen binding applies.
pub proof fn lemma_modal_captures_keys(
    bindings: KeyBindings,
    screen: Screen,
    option: crate::exit::ExitOption,
    key: KeyEvent,
)
    ensures
        ({
            let modal = ExitState::PresentModal { highlighted_option: option };
            let event = bindings.resolved(screen, modal, key);
            &&& event == if key.same_key(KeyEvent::plain(KeyCode::Left)) {
                Some(Event::Nav(NavEvent::Left))
            } else if key.same_key(KeyEvent::plain(KeyCode::Right)) {
                Some(Event::Nav(NavEvent::Right))
            } else if key.same_key(KeyEvent::plain(KeyCode::Enter)) {
                Some(Event::Nav(NavEvent::Select))
            } else {
                None
            }
            &&& event != Some(Event::App(AppEvent::NextTab))
            &&& event != Some(Event::App(AppEvent::ExitRequested))
        }),
{
}

/// Without the modal, a key that the screen binds resolves to the screen's
/// event, whatever the global bindings say of that key; a key that the
/// screen does not bind resolves as the global bindings say.
pub proof fn lemma_screen_bindings_take_precedence(bindings: KeyBindings, key: KeyEvent)
    ensures
        ({
            let none = ExitState::NotExiting;
            let global = lookup(bindings.global.keymap(), key);
            let vars = lookup(bindings.vars.overlay(Map::empty()), key);
            let trace = lookup(bindings.trace.overlay(Map::empty()), key);
            &&& bindings.resolved(Screen::Vars, none, key) == if vars is Some {
                vars
            } else {
                global
            }
            &&& bindings.resolved(Screen::Trace, none, key) == if trace is Some {
                trace
            } else {
                global
            }
            &&& bindings.resolved(Screen::Home, none, key) == global
            &&& bindings.resolved(Screen::Prompt, none, key) == global
            &&& bindings.resolved(Screen::Output, none, key) == global
        }),
{
}

/// With the default bindings and without the modal, `q` asks to exit and Tab
/// shows the next tab on every screen.
pub proof fn lemma_default_global_keys(screen: Screen)
    ensures
        KeyBindings::defaults().resolved(
            screen,
            ExitState::NotExiting,
            KeyEvent::plain(KeyCode::Char('q')),
        ) == Some(Event::App(AppEvent::ExitRequested)),
        KeyBindings::defaults().resolved(
            screen,
            ExitState::NotExiting,
            KeyEvent::plain(KeyCode::Tab),
        ) == Some(Event::App(AppEvent::NextTab)),
{
}

/// The views of help entries: for each binding, the keys and a short
/// description.
pub open spec fn help_texts(entries: Seq<(String, &'static str)>) -> Seq<(Seq<char>, Seq<char>)> {
    Seq::new(entries.len(), |i: int| (entries[i].0@, entries[i].1@))
}

/// What can list its key bindings for a help text.
pub trait DisplayKeyBindings {
    /// The help entries of the bindings: keys and description.
    spec fn help(&self) -> Seq<(Seq<char>, Seq<char>)>;

    /// Returns (keys, description) pairs for each keybinding.
    fn displayable(&self) -> (entries: Vec<(String, &'static str)>)
        ensures
            help_texts(entries@) == self.help(),
    ;
}

impl DisplayKeyBindings for GlobalKeyBindings {
    open spec fn help(&self) -> Seq<(Seq<char>, Seq<char>)> {
        seq![(self.exit.combo_text(), "Exit"@), (self.next_tab.combo_text(), "Next Tab"@)]
    }

    fn displayable(&self) -> (entries: Vec<(String, &'static str)>) {
        let mut entries: Vec<(String, &'static str)> = Vec::new();
        entries.push((self.exit.display_key_combo(), "Exit"));
        entries.push((self.next_tab.display_key_combo(), "Next Tab"));
        proof {
            assert(help_texts(entries@) =~= self.help());
        }
        entries
    }
}

impl DisplayKeyBindings for HomeKeyBindings {
    open spec fn help(&self) -> Seq<(Seq<char>, Seq<char>)> {
        Seq::empty()
    }

    fn displayable(&self) -> (entries: Vec<(String, &'static str)>) {
        let entries: Vec<(String, &'static str)> = Vec::new();
        proof {
            assert(help_texts(entries@) =~= self.help());
        }
        entries
    }
}

impl DisplayKeyBindings for PromptKeyBindings {
    open spec fn help(&self) -> Seq<(Seq<char>, Seq<char>)> {
        Seq::empty()
    }

    fn displayable(&self) -> (entries: Vec<(String, &'static str)>) {
        let entries: Vec<(String, &'static str)> = Vec::new();
        proof {
            assert(help_texts(entries@) =~= self.help());
        }
        entries
    }
}

impl DisplayKeyBindings for VarsKeyBindings {
    open spec fn help(&self) -> Seq<(Seq<char>, Seq<char>)> {
        seq![("↑↓←→"@, "Nav"@)]
    }

    fn displayable(&self) -> (entries: Vec<(String, &'static str)>) {
        let mut entries: Vec<(String, &'static str)> = Vec::new();
        entries.push(("↑↓←→".to_owned(), "Nav"));
        proof {
            assert(help_texts(entries@) =~= self.help());
        }
        entries
    }
}

impl DisplayKeyBindings for TraceKeyBindings {
    open spec fn help(&self) -> Seq<(Seq<char>, Seq<char>)> {
        seq![("↑↓"@, "Nav"@)]
    }

    fn displayable(&self) -> (entries: Vec<(String, &'static str)>) {
        let mut entries: Vec<(String, &'static str)> = Vec::new();
        entries.push(("↑↓".to_owned(), "Nav"));
        proof {
            assert(help_texts(entries@) =~= self.help());
        }
        entries
    }
}

impl DisplayKeyBindings for OutputKeyBindings {
    open spec fn help(&self) -> Seq<(Seq<char>, Seq<char>)> {
        Seq::empty()
    }

    fn displayable(&self) -> (entries: Vec<(String, &'static str)>) {
        let entries: Vec<(String, &'static str)> = Vec::new();
        proof {
            assert(help_texts(entries@) =~= self.help());
        }
        entries
    }
}

/// The help entries of the exit modal: its arrow keys and Enter.
pub open spec fn modal_help() -> Seq<(Seq<char>, Seq<char>)> {
    seq![("←→"@, "Nav"@), ("Enter"@, "Select"@)]
}

impl KeyBindings {
    /// The help entries of the bindings in force on a screen in a modal
    /// state. While the exit modal shows, these are the modal's own keys and
    /// nothing else. Otherwise they are the global ones, then those of the
    /// screen.
    pub open spec fn applicable_help(self, screen: Screen, exit_state: ExitState) -> Seq<
        (Seq<char>, Seq<char>),
    > {
        if exit_state is PresentModal {
            modal_help()
        } else {
            self.global.help() + match screen {
                Screen::Home => self.home.help(),
                Screen::Prompt => self.prompt.help(),
                Screen::Vars => self.vars.help(),
                Screen::Trace => self.trace.help(),
                Screen::Output => self.output.help(),
            }
        }
    }

    /// Returns the help entries of the bindings in force on a screen in a
    /// modal state: the modal's own keys while it shows, and otherwise the
    /// global bindings followed by those of the screen.
    pub fn applicable_bindings(&self, screen: &Screen, exit_state: &ExitState) -> (entries: Vec<
        (String, &'static str),
    >)
        ensures
            help_texts(entries@) == self.applicable_help(*screen, *exit_state),
    {
        if exit_state.is_modal() {
            let mut entries: Vec<(String, &'static str)> = Vec::new();
            entries.push(("←→".to_owned(), "Nav"));
            entries.push(("Enter".to_owned(), "Select"));
            proof {
                assert(help_texts(entries@) =~= modal_help());
            }
            return entries;
        }
        let mut entries = self.global.displayable();
        let mut screen_entries = match screen {
            Screen::Home => self.home.displayable(),
            Screen::Prompt => self.prompt.displayable(),
            Screen::Vars => self.vars.displayable(),
            Screen::Trace => self.trace.displayable(),
            Screen::Output => self.output.displayable(),
        };
        let ghost first = help_texts(entries@);
        let ghost second = help_texts(screen_entries@);
        entries.append(&mut screen_entries);
        proof {
            assert(help_texts(entries@) =~= first + second);
        }
        entries
    }
}

} // verus!

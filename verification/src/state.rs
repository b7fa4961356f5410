//! The application state and the dispatch of events: first to the exit
//! modal while it shows, then to the application itself, then to the handler
//! of the active screen.

use crate::event::{AppEvent, Event};
use crate::exit::ExitState;
use crate::key_bindings::KeyBindings;
use crate::keys::KeyEvent;
use crate::screen::Screen;
use crate::shell::{same_text, Shell};
use crate::trace::{TraceState, TraceView};
use crate::vars::{Env, EnvView};
use vstd::prelude::*;
use vstd::string::*;

verus! {

/// The name of the variable that marks the tracepoint at which the shell
/// paused.
pub const TRACEPOINT_VAR_NAME: &'static str = "FLOX_DBG_TRACEPOINT";

/// The commands that the invoking shell runs once the inspector has exited,
/// given the value of the tracepoint marker. Without a marker, and with the
/// marker `all`, there are none. Otherwise one line unsets the marker, in
/// the syntax of the shell.
pub open spec fn cleanup_commands(shell: Shell, marker: Seq<char>) -> Seq<char> {
    if marker == "all"@ || marker.len() == 0 {
        Seq::empty()
    } else {
        match shell {
            Shell::Bash | Shell::Zsh => "unset "@ + TRACEPOINT_VAR_NAME@ + "\n"@,
            Shell::Fish => "set -e "@ + TRACEPOINT_VAR_NAME@ + "\n"@,
        }
    }
}

/// The state of the application.
#[derive(Debug, Clone)]
pub struct App {
    env: Env,
    screen: Screen,
    shell: Shell,
    output: String,
    key_bindings: KeyBindings,
    exit_state: ExitState,
    trace: TraceState,
}

/// What an `App` holds, as plain values.
pub struct AppView {
    pub env: EnvView,
    pub screen: Screen,
    pub shell: Shell,
    /// The commands that the invoking shell runs after the exit.
    pub output: Seq<char>,
    pub key_bindings: KeyBindings,
    pub exit_state: ExitState,
    pub trace: TraceView,
}

impl AppView {
    /// The environment and the trace state are well formed.
    pub open spec fn wf(self) -> bool {
        self.env.wf() && self.trace.wf()
    }

    /// The state after an event, and whether the application should exit.
    ///
    /// While the exit modal shows, every event goes to it and to nothing
    /// else. Otherwise a request to exit opens the modal with Cancel
    /// highlighted, a request for the next tab moves to the following
    /// screen, and every other event goes to the handler of the active
    /// screen: the variable inspector, the trace viewer, or none.
    pub open spec fn after(self, event: Event) -> (AppView, bool) {
        if self.exit_state is PresentModal {
            let (exit_state, should_exit) = self.exit_state.after(event);
            (AppView { exit_state, ..self }, should_exit)
        } else {
            match event {
                Event::App(AppEvent::ExitRequested) => (
                    AppView { exit_state: ExitState::requested(), ..self },
                    false,
                ),
                Event::App(AppEvent::NextTab) => (
                    AppView { screen: self.screen.next_tab(), ..self },
                    false,
                ),
                _ => match self.screen {
                    Screen::Vars => (AppView { env: self.env.after(event), ..self }, false),
                    Screen::Trace => (AppView { trace: self.trace.after(event), ..self }, false),
                    _ => (self, false),
                },
            }
        }
    }

    /// The state after a key press, and whether the application should
    /// exit: the key is resolved for the active screen and modal state, and
    /// the event, if there is one, is handled. A key that is not bound
    /// changes nothing.
    pub open spec fn after_key(self, key: KeyEvent) -> (AppView, bool) {
        match self.key_bindings.resolved(self.screen, self.exit_state, key) {
            Some(event) => self.after(event),
            None => (self, false),
        }
    }
}

impl View for App {
    type V = AppView;

    closed spec fn view(&self) -> AppView {
        AppView {
            env: self.env@,
            screen: self.screen,
            shell: self.shell,
            output: self.output@,
            key_bindings: self.key_bindings,
            exit_state: self.exit_state,
            trace: self.trace@,
        }
    }
}

impl App {
    /// Creates the application state: the home screen, no modal, the
    /// default key bindings, and as output the cleanup commands for the
    /// value of the tracepoint marker.
    pub fn new(shell: Shell, env: Env, trace: TraceState, tracepoint_var_value: &str) -> (app: App)
        ensures
            app@ == (AppView {
                env: env@,
                screen: Screen::Home,
                shell,
                output: cleanup_commands(shell, tracepoint_var_value@),
                key_bindings: KeyBindings::defaults(),
                exit_state: ExitState::NotExiting,
                trace: trace@,
            }),
    {
        App {
            env,
            screen: Screen::Home,
            shell,
            output: App::initial_output(shell, tracepoint_var_value),
            key_bindings: KeyBindings::default(),
            exit_state: ExitState::default(),
            trace,
        }
    }

    /// Returns the application with another environment.
    pub fn with_env(self, env: Env) -> (app: App)
        ensures
            app@ == (AppView { env: env@, ..self@ }),
    {
        let mut app = self;
        app.env = env;
        app
    }

    /// Returns the application with another starting screen.
    pub fn with_screen(self, screen: Screen) -> (app: App)
        ensures
            app@ == (AppView { screen, ..self@ }),
    {
        let mut app = self;
        app.screen = screen;
        app
    }

    /// Returns the application with another shell, for which commands are
    /// generated.
    pub fn with_shell(self, shell: Shell) -> (app: App)
        ensures
            app@ == (AppView { shell, ..self@ }),
    {
        let mut app = self;
        app.shell = shell;
        app
    }

    /// Returns the initial output that will be sourced when the inspector
    /// exits, given the value of the tracepoint marker.
    pub fn initial_output(shell: Shell, tracepoint_var_value: &str) -> (output: String)
        ensures
            output@ == cleanup_commands(shell, tracepoint_var_value@),
    {
        if same_text(tracepoint_var_value, "all") || tracepoint_var_value.is_empty() {
            String::new()
        } else {
            let mut output = match shell {
                Shell::Bash => "unset ".to_owned(),
                Shell::Zsh => "unset ".to_owned(),
                Shell::Fish => "set -e ".to_owned(),
            };
            output.append(TRACEPOINT_VAR_NAME);
            output.append("\n");
            output
        }
    }

    /// Returns a copy of the output commands.
    pub fn output(&self) -> (output: String)
        ensures
            output@ == self@.output,
    {
        self.output.clone()
    }

    /// Returns the current screen.
    pub fn screen(&self) -> (screen: Screen)
        ensures
            screen == self@.screen,
    {
        self.screen
    }

    /// Returns the shell that invoked the inspector.
    pub fn shell(&self) -> (shell: Shell)
        ensures
            shell == self@.shell,
    {
        self.shell
    }

    /// Returns the configured key bindings.
    pub fn key_bindings(&self) -> (bindings: KeyBindings)
        ensures
            bindings == self@.key_bindings,
    {
        self.key_bindings
    }

    /// Returns the current exit status.
    pub fn exit_state(&self) -> (state: ExitState)
        ensures
            state == self@.exit_state,
    {
        self.exit_state
    }

    /// Returns true if the application is presenting the exit modal.
    pub fn is_displaying_exit_modal(&self) -> (modal: bool)
        ensures
            modal == (self@.exit_state is PresentModal),
    {
        self.exit_state.is_modal()
    }

    /// Get a mutable reference to the exit state.
    pub fn exit_state_mut(&mut self) -> (state: &mut ExitState)
        ensures
            *state == old(self)@.exit_state,
            final(self)@ == (AppView { exit_state: *final(state), ..old(self)@ }),
    {
        &mut self.exit_state
    }

    /// Set the exit state.
    pub fn set_exit_state(&mut self, state: ExitState)
        ensures
            final(self)@ == (AppView { exit_state: state, ..old(self)@ }),
    {
        self.exit_state = state;
    }

    /// Switches to the next tab.
    pub fn next_tab(&mut self)
        ensures
            final(self)@ == (AppView { screen: old(self)@.screen.next_tab(), ..old(self)@ }),
    {
        self.screen = self.screen.next_tab()
    }

    /// Returns the current environment.
    pub fn env(&self) -> (env: &Env)
        ensures
            env@ == self@.env,
    {
        &self.env
    }

    /// Returns a mutable reference to the current environment.
    pub fn env_mut(&mut self) -> (env: &mut Env)
        ensures
            env@ == old(self)@.env,
            final(self)@ == (AppView { env: final(env)@, ..old(self)@ }),
    {
        &mut self.env
    }

    /// Returns the state of the trace screen.
    pub fn trace(&self) -> (trace: &TraceState)
        ensures
            trace@ == self@.trace,
    {
        &self.trace
    }

    /// Returns a mutable reference to the state of the trace screen.
    pub fn trace_mut(&mut self) -> (trace: &mut TraceState)
        ensures
            trace@ == old(self)@.trace,
            final(self)@ == (AppView { trace: final(trace)@, ..old(self)@ }),
    {
        &mut self.trace
    }
}

/// Handles events when the user is being presented the exit modal, and
/// returns whether the application should exit.
pub fn handle_exit_state(app: &mut App, event: &Event) -> (should_exit: bool)
    ensures
        final(app)@ == (AppView {
            exit_state: old(app)@.exit_state.after(*event).0,
            ..old(app)@
        }),
        should_exit == old(app)@.exit_state.after(*event).1,
{
    app.exit_state.handle_event(event)
}

/// Handles navigation and interaction in the variable inspector.
pub fn handle_vars_event(app: &mut App, event: &Event)
    ensures
        final(app)@ == (AppView { env: old(app)@.env.after(*event), ..old(app)@ }),
        old(app)@.wf() ==> final(app)@.wf(),
{
    app.env.handle_event(event);
}

/// Handles navigation in the trace viewer.
pub fn handle_trace_event(app: &mut App, event: &Event)
    ensures
        final(app)@ == (AppView { trace: old(app)@.trace.after(*event), ..old(app)@ }),
        old(app)@.wf() ==> final(app)@.wf(),
{
    app.trace.handle_event(event);
}

/// Modifies the application state in response to an event, returning a
/// boolean indicating whether the application should exit.
pub fn handle_event(app: &mut App, event: &Event) -> (should_exit: bool)
    ensures
        (final(app)@, should_exit) == old(app)@.after(*event),
        old(app)@.wf() ==> final(app)@.wf(),
{
    if app.is_displaying_exit_modal() {
        return handle_exit_state(app, event);
    }
    match event {
        Event::App(AppEvent::ExitRequested) => {
            app.set_exit_state(ExitState::requested());
        },
        Event::App(AppEvent::NextTab) => {
            app.next_tab();
        },
        _ => match app.screen() {
            Screen::Home => {},
            Screen::Prompt => {},
            Screen::Vars => handle_vars_event(app, event),
            Screen::Trace => handle_trace_event(app, event),
            Screen::Output => {},
        },
    }
    false
}

/// Handles one key press: resolves it for the active screen and modal state
/// and handles the event, if there is one. Returns whether the application
/// should exit.
pub fn handle_key_event(app: &mut App, key: &KeyEvent) -> (should_exit: bool)
    ensures
        (final(app)@, should_exit) == old(app)@.after_key(*key),
        old(app)@.wf() ==> final(app)@.wf(),
{
    let screen = app.screen();
    let exit_state = app.exit_state();
    match app.key_bindings().resolve(&screen, &exit_state, key) {
        Some(event) => handle_event(app, &event),
        None => false,
    }
}

/// While the exit modal shows, no event changes the screen, the
/// environment, the trace state or the output: an event reaches only the
/// modal. A request for the next tab, like a request to exit, changes
/// nothing at all.
pub proof fn lemma_modal_exclusive(app: AppView, event: Event)
    requires
        app.exit_state is PresentModal,
    ensures
        app.after(event).0 == (AppView { exit_state: app.after(event).0.exit_state, ..app }),
        app.after(event).0.screen == app.screen,
        app.after(event) == (
            AppView { exit_state: app.exit_state.after(event).0, ..app },
            app.exit_state.after(event).1,
        ),
        app.after(Event::App(AppEvent::NextTab)) == (app, false),
        app.after(Event::App(AppEvent::ExitRequested)) == (app, false),
{
}

/// While the exit modal shows, the keys bound to the next tab and to the
/// exit request change nothing, whatever they are, unless they are the
/// modal's own keys.
pub proof fn lemma_modal_captures_input(app: AppView, key: KeyEvent)
    requires
        app.exit_state is PresentModal,
    ensures
        app.after_key(key).0.screen == app.screen,
        app.after_key(key).0.env == app.env,
        app.after_key(key).0.trace == app.trace,
        !key.same_key(KeyEvent::plain(crate::keys::KeyCode::Left)) && !key.same_key(
            KeyEvent::plain(crate::keys::KeyCode::Right),
        ) && !key.same_key(KeyEvent::plain(crate::keys::KeyCode::Enter)) ==> app.after_key(key) == (
            app,
            false,
        ),
{
}

/// Without the modal, five requests for the next tab lead back to the
/// screen on which they began, and change nothing else.
pub proof fn lemma_five_tabs(app: AppView)
    requires
        !(app.exit_state is PresentModal),
    ensures
        ({
            let next = Event::App(AppEvent::NextTab);
            app.after(next).0.after(next).0.after(next).0.after(next).0.after(next) == (app, false)
        }),
{
}

/// The application exits only from the modal, on Select with Confirm
/// highlighted.
pub proof fn lemma_exit_only_from_modal(app: AppView, event: Event)
    ensures
        app.after(event).1 <==> (app.exit_state == (ExitState::PresentModal {
            highlighted_option: crate::exit::ExitOption::Confirm,
        }) && event == Event::Nav(crate::event::NavEvent::Select)),
{
}

/// No event breaks the well-formedness of the state.
pub proof fn lemma_after_keeps_wf(app: AppView, event: Event)
    requires
        app.wf(),
    ensures
        app.after(event).0.wf(),
{
    crate::vars::lemma_env_after_keeps_wf(app.env, event);
}

} // verus!

use flox_debugger::event::{AppEvent, Event, NavEvent, VarsEvent};
use flox_debugger::exit::{ExitOption, ExitState};
use flox_debugger::key_bindings::{
    DisplayKeyBindings, GlobalKeyBindings, HomeKeyBindings, KeyBindings, Keymap,
    OutputKeyBindings, PromptKeyBindings, TraceKeyBindings, VarsKeyBindings,
};
use flox_debugger::keys::{KeyCode, KeyEvent, KeyEventKind};
use flox_debugger::screen::Screen;

const SCREENS: [Screen; 5] =
    [Screen::Home, Screen::Prompt, Screen::Vars, Screen::Trace, Screen::Output];

fn key(code: KeyCode) -> KeyEvent {
    KeyEvent::plain(code)
}

fn modal(option: ExitOption) -> ExitState {
    ExitState::PresentModal { highlighted_option: option }
}

fn all_keys() -> Vec<KeyEvent> {
    let mut keys = Vec::new();
    for code in [
        KeyCode::Char('q'),
        KeyCode::Char('r'),
        KeyCode::Char('s'),
        KeyCode::Char('x'),
        KeyCode::Tab,
        KeyCode::BackTab,
        KeyCode::Enter,
        KeyCode::Esc,
        KeyCode::Left,
        KeyCode::Right,
        KeyCode::Up,
        KeyCode::Down,
        KeyCode::F(1),
    ] {
        let plain = key(code);
        let mut controlled = plain;
        controlled.modifiers.control = true;
        let mut released = plain;
        released.kind = KeyEventKind::Release;
        keys.push(plain);
        keys.push(controlled);
        keys.push(released);
    }
    keys
}

#[test]
fn default_bindings() {
    let bindings = KeyBindings::default();
    assert_eq!(bindings.global().exit, key(KeyCode::Char('q')));
    assert_eq!(bindings.global().next_tab, key(KeyCode::Tab));
    assert_eq!(bindings.vars().next_var, key(KeyCode::Down));
    assert_eq!(bindings.vars().previous_var, key(KeyCode::Up));
    assert_eq!(bindings.vars().focus_var_list, key(KeyCode::Left));
    assert_eq!(bindings.vars().focus_var_detail, key(KeyCode::Right));
    assert_eq!(bindings.vars().raw_detail, key(KeyCode::Char('r')));
    assert_eq!(bindings.vars().split_detail, key(KeyCode::Char('s')));
    assert_eq!(bindings.trace().next_frame, key(KeyCode::Down));
    assert_eq!(bindings.trace().previous_frame, key(KeyCode::Up));
    let _: HomeKeyBindings = bindings.home();
    let _: PromptKeyBindings = bindings.prompt();
    let _: OutputKeyBindings = bindings.output();
}

#[test]
fn modal_binds_only_its_own_keys() {
    let bindings = KeyBindings::default();
    for screen in SCREENS {
        for option in [ExitOption::Confirm, ExitOption::Cancel] {
            for pressed in all_keys() {
                let expected = if pressed == key(KeyCode::Left) {
                    Some(Event::Nav(NavEvent::Left))
                } else if pressed == key(KeyCode::Right) {
                    Some(Event::Nav(NavEvent::Right))
                } else if pressed == key(KeyCode::Enter) {
                    Some(Event::Nav(NavEvent::Select))
                } else {
                    None
                };
                assert_eq!(bindings.resolve(&screen, &modal(option), &pressed), expected);
            }
        }
    }
}

#[test]
fn modal_ignores_quit_and_next_tab() {
    let bindings = KeyBindings::default();
    let state = modal(ExitOption::Cancel);
    assert_eq!(bindings.resolve(&Screen::Vars, &state, &key(KeyCode::Char('q'))), None);
    assert_eq!(bindings.resolve(&Screen::Vars, &state, &key(KeyCode::Tab)), None);
    assert_eq!(bindings.resolve(&Screen::Vars, &state, &key(KeyCode::Up)), None);
    assert_eq!(bindings.resolve(&Screen::Vars, &state, &key(KeyCode::Char('s'))), None);
}

#[test]
fn global_bindings_hold_on_every_screen() {
    let bindings = KeyBindings::default();
    for screen in SCREENS {
        assert_eq!(
            bindings.resolve(&screen, &ExitState::NotExiting, &key(KeyCode::Char('q'))),
            Some(Event::App(AppEvent::ExitRequested))
        );
        assert_eq!(
            bindings.resolve(&screen, &ExitState::NotExiting, &key(KeyCode::Tab)),
            Some(Event::App(AppEvent::NextTab))
        );
        assert_eq!(bindings.resolve(&screen, &ExitState::NotExiting, &key(KeyCode::Esc)), None);
    }
}

#[test]
fn screens_without_bindings_ignore_other_keys() {
    let bindings = KeyBindings::default();
    for screen in [Screen::Home, Screen::Prompt, Screen::Output] {
        for pressed in all_keys() {
            let expected = if pressed == key(KeyCode::Char('q')) {
                Some(Event::App(AppEvent::ExitRequested))
            } else if pressed == key(KeyCode::Tab) {
                Some(Event::App(AppEvent::NextTab))
            } else {
                None
            };
            assert_eq!(bindings.resolve(&screen, &ExitState::NotExiting, &pressed), expected);
        }
    }
}

#[test]
fn vars_screen_bindings() {
    let bindings = KeyBindings::default();
    let none = ExitState::NotExiting;
    let resolve = |code| bindings.resolve(&Screen::Vars, &none, &key(code));
    assert_eq!(resolve(KeyCode::Down), Some(Event::Nav(NavEvent::Down)));
    assert_eq!(resolve(KeyCode::Up), Some(Event::Nav(NavEvent::Up)));
    assert_eq!(resolve(KeyCode::Left), Some(Event::Nav(NavEvent::Left)));
    assert_eq!(resolve(KeyCode::Right), Some(Event::Nav(NavEvent::Right)));
    assert_eq!(resolve(KeyCode::Char('r')), Some(Event::Vars(VarsEvent::RawDetail)));
    assert_eq!(resolve(KeyCode::Char('s')), Some(Event::Vars(VarsEvent::SplitDetail)));
    assert_eq!(resolve(KeyCode::Enter), None);
    assert_eq!(resolve(KeyCode::Char('x')), None);
}

#[test]
fn trace_screen_bindings() {
    let bindings = KeyBindings::default();
    let none = ExitState::NotExiting;
    let resolve = |code| bindings.resolve(&Screen::Trace, &none, &key(code));
    assert_eq!(resolve(KeyCode::Down), Some(Event::Nav(NavEvent::Down)));
    assert_eq!(resolve(KeyCode::Up), Some(Event::Nav(NavEvent::Up)));
    assert_eq!(resolve(KeyCode::Left), None);
    assert_eq!(resolve(KeyCode::Right), None);
    assert_eq!(resolve(KeyCode::Char('r')), None);
    assert_eq!(resolve(KeyCode::Char('s')), None);
}

#[test]
fn released_and_modified_keys_are_not_bound() {
    let bindings = KeyBindings::default();
    let mut released = key(KeyCode::Char('q'));
    released.kind = KeyEventKind::Release;
    let mut controlled = key(KeyCode::Char('q'));
    controlled.modifiers.control = true;
    let capital = key(KeyCode::Char('Q'));
    for pressed in [released, controlled, capital] {
        assert_eq!(bindings.resolve(&Screen::Home, &ExitState::NotExiting, &pressed), None);
    }
}

#[test]
fn screen_bindings_take_precedence_over_global_ones() {
    let mut bindings = KeyBindings::default();
    bindings.vars.next_var = key(KeyCode::Tab);
    bindings.trace.previous_frame = key(KeyCode::Char('q'));
    let none = ExitState::NotExiting;
    assert_eq!(
        bindings.resolve(&Screen::Vars, &none, &key(KeyCode::Tab)),
        Some(Event::Nav(NavEvent::Down))
    );
    assert_eq!(
        bindings.resolve(&Screen::Trace, &none, &key(KeyCode::Char('q'))),
        Some(Event::Nav(NavEvent::Up))
    );
    assert_eq!(
        bindings.resolve(&Screen::Home, &none, &key(KeyCode::Tab)),
        Some(Event::App(AppEvent::NextTab))
    );
    assert_eq!(
        bindings.resolve(&Screen::Vars, &none, &key(KeyCode::Char('q'))),
        Some(Event::App(AppEvent::ExitRequested))
    );
}

#[test]
fn later_binding_of_a_key_replaces_the_earlier_one() {
    let mut bindings = KeyBindings::default();
    bindings.global.next_tab = key(KeyCode::Char('q'));
    bindings.vars.split_detail = key(KeyCode::Down);
    let none = ExitState::NotExiting;
    assert_eq!(
        bindings.resolve(&Screen::Home, &none, &key(KeyCode::Char('q'))),
        Some(Event::App(AppEvent::NextTab))
    );
    assert_eq!(
        bindings.resolve(&Screen::Vars, &none, &key(KeyCode::Down)),
        Some(Event::Vars(VarsEvent::SplitDetail))
    );
}

#[test]
fn bindings_match_keys_that_count_as_the_same() {
    let mut bindings = KeyBindings::default();
    bindings.global.exit = key(KeyCode::Char('Q'));
    let mut shifted = key(KeyCode::Char('q'));
    shifted.modifiers.shift = true;
    assert_eq!(
        bindings.resolve(&Screen::Home, &ExitState::NotExiting, &shifted),
        Some(Event::App(AppEvent::ExitRequested))
    );
    assert_eq!(
        bindings.resolve(&Screen::Home, &ExitState::NotExiting, &key(KeyCode::Char('q'))),
        None
    );
}

#[test]
fn keymap_agrees_with_the_resolver() {
    let bindings = KeyBindings::default();
    for screen in SCREENS {
        for state in [ExitState::NotExiting, modal(ExitOption::Cancel)] {
            let keymap = bindings.current_keymap(&screen, &state);
            for pressed in all_keys() {
                assert_eq!(
                    keymap.get(&pressed).copied(),
                    bindings.resolve(&screen, &state, &pressed)
                );
            }
        }
    }
}

#[test]
fn keymap_insert_returns_the_replaced_event() {
    let mut keymap = Keymap::new();
    assert_eq!(keymap.get(&key(KeyCode::Tab)), None);
    assert_eq!(keymap.insert(key(KeyCode::Tab), Event::App(AppEvent::NextTab)), None);
    assert_eq!(keymap.get(&key(KeyCode::Tab)), Some(&Event::App(AppEvent::NextTab)));
    assert_eq!(
        keymap.insert(key(KeyCode::Tab), Event::Nav(NavEvent::Down)),
        Some(Event::App(AppEvent::NextTab))
    );
    assert_eq!(keymap.get(&key(KeyCode::Tab)), Some(&Event::Nav(NavEvent::Down)));
    assert_eq!(keymap.get(&key(KeyCode::Enter)), None);
}

#[test]
fn help_of_each_binding_set() {
    let global = GlobalKeyBindings::default().displayable();
    assert_eq!(global, vec![("Q".to_string(), "Exit"), ("Tab".to_string(), "Next Tab")]);
    assert_eq!(VarsKeyBindings::default().displayable(), vec![("↑↓←→".to_string(), "Nav")]);
    assert_eq!(TraceKeyBindings::default().displayable(), vec![("↑↓".to_string(), "Nav")]);
    assert!(HomeKeyBindings::default().displayable().is_empty());
    assert!(PromptKeyBindings::default().displayable().is_empty());
    assert!(OutputKeyBindings::default().displayable().is_empty());
}

#[test]
fn help_shows_the_configured_keys() {
    let mut control_c = key(KeyCode::Char('c'));
    control_c.modifiers.control = true;
    let global = GlobalKeyBindings { exit: control_c, next_tab: key(KeyCode::F(2)) };
    assert_eq!(
        global.displayable(),
        vec![("Ctrl+C".to_string(), "Exit"), ("F2".to_string(), "Next Tab")]
    );
}

#[test]
fn applicable_bindings_are_global_then_screen() {
    let bindings = KeyBindings::default();
    let none = ExitState::NotExiting;
    let global = vec![("Q".to_string(), "Exit"), ("Tab".to_string(), "Next Tab")];
    for screen in [Screen::Home, Screen::Prompt, Screen::Output] {
        assert_eq!(bindings.applicable_bindings(&screen, &none), global);
    }
    let mut vars = global.clone();
    vars.push(("↑↓←→".to_string(), "Nav"));
    assert_eq!(bindings.applicable_bindings(&Screen::Vars, &none), vars);
    let mut trace = global.clone();
    trace.push(("↑↓".to_string(), "Nav"));
    assert_eq!(bindings.applicable_bindings(&Screen::Trace, &none), trace);
}

#[test]
fn applicable_bindings_of_the_modal_are_its_own() {
    let bindings = KeyBindings::default();
    for screen in SCREENS {
        for option in [ExitOption::Confirm, ExitOption::Cancel] {
            assert_eq!(
                bindings.applicable_bindings(&screen, &modal(option)),
                vec![("←→".to_string(), "Nav"), ("Enter".to_string(), "Select")]
            );
        }
    }
}

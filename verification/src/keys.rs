//! Physical key presses as plain values, the rule by which two key presses
//! count as the same key, and their user-facing text.

use crate::text::{decimal_text, digit_char, string_from_chars};
use vstd::prelude::*;
use vstd::string::*;

verus! {

/// A media key.
#[derive(Debug, Clone, Copy, PartialEq, Eq, Structural)]
pub enum MediaKeyCode {
    Play,
    Pause,
    PlayPause,
    Reverse,
    Stop,
    FastForward,
    Rewind,
    TrackNext,
    TrackPrevious,
    Record,
    LowerVolume,
    RaiseVolume,
    MuteVolume,
}

/// A modifier key pressed on its own.
#[derive(Debug, Clone, Copy, PartialEq, Eq, Structural)]
pub enum ModifierKeyCode {
    LeftShift,
    LeftControl,
    LeftAlt,
    LeftSuper,
    LeftHyper,
    LeftMeta,
    RightShift,
    RightControl,
    RightAlt,
    RightSuper,
    RightHyper,
    RightMeta,
    IsoLevel3Shift,
    IsoLevel5Shift,
}

/// The key of a key press.
#[derive(Debug, Clone, Copy, PartialEq, Eq, Structural)]
pub enum KeyCode {
    Backspace,
    Enter,
    Left,
    Right,
    Up,
    Down,
    Home,
    End,
    PageUp,
    PageDown,
    Tab,
    BackTab,
    Delete,
    Insert,
    /// A function key, `F(1)` for F1.
    F(u8),
    /// A character key.
    Char(char),
    Null,
    Esc,
    CapsLock,
    ScrollLock,
    NumLock,
    PrintScreen,
    Pause,
    Menu,
    KeypadBegin,
    Media(MediaKeyCode),
    Modifier(ModifierKeyCode),
}

/// The modifier keys held during a key press.
#[derive(Debug, Clone, Copy, PartialEq, Eq, Structural)]
pub struct KeyModifiers {
    pub shift: bool,
    pub control: bool,
    pub alt: bool,
    pub logo: bool,
    pub hyper: bool,
    pub meta: bool,
}

/// Whether a key was pressed, is held or was released.
#[derive(Debug, Clone, Copy, PartialEq, Eq, Structural)]
pub enum KeyEventKind {
    Press,
    Repeat,
    Release,
}

/// The state of the keyboard during a key press.
#[derive(Debug, Clone, Copy, PartialEq, Eq, Structural)]
pub struct KeyEventState {
    pub keypad: bool,
    pub caps_lock: bool,
    pub num_lock: bool,
}

/// One physical key press.
#[derive(Debug, Clone, Copy, PartialEq, Eq, Structural)]
pub struct KeyEvent {
    pub code: KeyCode,
    pub modifiers: KeyModifiers,
    pub kind: KeyEventKind,
    pub state: KeyEventState,
}

impl KeyModifiers {
    /// No modifier key.
    pub open spec fn spec_none() -> KeyModifiers {
        KeyModifiers {
            shift: false,
            control: false,
            alt: false,
            logo: false,
            hyper: false,
            meta: false,
        }
    }

    /// Returns the modifiers of a key pressed alone.
    #[verifier::when_used_as_spec(spec_none)]
    pub fn none() -> (modifiers: KeyModifiers)
        ensures
            modifiers == KeyModifiers::spec_none(),
    {
        KeyModifiers {
            shift: false,
            control: false,
            alt: false,
            logo: false,
            hyper: false,
            meta: false,
        }
    }
}

impl KeyEventState {
    /// No keyboard state.
    pub open spec fn spec_none() -> KeyEventState {
        KeyEventState { keypad: false, caps_lock: false, num_lock: false }
    }

    /// Returns the state of a keyboard without keypad or lock keys.
    #[verifier::when_used_as_spec(spec_none)]
    pub fn none() -> (state: KeyEventState)
        ensures
            state == KeyEventState::spec_none(),
    {
        KeyEventState { keypad: false, caps_lock: false, num_lock: false }
    }
}

/// Whether `c` is one of the letters `A` to `Z`.
pub open spec fn is_ascii_uppercase(c: char) -> bool {
    'A' <= c <= 'Z'
}

/// Whether `c` is one of the letters `a` to `z`.
pub open spec fn is_ascii_lowercase(c: char) -> bool {
    'a' <= c <= 'z'
}

/// The capital of a letter `a` to `z`, and every other character unchanged.
pub open spec fn to_ascii_uppercase(c: char) -> char {
    if is_ascii_lowercase(c) {
        ((c as u32 - 32) as u32) as char
    } else {
        c
    }
}

/// Returns the capital of a letter `a` to `z`, and every other character
/// unchanged.
pub fn ascii_uppercase(c: char) -> (upper: char)
    ensures
        upper == to_ascii_uppercase(c),
{
    if 'a' <= c && c <= 'z' {
        ((c as u8) - 32) as char
    } else {
        c
    }
}

impl KeyEvent {
    /// The press of `code` alone: no modifiers, no keyboard state.
    pub open spec fn spec_plain(code: KeyCode) -> KeyEvent {
        KeyEvent {
            code,
            modifiers: KeyModifiers::spec_none(),
            kind: KeyEventKind::Press,
            state: KeyEventState::spec_none(),
        }
    }

    /// Returns the press of `code` alone: no modifiers, no keyboard state.
    #[verifier::when_used_as_spec(spec_plain)]
    pub fn plain(code: KeyCode) -> (key: KeyEvent)
        ensures
            key == KeyEvent::spec_plain(code),
    {
        KeyEvent {
            code,
            modifiers: KeyModifiers::none(),
            kind: KeyEventKind::Press,
            state: KeyEventState::none(),
        }
    }

    /// The key press in the form in which key presses are compared: Shift is
    /// held exactly where the character is a capital letter. A capital
    /// letter gains Shift, and a character typed with Shift becomes its
    /// capital. Keys other than characters stay as they are.
    pub open spec fn normalized(self) -> KeyEvent {
        match self.code {
            KeyCode::Char(c) => if is_ascii_uppercase(c) {
                KeyEvent { modifiers: KeyModifiers { shift: true, ..self.modifiers }, ..self }
            } else if self.modifiers.shift {
                KeyEvent { code: KeyCode::Char(to_ascii_uppercase(c)), ..self }
            } else {
                self
            },
            _ => self,
        }
    }

    /// Whether two key presses count as the same key: they are equal once
    /// both are normalized.
    pub open spec fn same_key(self, other: KeyEvent) -> bool {
        self.normalized() == other.normalized()
    }

    /// Returns the key press in the form in which key presses are compared.
    pub fn normalize_case(&self) -> (key: KeyEvent)
        ensures
            key == self.normalized(),
    {
        match self.code {
            KeyCode::Char(c) => {
                if 'A' <= c && c <= 'Z' {
                    KeyEvent {
                        code: self.code,
                        modifiers: KeyModifiers {
                            shift: true,
                            control: self.modifiers.control,
                            alt: self.modifiers.alt,
                            logo: self.modifiers.logo,
                            hyper: self.modifiers.hyper,
                            meta: self.modifiers.meta,
                        },
                        kind: self.kind,
                        state: self.state,
                    }
                } else if self.modifiers.shift {
                    KeyEvent {
                        code: KeyCode::Char(ascii_uppercase(c)),
                        modifiers: self.modifiers,
                        kind: self.kind,
                        state: self.state,
                    }
                } else {
                    *self
                }
            },
            _ => *self,
        }
    }

    /// Returns whether two key presses count as the same key.
    pub fn matches(&self, other: &KeyEvent) -> (same: bool)
        ensures
            same == self.same_key(*other),
    {
        self.normalize_case() == other.normalize_case()
    }
}

/// Normalizing a key press twice changes nothing more.
pub proof fn lemma_normalized_idempotent(key: KeyEvent)
    ensures
        key.normalized().normalized() == key.normalized(),
{
}

/// Counting as the same key is an equivalence: every key press is the same
/// key as itself, in either order, and through a third.
pub proof fn lemma_same_key_equivalence(a: KeyEvent, b: KeyEvent, c: KeyEvent)
    ensures
        a.same_key(a),
        a.same_key(b) == b.same_key(a),
        a.same_key(b) && b.same_key(c) ==> a.same_key(c),
        a.same_key(a.normalized()),
{
    lemma_normalized_idempotent(a);
}

/// A key that is no character, and a character that is no capital letter
/// pressed without Shift, is the same key only as itself.
pub proof fn lemma_plain_key_matches_itself(key: KeyEvent, other: KeyEvent)
    requires
        key.normalized() == key,
        other.normalized() == other,
    ensures
        key.same_key(other) == (key == other),
{
}

/// What `char::to_uppercase` yields for a character: the characters of its
/// Unicode upper-case mapping, in order.
pub uninterp spec fn uppercase_of(c: char) -> Seq<char>;

/// `char::to_uppercase` of std, collected into a `String`. The result holds
/// the characters that `uppercase_of` names for the same character.
#[verifier::external_body]
fn char_to_uppercase(c: char) -> (upper: String)
    ensures
        upper@ == uppercase_of(c),
{
    c.to_uppercase().collect()
}

/// The text that stands for the modifiers of a key combination: Shift,
/// Control, Alt and Super in this order, each followed by a plus sign.
pub open spec fn modifier_prefix(modifiers: KeyModifiers) -> Seq<char> {
    (if modifiers.shift {
        "⇧+"@
    } else {
        Seq::empty()
    }) + (if modifiers.control {
        "Ctrl+"@
    } else {
        Seq::empty()
    }) + (if modifiers.alt {
        "Alt+"@
    } else {
        Seq::empty()
    }) + (if modifiers.logo {
        "Super+"@
    } else {
        Seq::empty()
    })
}

/// The text that stands for a key. `upper` is the text of a character key.
/// A key without a name has the empty text.
pub open spec fn key_name(code: KeyCode, upper: Seq<char>) -> Seq<char> {
    match code {
        KeyCode::Backspace => "Backspace"@,
        KeyCode::Enter => "Enter"@,
        KeyCode::Left => "←"@,
        KeyCode::Right => "→"@,
        KeyCode::Up => "↑"@,
        KeyCode::Down => "↓"@,
        KeyCode::Home => "Home"@,
        KeyCode::End => "End"@,
        KeyCode::PageUp => "PgUp"@,
        KeyCode::PageDown => "PgDown"@,
        KeyCode::Tab => "Tab"@,
        KeyCode::BackTab => "⇧+Tab"@,
        KeyCode::Delete => "Del"@,
        KeyCode::F(n) => "F"@ + decimal_text(n as nat),
        KeyCode::Char(_) => upper,
        KeyCode::Esc => "Esc"@,
        _ => Seq::empty(),
    }
}

/// The text of a key combination: the modifiers, then the key.
pub open spec fn key_combo(key: KeyEvent, upper: Seq<char>) -> Seq<char> {
    modifier_prefix(key.modifiers) + key_name(key.code, upper)
}

/// The upper-case text of a character key, and the empty text for any other
/// key.
pub open spec fn upper_text(code: KeyCode) -> Seq<char> {
    match code {
        KeyCode::Char(c) => uppercase_of(c),
        _ => Seq::empty(),
    }
}

/// Returns the decimal representation of `n`.
pub fn decimal_string(n: u8) -> (text: String)
    ensures
        text@ == decimal_text(n as nat),
{
    let mut digits: Vec<char> = Vec::new();
    if n >= 100 {
        digits.push(digit_of(n / 100));
        proof {
            assert(digits@ =~= decimal_text((n / 100) as nat));
        }
    }
    if n >= 10 {
        digits.push(digit_of((n / 10) % 10));
        proof {
            assert((n as nat / 10) % 10 == ((n / 10) % 10) as nat);
            assert((n as nat / 10) / 10 == (n / 100) as nat);
            if n < 100 {
                assert(digits@ =~= seq![digit_char((n / 10) as nat)]);
            }
            assert(digits@ =~= decimal_text((n / 10) as nat));
        }
    }
    digits.push(digit_of(n % 10));
    proof {
        if n < 10 {
            assert(digits@ =~= seq![digit_char(n as nat)]);
        }
    }
    string_from_chars(&digits)
}

/// Returns the decimal digit that stands for `d`.
fn digit_of(d: u8) -> (c: char)
    requires
        d < 10,
    ensures
        c == digit_char(d as nat),
{
    (48 + d) as char
}

/// Returns the text that stands for a key, given the upper-case text of a
/// character key.
pub fn key_label(code: &KeyCode, upper: &str) -> (name: String)
    ensures
        name@ == key_name(*code, upper@),
{
    match code {
        KeyCode::Backspace => "Backspace".to_owned(),
        KeyCode::Enter => "Enter".to_owned(),
        KeyCode::Left => "←".to_owned(),
        KeyCode::Right => "→".to_owned(),
        KeyCode::Up => "↑".to_owned(),
        KeyCode::Down => "↓".to_owned(),
        KeyCode::Home => "Home".to_owned(),
        KeyCode::End => "End".to_owned(),
        KeyCode::PageUp => "PgUp".to_owned(),
        KeyCode::PageDown => "PgDown".to_owned(),
        KeyCode::Tab => "Tab".to_owned(),
        KeyCode::BackTab => "⇧+Tab".to_owned(),
        KeyCode::Delete => "Del".to_owned(),
        KeyCode::F(n) => {
            let mut name = "F".to_owned();
            let number = decimal_string(*n);
            name.append(number.as_str());
            name
        },
        KeyCode::Char(_) => upper.to_owned(),
        KeyCode::Esc => "Esc".to_owned(),
        _ => {
            let name = String::new();
            name
        },
    }
}

/// Returns the text of a key combination, given the upper-case text of a
/// character key: the held modifiers among Shift, Control, Alt and Super in
/// this order, then the key, all joined by plus signs.
pub fn combo_label(key: &KeyEvent, upper: &str) -> (text: String)
    ensures
        text@ == key_combo(*key, upper@),
{
    let mut text = String::new();
    if key.modifiers.shift {
        text.append("⇧+");
    }
    if key.modifiers.control {
        text.append("Ctrl+");
    }
    if key.modifiers.alt {
        text.append("Alt+");
    }
    if key.modifiers.logo {
        text.append("Super+");
    }
    proof {
        assert(text@ =~= modifier_prefix(key.modifiers));
    }
    let name = key_label(&key.code, upper);
    text.append(name.as_str());
    text
}

/// What can show a key combination to the user.
pub trait DisplayKeyCombo {
    /// The user-facing text of the key combination.
    spec fn combo_text(&self) -> Seq<char>;

    /// Returns a user-facing representation of a key combination.
    fn display_key_combo(&self) -> (text: String)
        ensures
            text@ == self.combo_text(),
    ;
}

impl DisplayKeyCombo for KeyEvent {
    open spec fn combo_text(&self) -> Seq<char> {
        key_combo(*self, upper_text(self.code))
    }

    fn display_key_combo(&self) -> (text: String) {
        let upper = match self.code {
            KeyCode::Char(c) => char_to_uppercase(c),
            _ => String::new(),
        };
        combo_label(self, upper.as_str())
    }
}

} // verus!

//! Key bindings as data, and the lookup of a key press in them.
use vstd::prelude::*;
use vstd::view::View as _;
use crate::view::View;

verus! {

/// A key on the keyboard.
#[derive(Clone, Copy, PartialEq, Eq, Structural, Debug)]
pub enum KeyCode {
    Char(char),
    Up,
    Down,
    Left,
    Right,
    Enter,
    Esc,
    Tab,
    BackTab,
    Backspace,
    PageUp,
    PageDown,
    Other,
}

/// The modifier keys held with a key.
#[derive(Clone, Copy, PartialEq, Eq, Structural, Debug)]
pub struct KeyModifiers {
    pub shift: bool,
    pub control: bool,
    pub alt: bool,
}

pub open spec fn plain_mods() -> KeyModifiers {
    KeyModifiers { shift: false, control: false, alt: false }
}

pub open spec fn ctrl_mods() -> KeyModifiers {
    KeyModifiers { shift: false, control: true, alt: false }
}

pub open spec fn shift_mods() -> KeyModifiers {
    KeyModifiers { shift: true, control: false, alt: false }
}

/// Whether every modifier of `inner` is held in `outer`.
pub open spec fn holds_all(outer: KeyModifiers, inner: KeyModifiers) -> bool {
    (inner.shift ==> outer.shift) && (inner.control ==> outer.control) && (inner.alt
        ==> outer.alt)
}

impl KeyModifiers {
    /// No modifier held.
    pub fn none() -> (r: KeyModifiers)
        ensures
            r == plain_mods(),
    {
        KeyModifiers { shift: false, control: false, alt: false }
    }

    /// Control alone.
    pub fn control() -> (r: KeyModifiers)
        ensures
            r == ctrl_mods(),
    {
        KeyModifiers { shift: false, control: true, alt: false }
    }

    /// Shift alone.
    pub fn shifted() -> (r: KeyModifiers)
        ensures
            r == shift_mods(),
    {
        KeyModifiers { shift: true, control: false, alt: false }
    }

    pub fn contains(&self, other: KeyModifiers) -> (r: bool)
        ensures
            r == holds_all(*self, other),
    {
        (!other.shift || self.shift) && (!other.control || self.control) && (!other.alt
            || self.alt)
    }
}

/// A key press.
#[derive(Clone, Copy, PartialEq, Eq, Structural, Debug)]
pub struct KeyEvent {
    pub code: KeyCode,
    pub modifiers: KeyModifiers,
}

impl KeyEvent {
    pub fn new(code: KeyCode, modifiers: KeyModifiers) -> (r: KeyEvent)
        ensures
            r == (KeyEvent { code, modifiers }),
    {
        KeyEvent { code, modifiers }
    }
}

/// What a key press asks for.
#[derive(Clone, Copy, Debug, PartialEq, Eq, Structural)]
pub enum Action {
    Quit,
    Back,
    NavigateTo(View),
    CursorUp,
    CursorDown,
    ScrollUp,
    ScrollDown,
    PageUp,
    PageDown,
    Select,
    Submit,
    FocusNext,
    FocusPrev,
    Backspace,
    TypeChar(char),
}

/// A key, with the modifiers it needs, and its action.
#[derive(Clone, Copy, PartialEq, Eq, Structural, Debug)]
pub struct KeyBinding {
    pub code: KeyCode,
    pub modifiers: KeyModifiers,
    pub action: Action,
}

impl KeyBinding {
    /// A binding with no modifier.
    pub fn new(code: KeyCode, action: Action) -> (r: KeyBinding)
        ensures
            r == (KeyBinding { code, modifiers: plain_mods(), action }),
    {
        KeyBinding { code, modifiers: KeyModifiers::none(), action }
    }

    /// A binding that needs Control.
    pub fn ctrl(code: KeyCode, action: Action) -> (r: KeyBinding)
        ensures
            r == (KeyBinding { code, modifiers: ctrl_mods(), action }),
    {
        KeyBinding { code, modifiers: KeyModifiers::control(), action }
    }

    /// A binding that needs Shift.
    pub fn shift(code: KeyCode, action: Action) -> (r: KeyBinding)
        ensures
            r == (KeyBinding { code, modifiers: shift_mods(), action }),
    {
        KeyBinding { code, modifiers: KeyModifiers::shifted(), action }
    }
}

pub open spec fn bind(code: KeyCode, modifiers: KeyModifiers, action: Action) -> KeyBinding {
    KeyBinding { code, modifiers, action }
}

pub open spec fn binding_matches(b: KeyBinding, key: KeyEvent) -> bool {
    b.code == key.code && holds_all(key.modifiers, b.modifiers)
}

/// The action of the first binding that `key` matches.
pub open spec fn first_match(keymap: Seq<KeyBinding>, key: KeyEvent) -> Option<Action>
    decreases keymap.len(),
{
    if keymap.len() == 0 {
        None
    } else if binding_matches(keymap[0], key) {
        Some(keymap[0].action)
    } else {
        first_match(keymap.drop_first(), key)
    }
}

/// The action of the first binding in `keymap` that `key` matches.
pub fn match_key(key: KeyEvent, keymap: &[KeyBinding]) -> (r: Option<Action>)
    ensures
        r == first_match(keymap@, key),
{
    let mut i: usize = 0;
    assert(keymap@.skip(0) == keymap@);
    while i < keymap.len()
        invariant
            i <= keymap@.len(),
            first_match(keymap@, key) == first_match(keymap@.skip(i as int), key),
        decreases keymap@.len() - i,
    {
        let b = keymap[i];
        assert(keymap@.skip(i as int)[0] == b);
        assert(keymap@.skip(i as int).drop_first() == keymap@.skip(i as int + 1));
        if b.code == key.code && key.modifiers.contains(b.modifiers) {
            return Some(b.action);
        }
        i += 1;
    }
    None
}

pub open spec fn global_bindings() -> Seq<KeyBinding> {
    seq![bind(KeyCode::Char('c'), ctrl_mods(), Action::Quit)]
}

/// Keys that work everywhere.
pub fn global_keys() -> (r: Vec<KeyBinding>)
    ensures
        r@ == global_bindings(),
{
    vec![KeyBinding::ctrl(KeyCode::Char('c'), Action::Quit)]
}

pub open spec fn home_bindings() -> Seq<KeyBinding> {
    seq![
        bind(KeyCode::Up, plain_mods(), Action::CursorUp),
        bind(KeyCode::Char('k'), plain_mods(), Action::CursorUp),
        bind(KeyCode::Down, plain_mods(), Action::CursorDown),
        bind(KeyCode::Char('j'), plain_mods(), Action::CursorDown),
        bind(KeyCode::Enter, plain_mods(), Action::Select),
        bind(KeyCode::Char('q'), plain_mods(), Action::Quit),
    ]
}

/// Keys of the home view.
pub fn home_keys() -> (r: Vec<KeyBinding>)
    ensures
        r@ == home_bindings(),
{
    vec![
        KeyBinding::new(KeyCode::Up, Action::CursorUp),
        KeyBinding::new(KeyCode::Char('k'), Action::CursorUp),
        KeyBinding::new(KeyCode::Down, Action::CursorDown),
        KeyBinding::new(KeyCode::Char('j'), Action::CursorDown),
        KeyBinding::new(KeyCode::Enter, Action::Select),
        KeyBinding::new(KeyCode::Char('q'), Action::Quit),
    ]
}

pub open spec fn list_bindings() -> Seq<KeyBinding> {
    seq![
        bind(KeyCode::Up, plain_mods(), Action::CursorUp),
        bind(KeyCode::Char('k'), plain_mods(), Action::CursorUp),
        bind(KeyCode::Down, plain_mods(), Action::CursorDown),
        bind(KeyCode::Char('j'), plain_mods(), Action::CursorDown),
        bind(KeyCode::Enter, plain_mods(), Action::Select),
        bind(KeyCode::Esc, plain_mods(), Action::Back),
        bind(KeyCode::Char('q'), plain_mods(), Action::Back),
    ]
}

/// Keys of list views.
pub fn list_keys() -> (r: Vec<KeyBinding>)
    ensures
        r@ == list_bindings(),
{
    vec![
        KeyBinding::new(KeyCode::Up, Action::CursorUp),
        KeyBinding::new(KeyCode::Char('k'), Action::CursorUp),
        KeyBinding::new(KeyCode::Down, Action::CursorDown),
        KeyBinding::new(KeyCode::Char('j'), Action::CursorDown),
        KeyBinding::new(KeyCode::Enter, Action::Select),
        KeyBinding::new(KeyCode::Esc, Action::Back),
        KeyBinding::new(KeyCode::Char('q'), Action::Back),
    ]
}

pub open spec fn scroll_bindings() -> Seq<KeyBinding> {
    seq![
        bind(KeyCode::Up, plain_mods(), Action::ScrollUp),
        bind(KeyCode::Char('k'), plain_mods(), Action::ScrollUp),
        bind(KeyCode::Down, plain_mods(), Action::ScrollDown),
        bind(KeyCode::Char('j'), plain_mods(), Action::ScrollDown),
        bind(KeyCode::PageUp, plain_mods(), Action::PageUp),
        bind(KeyCode::Char('u'), plain_mods(), Action::PageUp),
        bind(KeyCode::PageDown, plain_mods(), Action::PageDown),
        bind(KeyCode::Char('d'), plain_mods(), Action::PageDown),
        bind(KeyCode::Esc, plain_mods(), Action::Back),
        bind(KeyCode::Char('q'), plain_mods(), Action::Back),
    ]
}

/// Keys of scrolling views.
pub fn scroll_keys() -> (r: Vec<KeyBinding>)
    ensures
        r@ == scroll_bindings(),
{
    vec![
        KeyBinding::new(KeyCode::Up, Action::ScrollUp),
        KeyBinding::new(KeyCode::Char('k'), Action::ScrollUp),
        KeyBinding::new(KeyCode::Down, Action::ScrollDown),
        KeyBinding::new(KeyCode::Char('j'), Action::ScrollDown),
        KeyBinding::new(KeyCode::PageUp, Action::PageUp),
        KeyBinding::new(KeyCode::Char('u'), Action::PageUp),
        KeyBinding::new(KeyCode::PageDown, Action::PageDown),
        KeyBinding::new(KeyCode::Char('d'), Action::PageDown),
        KeyBinding::new(KeyCode::Esc, Action::Back),
        KeyBinding::new(KeyCode::Char('q'), Action::Back),
    ]
}

pub open spec fn form_bindings() -> Seq<KeyBinding> {
    seq![
        bind(KeyCode::Tab, plain_mods(), Action::FocusNext),
        bind(KeyCode::BackTab, plain_mods(), Action::FocusPrev),
        bind(KeyCode::Tab, shift_mods(), Action::FocusPrev),
        bind(KeyCode::Enter, plain_mods(), Action::Submit),
        bind(KeyCode::Esc, plain_mods(), Action::Back),
        bind(KeyCode::Backspace, plain_mods(), Action::Backspace),
    ]
}

/// Keys of the form view.
pub fn form_keys() -> (r: Vec<KeyBinding>)
    ensures
        r@ == form_bindings(),
{
    vec![
        KeyBinding::new(KeyCode::Tab, Action::FocusNext),
        KeyBinding::new(KeyCode::BackTab, Action::FocusPrev),
        KeyBinding::shift(KeyCode::Tab, Action::FocusPrev),
        KeyBinding::new(KeyCode::Enter, Action::Submit),
        KeyBinding::new(KeyCode::Esc, Action::Back),
        KeyBinding::new(KeyCode::Backspace, Action::Backspace),
    ]
}

pub open spec fn submitted_bindings() -> Seq<KeyBinding> {
    seq![
        bind(KeyCode::Esc, plain_mods(), Action::Back),
        bind(KeyCode::Char('q'), plain_mods(), Action::Back),
    ]
}

/// Keys of a submitted form.
pub fn submitted_keys() -> (r: Vec<KeyBinding>)
    ensures
        r@ == submitted_bindings(),
{
    vec![
        KeyBinding::new(KeyCode::Esc, Action::Back),
        KeyBinding::new(KeyCode::Char('q'), Action::Back),
    ]
}

} // verus!

verus! {

/// The view a key press jumps to by its shortcut, if any.
pub open spec fn shortcut_target(key: KeyEvent) -> Option<View> {
    match key.code {
        KeyCode::Char(c) => crate::view::view_for_shortcut(c),
        _ => None,
    }
}

/// The view a key press jumps to by its shortcut, if any.
pub fn shortcut_view(key: KeyEvent) -> (r: Option<View>)
    ensures
        r == shortcut_target(key),
{
    match key.code {
        KeyCode::Char(c) => View::from_shortcut(c),
        _ => None,
    }
}

} // verus!

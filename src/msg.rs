//! Messages exchanged between the application's components.
use vstd::prelude::*;

verus! {

/// Application messages.
#[derive(Clone, Debug)]
pub enum Msg {
    NavigateTo(ViewId),
    GoBack,
    Quit,
    Tick,
    ScrollUp,
    ScrollDown,
    PageUp,
    PageDown,
    CursorUp,
    CursorDown,
    Select,
    FocusNext,
    FocusPrev,
    TypeChar(char),
    Backspace,
    Submit,
    UpdateStatus(String),
    ShowError(String),
    Noop,
}

/// Identifiers of the application's views.
#[derive(Debug, Clone, Copy, PartialEq, Eq, Structural, Hash)]
pub enum ViewId {
    Loading,
    Home,
    Resume,
    Blog,
    Projects,
    Contact,
}

pub open spec fn id_shortcut(v: ViewId) -> Option<char> {
    match v {
        ViewId::Home => Some('h'),
        ViewId::Resume => Some('r'),
        ViewId::Blog => Some('b'),
        ViewId::Projects => Some('p'),
        ViewId::Contact => Some('c'),
        ViewId::Loading => None,
    }
}

pub open spec fn id_from_shortcut(c: char) -> Option<ViewId> {
    if c == 'h' {
        Some(ViewId::Home)
    } else if c == 'r' {
        Some(ViewId::Resume)
    } else if c == 'b' {
        Some(ViewId::Blog)
    } else if c == 'p' {
        Some(ViewId::Projects)
    } else if c == 'c' {
        Some(ViewId::Contact)
    } else {
        None
    }
}

/// A view reached by its shortcut key is the view with that shortcut, and
/// every view that has a shortcut is reached by it.
pub proof fn lemma_shortcut_round_trip(v: ViewId, c: char)
    ensures
        id_shortcut(v) == Some(c) ==> id_from_shortcut(c) == Some(v),
        id_from_shortcut(c) == Some(v) ==> id_shortcut(v) == Some(c),
{
}

impl ViewId {
    /// The shortcut key of this view; the loading screen has none.
    pub fn shortcut(&self) -> (r: Option<char>)
        ensures
            r == id_shortcut(*self),
    {
        match self {
            ViewId::Home => Some('h'),
            ViewId::Resume => Some('r'),
            ViewId::Blog => Some('b'),
            ViewId::Projects => Some('p'),
            ViewId::Contact => Some('c'),
            ViewId::Loading => None,
        }
    }

    /// The view whose shortcut key is `c`.
    pub fn from_shortcut(c: char) -> (r: Option<ViewId>)
        ensures
            r == id_from_shortcut(c),
    {
        match c {
            'h' => Some(ViewId::Home),
            'r' => Some(ViewId::Resume),
            'b' => Some(ViewId::Blog),
            'p' => Some(ViewId::Projects),
            'c' => Some(ViewId::Contact),
            _ => None,
        }
    }
}

} // verus!

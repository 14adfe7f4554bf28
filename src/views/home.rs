//! The home screen: logo, typewriter line and the navigation menu.
use vstd::prelude::*;
use vstd::view::View as _;
use crate::keymap::{first_match, home_bindings, home_keys, match_key, shortcut_target, shortcut_view, Action, KeyEvent};
use crate::view::{menu_view, View, ViewResult, VIEW_COUNT};
use crate::widgets::typewriter::TypewriterState;

verus! {

/// Home screen state.
pub struct HomeView {
    pub cursor: usize,
    pub typewriter: TypewriterState,
}

/// The menu entry under a cursor position.
pub open spec fn menu_choice(cursor: usize) -> Option<View> {
    if cursor < VIEW_COUNT {
        Some(menu_view(cursor as int))
    } else {
        None
    }
}

/// The home screen's answer to a key, and its new cursor.
pub open spec fn home_key(cursor: usize, key: KeyEvent) -> (usize, ViewResult) {
    if shortcut_target(key) is Some {
        (cursor, ViewResult::NavigateTo(shortcut_target(key)->0))
    } else {
        match first_match(home_bindings(), key) {
            Some(Action::Quit) => (cursor, ViewResult::Quit),
            Some(Action::CursorUp) => (
                if cursor > 0 {
                    (cursor - 1) as usize
                } else {
                    cursor
                },
                ViewResult::Handled,
            ),
            Some(Action::CursorDown) => (
                if cursor + 1 < VIEW_COUNT {
                    (cursor + 1) as usize
                } else {
                    cursor
                },
                ViewResult::Handled,
            ),
            Some(Action::Select) => (
                cursor,
                match menu_choice(cursor) {
                    Some(v) => ViewResult::NavigateTo(v),
                    None => ViewResult::Handled,
                },
            ),
            _ => (cursor, ViewResult::Ignored),
        }
    }
}

impl HomeView {
    /// The menu with the cursor on its first entry, and a typewriter over
    /// `phrases` started at `now`.
    pub fn new(phrases: &[&str], now: u64) -> (r: HomeView)
        ensures
            r.cursor == 0,
            r.typewriter.inv(),
            r.typewriter.phrases@.len() == phrases@.len(),
            r.typewriter.last_tick == now,
    {
        HomeView { cursor: 0, typewriter: TypewriterState::new(phrases, now) }
    }

    pub fn cursor_up(&mut self)
        ensures
            final(self).cursor == if old(self).cursor > 0 {
                old(self).cursor - 1
            } else {
                0
            },
            final(self).typewriter == old(self).typewriter,
    {
        if self.cursor > 0 {
            self.cursor -= 1;
        }
    }

    /// Down one entry, stopping at the last.
    pub fn cursor_down(&mut self)
        ensures
            final(self).cursor == if old(self).cursor + 1 < VIEW_COUNT {
                old(self).cursor + 1
            } else {
                old(self).cursor as int
            },
            final(self).typewriter == old(self).typewriter,
    {
        if self.cursor < VIEW_COUNT - 1 {
            self.cursor += 1;
        }
    }

    /// The view of the entry under the cursor.
    pub fn selected_view(&self) -> (r: Option<View>)
        ensures
            r == menu_choice(self.cursor),
    {
        match self.cursor {
            0 => Some(View::Home),
            1 => Some(View::Resume),
            2 => Some(View::Blog),
            3 => Some(View::Projects),
            4 => Some(View::Contact),
            _ => None,
        }
    }

    /// Handles a key press.
    pub fn handle_key(&mut self, key: KeyEvent) -> (r: ViewResult)
        ensures
            (final(self).cursor, r) == home_key(old(self).cursor, key),
            final(self).typewriter == old(self).typewriter,
    {
        if let Some(view) = shortcut_view(key) {
            return ViewResult::NavigateTo(view);
        }
        let keys = home_keys();
        match match_key(key, keys.as_slice()) {
            Some(Action::Quit) => ViewResult::Quit,
            Some(Action::CursorUp) => {
                self.cursor_up();
                ViewResult::Handled
            },
            Some(Action::CursorDown) => {
                self.cursor_down();
                ViewResult::Handled
            },
            Some(Action::Select) => match self.selected_view() {
                Some(view) => ViewResult::NavigateTo(view),
                None => ViewResult::Handled,
            },
            _ => ViewResult::Ignored,
        }
    }

    /// Advances the typewriter.
    pub fn tick(&mut self, now: u64)
        requires
            old(self).typewriter.inv(),
        ensures
            final(self).cursor == old(self).cursor,
            final(self).typewriter.inv(),
            old(self).typewriter.phrases@.len() == 0 || crate::monitor::elapsed(
                old(self).typewriter.last_tick,
                now,
            ) < crate::widgets::typewriter::delay_of(
                old(self).typewriter.config,
                old(self).typewriter.animation_state,
            ) ==> final(self).typewriter == old(self).typewriter,
            old(self).typewriter.phrases@.len() > 0 && crate::monitor::elapsed(
                old(self).typewriter.last_tick,
                now,
            ) >= crate::widgets::typewriter::delay_of(
                old(self).typewriter.config,
                old(self).typewriter.animation_state,
            ) ==> final(self).typewriter.last_tick == now && final(self).typewriter.stepped_from(
                old(self).typewriter,
            ),
    {
        self.typewriter.tick(now);
    }
}

} // verus!

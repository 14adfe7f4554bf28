//! The projects screen: a list of project cards.
use vstd::prelude::*;
use crate::keymap::{first_match, list_bindings, list_keys, match_key, shortcut_target, shortcut_view, Action, KeyEvent};
use crate::view::ViewResult;

verus! {

/// Projects screen state.
#[derive(Clone, Copy, PartialEq, Eq, Structural, Debug)]
pub struct ProjectsView {
    pub cursor: usize,
    pub project_count: usize,
}

pub open spec fn projects_key(s: ProjectsView, key: KeyEvent) -> (ProjectsView, ViewResult) {
    if shortcut_target(key) is Some {
        (s, ViewResult::NavigateTo(shortcut_target(key)->0))
    } else {
        match first_match(list_bindings(), key) {
            Some(Action::Back) => (s, ViewResult::Back),
            Some(Action::CursorUp) => (
                if s.cursor > 0 {
                    ProjectsView { cursor: (s.cursor - 1) as usize, ..s }
                } else {
                    s
                },
                ViewResult::Handled,
            ),
            Some(Action::CursorDown) => (
                if s.cursor + 1 < s.project_count {
                    ProjectsView { cursor: (s.cursor + 1) as usize, ..s }
                } else {
                    s
                },
                ViewResult::Handled,
            ),
            _ => (s, ViewResult::Ignored),
        }
    }
}

impl ProjectsView {
    /// The list of `project_count` projects, cursor on the first.
    pub fn new(project_count: usize) -> (r: ProjectsView)
        ensures
            r == (ProjectsView { cursor: 0, project_count }),
    {
        ProjectsView { cursor: 0, project_count }
    }

    /// Up one project, stopping at the first.
    pub fn cursor_up(&mut self)
        ensures
            final(self).project_count == old(self).project_count,
            final(self).cursor == if old(self).cursor > 0 {
                old(self).cursor - 1
            } else {
                0
            },
    {
        if self.cursor > 0 {
            self.cursor -= 1;
        }
    }

    /// Down one project, stopping at the last.
    pub fn cursor_down(&mut self)
        ensures
            final(self).project_count == old(self).project_count,
            final(self).cursor == if old(self).cursor + 1 < old(self).project_count {
                old(self).cursor + 1
            } else {
                old(self).cursor as int
            },
    {
        if self.cursor < self.project_count && self.cursor + 1 < self.project_count {
            self.cursor += 1;
        }
    }

    /// Handles a key press.
    pub fn handle_key(&mut self, key: KeyEvent) -> (r: ViewResult)
        ensures
            (*final(self), r) == projects_key(*old(self), key),
    {
        if let Some(view) = shortcut_view(key) {
            return ViewResult::NavigateTo(view);
        }
        let keys = list_keys();
        match match_key(key, keys.as_slice()) {
            Some(Action::Back) => ViewResult::Back,
            Some(Action::CursorUp) => {
                self.cursor_up();
                ViewResult::Handled
            },
            Some(Action::CursorDown) => {
                self.cursor_down();
                ViewResult::Handled
            },
            _ => ViewResult::Ignored,
        }
    }
}

} // verus!

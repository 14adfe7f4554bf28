//! The blog screen: a list of posts and the detail of one.
use vstd::prelude::*;
use crate::keymap::{first_match, list_bindings, list_keys, match_key, shortcut_target, shortcut_view, Action, KeyEvent};
use crate::view::ViewResult;

verus! {

/// Whether the list or one post is shown.
#[derive(Clone, Copy, PartialEq, Eq, Structural, Debug)]
pub enum BlogMode {
    List,
    Detail,
}

/// Blog screen state.
#[derive(Clone, Copy, PartialEq, Eq, Structural, Debug)]
pub struct BlogView {
    pub mode: BlogMode,
    pub cursor: usize,
    pub selected_idx: Option<usize>,
    pub viewport: usize,
    pub max_scroll: usize,
    pub post_count: usize,
}

pub open spec fn blog_up(s: BlogView) -> BlogView {
    match s.mode {
        BlogMode::List => if s.cursor > 0 {
            BlogView { cursor: (s.cursor - 1) as usize, ..s }
        } else {
            s
        },
        BlogMode::Detail => if s.viewport > 0 {
            BlogView { viewport: (s.viewport - 1) as usize, ..s }
        } else {
            s
        },
    }
}

pub open spec fn blog_down(s: BlogView) -> BlogView {
    match s.mode {
        BlogMode::List => if s.cursor + 1 < s.post_count {
            BlogView { cursor: (s.cursor + 1) as usize, ..s }
        } else {
            s
        },
        BlogMode::Detail => if s.viewport < s.max_scroll {
            BlogView { viewport: (s.viewport + 1) as usize, ..s }
        } else {
            s
        },
    }
}

pub open spec fn blog_select(s: BlogView) -> BlogView {
    if s.mode == BlogMode::List && s.post_count > 0 {
        BlogView {
            selected_idx: Some(s.cursor),
            mode: BlogMode::Detail,
            viewport: 0,
            max_scroll: 0,
            ..s
        }
    } else {
        s
    }
}

pub open spec fn blog_back(s: BlogView) -> BlogView {
    if s.mode == BlogMode::Detail {
        BlogView { mode: BlogMode::List, selected_idx: None, viewport: 0, max_scroll: 0, ..s }
    } else {
        s
    }
}

/// The blog screen's answer to a key: shortcuts jump away from the list;
/// list keys move, open and close posts.
pub open spec fn blog_key(s: BlogView, key: KeyEvent) -> (BlogView, ViewResult) {
    if s.mode == BlogMode::List && shortcut_target(key) is Some {
        (s, ViewResult::NavigateTo(shortcut_target(key)->0))
    } else {
        match first_match(list_bindings(), key) {
            Some(Action::Back) => if s.mode == BlogMode::Detail {
                (blog_back(s), ViewResult::Handled)
            } else {
                (s, ViewResult::Back)
            },
            Some(Action::CursorUp) => (blog_up(s), ViewResult::Handled),
            Some(Action::CursorDown) => (blog_down(s), ViewResult::Handled),
            Some(Action::Select) => (blog_select(s), ViewResult::Handled),
            _ => (s, ViewResult::Ignored),
        }
    }
}

impl BlogView {
    pub open spec fn new_spec(post_count: usize) -> BlogView {
        BlogView {
            mode: BlogMode::List,
            cursor: 0,
            selected_idx: None,
            viewport: 0,
            max_scroll: 0,
            post_count,
        }
    }

    /// The list of `post_count` posts, cursor on the first.
    pub fn new(post_count: usize) -> (r: BlogView)
        ensures
            r == BlogView::new_spec(post_count),
    {
        BlogView {
            mode: BlogMode::List,
            cursor: 0,
            selected_idx: None,
            viewport: 0,
            max_scroll: 0,
            post_count,
        }
    }

    /// Up one post in the list, or one line in a post.
    pub fn cursor_up(&mut self)
        ensures
            *final(self) == blog_up(*old(self)),
    {
        match self.mode {
            BlogMode::List => {
                if self.cursor > 0 {
                    self.cursor -= 1;
                }
            },
            BlogMode::Detail => {
                if self.viewport > 0 {
                    self.viewport -= 1;
                }
            },
        }
    }

    /// Down one post in the list (stopping at the last), or one line in a
    /// post (stopping at the end).
    pub fn cursor_down(&mut self)
        ensures
            *final(self) == blog_down(*old(self)),
    {
        match self.mode {
            BlogMode::List => {
                if self.cursor < self.post_count && self.cursor + 1 < self.post_count {
                    self.cursor += 1;
                }
            },
            BlogMode::Detail => {
                if self.viewport < self.max_scroll {
                    self.viewport += 1;
                }
            },
        }
    }

    /// Opens the post under the cursor.
    pub fn select(&mut self)
        ensures
            *final(self) == blog_select(*old(self)),
    {
        if self.mode == BlogMode::List && self.post_count > 0 {
            self.selected_idx = Some(self.cursor);
            self.mode = BlogMode::Detail;
            self.viewport = 0;
            self.max_scroll = 0;
        }
    }

    /// Closes an open post; `false` when the list was shown already.
    pub fn back(&mut self) -> (r: bool)
        ensures
            r == (old(self).mode == BlogMode::Detail),
            *final(self) == blog_back(*old(self)),
    {
        if self.mode == BlogMode::Detail {
            self.mode = BlogMode::List;
            self.selected_idx = None;
            self.viewport = 0;
            self.max_scroll = 0;
            true
        } else {
            false
        }
    }

    /// Sets the scroll bound for content of `content_length` lines shown
    /// `viewable_height` at a time, and keeps the viewport within it.
    pub fn fit_viewport(&mut self, content_length: usize, viewable_height: usize)
        ensures
            final(self).max_scroll == if content_length > viewable_height {
                content_length - viewable_height
            } else {
                0
            },
            final(self).viewport == if old(self).viewport < final(self).max_scroll {
                old(self).viewport
            } else {
                final(self).max_scroll
            },
            final(self).mode == old(self).mode,
            final(self).cursor == old(self).cursor,
            final(self).selected_idx == old(self).selected_idx,
            final(self).post_count == old(self).post_count,
    {
        self.max_scroll = content_length.saturating_sub(viewable_height);
        if self.viewport > self.max_scroll {
            self.viewport = self.max_scroll;
        }
    }

    /// Handles a key press.
    pub fn handle_key(&mut self, key: KeyEvent) -> (r: ViewResult)
        ensures
            (*final(self), r) == blog_key(*old(self), key),
    {
        if self.mode == BlogMode::List {
            if let Some(view) = shortcut_view(key) {
                return ViewResult::NavigateTo(view);
            }
        }
        let keys = list_keys();
        match match_key(key, keys.as_slice()) {
            Some(Action::Back) => {
                if self.back() {
                    ViewResult::Handled
                } else {
                    ViewResult::Back
                }
            },
            Some(Action::CursorUp) => {
                self.cursor_up();
                ViewResult::Handled
            },
            Some(Action::CursorDown) => {
                self.cursor_down();
                ViewResult::Handled
            },
            Some(Action::Select) => {
                self.select();
                ViewResult::Handled
            },
            _ => ViewResult::Ignored,
        }
    }
}

} // verus!

//! The resume screen: scrolled markdown.
use vstd::prelude::*;
use crate::keymap::{first_match, match_key, scroll_bindings, scroll_keys, shortcut_target, shortcut_view, Action, KeyEvent};
use crate::view::ViewResult;
use crate::text::text_lines;
use crate::widgets::markdown::Markdown;
use crate::widgets::text_wrap::texts;

verus! {

/// Lines moved by a page step.
pub const PAGE_LINES: usize = 10;

/// Resume screen state.
pub struct ResumeView {
    pub viewport: usize,
    pub max_scroll: usize,
    pub last_width: u16,
    pub markdown: Markdown,
    pub text: String,
}

/// The viewport after a key press, from the viewport and bound before it.
pub open spec fn scrolled(viewport: usize, max_scroll: usize, a: Action) -> usize {
    match a {
        Action::ScrollUp => if viewport > 0 {
            (viewport - 1) as usize
        } else {
            viewport
        },
        Action::ScrollDown => if viewport < max_scroll {
            (viewport + 1) as usize
        } else {
            viewport
        },
        Action::PageUp => if viewport >= PAGE_LINES {
            (viewport - PAGE_LINES) as usize
        } else {
            0
        },
        Action::PageDown => if viewport + PAGE_LINES < max_scroll {
            (viewport + PAGE_LINES) as usize
        } else {
            max_scroll
        },
        _ => viewport,
    }
}

/// The resume screen's answer to a key, and its new viewport.
pub open spec fn resume_key(viewport: usize, max_scroll: usize, key: KeyEvent) -> (usize, ViewResult) {
    if shortcut_target(key) is Some {
        (viewport, ViewResult::NavigateTo(shortcut_target(key)->0))
    } else {
        match first_match(scroll_bindings(), key) {
            Some(Action::Back) => (viewport, ViewResult::Back),
            Some(a) => if a == Action::ScrollUp || a == Action::ScrollDown || a == Action::PageUp
                || a == Action::PageDown {
                (scrolled(viewport, max_scroll, a), ViewResult::Handled)
            } else {
                (viewport, ViewResult::Ignored)
            },
            None => (viewport, ViewResult::Ignored),
        }
    }
}

impl ResumeView {
    /// The resume `text`, unwrapped, shown from its top.
    pub fn new(text: &str) -> (r: ResumeView)
        ensures
            r.viewport == 0,
            r.max_scroll == 0,
            r.last_width == 0,
            r.markdown.lines@.len() == text_lines(text@).len(),
            r.text@ == text@,
            r.markdown.wrap_width is None,
    {
        ResumeView {
            viewport: 0,
            max_scroll: 0,
            last_width: 0,
            markdown: Markdown::new(text),
            text: text.to_owned(),
        }
    }

    /// Re-wraps the text when the terminal width changes (two columns go to
    /// the scroll bar) and goes back to the top.
    pub fn update_wrap(&mut self, width: u16)
        ensures
            final(self).text == old(self).text,
            final(self).max_scroll == old(self).max_scroll,
            if width != old(self).last_width && width > 0 {
                let w = if width >= 2 {
                    width - 2
                } else {
                    0
                };
                &&& final(self).last_width == width
                &&& final(self).viewport == 0
                &&& final(self).markdown.wrap_width == Some(w as usize)
                &&& w > 0 ==> texts(final(self).markdown.lines@)
                    == crate::widgets::text_wrap::wrap_all(text_lines(old(self).text@), w)
                &&& w == 0 ==> texts(final(self).markdown.lines@) == seq![old(self).text@]
            } else {
                &&& final(self).last_width == old(self).last_width
                &&& final(self).viewport == old(self).viewport
                &&& final(self).markdown == old(self).markdown
            },
    {
        if width != self.last_width && width > 0 {
            let wrap_width = width.saturating_sub(2) as usize;
            self.markdown = Markdown::wrapped(self.text.as_str(), wrap_width);
            self.last_width = width;
            self.viewport = 0;
        }
    }

    pub fn scroll_up(&mut self)
        ensures
            final(self).viewport == scrolled(old(self).viewport, old(self).max_scroll, Action::ScrollUp),
            final(self).max_scroll == old(self).max_scroll,
            final(self).last_width == old(self).last_width,
            final(self).markdown == old(self).markdown,
            final(self).text == old(self).text,
    {
        if self.viewport > 0 {
            self.viewport -= 1;
        }
    }

    pub fn scroll_down(&mut self)
        ensures
            final(self).viewport == scrolled(old(self).viewport, old(self).max_scroll, Action::ScrollDown),
            final(self).max_scroll == old(self).max_scroll,
            final(self).last_width == old(self).last_width,
            final(self).markdown == old(self).markdown,
            final(self).text == old(self).text,
    {
        if self.viewport < self.max_scroll {
            self.viewport += 1;
        }
    }

    pub fn page_up(&mut self)
        ensures
            final(self).viewport == scrolled(old(self).viewport, old(self).max_scroll, Action::PageUp),
            final(self).max_scroll == old(self).max_scroll,
            final(self).last_width == old(self).last_width,
            final(self).markdown == old(self).markdown,
            final(self).text == old(self).text,
    {
        self.viewport = self.viewport.saturating_sub(PAGE_LINES);
    }

    pub fn page_down(&mut self)
        ensures
            final(self).viewport == scrolled(old(self).viewport, old(self).max_scroll, Action::PageDown),
            final(self).max_scroll == old(self).max_scroll,
            final(self).last_width == old(self).last_width,
            final(self).markdown == old(self).markdown,
            final(self).text == old(self).text,
    {
        if self.viewport < self.max_scroll && self.max_scroll - self.viewport > PAGE_LINES {
            self.viewport = self.viewport + PAGE_LINES;
        } else {
            self.viewport = self.max_scroll;
        }
    }

    /// Sets the scroll bound for `viewable_height` lines at a time and keeps
    /// the viewport within it.
    pub fn fit_viewport(&mut self, viewable_height: usize)
        ensures
            final(self).max_scroll == if old(self).markdown.lines@.len() > viewable_height {
                old(self).markdown.lines@.len() - viewable_height
            } else {
                0
            },
            final(self).viewport == if old(self).viewport < final(self).max_scroll {
                old(self).viewport
            } else {
                final(self).max_scroll
            },
            final(self).last_width == old(self).last_width,
            final(self).markdown == old(self).markdown,
            final(self).text == old(self).text,
    {
        self.max_scroll = self.markdown.len().saturating_sub(viewable_height);
        if self.viewport > self.max_scroll {
            self.viewport = self.max_scroll;
        }
    }

    /// Handles a key press.
    pub fn handle_key(&mut self, key: KeyEvent) -> (r: ViewResult)
        ensures
            (final(self).viewport, r) == resume_key(old(self).viewport, old(self).max_scroll, key),
            final(self).max_scroll == old(self).max_scroll,
            final(self).last_width == old(self).last_width,
            final(self).markdown == old(self).markdown,
            final(self).text == old(self).text,
    {
        if let Some(view) = shortcut_view(key) {
            return ViewResult::NavigateTo(view);
        }
        let keys = scroll_keys();
        match match_key(key, keys.as_slice()) {
            Some(Action::Back) => ViewResult::Back,
            Some(Action::ScrollUp) => {
                self.scroll_up();
                ViewResult::Handled
            },
            Some(Action::ScrollDown) => {
                self.scroll_down();
                ViewResult::Handled
            },
            Some(Action::PageUp) => {
                self.page_up();
                ViewResult::Handled
            },
            Some(Action::PageDown) => {
                self.page_down();
                ViewResult::Handled
            },
            _ => ViewResult::Ignored,
        }
    }
}

} // verus!

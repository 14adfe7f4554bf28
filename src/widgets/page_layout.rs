//! The standard page frame: title, help line and optional scroll indicator.
use vstd::prelude::*;

verus! {

/// What the scroll indicator shows.
#[derive(Clone, Copy, PartialEq, Eq, Structural, Debug)]
pub struct ScrollState {
    pub position: usize,
    pub content_length: usize,
    pub viewport_height: usize,
}

/// A page with a title, help text and, for long content, a scroll state.
pub struct PageLayout {
    pub title: String,
    pub help_text: String,
    pub scroll_state: Option<ScrollState>,
}

impl PageLayout {
    /// A page titled `title`, with no help text and no scroll indicator.
    pub fn new(title: &str) -> (r: PageLayout)
        ensures
            r.title@ == title@,
            r.help_text@.len() == 0,
            r.scroll_state is None,
    {
        PageLayout { title: title.to_owned(), help_text: String::new(), scroll_state: None }
    }

    /// The same page with help text `text`.
    pub fn help(self, text: &str) -> (r: PageLayout)
        ensures
            r.title == self.title,
            r.help_text@ == text@,
            r.scroll_state == self.scroll_state,
    {
        PageLayout { help_text: text.to_owned(), ..self }
    }

    /// The same page with a scroll indicator for `(position, max_scroll)`:
    /// content of `max_scroll + 1` lines seen one line at a time.
    pub fn scroll_info(self, info: Option<(usize, usize)>) -> (r: PageLayout)
        requires
            info matches Some((_, m)) ==> m < usize::MAX,
        ensures
            r.title == self.title,
            r.help_text == self.help_text,
            r.scroll_state == match info {
                Some((p, m)) => Some(
                    ScrollState { position: p, content_length: (m + 1) as usize, viewport_height: 1 },
                ),
                None => self.scroll_state,
            },
    {
        match info {
            Some((viewport, max_scroll)) => PageLayout {
                scroll_state: Some(
                    ScrollState {
                        position: viewport,
                        content_length: max_scroll + 1,
                        viewport_height: 1,
                    },
                ),
                ..self
            },
            None => self,
        }
    }

    /// The same page with a scroll indicator, when the content is taller
    /// than the viewport.
    pub fn scroll_state(self, position: usize, content_length: usize, viewport_height: usize) -> (r:
        PageLayout)
        ensures
            r.title == self.title,
            r.help_text == self.help_text,
            r.scroll_state == if content_length > viewport_height {
                Some(ScrollState { position, content_length, viewport_height })
            } else {
                self.scroll_state
            },
    {
        if content_length > viewport_height {
            PageLayout {
                scroll_state: Some(ScrollState { position, content_length, viewport_height }),
                ..self
            }
        } else {
            self
        }
    }
}

} // verus!

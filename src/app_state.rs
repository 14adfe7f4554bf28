//! The application routing keys to the active view.
use vstd::prelude::*;
use vstd::view::View as _;
use crate::keymap::{KeyCode, KeyEvent};
use crate::view::View;
use crate::views::blog::{blog_back, blog_down, blog_select, blog_up, BlogMode, BlogView};
use crate::views::contact::{
    blank_form, erased, next_field, prev_field, submitted_form, typed, ContactForm, ContactView,
};
use crate::views::home::{menu_choice, HomeView};
use crate::views::projects::ProjectsView;
use crate::views::resume::{scrolled, ResumeView};
use crate::keymap::Action;
use crate::widgets::loading::LoadingState;

verus! {

/// How long the loading screen of the application lasts, in milliseconds.
pub const APP_LOADING_MS: u64 = 5000;

/// The application: the active view, the terminal size, the loading
/// animation and the state of every view.
pub struct App {
    pub current_view: View,
    pub width: u16,
    pub height: u16,
    pub loading: LoadingState,
    pub home: HomeView,
    pub resume: ResumeView,
    pub blog: BlogView,
    pub projects: ProjectsView,
    pub contact: ContactView,
}

pub open spec fn is_char(code: KeyCode, c: char) -> bool {
    code == KeyCode::Char(c)
}

/// The home screen's routing: its new cursor, the view to show, and whether
/// to quit.
pub open spec fn home_route(cursor: usize, code: KeyCode) -> (usize, View, bool) {
    if is_char(code, 'q') {
        (cursor, View::Home, true)
    } else if code == KeyCode::Up || is_char(code, 'k') {
        (
            if cursor > 0 {
                (cursor - 1) as usize
            } else {
                cursor
            },
            View::Home,
            false,
        )
    } else if code == KeyCode::Down || is_char(code, 'j') {
        (
            if cursor + 1 < crate::view::VIEW_COUNT {
                (cursor + 1) as usize
            } else {
                cursor
            },
            View::Home,
            false,
        )
    } else if code == KeyCode::Enter {
        (
            cursor,
            match menu_choice(cursor) {
                Some(v) => v,
                None => View::Home,
            },
            false,
        )
    } else if is_char(code, 'r') {
        (cursor, View::Resume, false)
    } else if is_char(code, 'b') {
        (cursor, View::Blog, false)
    } else if is_char(code, 'p') {
        (cursor, View::Projects, false)
    } else if is_char(code, 'c') {
        (cursor, View::Contact, false)
    } else {
        (cursor, View::Home, false)
    }
}

pub open spec fn leaves(code: KeyCode) -> bool {
    code == KeyCode::Esc || is_char(code, 'q')
}

/// The resume screen's routing: its new viewport and the view to show.
pub open spec fn resume_route(viewport: usize, max_scroll: usize, code: KeyCode) -> (usize, View) {
    if leaves(code) {
        (viewport, View::Home)
    } else if code == KeyCode::Up || is_char(code, 'k') {
        (scrolled(viewport, max_scroll, Action::ScrollUp), View::Resume)
    } else if code == KeyCode::Down || is_char(code, 'j') {
        (scrolled(viewport, max_scroll, Action::ScrollDown), View::Resume)
    } else if code == KeyCode::PageUp || is_char(code, 'u') {
        (scrolled(viewport, max_scroll, Action::PageUp), View::Resume)
    } else if code == KeyCode::PageDown || is_char(code, 'd') {
        (scrolled(viewport, max_scroll, Action::PageDown), View::Resume)
    } else {
        (viewport, View::Resume)
    }
}

/// The blog screen's routing: its new state and the view to show.
pub open spec fn blog_route(s: BlogView, code: KeyCode) -> (BlogView, View) {
    if code == KeyCode::Up || is_char(code, 'k') {
        (blog_up(s), View::Blog)
    } else if code == KeyCode::Down || is_char(code, 'j') {
        (blog_down(s), View::Blog)
    } else if code == KeyCode::Enter {
        (blog_select(s), View::Blog)
    } else if leaves(code) {
        (
            blog_back(s),
            if s.mode == BlogMode::Detail {
                View::Blog
            } else {
                View::Home
            },
        )
    } else {
        (s, View::Blog)
    }
}

/// The projects screen's routing: its new cursor and the view to show.
pub open spec fn projects_route(s: ProjectsView, code: KeyCode) -> (usize, View) {
    if leaves(code) {
        (s.cursor, View::Home)
    } else if code == KeyCode::Up || is_char(code, 'k') {
        (
            if s.cursor > 0 {
                (s.cursor - 1) as usize
            } else {
                s.cursor
            },
            View::Projects,
        )
    } else if code == KeyCode::Down || is_char(code, 'j') {
        (
            if s.cursor + 1 < s.project_count {
                (s.cursor + 1) as usize
            } else {
                s.cursor
            },
            View::Projects,
        )
    } else {
        (s.cursor, View::Projects)
    }
}

/// The contact screen's routing: the new form and the view to show. A
/// submitted form only leaves, cleared.
pub open spec fn contact_route(f: ContactForm, key: KeyEvent) -> (ContactForm, View) {
    if f.submitted {
        if leaves(key.code) {
            (blank_form(), View::Home)
        } else {
            (f, View::Contact)
        }
    } else {
        match key.code {
            KeyCode::Tab => if key.modifiers.shift {
                (ContactForm { focused_field: prev_field(f.focused_field), ..f }, View::Contact)
            } else {
                (ContactForm { focused_field: next_field(f.focused_field), ..f }, View::Contact)
            },
            KeyCode::BackTab => (
                ContactForm { focused_field: prev_field(f.focused_field), ..f },
                View::Contact,
            ),
            KeyCode::Enter => (submitted_form(f), View::Contact),
            KeyCode::Esc => (f, View::Home),
            KeyCode::Backspace => (erased(f), View::Contact),
            KeyCode::Char(c) => (typed(f, c), View::Contact),
            _ => (f, View::Contact),
        }
    }
}

impl App {
    pub open spec fn wf(&self) -> bool {
        self.loading.wf() && self.home.typewriter.inv()
    }

    /// The application at startup (`now`): loading, on an 80 by 24
    /// terminal, every view at its start.
    pub fn new(
        phrases: &[&str],
        resume: &str,
        post_count: usize,
        project_count: usize,
        now: u64,
    ) -> (r: App)
        ensures
            r.wf(),
            r.current_view == View::Loading,
            r.width == 80,
            r.height == 24,
            r.loading == LoadingState::new_spec(APP_LOADING_MS, now),
            r.home.cursor == 0,
            r.resume.viewport == 0,
            r.resume.text@ == resume@,
            r.blog == BlogView::new_spec(post_count),
            r.projects == (ProjectsView { cursor: 0, project_count }),
            r.contact@ == blank_form(),
    {
        App {
            current_view: View::Loading,
            width: 80,
            height: 24,
            loading: LoadingState::new(APP_LOADING_MS, now),
            home: HomeView::new(phrases, now),
            resume: ResumeView::new(resume),
            blog: BlogView::new(post_count),
            projects: ProjectsView::new(project_count),
            contact: ContactView::new(),
        }
    }

    /// Records new terminal dimensions.
    pub fn set_size(&mut self, width: u16, height: u16)
        ensures
            final(self).width == width,
            final(self).height == height,
            final(self).current_view == old(self).current_view,
    {
        self.width = width;
        self.height = height;
    }

    /// Advances the animations at `now`; a finished loading screen gives way
    /// to home.
    pub fn tick(&mut self, now: u64)
        requires
            old(self).wf(),
        ensures
            final(self).wf(),
            final(self).width == old(self).width,
            final(self).height == old(self).height,
            final(self).home.cursor == old(self).home.cursor,
            old(self).current_view == View::Loading
                ==> final(self).current_view == if final(self).loading.complete_at(now) {
                View::Home
            } else {
                View::Loading
            },
            old(self).current_view != View::Loading
                ==> final(self).current_view == old(self).current_view
                && final(self).loading == old(self).loading,
    {
        if self.current_view == View::Loading {
            self.loading.tick(now);
            if self.loading.is_complete(now) {
                self.current_view = View::Home;
            }
        }
        self.home.tick(now);
    }

    /// Routes a key press to the active view; `true` asks to quit. Nothing
    /// happens while loading.
    pub fn handle_key(&mut self, key: KeyEvent) -> (r: bool)
        ensures
            r == (old(self).current_view == View::Home && is_char(key.code, 'q')),
            final(self).width == old(self).width,
            final(self).height == old(self).height,
            final(self).loading == old(self).loading,
            old(self).current_view == View::Loading ==> final(self).current_view == View::Loading,
            old(self).current_view == View::Home ==> {
                let (c, v, _) = home_route(old(self).home.cursor, key.code);
                final(self).home.cursor == c && final(self).current_view == v
            },
            old(self).current_view == View::Resume ==> {
                let (p, v) = resume_route(old(self).resume.viewport, old(self).resume.max_scroll, key.code);
                final(self).resume.viewport == p && final(self).current_view == v
            },
            old(self).current_view == View::Blog ==> (final(self).blog, final(self).current_view)
                == blog_route(old(self).blog, key.code),
            old(self).current_view == View::Projects ==> {
                let (c, v) = projects_route(old(self).projects, key.code);
                final(self).projects.cursor == c && final(self).current_view == v
            },
            old(self).current_view == View::Contact ==> (final(self).contact@, final(self).current_view)
                == contact_route(old(self).contact@, key),
    {
        match self.current_view {
            View::Loading => false,
            View::Home => self.handle_home_keys(key),
            View::Resume => self.handle_resume_keys(key),
            View::Blog => self.handle_blog_keys(key),
            View::Projects => self.handle_projects_keys(key),
            View::Contact => self.handle_contact_keys(key),
        }
    }

    fn handle_home_keys(&mut self, key: KeyEvent) -> (r: bool)
        requires
            old(self).current_view == View::Home,
        ensures
            r == is_char(key.code, 'q'),
            ({
                let (c, v, _) = home_route(old(self).home.cursor, key.code);
                final(self).home.cursor == c && final(self).current_view == v
            }),
            final(self).width == old(self).width,
            final(self).height == old(self).height,
            final(self).loading == old(self).loading,
    {
        match key.code {
            KeyCode::Char('q') => {
                return true;
            },
            KeyCode::Up | KeyCode::Char('k') => self.home.cursor_up(),
            KeyCode::Down | KeyCode::Char('j') => self.home.cursor_down(),
            KeyCode::Enter => {
                if let Some(view) = self.home.selected_view() {
                    self.current_view = view;
                }
            },
            KeyCode::Char('r') => self.current_view = View::Resume,
            KeyCode::Char('b') => self.current_view = View::Blog,
            KeyCode::Char('p') => self.current_view = View::Projects,
            KeyCode::Char('c') => self.current_view = View::Contact,
            _ => {},
        }
        false
    }

    fn handle_resume_keys(&mut self, key: KeyEvent) -> (r: bool)
        requires
            old(self).current_view == View::Resume,
        ensures
            !r,
            ({
                let (p, v) = resume_route(old(self).resume.viewport, old(self).resume.max_scroll, key.code);
                final(self).resume.viewport == p && final(self).current_view == v
            }),
            final(self).width == old(self).width,
            final(self).height == old(self).height,
            final(self).loading == old(self).loading,
    {
        match key.code {
            KeyCode::Esc | KeyCode::Char('q') => self.current_view = View::Home,
            KeyCode::Up | KeyCode::Char('k') => self.resume.scroll_up(),
            KeyCode::Down | KeyCode::Char('j') => self.resume.scroll_down(),
            KeyCode::Char('u') | KeyCode::PageUp => self.resume.page_up(),
            KeyCode::Char('d') | KeyCode::PageDown => self.resume.page_down(),
            _ => {},
        }
        false
    }

    fn handle_blog_keys(&mut self, key: KeyEvent) -> (r: bool)
        requires
            old(self).current_view == View::Blog,
        ensures
            !r,
            (final(self).blog, final(self).current_view) == blog_route(old(self).blog, key.code),
            final(self).width == old(self).width,
            final(self).height == old(self).height,
            final(self).loading == old(self).loading,
    {
        match key.code {
            KeyCode::Up | KeyCode::Char('k') => self.blog.cursor_up(),
            KeyCode::Down | KeyCode::Char('j') => self.blog.cursor_down(),
            KeyCode::Enter => self.blog.select(),
            KeyCode::Esc | KeyCode::Char('q') => {
                if !self.blog.back() {
                    self.current_view = View::Home;
                }
            },
            _ => {},
        }
        false
    }

    fn handle_projects_keys(&mut self, key: KeyEvent) -> (r: bool)
        requires
            old(self).current_view == View::Projects,
        ensures
            !r,
            ({
                let (c, v) = projects_route(old(self).projects, key.code);
                final(self).projects.cursor == c && final(self).current_view == v
            }),
            final(self).width == old(self).width,
            final(self).height == old(self).height,
            final(self).loading == old(self).loading,
    {
        match key.code {
            KeyCode::Esc | KeyCode::Char('q') => self.current_view = View::Home,
            KeyCode::Up | KeyCode::Char('k') => self.projects.cursor_up(),
            KeyCode::Down | KeyCode::Char('j') => self.projects.cursor_down(),
            _ => {},
        }
        false
    }

    fn handle_contact_keys(&mut self, key: KeyEvent) -> (r: bool)
        requires
            old(self).current_view == View::Contact,
        ensures
            !r,
            (final(self).contact@, final(self).current_view) == contact_route(old(self).contact@, key),
            final(self).width == old(self).width,
            final(self).height == old(self).height,
            final(self).loading == old(self).loading,
    {
        if self.contact.is_submitted() {
            match key.code {
                KeyCode::Esc | KeyCode::Char('q') => {
                    self.contact.reset();
                    self.current_view = View::Home;
                },
                _ => {},
            }
            return false;
        }
        match key.code {
            KeyCode::Tab => {
                if key.modifiers.shift {
                    self.contact.focus_prev();
                } else {
                    self.contact.focus_next();
                }
            },
            KeyCode::BackTab => self.contact.focus_prev(),
            KeyCode::Enter => {
                self.contact.submit();
            },
            KeyCode::Esc => self.current_view = View::Home,
            KeyCode::Backspace => self.contact.backspace(),
            KeyCode::Char(c) => self.contact.type_char(c),
            _ => {},
        }
        false
    }
}

} // verus!

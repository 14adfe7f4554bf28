//! Screen components: each turns interface events into application messages
//! and keeps its screen's state.
use vstd::prelude::*;
use vstd::view::View as _;
use crate::keymap::{KeyCode, KeyEvent};
use crate::monitor::elapsed;
use crate::msg::{id_from_shortcut, Msg, ViewId};
use crate::view::View;
use crate::views::blog::{blog_back, blog_down, blog_select, blog_up, BlogMode, BlogView};
use crate::views::contact::{erased, next_field, prev_field, submitted_form, typed, blank_form, ContactForm, ContactView};
use crate::views::home::{menu_choice, HomeView};
use crate::views::projects::ProjectsView;
use crate::views::resume::{scrolled, ResumeView};
use crate::keymap::Action;

verus! {

/// An event from the terminal.
#[derive(Clone, Copy, PartialEq, Eq, Structural, Debug)]
pub enum UiEvent {
    /// The periodic tick, at the given time in milliseconds.
    Tick(u64),
    Key(KeyEvent),
    Other,
}

pub open spec fn is_ctrl_c(ev: UiEvent) -> bool {
    ev matches UiEvent::Key(k) && k.code == KeyCode::Char('c') && k.modifiers.control
}

pub open spec fn key_is(ev: UiEvent, code: KeyCode) -> bool {
    ev matches UiEvent::Key(k) && k.code == code
}

pub open spec fn is_up(ev: UiEvent) -> bool {
    key_is(ev, KeyCode::Up) || key_is(ev, KeyCode::Char('k'))
}

pub open spec fn is_down(ev: UiEvent) -> bool {
    key_is(ev, KeyCode::Down) || key_is(ev, KeyCode::Char('j'))
}

pub open spec fn is_leave(ev: UiEvent) -> bool {
    key_is(ev, KeyCode::Esc) || key_is(ev, KeyCode::Char('q'))
}

/// The view a character key jumps to.
pub open spec fn char_target(ev: UiEvent) -> Option<ViewId> {
    match ev {
        UiEvent::Key(k) => match k.code {
            KeyCode::Char(c) => id_from_shortcut(c),
            _ => None,
        },
        _ => None,
    }
}

pub open spec fn id_of(v: View) -> ViewId {
    match v {
        View::Loading => ViewId::Loading,
        View::Home => ViewId::Home,
        View::Resume => ViewId::Resume,
        View::Blog => ViewId::Blog,
        View::Projects => ViewId::Projects,
        View::Contact => ViewId::Contact,
    }
}

/// The identifier of a view.
pub fn view_id(v: View) -> (r: ViewId)
    ensures
        r == id_of(v),
{
    match v {
        View::Loading => ViewId::Loading,
        View::Home => ViewId::Home,
        View::Resume => ViewId::Resume,
        View::Blog => ViewId::Blog,
        View::Projects => ViewId::Projects,
        View::Contact => ViewId::Contact,
    }
}

fn ctrl_c(ev: UiEvent) -> (r: bool)
    ensures
        r == is_ctrl_c(ev),
{
    match ev {
        UiEvent::Key(k) => k.code == KeyCode::Char('c') && k.modifiers.control,
        _ => false,
    }
}

fn char_shortcut(ev: UiEvent) -> (r: Option<ViewId>)
    ensures
        r == char_target(ev),
{
    match ev {
        UiEvent::Key(k) => match k.code {
            KeyCode::Char(c) => ViewId::from_shortcut(c),
            _ => None,
        },
        _ => None,
    }
}

/// Lines of the boot sequence shown while loading.
pub const BOOT_LINES: usize = 5;

/// Milliseconds between two boot lines.
pub const REVEAL_INTERVAL_MS: u64 = 600;

/// Milliseconds the finished boot sequence stays on screen.
pub const POST_DELAY_MS: u64 = 3000;

/// Milliseconds between two frames of the running indicator.
pub const ANIM_TICK_MS: u64 = 100;

/// Frames of the running indicator.
pub const ANIM_FRAMES: usize = 10;

/// The loading screen's boot sequence: lines revealed one by one, then a
/// pause; a running indicator turns meanwhile.
#[derive(Clone, Copy, PartialEq, Eq, Structural, Debug)]
pub struct BootSequence {
    pub visible_count: usize,
    pub last_reveal: u64,
    pub all_shown_at: Option<u64>,
    pub anim_idx: usize,
    pub last_anim_tick: u64,
}

impl BootSequence {
    pub open spec fn wf(&self) -> bool {
        &&& self.visible_count <= BOOT_LINES
        &&& self.anim_idx < ANIM_FRAMES
        &&& (self.all_shown_at is Some <==> self.visible_count == BOOT_LINES)
    }

    pub open spec fn done_at(&self, now: u64) -> bool {
        match self.all_shown_at {
            Some(t) => elapsed(t, now) >= POST_DELAY_MS,
            None => false,
        }
    }

    /// A boot sequence started at `now`, nothing shown yet.
    pub fn new(now: u64) -> (r: BootSequence)
        ensures
            r.wf(),
            r == (BootSequence {
                visible_count: 0,
                last_reveal: now,
                all_shown_at: None,
                anim_idx: 0,
                last_anim_tick: now,
            }),
    {
        BootSequence {
            visible_count: 0,
            last_reveal: now,
            all_shown_at: None,
            anim_idx: 0,
            last_anim_tick: now,
        }
    }

    /// Whether every line was shown and the pause after them is over.
    pub fn is_complete(&self, now: u64) -> (r: bool)
        ensures
            r == self.done_at(now),
    {
        match self.all_shown_at {
            Some(t) => now.saturating_sub(t) >= POST_DELAY_MS,
            None => false,
        }
    }

    /// Turns the indicator and reveals the next line when they are due.
    pub fn tick(&mut self, now: u64)
        requires
            old(self).wf(),
        ensures
            final(self).wf(),
            final(self).anim_idx == if elapsed(old(self).last_anim_tick, now) >= ANIM_TICK_MS {
                (old(self).anim_idx + 1) % (ANIM_FRAMES as int)
            } else {
                old(self).anim_idx as int
            },
            if old(self).visible_count < BOOT_LINES && elapsed(old(self).last_reveal, now)
                >= REVEAL_INTERVAL_MS {
                &&& final(self).visible_count == old(self).visible_count + 1
                &&& final(self).last_reveal == now
                &&& final(self).all_shown_at == if old(self).visible_count + 1 == BOOT_LINES {
                    Some(now)
                } else {
                    None
                }
            } else {
                &&& final(self).visible_count == old(self).visible_count
                &&& final(self).last_reveal == old(self).last_reveal
                &&& final(self).all_shown_at == old(self).all_shown_at
            },
    {
        if now.saturating_sub(self.last_anim_tick) >= ANIM_TICK_MS {
            self.anim_idx = (self.anim_idx + 1) % ANIM_FRAMES;
            self.last_anim_tick = now;
        }
        if self.visible_count < BOOT_LINES && now.saturating_sub(self.last_reveal)
            >= REVEAL_INTERVAL_MS {
            self.visible_count += 1;
            self.last_reveal = now;
            if self.visible_count == BOOT_LINES {
                self.all_shown_at = Some(now);
            }
        }
    }
}

/// The loading screen.
pub struct Loading {
    pub boot: BootSequence,
}

impl Loading {
    pub fn new(now: u64) -> (r: Loading)
        ensures
            r.boot.wf(),
            r.boot == BootSequence::new_spec(now),
    {
        Loading { boot: BootSequence::new(now) }
    }

    /// A tick advances the boot sequence and, once it is over, moves on to
    /// home; Control-C quits.
    pub fn on(&mut self, ev: UiEvent) -> (r: Option<Msg>)
        requires
            old(self).boot.wf(),
        ensures
            final(self).boot.wf(),
            match ev {
                UiEvent::Tick(now) => r == if final(self).boot.done_at(now) {
                    Some(Msg::NavigateTo(ViewId::Home))
                } else {
                    Some(Msg::Tick)
                },
                _ => final(self).boot == old(self).boot && r == if is_ctrl_c(ev) {
                    Some(Msg::Quit)
                } else {
                    None
                },
            },
    {
        match ev {
            UiEvent::Tick(now) => {
                self.boot.tick(now);
                if self.boot.is_complete(now) {
                    Some(Msg::NavigateTo(ViewId::Home))
                } else {
                    Some(Msg::Tick)
                }
            },
            _ => {
                if ctrl_c(ev) {
                    Some(Msg::Quit)
                } else {
                    None
                }
            },
        }
    }
}

impl BootSequence {
    pub open spec fn new_spec(now: u64) -> BootSequence {
        BootSequence {
            visible_count: 0,
            last_reveal: now,
            all_shown_at: None,
            anim_idx: 0,
            last_anim_tick: now,
        }
    }
}

/// The home screen.
pub struct Home {
    pub view: HomeView,
}

impl Home {
    pub fn new(phrases: &[&str], now: u64) -> (r: Home)
        ensures
            r.view.cursor == 0,
            r.view.typewriter.inv(),
    {
        Home { view: HomeView::new(phrases, now) }
    }

    /// Ticks animate; Control-C and `q` quit; up and down move the cursor;
    /// Enter opens the entry under it; a shortcut opens its view.
    pub fn on(&mut self, ev: UiEvent) -> (r: Option<Msg>)
        requires
            old(self).view.typewriter.inv(),
        ensures
            final(self).view.typewriter.inv(),
            ev is Tick ==> r == Some(Msg::Noop) && final(self).view.cursor == old(self).view.cursor,
            !(ev is Tick) ==> final(self).view.typewriter == old(self).view.typewriter,
            !(ev is Tick) ==> if is_ctrl_c(ev) || key_is(ev, KeyCode::Char('q')) {
                r == Some(Msg::Quit) && final(self).view.cursor == old(self).view.cursor
            } else if is_up(ev) {
                r == Some(Msg::Noop) && final(self).view.cursor == if old(self).view.cursor > 0 {
                    old(self).view.cursor - 1
                } else {
                    0
                }
            } else if is_down(ev) {
                r == Some(Msg::Noop) && final(self).view.cursor == if old(self).view.cursor + 1
                    < crate::view::VIEW_COUNT {
                    old(self).view.cursor + 1
                } else {
                    old(self).view.cursor as int
                }
            } else if key_is(ev, KeyCode::Enter) {
                final(self).view.cursor == old(self).view.cursor && r == match menu_choice(
                    old(self).view.cursor,
                ) {
                    Some(v) => Some(Msg::NavigateTo(id_of(v))),
                    None => None,
                }
            } else {
                final(self).view.cursor == old(self).view.cursor && r == match char_target(ev) {
                    Some(id) => Some(Msg::NavigateTo(id)),
                    None => None,
                }
            },
    {
        if let UiEvent::Tick(now) = ev {
            self.view.tick(now);
            return Some(Msg::Noop);
        }
        if ctrl_c(ev) {
            return Some(Msg::Quit);
        }
        let UiEvent::Key(k) = ev else {
            return None;
        };
        match k.code {
            KeyCode::Char('q') => Some(Msg::Quit),
            KeyCode::Up | KeyCode::Char('k') => {
                self.view.cursor_up();
                Some(Msg::Noop)
            },
            KeyCode::Down | KeyCode::Char('j') => {
                self.view.cursor_down();
                Some(Msg::Noop)
            },
            KeyCode::Enter => match self.view.selected_view() {
                Some(v) => Some(Msg::NavigateTo(view_id(v))),
                None => None,
            },
            _ => match char_shortcut(ev) {
                Some(id) => Some(Msg::NavigateTo(id)),
                None => None,
            },
        }
    }
}

/// The blog screen.
pub struct Blog {
    pub view: BlogView,
}

impl Blog {
    pub fn new(post_count: usize) -> (r: Blog)
        ensures
            r.view == BlogView::new_spec(post_count),
    {
        Blog { view: BlogView::new(post_count) }
    }

    /// Control-C quits; leaving closes an open post, or goes back from the
    /// list; up, down and Enter move and open; a shortcut opens its view from
    /// the list.
    pub fn on(&mut self, ev: UiEvent) -> (r: Option<Msg>)
        ensures
            if is_ctrl_c(ev) {
                r == Some(Msg::Quit) && final(self).view == old(self).view
            } else if is_leave(ev) {
                final(self).view == blog_back(old(self).view) && r == if old(self).view.mode
                    == BlogMode::Detail {
                    Some(Msg::Noop)
                } else {
                    Some(Msg::GoBack)
                }
            } else if is_up(ev) {
                final(self).view == blog_up(old(self).view) && r == Some(Msg::Noop)
            } else if is_down(ev) {
                final(self).view == blog_down(old(self).view) && r == Some(Msg::Noop)
            } else if key_is(ev, KeyCode::Enter) {
                final(self).view == blog_select(old(self).view) && r == Some(Msg::Noop)
            } else {
                final(self).view == old(self).view && r == if old(self).view.mode == BlogMode::List
                    && char_target(ev) is Some {
                    Some(Msg::NavigateTo(char_target(ev)->0))
                } else {
                    None
                }
            },
    {
        if ctrl_c(ev) {
            return Some(Msg::Quit);
        }
        let UiEvent::Key(k) = ev else {
            return None;
        };
        match k.code {
            KeyCode::Esc | KeyCode::Char('q') => {
                if self.view.back() {
                    Some(Msg::Noop)
                } else {
                    Some(Msg::GoBack)
                }
            },
            KeyCode::Up | KeyCode::Char('k') => {
                self.view.cursor_up();
                Some(Msg::Noop)
            },
            KeyCode::Down | KeyCode::Char('j') => {
                self.view.cursor_down();
                Some(Msg::Noop)
            },
            KeyCode::Enter => {
                self.view.select();
                Some(Msg::Noop)
            },
            _ => {
                if self.view.mode == BlogMode::List {
                    if let Some(id) = char_shortcut(ev) {
                        return Some(Msg::NavigateTo(id));
                    }
                }
                None
            },
        }
    }
}

/// The projects screen.
pub struct Projects {
    pub view: ProjectsView,
}

impl Projects {
    pub fn new(project_count: usize) -> (r: Projects)
        ensures
            r.view == (ProjectsView { cursor: 0, project_count }),
    {
        Projects { view: ProjectsView::new(project_count) }
    }

    /// Control-C quits; leaving goes back; up and down move; a shortcut opens
    /// its view.
    pub fn on(&mut self, ev: UiEvent) -> (r: Option<Msg>)
        ensures
            final(self).view.project_count == old(self).view.project_count,
            if is_ctrl_c(ev) {
                r == Some(Msg::Quit) && final(self).view == old(self).view
            } else if is_leave(ev) {
                r == Some(Msg::GoBack) && final(self).view == old(self).view
            } else if is_up(ev) {
                r == Some(Msg::Noop) && final(self).view.cursor == if old(self).view.cursor > 0 {
                    old(self).view.cursor - 1
                } else {
                    0
                }
            } else if is_down(ev) {
                r == Some(Msg::Noop) && final(self).view.cursor == if old(self).view.cursor + 1
                    < old(self).view.project_count {
                    old(self).view.cursor + 1
                } else {
                    old(self).view.cursor as int
                }
            } else {
                final(self).view == old(self).view && r == match char_target(ev) {
                    Some(id) => Some(Msg::NavigateTo(id)),
                    None => None,
                }
            },
    {
        if ctrl_c(ev) {
            return Some(Msg::Quit);
        }
        let UiEvent::Key(k) = ev else {
            return None;
        };
        match k.code {
            KeyCode::Esc | KeyCode::Char('q') => Some(Msg::GoBack),
            KeyCode::Up | KeyCode::Char('k') => {
                self.view.cursor_up();
                Some(Msg::Noop)
            },
            KeyCode::Down | KeyCode::Char('j') => {
                self.view.cursor_down();
                Some(Msg::Noop)
            },
            _ => match char_shortcut(ev) {
                Some(id) => Some(Msg::NavigateTo(id)),
                None => None,
            },
        }
    }
}

/// The resume screen.
pub struct Resume {
    pub view: ResumeView,
}

impl Resume {
    pub fn new(text: &str) -> (r: Resume)
        ensures
            r.view.viewport == 0,
            r.view.max_scroll == 0,
            r.view.text@ == text@,
    {
        Resume { view: ResumeView::new(text) }
    }

    /// Control-C quits; leaving goes back; the scroll keys move the
    /// viewport; a shortcut opens its view.
    pub fn on(&mut self, ev: UiEvent) -> (r: Option<Msg>)
        ensures
            final(self).view.max_scroll == old(self).view.max_scroll,
            final(self).view.text == old(self).view.text,
            final(self).view.markdown == old(self).view.markdown,
            ({
                let v = old(self).view.viewport;
                let m = old(self).view.max_scroll;
                if is_ctrl_c(ev) {
                    r == Some(Msg::Quit) && final(self).view.viewport == v
                } else if is_leave(ev) {
                    r == Some(Msg::GoBack) && final(self).view.viewport == v
                } else if is_up(ev) {
                    r == Some(Msg::Noop) && final(self).view.viewport == scrolled(v, m, Action::ScrollUp)
                } else if is_down(ev) {
                    r == Some(Msg::Noop) && final(self).view.viewport == scrolled(v, m, Action::ScrollDown)
                } else if key_is(ev, KeyCode::PageUp) || key_is(ev, KeyCode::Char('u')) {
                    r == Some(Msg::Noop) && final(self).view.viewport == scrolled(v, m, Action::PageUp)
                } else if key_is(ev, KeyCode::PageDown) || key_is(ev, KeyCode::Char('d')) {
                    r == Some(Msg::Noop) && final(self).view.viewport == scrolled(v, m, Action::PageDown)
                } else {
                    final(self).view.viewport == v && r == match char_target(ev) {
                        Some(id) => Some(Msg::NavigateTo(id)),
                        None => None,
                    }
                }
            }),
    {
        if ctrl_c(ev) {
            return Some(Msg::Quit);
        }
        let UiEvent::Key(k) = ev else {
            return None;
        };
        match k.code {
            KeyCode::Esc | KeyCode::Char('q') => Some(Msg::GoBack),
            KeyCode::Up | KeyCode::Char('k') => {
                self.view.scroll_up();
                Some(Msg::Noop)
            },
            KeyCode::Down | KeyCode::Char('j') => {
                self.view.scroll_down();
                Some(Msg::Noop)
            },
            KeyCode::PageUp | KeyCode::Char('u') => {
                self.view.page_up();
                Some(Msg::Noop)
            },
            KeyCode::PageDown | KeyCode::Char('d') => {
                self.view.page_down();
                Some(Msg::Noop)
            },
            _ => match char_shortcut(ev) {
                Some(id) => Some(Msg::NavigateTo(id)),
                None => None,
            },
        }
    }
}

/// The contact screen.
pub struct Contact {
    pub view: ContactView,
}

/// Whether a key types its character: with no modifier, or with Shift.
pub open spec fn types(k: KeyEvent) -> bool {
    (!k.modifiers.shift && !k.modifiers.control && !k.modifiers.alt) || k.modifiers.shift
}

/// The contact screen's answer to an event, and the new form.
pub open spec fn contact_on(f: ContactForm, ev: UiEvent) -> (ContactForm, Option<Msg>) {
    if is_ctrl_c(ev) {
        (f, Some(Msg::Quit))
    } else if f.submitted {
        if is_leave(ev) {
            (blank_form(), Some(Msg::GoBack))
        } else {
            (f, None)
        }
    } else {
        match ev {
            UiEvent::Key(k) => match k.code {
                KeyCode::Esc => (f, Some(Msg::GoBack)),
                KeyCode::Tab => (
                    ContactForm { focused_field: next_field(f.focused_field), ..f },
                    Some(Msg::Noop),
                ),
                KeyCode::BackTab => (
                    ContactForm { focused_field: prev_field(f.focused_field), ..f },
                    Some(Msg::Noop),
                ),
                KeyCode::Enter => (submitted_form(f), Some(Msg::Noop)),
                KeyCode::Backspace => (erased(f), Some(Msg::Noop)),
                KeyCode::Char(c) => if types(k) {
                    (typed(f, c), Some(Msg::Noop))
                } else {
                    (f, None)
                },
                _ => (f, None),
            },
            _ => (f, None),
        }
    }
}

impl Contact {
    pub fn new() -> (r: Contact)
        ensures
            r.view@ == blank_form(),
    {
        Contact { view: ContactView::new() }
    }

    /// Control-C quits. A submitted form only goes back, cleared. Otherwise
    /// Escape goes back, Tab and Back-Tab move the focus, Enter submits,
    /// Backspace erases, and a plain or shifted character is typed.
    pub fn on(&mut self, ev: UiEvent) -> (r: Option<Msg>)
        ensures
            (final(self).view@, r) == contact_on(old(self).view@, ev),
    {
        if ctrl_c(ev) {
            return Some(Msg::Quit);
        }
        if self.view.submitted {
            if let UiEvent::Key(k) = ev {
                if k.code == KeyCode::Esc || k.code == KeyCode::Char('q') {
                    self.view.reset();
                    return Some(Msg::GoBack);
                }
            }
            return None;
        }
        let UiEvent::Key(k) = ev else {
            return None;
        };
        match k.code {
            KeyCode::Esc => Some(Msg::GoBack),
            KeyCode::Tab => {
                self.view.focus_next();
                Some(Msg::Noop)
            },
            KeyCode::BackTab => {
                self.view.focus_prev();
                Some(Msg::Noop)
            },
            KeyCode::Enter => {
                self.view.submit();
                Some(Msg::Noop)
            },
            KeyCode::Backspace => {
                self.view.backspace();
                Some(Msg::Noop)
            },
            KeyCode::Char(c) => {
                let m = k.modifiers;
                if (!m.shift && !m.control && !m.alt) || m.shift {
                    self.view.type_char(c);
                    Some(Msg::Noop)
                } else {
                    None
                }
            },
            _ => None,
        }
    }
}

} // verus!

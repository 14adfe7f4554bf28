use whoami_gateway::components::{
    view_id, Blog, BootSequence, Contact, Home, Loading, Projects, Resume, UiEvent,
};
use whoami_gateway::keymap::{KeyCode, KeyEvent, KeyModifiers};
use whoami_gateway::msg::{Msg, ViewId};
use whoami_gateway::view::View;
use whoami_gateway::views::blog::BlogMode;

fn key(code: KeyCode) -> UiEvent {
    UiEvent::Key(KeyEvent::new(code, KeyModifiers::none()))
}

fn ctrl_c() -> UiEvent {
    UiEvent::Key(KeyEvent::new(KeyCode::Char('c'), KeyModifiers::control()))
}

fn is(m: Option<Msg>, expected: &str) -> bool {
    format!("{:?}", m) == expected
}

#[test]
fn boot_sequence_reveals_then_waits() {
    let mut b = BootSequence::new(0);
    for i in 1..=5u64 {
        b.tick(i * 600);
        assert_eq!(b.visible_count, i as usize);
    }
    assert_eq!(b.all_shown_at, Some(3000));
    assert!(!b.is_complete(5999));
    assert!(b.is_complete(6000));
    assert_eq!(b.anim_idx, 5);
    b.tick(6000);
    assert_eq!(b.visible_count, 5);
}

#[test]
fn loading_component_moves_home_when_done() {
    let mut l = Loading::new(0);
    assert!(is(l.on(UiEvent::Tick(600)), "Some(Tick)"));
    for i in 2..=5u64 {
        l.on(UiEvent::Tick(i * 600));
    }
    assert!(is(l.on(UiEvent::Tick(5999)), "Some(Tick)"));
    assert!(is(l.on(UiEvent::Tick(6000)), "Some(NavigateTo(Home))"));
    assert!(is(l.on(ctrl_c()), "Some(Quit)"));
    assert!(is(l.on(key(KeyCode::Enter)), "None"));
}

#[test]
fn home_component_messages() {
    let mut h = Home::new(&["x"], 0);
    assert!(is(h.on(UiEvent::Tick(50)), "Some(Noop)"));
    assert_eq!(h.view.typewriter.display_text(), "x");
    assert!(is(h.on(key(KeyCode::Char('q'))), "Some(Quit)"));
    assert!(is(h.on(ctrl_c()), "Some(Quit)"));
    assert!(is(h.on(key(KeyCode::Down)), "Some(Noop)"));
    assert!(is(h.on(key(KeyCode::Enter)), "Some(NavigateTo(Resume))"));
    assert!(is(h.on(key(KeyCode::Char('p'))), "Some(NavigateTo(Projects))"));
    assert!(is(h.on(key(KeyCode::Char('z'))), "None"));
    assert!(is(h.on(UiEvent::Other), "None"));
    assert_eq!(view_id(View::Contact), ViewId::Contact);
}

#[test]
fn blog_component_messages() {
    let mut b = Blog::new(2);
    assert!(is(b.on(key(KeyCode::Char('j'))), "Some(Noop)"));
    assert!(is(b.on(key(KeyCode::Enter)), "Some(Noop)"));
    assert_eq!(b.view.mode, BlogMode::Detail);
    assert!(is(b.on(key(KeyCode::Char('r'))), "None"));
    assert!(is(b.on(key(KeyCode::Esc)), "Some(Noop)"));
    assert!(is(b.on(key(KeyCode::Char('r'))), "Some(NavigateTo(Resume))"));
    assert!(is(b.on(key(KeyCode::Char('q'))), "Some(GoBack)"));
    assert!(is(b.on(ctrl_c()), "Some(Quit)"));
}

#[test]
fn projects_and_resume_component_messages() {
    let mut p = Projects::new(3);
    assert!(is(p.on(key(KeyCode::Down)), "Some(Noop)"));
    assert_eq!(p.view.cursor, 1);
    assert!(is(p.on(key(KeyCode::Esc)), "Some(GoBack)"));
    assert!(is(p.on(key(KeyCode::Char('h'))), "Some(NavigateTo(Home))"));
    let mut r = Resume::new("a\nb\nc");
    r.view.fit_viewport(1);
    assert!(is(r.on(key(KeyCode::PageDown)), "Some(Noop)"));
    assert_eq!(r.view.viewport, 2);
    assert!(is(r.on(key(KeyCode::Char('k'))), "Some(Noop)"));
    assert_eq!(r.view.viewport, 1);
    assert!(is(r.on(key(KeyCode::Char('u'))), "Some(Noop)"));
    assert_eq!(r.view.viewport, 0);
    assert!(is(r.on(key(KeyCode::Char('q'))), "Some(GoBack)"));
    assert!(is(r.on(key(KeyCode::Char('b'))), "Some(NavigateTo(Blog))"));
}

#[test]
fn contact_component_messages() {
    let mut c = Contact::new();
    assert!(is(c.on(key(KeyCode::Char('q'))), "Some(Noop)"));
    assert_eq!(c.view.name, vec!['q']);
    let alt_x = UiEvent::Key(KeyEvent::new(
        KeyCode::Char('x'),
        KeyModifiers { shift: false, control: false, alt: true },
    ));
    assert!(is(c.on(alt_x), "None"));
    let shifted = UiEvent::Key(KeyEvent::new(KeyCode::Char('Q'), KeyModifiers::shifted()));
    assert!(is(c.on(shifted), "Some(Noop)"));
    assert_eq!(c.view.name, vec!['q', 'Q']);
    c.on(key(KeyCode::Tab));
    for ch in "a@b".chars() {
        c.on(key(KeyCode::Char(ch)));
    }
    c.on(key(KeyCode::Tab));
    c.on(key(KeyCode::Char('m')));
    c.on(key(KeyCode::Backspace));
    c.on(key(KeyCode::Char('n')));
    assert!(is(c.on(key(KeyCode::Enter)), "Some(Noop)"));
    assert!(c.view.is_submitted());
    assert!(is(c.on(key(KeyCode::Tab)), "None"));
    assert!(is(c.on(key(KeyCode::Char('q'))), "Some(GoBack)"));
    assert!(!c.view.is_submitted());
    assert!(is(c.on(ctrl_c()), "Some(Quit)"));
    assert!(is(c.on(key(KeyCode::Esc)), "Some(GoBack)"));
}

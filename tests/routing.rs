use whoami_gateway::app_state::App;
use whoami_gateway::keymap::{KeyCode, KeyEvent, KeyModifiers};
use whoami_gateway::view::View;
use whoami_gateway::views::blog::BlogMode;
use whoami_gateway::views::contact::ContactField;

fn key(code: KeyCode) -> KeyEvent {
    KeyEvent::new(code, KeyModifiers::none())
}

fn app() -> App {
    App::new(&["hello"], "line one\nline two", 2, 3, 0)
}

#[test]
fn loading_ignores_keys_until_done() {
    let mut a = app();
    assert!(!a.handle_key(key(KeyCode::Char('q'))));
    assert_eq!(a.current_view, View::Loading);
    a.tick(4999);
    assert_eq!(a.current_view, View::Loading);
    a.tick(5000);
    assert_eq!(a.current_view, View::Home);
    a.set_size(120, 50);
    assert_eq!((a.width, a.height), (120, 50));
}

fn at_home() -> App {
    let mut a = app();
    a.tick(5000);
    a
}

#[test]
fn home_routes() {
    let mut a = at_home();
    assert!(a.handle_key(key(KeyCode::Char('q'))));
    a.handle_key(key(KeyCode::Down));
    a.handle_key(key(KeyCode::Char('j')));
    assert_eq!(a.home.cursor, 2);
    a.handle_key(key(KeyCode::Enter));
    assert_eq!(a.current_view, View::Blog);
    let mut b = at_home();
    b.handle_key(key(KeyCode::Char('h')));
    assert_eq!(b.current_view, View::Home);
    b.handle_key(key(KeyCode::Char('c')));
    assert_eq!(b.current_view, View::Contact);
}

#[test]
fn blog_routes_back_in_two_steps() {
    let mut a = at_home();
    a.handle_key(key(KeyCode::Char('b')));
    a.handle_key(key(KeyCode::Char('j')));
    a.handle_key(key(KeyCode::Enter));
    assert_eq!(a.blog.mode, BlogMode::Detail);
    assert_eq!(a.blog.selected_idx, Some(1));
    assert!(!a.handle_key(key(KeyCode::Char('q'))));
    assert_eq!(a.current_view, View::Blog);
    assert_eq!(a.blog.mode, BlogMode::List);
    a.handle_key(key(KeyCode::Esc));
    assert_eq!(a.current_view, View::Home);
}

#[test]
fn resume_and_projects_routes() {
    let mut a = at_home();
    a.handle_key(key(KeyCode::Char('r')));
    a.resume.fit_viewport(1);
    a.handle_key(key(KeyCode::Char('j')));
    assert_eq!(a.resume.viewport, 1);
    a.handle_key(key(KeyCode::Char('u')));
    assert_eq!(a.resume.viewport, 0);
    a.handle_key(key(KeyCode::Esc));
    assert_eq!(a.current_view, View::Home);
    a.handle_key(key(KeyCode::Char('p')));
    a.handle_key(key(KeyCode::Down));
    a.handle_key(key(KeyCode::Down));
    a.handle_key(key(KeyCode::Down));
    assert_eq!(a.projects.cursor, 2);
    a.handle_key(key(KeyCode::Char('k')));
    assert_eq!(a.projects.cursor, 1);
    a.handle_key(key(KeyCode::Char('q')));
    assert_eq!(a.current_view, View::Home);
}

#[test]
fn contact_routes() {
    let mut a = at_home();
    a.handle_key(key(KeyCode::Char('c')));
    a.handle_key(key(KeyCode::Char('q')));
    assert_eq!(a.contact.name, vec!['q']);
    a.handle_key(key(KeyCode::Tab));
    assert_eq!(a.contact.focused_field, ContactField::Email);
    a.handle_key(KeyEvent::new(KeyCode::Tab, KeyModifiers::shifted()));
    assert_eq!(a.contact.focused_field, ContactField::Name);
    a.handle_key(key(KeyCode::BackTab));
    assert_eq!(a.contact.focused_field, ContactField::Name);
    a.handle_key(key(KeyCode::Backspace));
    assert!(a.contact.name.is_empty());
    a.handle_key(key(KeyCode::Enter));
    assert!(!a.contact.is_submitted());
    a.handle_key(key(KeyCode::Esc));
    assert_eq!(a.current_view, View::Home);
}

#[test]
fn submitted_contact_leaves_cleared() {
    let mut a = at_home();
    a.handle_key(key(KeyCode::Char('c')));
    for (code, text) in [(KeyCode::Tab, "a@b"), (KeyCode::Tab, "hi")] {
        a.handle_key(key(code));
        for ch in text.chars() {
            a.handle_key(key(KeyCode::Char(ch)));
        }
    }
    a.contact.focused_field = ContactField::Name;
    a.handle_key(key(KeyCode::Char('n')));
    a.handle_key(key(KeyCode::Enter));
    assert!(a.contact.is_submitted());
    a.handle_key(key(KeyCode::Char('x')));
    assert_eq!(a.current_view, View::Contact);
    a.handle_key(key(KeyCode::Char('q')));
    assert_eq!(a.current_view, View::Home);
    assert!(!a.contact.is_submitted());
    assert!(a.contact.email.is_empty());
}

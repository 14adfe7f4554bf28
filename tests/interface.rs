use whoami_gateway::keymap::{
    form_keys, global_keys, home_keys, list_keys, match_key, scroll_keys, shortcut_view,
    submitted_keys, Action, KeyBinding, KeyCode, KeyEvent, KeyModifiers,
};
use whoami_gateway::model::Model;
use whoami_gateway::msg::{Msg, ViewId};
use whoami_gateway::text::divider;
use whoami_gateway::view::{views, View, ViewResult};
use whoami_gateway::views::blog::{BlogMode, BlogView};
use whoami_gateway::views::contact::{ContactField, ContactView, FormError};
use whoami_gateway::views::home::HomeView;
use whoami_gateway::views::projects::ProjectsView;
use whoami_gateway::views::resume::ResumeView;
use whoami_gateway::widgets::code_block::CodeBlock;
use whoami_gateway::widgets::loading::{LoadingState, LoadingStyle};
use whoami_gateway::widgets::markdown::Markdown;
use whoami_gateway::widgets::selectable_item::MenuItem;
use whoami_gateway::widgets::page_layout::{PageLayout, ScrollState};
use whoami_gateway::widgets::text_input::TextInput;
use whoami_gateway::widgets::typewriter::{AnimationState, TypewriterState};

fn key(code: KeyCode) -> KeyEvent {
    KeyEvent::new(code, KeyModifiers::none())
}

fn text(cs: &[char]) -> String {
    cs.iter().collect()
}

#[test]
fn view_id_shortcuts() {
    assert_eq!(ViewId::Home.shortcut(), Some('h'));
    assert_eq!(ViewId::Contact.shortcut(), Some('c'));
    assert_eq!(ViewId::Loading.shortcut(), None);
    assert_eq!(ViewId::from_shortcut('b'), Some(ViewId::Blog));
    assert_eq!(ViewId::from_shortcut('x'), None);
    for v in [ViewId::Home, ViewId::Resume, ViewId::Blog, ViewId::Projects, ViewId::Contact] {
        assert_eq!(ViewId::from_shortcut(v.shortcut().unwrap()), Some(v));
    }
}

#[test]
fn view_menu_entries() {
    let all = views();
    assert_eq!(all.len(), 5);
    assert_eq!(all[2].label, "Blog");
    assert_eq!(View::from_shortcut('p'), Some(View::Projects));
    assert_eq!(View::from_shortcut('z'), None);
    assert_eq!(View::Resume.config().unwrap().shortcut, 'r');
    assert_eq!(View::Contact.config().unwrap().description, "Get in touch");
    assert!(View::Loading.config().is_none());
}

#[test]
fn first_matching_binding_wins() {
    let keymap = vec![
        KeyBinding::new(KeyCode::Char('x'), Action::Back),
        KeyBinding::new(KeyCode::Char('x'), Action::Quit),
    ];
    assert_eq!(match_key(key(KeyCode::Char('x')), &keymap), Some(Action::Back));
    assert_eq!(match_key(key(KeyCode::Char('y')), &keymap), None);
    let ctrl_c = KeyEvent::new(KeyCode::Char('c'), KeyModifiers::control());
    assert_eq!(match_key(ctrl_c, &global_keys()), Some(Action::Quit));
    assert_eq!(match_key(key(KeyCode::Char('c')), &global_keys()), None);
    let shift_tab = KeyEvent::new(KeyCode::Tab, KeyModifiers::shifted());
    // a plain binding matches whatever modifiers are held, so Tab comes first
    assert_eq!(match_key(shift_tab, &form_keys()), Some(Action::FocusNext));
    assert_eq!(match_key(key(KeyCode::BackTab), &form_keys()), Some(Action::FocusPrev));
    assert_eq!(match_key(key(KeyCode::Char('q')), &home_keys()), Some(Action::Quit));
    assert_eq!(match_key(key(KeyCode::Char('q')), &list_keys()), Some(Action::Back));
    assert_eq!(match_key(key(KeyCode::Char('d')), &scroll_keys()), Some(Action::PageDown));
    assert_eq!(match_key(key(KeyCode::Esc), &submitted_keys()), Some(Action::Back));
    assert_eq!(shortcut_view(key(KeyCode::Char('r'))), Some(View::Resume));
    assert_eq!(shortcut_view(key(KeyCode::Enter)), None);
}

#[test]
fn blog_list_and_detail() {
    let mut b = BlogView::new(3);
    b.cursor_up();
    assert_eq!(b.cursor, 0);
    b.cursor_down();
    b.cursor_down();
    b.cursor_down();
    assert_eq!(b.cursor, 2);
    b.select();
    assert_eq!(b.mode, BlogMode::Detail);
    assert_eq!(b.selected_idx, Some(2));
    b.fit_viewport(30, 10);
    assert_eq!(b.max_scroll, 20);
    b.cursor_down();
    assert_eq!(b.viewport, 1);
    assert!(b.back());
    assert_eq!(b.mode, BlogMode::List);
    assert_eq!(b.selected_idx, None);
    assert!(!b.back());
}

#[test]
fn blog_without_posts_stays_on_list() {
    let mut b = BlogView::new(0);
    b.cursor_down();
    b.select();
    assert_eq!(b.cursor, 0);
    assert_eq!(b.mode, BlogMode::List);
}

#[test]
fn blog_keys() {
    let mut b = BlogView::new(2);
    assert_eq!(b.handle_key(key(KeyCode::Char('h'))), ViewResult::NavigateTo(View::Home));
    assert_eq!(b.handle_key(key(KeyCode::Char('j'))), ViewResult::Handled);
    assert_eq!(b.cursor, 1);
    assert_eq!(b.handle_key(key(KeyCode::Enter)), ViewResult::Handled);
    assert_eq!(b.mode, BlogMode::Detail);
    // shortcuts do nothing inside a post
    assert_eq!(b.handle_key(key(KeyCode::Char('h'))), ViewResult::Ignored);
    assert_eq!(b.handle_key(key(KeyCode::Esc)), ViewResult::Handled);
    assert_eq!(b.handle_key(key(KeyCode::Esc)), ViewResult::Back);
    assert_eq!(b.handle_key(key(KeyCode::Tab)), ViewResult::Ignored);
}

#[test]
fn contact_form_flow() {
    let mut c = ContactView::new();
    assert_eq!(c.focused_field, ContactField::Name);
    assert!(!c.submit());
    assert_eq!(c.error, Some(FormError::NameRequired));
    c.type_char('A');
    c.type_char('n');
    c.focus_next();
    for ch in "a@b".chars() {
        c.type_char(ch);
    }
    c.backspace();
    assert_eq!(text(&c.email), "a@");
    c.focus_next();
    assert!(!c.submit());
    assert_eq!(c.error, Some(FormError::MessageRequired));
    assert_eq!(c.focused_field, ContactField::Message);
    c.type_char('!');
    assert!(c.submit());
    assert!(c.is_submitted());
    assert_eq!(c.error, None);
    c.reset();
    assert!(!c.is_submitted());
    assert!(c.name.is_empty());
    assert_eq!(c.focused_field, ContactField::Name);
}

#[test]
fn contact_email_needs_at_sign() {
    let mut c = ContactView::new();
    c.type_char('x');
    c.focus_next();
    c.type_char('y');
    assert!(!c.submit());
    assert_eq!(c.error, Some(FormError::EmailRequired));
    assert_eq!(c.focused_field, ContactField::Email);
    assert_eq!(FormError::EmailRequired.message(), "Valid email is required");
}

#[test]
fn contact_focus_stops_at_the_ends() {
    let mut c = ContactView::new();
    c.focus_prev();
    assert_eq!(c.focused_field, ContactField::Name);
    for _ in 0..5 {
        c.focus_next();
    }
    assert_eq!(c.focused_field, ContactField::Submit);
    c.type_char('z');
    c.backspace();
    assert!(c.name.is_empty() && c.email.is_empty() && c.message.is_empty());
}

#[test]
fn contact_keys() {
    let mut c = ContactView::new();
    assert_eq!(c.handle_key(key(KeyCode::Char('h'))), ViewResult::Handled);
    assert_eq!(text(&c.name), "h");
    assert_eq!(c.handle_key(key(KeyCode::Tab)), ViewResult::Handled);
    assert_eq!(c.focused_field, ContactField::Email);
    for ch in "m@x".chars() {
        c.handle_key(key(KeyCode::Char(ch)));
    }
    c.handle_key(key(KeyCode::Tab));
    c.handle_key(key(KeyCode::Char('q')));
    assert_eq!(c.handle_key(key(KeyCode::Enter)), ViewResult::Handled);
    assert!(c.is_submitted());
    assert_eq!(c.handle_key(key(KeyCode::Char('z'))), ViewResult::Ignored);
    assert_eq!(c.handle_key(key(KeyCode::Char('q'))), ViewResult::Back);
    assert!(!c.is_submitted());
    assert!(c.name.is_empty());
    assert_eq!(c.handle_key(key(KeyCode::Up)), ViewResult::Ignored);
    assert_eq!(c.handle_key(key(KeyCode::Esc)), ViewResult::Back);
}

#[test]
fn home_menu() {
    let mut h = HomeView::new(&["hi"], 0);
    assert_eq!(h.selected_view(), Some(View::Home));
    h.cursor_up();
    assert_eq!(h.cursor, 0);
    for _ in 0..10 {
        h.cursor_down();
    }
    assert_eq!(h.cursor, 4);
    assert_eq!(h.selected_view(), Some(View::Contact));
    assert_eq!(h.handle_key(key(KeyCode::Enter)), ViewResult::NavigateTo(View::Contact));
    assert_eq!(h.handle_key(key(KeyCode::Char('k'))), ViewResult::Handled);
    assert_eq!(h.cursor, 3);
    assert_eq!(h.handle_key(key(KeyCode::Char('q'))), ViewResult::Quit);
    assert_eq!(h.handle_key(key(KeyCode::Char('b'))), ViewResult::NavigateTo(View::Blog));
    assert_eq!(h.handle_key(key(KeyCode::Esc)), ViewResult::Ignored);
    h.tick(100);
    assert_eq!(h.typewriter.display_text(), "h");
}

#[test]
fn projects_list() {
    let mut p = ProjectsView::new(2);
    p.cursor_down();
    p.cursor_down();
    assert_eq!(p.cursor, 1);
    assert_eq!(p.handle_key(key(KeyCode::Up)), ViewResult::Handled);
    assert_eq!(p.cursor, 0);
    assert_eq!(p.handle_key(key(KeyCode::Esc)), ViewResult::Back);
    assert_eq!(p.handle_key(key(KeyCode::Char('c'))), ViewResult::NavigateTo(View::Contact));
    assert_eq!(p.handle_key(key(KeyCode::Enter)), ViewResult::Ignored);
    let mut empty = ProjectsView::new(0);
    empty.cursor_down();
    assert_eq!(empty.cursor, 0);
}

#[test]
fn resume_scrolling() {
    let mut r = ResumeView::new("a\nb\nc\nd\ne\nf\ng\nh\ni\nj\nk\nl\nm\nn\no");
    assert_eq!(r.markdown.len(), 15);
    r.fit_viewport(3);
    assert_eq!(r.max_scroll, 12);
    r.scroll_down();
    assert_eq!(r.viewport, 1);
    r.page_down();
    assert_eq!(r.viewport, 11);
    r.page_down();
    assert_eq!(r.viewport, 12);
    r.scroll_down();
    assert_eq!(r.viewport, 12);
    r.page_up();
    assert_eq!(r.viewport, 2);
    r.page_up();
    assert_eq!(r.viewport, 0);
    r.scroll_up();
    assert_eq!(r.viewport, 0);
    assert_eq!(r.handle_key(key(KeyCode::Char('d'))), ViewResult::Handled);
    assert_eq!(r.viewport, 10);
    assert_eq!(r.handle_key(key(KeyCode::Char('q'))), ViewResult::Back);
    assert_eq!(r.handle_key(key(KeyCode::Char('h'))), ViewResult::NavigateTo(View::Home));
    r.fit_viewport(20);
    assert_eq!(r.max_scroll, 0);
    assert_eq!(r.viewport, 0);
}

#[test]
fn model_messages() {
    let mut m = Model::new(0);
    assert_eq!(m.current_view, ViewId::Loading);
    assert_eq!((m.width, m.height), (80, 24));
    m.set_size(100, 40);
    assert_eq!((m.width, m.height), (100, 40));
    m.redraw = false;
    assert!(m.update(Some(Msg::Tick), 1000).is_none());
    assert!(m.redraw);
    assert_eq!(m.current_view, ViewId::Loading);
    m.update(Some(Msg::Tick), 3000);
    assert_eq!(m.current_view, ViewId::Home);
    m.update(Some(Msg::NavigateTo(ViewId::Blog)), 3100);
    assert_eq!(m.current_view, ViewId::Blog);
    m.update(Some(Msg::GoBack), 3200);
    assert_eq!(m.current_view, ViewId::Home);
    m.update(Some(Msg::Noop), 3300);
    m.update(None, 3400);
    assert!(!m.quit);
    m.update(Some(Msg::Quit), 3500);
    assert!(m.quit);
}

#[test]
fn model_leaves_loading_once_complete() {
    let mut m = Model::new(0);
    m.check_loading_complete(2999);
    assert_eq!(m.current_view, ViewId::Loading);
    m.check_loading_complete(3000);
    assert_eq!(m.current_view, ViewId::Home);
}

#[test]
fn loading_animation() {
    let mut l = LoadingState::new(500, 1000);
    assert!(!l.is_complete(1499));
    assert!(l.is_complete(1500));
    l.tick(1050);
    assert_eq!(l.frame_idx, 0);
    l.tick(1100);
    assert_eq!(l.frame_idx, 1);
    assert_eq!(l.current_frame(), "(  \u{25cf}   )");
    let mut spin = LoadingState::indefinite(0).style(LoadingStyle::MultiBounce).with_tick_speed(10);
    assert!(!spin.is_complete(u64::MAX));
    for t in 1..=4u64 {
        spin.tick(t * 10);
    }
    assert_eq!(spin.frame_idx, 0);
    assert_eq!(LoadingStyle::Spinner.frames().len(), 10);
    spin.complete();
    assert!(spin.is_complete(0));
}

#[test]
fn typewriter_cycle() {
    let mut t = TypewriterState::new(&["ab", "c"], 0);
    t.tick(49);
    assert_eq!(t.display_text(), "");
    t.tick(50);
    assert_eq!(t.display_text(), "a");
    t.tick(100);
    assert_eq!(t.display_text(), "ab");
    t.tick(150);
    assert_eq!(t.animation_state, AnimationState::PausedAfterType);
    t.tick(2150);
    assert_eq!(t.animation_state, AnimationState::Deleting);
    t.tick(2180);
    assert_eq!(t.display_text(), "a");
    t.tick(2210);
    t.tick(2240);
    assert_eq!(t.animation_state, AnimationState::PausedAfterDelete);
    t.tick(2540);
    assert_eq!(t.animation_state, AnimationState::Typing);
    assert_eq!(t.phrase_idx, 1);
    t.tick(2590);
    assert_eq!(t.display_text(), "c");
    let mut none = TypewriterState::new(&[], 0);
    none.tick(10_000);
    assert_eq!(none.display_text(), "");
}

#[test]
fn page_layout_builders() {
    let p = PageLayout::new("Blog").help("esc back");
    assert_eq!(p.title, "Blog");
    assert_eq!(p.help_text, "esc back");
    assert!(p.scroll_state.is_none());
    let p = p.scroll_state(3, 10, 20);
    assert!(p.scroll_state.is_none());
    let p = p.scroll_state(3, 30, 20);
    assert_eq!(p.scroll_state, Some(ScrollState { position: 3, content_length: 30, viewport_height: 20 }));
    let p = PageLayout::new("x").scroll_info(Some((2, 9)));
    assert_eq!(p.scroll_state, Some(ScrollState { position: 2, content_length: 10, viewport_height: 1 }));
    let p = PageLayout::new("y").scroll_info(None);
    assert!(p.scroll_state.is_none());
}

#[test]
fn small_widgets() {
    let input = TextInput::new("Email", "a@b").focused(true).label_width(8).input_width(30);
    assert!(input.focused);
    assert_eq!((input.label, input.value), ("Email", "a@b"));
    assert_eq!((input.label_width, input.input_width), (8, 30));
    let plain = TextInput::new("Name", "");
    assert_eq!((plain.label_width, plain.input_width, plain.focused), (12, 50, false));

    let code = CodeBlock::new("let x = 1;").language("rust").width(40);
    assert_eq!(code.code, "let x = 1;");
    assert_eq!(code.language.as_deref(), Some("rust"));
    assert_eq!(code.width, 40);
    assert_eq!(CodeBlock::new("").width, 70);

    let item = MenuItem::new('r', "Resume", "View").selected(true);
    assert!(item.selected);
    assert_eq!((item.key, item.label.as_str(), item.description.as_str()), ('r', "Resume", "View"));
}

#[test]
fn markdown_lines() {
    let md = Markdown::new("# Title\r\n\nbody\n");
    assert_eq!(md.len(), 3);
    assert_eq!(md.lines[0], "# Title");
    assert_eq!(md.lines[1], "");
    assert!(!md.is_empty());
    assert_eq!(md.wrap_width(), None);
    assert!(Markdown::new("").is_empty());
}

#[test]
fn text_helpers() {
    assert_eq!(divider(3), "\u{2500}\u{2500}\u{2500}");
    assert_eq!(divider(0), "");
    let t = TypewriterState::new(&["h\u{e9}!"], 0);
    assert_eq!(t.phrases[0], vec!['h', '\u{e9}', '!']);
    assert_eq!(Markdown::new("a\nb").lines, vec!["a".to_string(), "b".to_string()]);
}

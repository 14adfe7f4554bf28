use whoami_gateway::views::resume::ResumeView;
use whoami_gateway::widgets::markdown::Markdown;
use whoami_gateway::widgets::text_wrap::wrap_text;

#[test]
fn test_wrap_short_line() {
    let result = wrap_text("Hello world", 80);
    assert_eq!(result, vec!["Hello world"]);
}

#[test]
fn test_preserve_heading() {
    let result = wrap_text("# This is a heading", 10);
    assert_eq!(result, vec!["# This is a heading"]);
}

#[test]
fn long_line_wraps_greedily() {
    let result = wrap_text("This is a longer line that should wrap", 20);
    assert_eq!(result, vec!["This is a longer", "line that should", "wrap"]);
}

#[test]
fn zero_width_keeps_text_whole() {
    assert_eq!(wrap_text("a\nb", 0), vec!["a\nb"]);
}

#[test]
fn indent_is_kept_on_continuations() {
    let result = wrap_text("  - alpha beta gamma delta", 14);
    assert_eq!(result, vec!["  - alpha", "  beta gamma", "  delta"]);
}

#[test]
fn narrow_room_and_fences_stay_whole() {
    let long = "        indented words that would wrap";
    assert_eq!(wrap_text(long, 12), vec![long]);
    assert_eq!(wrap_text("```rust code fence here", 8), vec!["```rust code fence here"]);
    assert_eq!(wrap_text("one\n\ntwo", 40), vec!["one", "", "two"]);
    assert_eq!(wrap_text("   ", 40), vec!["   "]);
}

#[test]
fn wide_characters_count_double() {
    let result = wrap_text("\u{4f60}\u{597d} \u{4e16}\u{754c} \u{4f60}\u{597d}", 10);
    assert_eq!(result, vec!["\u{4f60}\u{597d} \u{4e16}\u{754c}", "\u{4f60}\u{597d}"]);
}

#[test]
fn markdown_wrapped_and_resume_rewrap() {
    let md = Markdown::wrapped("This is a longer line that should wrap", 20);
    assert_eq!(md.len(), 3);
    assert_eq!(md.wrap_width(), Some(20));
    let mut r = ResumeView::new("This is a longer line that should wrap");
    assert_eq!(r.markdown.len(), 1);
    r.viewport = 4;
    r.update_wrap(22);
    assert_eq!(r.markdown.len(), 3);
    assert_eq!(r.last_width, 22);
    assert_eq!(r.viewport, 0);
    r.viewport = 1;
    r.update_wrap(22);
    assert_eq!(r.viewport, 1);
    r.update_wrap(0);
    assert_eq!(r.last_width, 22);
}

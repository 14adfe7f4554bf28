use whoami_gateway::views::post::{render_post_content, ContentLine};
use whoami_gateway::widgets::code_block::CodeBlock;
use whoami_gateway::widgets::markdown::{render_line, render_lines, Markdown, SpanStyle, StyledSpan};
use whoami_gateway::widgets::selectable_item::{accent_bold, featured_badge, MenuItem, SelectableItem};
use whoami_gateway::widgets::tag_list::TagList;

fn flat(spans: &[StyledSpan]) -> Vec<(String, SpanStyle)> {
    spans.iter().map(|s| (s.text.clone(), s.style)).collect()
}

fn one(text: &str, style: SpanStyle) -> Vec<(String, SpanStyle)> {
    vec![(text.to_string(), style)]
}

#[test]
fn test_code_block_creates_lines() {
    let block = CodeBlock::new("let x = 1;").language("rust").width(40);
    let lines = block.to_lines();
    assert_eq!(lines.len(), 3);
}

#[test]
fn code_block_rows_are_boxed() {
    let block = CodeBlock::new("a\nbc").width(12);
    let rows = block.to_lines();
    assert_eq!(rows.len(), 4);
    assert_eq!(rows[0][0].text, "\u{250c}\u{2500} code \u{2500}\u{2500}\u{2500}\u{2510}");
    assert_eq!(rows[0][0].style, SpanStyle::CodeLabel);
    assert_eq!(flat(&rows[2]), vec![
        ("\u{2502} ".to_string(), SpanStyle::CodeLabel),
        ("bc      ".to_string(), SpanStyle::Code),
        (" \u{2502}".to_string(), SpanStyle::CodeLabel),
    ]);
    assert_eq!(rows[3][0].text, format!("\u{2514}{}\u{2518}", "\u{2500}".repeat(10)));
    let narrow = CodeBlock::new("long line").language("rust").width(3).to_lines();
    assert_eq!(narrow[0][0].text, "\u{250c}\u{2500} rust \u{2510}");
    assert_eq!(narrow[1][1].text, "long line");
    assert_eq!(narrow[2][0].text, "\u{2514}\u{2500}\u{2518}");
}

#[test]
fn markdown_line_kinds() {
    assert_eq!(flat(&render_line("# Title")), one("Title", SpanStyle::Title));
    assert_eq!(flat(&render_line("## Sub")), one("Sub", SpanStyle::Subtitle));
    assert_eq!(flat(&render_line("### Small")), one("Small", SpanStyle::Accent));
    assert_eq!(flat(&render_line("- **Bold** item")), vec![
        ("  \u{2022} ".to_string(), SpanStyle::Accent),
        ("Bold** item".to_string(), SpanStyle::Text),
    ]);
    assert_eq!(flat(&render_line("- item")), vec![
        ("  \u{2022} ".to_string(), SpanStyle::Accent),
        ("item".to_string(), SpanStyle::Text),
    ]);
    assert_eq!(flat(&render_line("2. second")), vec![
        ("  2. ".to_string(), SpanStyle::Accent),
        ("second".to_string(), SpanStyle::Text),
    ]);
    assert_eq!(flat(&render_line("4. fourth")), one("4. fourth", SpanStyle::Text));
    assert_eq!(flat(&render_line("**Languages:** Rust, Go****")), vec![
        ("Languages:".to_string(), SpanStyle::Bold),
        (" Rust, Go".to_string(), SpanStyle::Text),
    ]);
    assert_eq!(flat(&render_line("**no label**")), one("**no label**", SpanStyle::Text));
    assert_eq!(flat(&render_line("*aside*")), one("aside", SpanStyle::Italic));
    assert_eq!(flat(&render_line("**")), one("**", SpanStyle::Text));
    assert_eq!(flat(&render_line("---")), one(&"\u{2500}".repeat(40), SpanStyle::Border));
    assert_eq!(flat(&render_line("plain")), one("plain", SpanStyle::Text));
    assert_eq!(flat(&render_line("")), one("", SpanStyle::Text));
}

#[test]
fn markdown_ranges() {
    let md = Markdown::new("# A\nb\nc");
    let all = md.render_all();
    assert_eq!(all.len(), 3);
    assert_eq!(all[0][0].style, SpanStyle::Title);
    let part = md.render_range(1, 10);
    assert_eq!(part.len(), 2);
    assert_eq!(part[0][0].text, "b");
    assert!(md.render_range(5, 2).is_empty());
    assert_eq!(render_lines("x\n- y").len(), 2);
}

fn span(text: &str, style: SpanStyle) -> StyledSpan {
    StyledSpan { text: text.to_string(), style }
}

#[test]
fn selectable_item_lines() {
    let plain = SelectableItem::new("Post").to_line();
    assert_eq!(flat(&plain), vec![("  ".to_string(), SpanStyle::Plain), ("Post".to_string(), SpanStyle::Text)]);
    let chosen = SelectableItem::new("Post")
        .selected(true)
        .badge(featured_badge())
        .suffix(span("2024", SpanStyle::Muted))
        .to_line();
    assert_eq!(flat(&chosen), vec![
        ("\u{25b8} ".to_string(), SpanStyle::Cursor),
        (" Post ".to_string(), SpanStyle::Selected),
        (" \u{2605}".to_string(), SpanStyle::Warning),
        ("  ".to_string(), SpanStyle::Plain),
        ("2024".to_string(), SpanStyle::Muted),
    ]);
    let styled = SelectableItem::new("Gateway").unselected_style(accent_bold()).to_line();
    assert_eq!(styled[1].style, SpanStyle::AccentBold);
}

#[test]
fn menu_item_lines() {
    let idle = MenuItem::new('r', "Resume", "cv").to_line();
    assert_eq!(flat(&idle), vec![
        ("  ".to_string(), SpanStyle::Plain),
        ("[r]".to_string(), SpanStyle::Accent),
        (" Resume".to_string(), SpanStyle::MenuEntry),
        (" cv".to_string(), SpanStyle::Muted),
    ]);
    let on = MenuItem::new('r', "Resume", "cv").selected(true).to_line();
    assert_eq!(flat(&on), vec![
        ("\u{25b8} ".to_string(), SpanStyle::Cursor),
        (" Resume ".to_string(), SpanStyle::Selected),
        (" cv".to_string(), SpanStyle::Muted),
    ]);
}

#[test]
fn tag_list_badges() {
    let tags = TagList::new(&["Go", "TUI"]);
    assert_eq!(flat(&tags.to_spans()), vec![
        (" Go ".to_string(), SpanStyle::Tag),
        (" ".to_string(), SpanStyle::Plain),
        (" TUI ".to_string(), SpanStyle::Tag),
        (" ".to_string(), SpanStyle::Plain),
    ]);
    let line = TagList::from_vec(&["x"]).indent(3).to_line();
    assert_eq!(flat(&line), vec![
        ("   ".to_string(), SpanStyle::Plain),
        (" x ".to_string(), SpanStyle::Tag),
        (" ".to_string(), SpanStyle::Plain),
    ]);
    let led = TagList::new(&[]).prefix(span(">", SpanStyle::Muted)).to_line();
    assert_eq!(flat(&led), vec![(">".to_string(), SpanStyle::Muted)]);
}

#[test]
fn post_body_rows() {
    let body = "intro\n```rust\nlet x = 1;\n\nlet y = 2;\n```\n# Head\n```\nopen";
    let rows = render_post_content(body, 40);
    assert_eq!(rows.len(), 7);
    assert!(matches!(&rows[0], ContentLine::Text(t) if t == "intro"));
    match &rows[1] {
        ContentLine::CodeBlockLine(spans) => {
            assert!(spans[0].text.starts_with("\u{250c}\u{2500} rust "));
            assert_eq!(spans[0].text.chars().count(), 40);
        }
        ContentLine::Text(_) => panic!("expected the code block header"),
    }
    match &rows[3] {
        ContentLine::CodeBlockLine(spans) => assert_eq!(spans[1].text.trim_end(), ""),
        ContentLine::Text(_) => panic!("expected the blank code line"),
    }
    assert!(matches!(&rows[6], ContentLine::Text(t) if t == "# Head"));
    assert_eq!(flat(&rows[6].to_line()), one("Head", SpanStyle::Title));
    assert_eq!(rows[1].to_line()[0].style, SpanStyle::CodeLabel);
}

#[test]
fn post_code_block_width_is_capped() {
    let rows = render_post_content("```\nx\n```", 200);
    assert_eq!(rows.len(), 3);
    match &rows[0] {
        ContentLine::CodeBlockLine(spans) => {
            assert!(spans[0].text.starts_with("\u{250c}\u{2500} code "));
            assert_eq!(spans[0].text.chars().count(), 72);
        }
        ContentLine::Text(_) => panic!("expected a header"),
    }
}

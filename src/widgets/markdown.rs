//! Markdown text held as lines, optionally wrapped to a width.
use vstd::prelude::*;
use crate::text::{chars_of, lines_of, string_of, substring, text_lines};
use crate::widgets::text_wrap::{texts, wrap_text};

verus! {

/// How a piece of rendered markdown is drawn.
#[derive(Clone, Copy, PartialEq, Eq, Structural, Debug)]
pub enum SpanStyle {
    Title,
    Subtitle,
    Accent,
    Text,
    Bold,
    Italic,
    Border,
    CodeLabel,
    Code,
    Muted,
    Selected,
    Cursor,
    MenuEntry,
    Warning,
    Tag,
    AccentBold,
    Plain,
}

/// A copy of a span.
pub fn copy_span(s: &StyledSpan) -> (r: StyledSpan)
    ensures
        r.text@ == s.text@,
        r.style == s.style,
{
    StyledSpan { text: s.text.clone(), style: s.style }
}

/// A piece of a rendered line and its style.
#[derive(Clone, Debug)]
pub struct StyledSpan {
    pub text: String,
    pub style: SpanStyle,
}

pub open spec fn spans_view(v: Seq<StyledSpan>) -> Seq<(Seq<char>, SpanStyle)> {
    v.map_values(|s: StyledSpan| (s.text@, s.style))
}

/// The bullet drawn before a list item.
pub open spec fn bullet() -> Seq<char> {
    seq![' ', ' ', '\u{2022}', ' ']
}

/// Whether `:**` starts at `i`.
pub open spec fn label_end_at(s: Seq<char>, i: int) -> bool {
    0 <= i && i + 3 <= s.len() && s[i] == ':' && s[i + 1] == '*' && s[i + 2] == '*'
}

/// Where the first `:**` at or after `i` starts, or -1.
pub open spec fn find_label_end(s: Seq<char>, i: int) -> int
    decreases s.len() - i,
{
    if i < 0 || i + 3 > s.len() {
        -1
    } else if label_end_at(s, i) {
        i
    } else {
        find_label_end(s, i + 1)
    }
}

/// The text without any trailing `**` pairs.
pub open spec fn trim_stars(s: Seq<char>) -> Seq<char>
    decreases s.len(),
{
    if s.len() >= 2 && s[s.len() - 1] == '*' && s[s.len() - 2] == '*' {
        trim_stars(s.take(s.len() - 2))
    } else {
        s
    }
}

pub open spec fn is_rule(s: Seq<char>) -> bool {
    s.len() == 3 && s[0] == '-' && s[1] == '-' && s[2] == '-'
}

/// One line of markdown as styled pieces: headings of three levels, list
/// items (bold-started or plain), items numbered one to three, bold labels
/// (`**Label:** value`), italic lines, horizontal rules, and plain text.
pub open spec fn line_spans(s: Seq<char>) -> Seq<(Seq<char>, SpanStyle)> {
    let n = s.len();
    if n >= 2 && s[0] == '#' && s[1] == ' ' {
        seq![(s.skip(2), SpanStyle::Title)]
    } else if n >= 3 && s[0] == '#' && s[1] == '#' && s[2] == ' ' {
        seq![(s.skip(3), SpanStyle::Subtitle)]
    } else if n >= 4 && s[0] == '#' && s[1] == '#' && s[2] == '#' && s[3] == ' ' {
        seq![(s.skip(4), SpanStyle::Accent)]
    } else if n >= 4 && s[0] == '-' && s[1] == ' ' && s[2] == '*' && s[3] == '*' {
        seq![(bullet(), SpanStyle::Accent), (s.skip(4), SpanStyle::Text)]
    } else if n >= 2 && s[0] == '-' && s[1] == ' ' {
        seq![(bullet(), SpanStyle::Accent), (s.skip(2), SpanStyle::Text)]
    } else if n >= 3 && ('1' <= s[0] && s[0] <= '3') && s[1] == '.' && s[2] == ' ' {
        seq![(seq![' ', ' ', s[0], '.', ' '], SpanStyle::Accent), (s.skip(3), SpanStyle::Text)]
    } else if n >= 2 && s[0] == '*' && s[1] == '*' && find_label_end(s, 0) >= 0 {
        let idx = find_label_end(s, 0);
        seq![
            (s.subrange(2, idx).push(':'), SpanStyle::Bold),
            (trim_stars(s.skip(idx + 3)), SpanStyle::Text),
        ]
    } else if n > 2 && s[0] == '*' && s[n - 1] == '*' && !(s[1] == '*') {
        seq![(s.subrange(1, n - 1), SpanStyle::Italic)]
    } else if is_rule(s) {
        seq![(Seq::new(40, |i: int| '\u{2500}'), SpanStyle::Border)]
    } else {
        seq![(s, SpanStyle::Text)]
    }
}

proof fn lemma_find_label_end(s: Seq<char>, i: int)
    requires
        0 <= i,
    ensures
        find_label_end(s, i) >= 0 ==> find_label_end(s, i) >= i && label_end_at(
            s,
            find_label_end(s, i),
        ),
    decreases s.len() - i,
{
    if i + 3 <= s.len() && !label_end_at(s, i) {
        lemma_find_label_end(s, i + 1);
    }
}

fn find_label(s: &Vec<char>) -> (r: Option<usize>)
    ensures
        match r {
            Some(i) => find_label_end(s@, 0) == i,
            None => find_label_end(s@, 0) == -1,
        },
{
    let n = s.len();
    let mut i: usize = 0;
    while i < n && n - i >= 3
        invariant
            n == s@.len(),
            find_label_end(s@, 0) == find_label_end(s@, i as int),
        decreases n - i,
    {
        if s[i] == ':' && s[i + 1] == '*' && s[i + 2] == '*' {
            return Some(i);
        }
        i += 1;
    }
    None
}

fn trim_trailing_stars(s: &Vec<char>, start: usize) -> (r: usize)
    requires
        start <= s@.len(),
    ensures
        start <= r <= s@.len(),
        s@.subrange(start as int, r as int) == trim_stars(s@.skip(start as int)),
{
    let mut end = s.len();
    assert(s@.subrange(start as int, end as int) =~= s@.skip(start as int));
    while end - start >= 2 && s[end - 1] == '*' && s[end - 2] == '*'
        invariant
            start <= end <= s@.len(),
            trim_stars(s@.skip(start as int)) == trim_stars(s@.subrange(start as int, end as int)),
        decreases end,
    {
        assert(s@.subrange(start as int, end as int).take(end - start - 2) =~= s@.subrange(
            start as int,
            end - 2,
        ));
        end -= 2;
    }
    end
}

/// Renders one line of markdown as styled pieces.
pub fn render_line(line: &str) -> (r: Vec<StyledSpan>)
    ensures
        spans_view(r@) == line_spans(line@),
{
    let s = chars_of(line);
    let n = s.len();
    let r = if n >= 2 && s[0] == '#' && s[1] == ' ' {
        vec![StyledSpan { text: substring(s.as_slice(), 2, n), style: SpanStyle::Title }]
    } else if n >= 3 && s[0] == '#' && s[1] == '#' && s[2] == ' ' {
        vec![StyledSpan { text: substring(s.as_slice(), 3, n), style: SpanStyle::Subtitle }]
    } else if n >= 4 && s[0] == '#' && s[1] == '#' && s[2] == '#' && s[3] == ' ' {
        vec![StyledSpan { text: substring(s.as_slice(), 4, n), style: SpanStyle::Accent }]
    } else if n >= 4 && s[0] == '-' && s[1] == ' ' && s[2] == '*' && s[3] == '*' {
        vec![
            StyledSpan { text: bullet_text(), style: SpanStyle::Accent },
            StyledSpan { text: substring(s.as_slice(), 4, n), style: SpanStyle::Text },
        ]
    } else if n >= 2 && s[0] == '-' && s[1] == ' ' {
        vec![
            StyledSpan { text: bullet_text(), style: SpanStyle::Accent },
            StyledSpan { text: substring(s.as_slice(), 2, n), style: SpanStyle::Text },
        ]
    } else if n >= 3 && ('1' <= s[0] && s[0] <= '3') && s[1] == '.' && s[2] == ' ' {
        let marker = vec![' ', ' ', s[0], '.', ' '];
        vec![
            StyledSpan { text: string_of(marker.as_slice()), style: SpanStyle::Accent },
            StyledSpan { text: substring(s.as_slice(), 3, n), style: SpanStyle::Text },
        ]
    } else if n >= 2 && s[0] == '*' && s[1] == '*' && find_label(&s).is_some() {
        let idx = match find_label(&s) {
            Some(i) => i,
            None => 0,
        };
        proof {
            lemma_find_label_end(s@, 2);
            assert(find_label_end(s@, 0) == find_label_end(s@, 1));
            assert(find_label_end(s@, 1) == find_label_end(s@, 2));
        }
        let mut label: Vec<char> = Vec::new();
        let mut k: usize = 2;
        while k < idx
            invariant
                2 <= k <= idx,
                idx + 3 <= n,
                n == s@.len(),
                label@ == s@.subrange(2, k as int),
            decreases idx - k,
        {
            label.push(s[k]);
            assert(s@.subrange(2, k as int + 1) =~= s@.subrange(2, k as int).push(s@[k as int]));
            k += 1;
        }
        label.push(':');
        let end = trim_trailing_stars(&s, idx + 3);
        vec![
            StyledSpan { text: string_of(label.as_slice()), style: SpanStyle::Bold },
            StyledSpan { text: substring(s.as_slice(), idx + 3, end), style: SpanStyle::Text },
        ]
    } else if n > 2 && s[0] == '*' && s[n - 1] == '*' && !(s[1] == '*') {
        vec![StyledSpan { text: substring(s.as_slice(), 1, n - 1), style: SpanStyle::Italic }]
    } else if n == 3 && s[0] == '-' && s[1] == '-' && s[2] == '-' {
        vec![StyledSpan { text: crate::text::divider(40), style: SpanStyle::Border }]
    } else {
        vec![StyledSpan { text: string_of(s.as_slice()), style: SpanStyle::Text }]
    };
    proof {
        assert(spans_view(r@) =~= line_spans(line@));
    }
    r
}

pub open spec fn rendered(lines: Seq<Seq<char>>) -> Seq<Seq<(Seq<char>, SpanStyle)>> {
    lines.map_values(|l: Seq<char>| line_spans(l))
}

pub open spec fn rendered_view(v: Seq<Vec<StyledSpan>>) -> Seq<Seq<(Seq<char>, SpanStyle)>> {
    v.map_values(|l: Vec<StyledSpan>| spans_view(l@))
}

/// Renders every line of a text.
pub fn render_lines(content: &str) -> (r: Vec<Vec<StyledSpan>>)
    ensures
        rendered_view(r@) == rendered(text_lines(content@)),
{
    let lines = lines_of(content);
    render_slice(&lines, 0, lines.len())
}

fn render_slice(lines: &Vec<String>, start: usize, end: usize) -> (r: Vec<Vec<StyledSpan>>)
    requires
        start <= end <= lines@.len(),
    ensures
        rendered_view(r@) == rendered(texts(lines@).subrange(start as int, end as int)),
{
    let mut out: Vec<Vec<StyledSpan>> = Vec::new();
    let mut i: usize = start;
    while i < end
        invariant
            start <= i <= end <= lines@.len(),
            rendered_view(out@) == rendered(texts(lines@).subrange(start as int, i as int)),
        decreases end - i,
    {
        let spans = render_line(lines[i].as_str());
        let ghost prev = out@;
        out.push(spans);
        assert(rendered_view(out@) =~= rendered_view(prev).push(spans_view(spans@)));
        assert(rendered(texts(lines@).subrange(start as int, i as int + 1)) =~= rendered(
            texts(lines@).subrange(start as int, i as int),
        ).push(line_spans(lines@[i as int]@)));
        i += 1;
    }
    out
}

fn bullet_text() -> (r: String)
    ensures
        r@ == bullet(),
{
    let v = vec![' ', ' ', '\u{2022}', ' '];
    string_of(v.as_slice())
}

/// Lines of markdown and the width they were wrapped to, if any.
pub struct Markdown {
    pub lines: Vec<String>,
    pub wrap_width: Option<usize>,
}

impl Markdown {
    /// The lines of `content`, unwrapped.
    pub fn new(content: &str) -> (r: Markdown)
        ensures
            r.lines@.len() == text_lines(content@).len(),
            forall|i: int| 0 <= i < r.lines@.len() ==> #[trigger] r.lines@[i]@ == text_lines(content@)[i],
            r.wrap_width is None,
    {
        Markdown { lines: lines_of(content), wrap_width: None }
    }

    /// The lines of `content`, wrapped to `width` columns.
    pub fn wrapped(content: &str, width: usize) -> (r: Markdown)
        ensures
            width == 0 ==> texts(r.lines@) == seq![content@],
            width > 0 ==> texts(r.lines@) == crate::widgets::text_wrap::wrap_all(
                text_lines(content@),
                width as int,
            ),
            r.wrap_width == Some(width),
    {
        Markdown { lines: wrap_text(content, width), wrap_width: Some(width) }
    }

    /// Renders the lines from `start` up to `end`, both cut to the number of
    /// lines.
    pub fn render_range(&self, start: usize, end: usize) -> (r: Vec<Vec<StyledSpan>>)
        requires
            start <= end || end >= self.lines@.len(),
        ensures
            ({
                let n = self.lines@.len() as int;
                let a = if start < n {
                    start as int
                } else {
                    n
                };
                let b = if end < n {
                    end as int
                } else {
                    n
                };
                rendered_view(r@) == rendered(texts(self.lines@).subrange(a, b))
            }),
    {
        let n = self.lines.len();
        let a = if start < n {
            start
        } else {
            n
        };
        let b = if end < n {
            end
        } else {
            n
        };
        render_slice(&self.lines, a, b)
    }

    /// Renders every line.
    pub fn render_all(&self) -> (r: Vec<Vec<StyledSpan>>)
        ensures
            rendered_view(r@) == rendered(texts(self.lines@)),
    {
        let r = render_slice(&self.lines, 0, self.lines.len());
        assert(texts(self.lines@).subrange(0, self.lines@.len() as int) =~= texts(self.lines@));
        r
    }

    /// The number of lines.
    pub fn len(&self) -> (r: usize)
        ensures
            r == self.lines@.len(),
    {
        self.lines.len()
    }

    pub fn is_empty(&self) -> (r: bool)
        ensures
            r == (self.lines@.len() == 0),
    {
        self.lines.len() == 0
    }

    /// The width the lines were wrapped to.
    pub fn wrap_width(&self) -> (r: Option<usize>)
        ensures
            r == self.wrap_width,
    {
        self.wrap_width
    }
}

} // verus!

//! List entries that show whether the cursor is on them.
use vstd::prelude::*;
use crate::text::{chars_of, string_of};
use crate::widgets::markdown::{copy_span, spans_view, SpanStyle, StyledSpan};

verus! {

/// `text` with a space on each side.
pub open spec fn spaced(text: Seq<char>) -> Seq<char> {
    seq![' '] + text + seq![' ']
}

pub open spec fn cursor_mark() -> Seq<char> {
    seq!['\u{25b8}', ' ']
}

pub open spec fn gap() -> Seq<char> {
    seq![' ', ' ']
}

fn chars_with(b: &Vec<char>, text: &str, a: &Vec<char>) -> (r: String)
    ensures
        r@ == b@ + text@ + a@,
{
    let ghost before = b@;
    let middle = chars_of(text);
    let mut v = b.clone();
    let mut i: usize = 0;
    while i < middle.len()
        invariant
            i <= middle@.len(),
            v@ == before + middle@.take(i as int),
        decreases middle@.len() - i,
    {
        v.push(middle[i]);
        assert(before + middle@.take(i as int + 1) =~= (before + middle@.take(i as int)).push(middle@[i as int]));
        i += 1;
    }
    assert(middle@.take(middle@.len() as int) =~= middle@);
    let mut j: usize = 0;
    let ghost base = v@;
    while j < a.len()
        invariant
            j <= a@.len(),
            v@ == base + a@.take(j as int),
        decreases a@.len() - j,
    {
        v.push(a[j]);
        assert(base + a@.take(j as int + 1) =~= (base + a@.take(j as int)).push(a@[j as int]));
        j += 1;
    }
    assert(a@.take(a@.len() as int) =~= a@);
    assert(v@ =~= before + text@ + a@);
    string_of(v.as_slice())
}

fn literal(cs: &Vec<char>, style: SpanStyle) -> (r: StyledSpan)
    ensures
        r.text@ == cs@,
        r.style == style,
{
    StyledSpan { text: string_of(cs.as_slice()), style }
}

/// A list entry: its text, whether the cursor is on it, an optional badge
/// and suffix, and the style of its text when the cursor is elsewhere.
pub struct SelectableItem {
    pub text: String,
    pub selected: bool,
    pub suffix: Option<StyledSpan>,
    pub badge: Option<StyledSpan>,
    pub unselected_style: Option<SpanStyle>,
}

pub open spec fn opt_span(s: Option<StyledSpan>) -> Seq<(Seq<char>, SpanStyle)> {
    match s {
        Some(x) => seq![(x.text@, x.style)],
        None => Seq::empty(),
    }
}

impl SelectableItem {
    /// The entry as rendered: a cursor mark and highlighted text when
    /// selected, else an indent and the text; then the badge; then a gap and
    /// the suffix.
    pub open spec fn rendered(&self) -> Seq<(Seq<char>, SpanStyle)> {
        (if self.selected {
            seq![(cursor_mark(), SpanStyle::Cursor), (spaced(self.text@), SpanStyle::Selected)]
        } else {
            seq![
                (gap(), SpanStyle::Plain),
                (self.text@, match self.unselected_style {
                    Some(st) => st,
                    None => SpanStyle::Text,
                }),
            ]
        }) + opt_span(self.badge) + match self.suffix {
            Some(x) => seq![(gap(), SpanStyle::Plain), (x.text@, x.style)],
            None => Seq::empty(),
        }
    }

    pub fn new(text: &str) -> (r: SelectableItem)
        ensures
            r.text@ == text@,
            !r.selected,
            r.suffix is None,
            r.badge is None,
            r.unselected_style is None,
    {
        SelectableItem {
            text: text.to_owned(),
            selected: false,
            suffix: None,
            badge: None,
            unselected_style: None,
        }
    }

    pub fn selected(self, selected: bool) -> (r: SelectableItem)
        ensures
            r == (SelectableItem { selected, ..self }),
    {
        SelectableItem { selected, ..self }
    }

    pub fn suffix(self, suffix: StyledSpan) -> (r: SelectableItem)
        ensures
            r == (SelectableItem { suffix: Some(suffix), ..self }),
    {
        SelectableItem { suffix: Some(suffix), ..self }
    }

    pub fn badge(self, badge: StyledSpan) -> (r: SelectableItem)
        ensures
            r == (SelectableItem { badge: Some(badge), ..self }),
    {
        SelectableItem { badge: Some(badge), ..self }
    }

    pub fn unselected_style(self, style: SpanStyle) -> (r: SelectableItem)
        ensures
            r == (SelectableItem { unselected_style: Some(style), ..self }),
    {
        SelectableItem { unselected_style: Some(style), ..self }
    }

    /// The entry as styled pieces.
    pub fn to_line(&self) -> (r: Vec<StyledSpan>)
        ensures
            spans_view(r@) == self.rendered(),
    {
        let mut spans: Vec<StyledSpan> = Vec::new();
        let mark = vec!['\u{25b8}', ' '];
        let two = vec![' ', ' '];
        let one = vec![' '];
        if self.selected {
            spans.push(literal(&mark, SpanStyle::Cursor));
            spans.push(StyledSpan { text: chars_with(&one, self.text.as_str(), &one), style: SpanStyle::Selected });
        } else {
            spans.push(literal(&two, SpanStyle::Plain));
            let style = match self.unselected_style {
                Some(st) => st,
                None => SpanStyle::Text,
            };
            spans.push(StyledSpan { text: self.text.clone(), style });
        }
        if let Some(b) = &self.badge {
            spans.push(copy_span(b));
        }
        if let Some(s) = &self.suffix {
            spans.push(literal(&two, SpanStyle::Plain));
            spans.push(copy_span(s));
        }
        assert(one@ =~= seq![' ']);
        assert(two@ =~= seq![' ', ' ']);
        assert(mark@ =~= seq!['\u{25b8}', ' ']);
        assert(spans_view(spans@) =~~= self.rendered());
        spans
    }
}

/// A menu entry with its hotkey.
pub struct MenuItem {
    pub key: char,
    pub label: String,
    pub description: String,
    pub selected: bool,
}

impl MenuItem {
    /// The entry as rendered: highlighted with a cursor mark when selected,
    /// else with its hotkey in brackets; the description follows, muted.
    pub open spec fn rendered(&self) -> Seq<(Seq<char>, SpanStyle)> {
        if self.selected {
            seq![
                (cursor_mark(), SpanStyle::Cursor),
                (spaced(self.label@), SpanStyle::Selected),
                (seq![' '] + self.description@, SpanStyle::Muted),
            ]
        } else {
            seq![
                (gap(), SpanStyle::Plain),
                (seq!['[', self.key, ']'], SpanStyle::Accent),
                (seq![' '] + self.label@, SpanStyle::MenuEntry),
                (seq![' '] + self.description@, SpanStyle::Muted),
            ]
        }
    }

    /// An unselected entry.
    pub fn new(key: char, label: &str, description: &str) -> (r: MenuItem)
        ensures
            r.key == key,
            r.label@ == label@,
            r.description@ == description@,
            !r.selected,
    {
        MenuItem { key, label: label.to_owned(), description: description.to_owned(), selected: false }
    }

    /// The same entry, selected or not.
    pub fn selected(self, selected: bool) -> (r: MenuItem)
        ensures
            r.key == self.key,
            r.label == self.label,
            r.description == self.description,
            r.selected == selected,
    {
        MenuItem { selected, ..self }
    }

    /// The entry as styled pieces.
    pub fn to_line(&self) -> (r: Vec<StyledSpan>)
        ensures
            spans_view(r@) == self.rendered(),
    {
        let one = vec![' '];
        let none: Vec<char> = Vec::new();
        let r = if self.selected {
            let mark = vec!['\u{25b8}', ' '];
            vec![
                literal(&mark, SpanStyle::Cursor),
                StyledSpan { text: chars_with(&one, self.label.as_str(), &one), style: SpanStyle::Selected },
                StyledSpan { text: chars_with(&one, self.description.as_str(), &none), style: SpanStyle::Muted },
            ]
        } else {
            let two = vec![' ', ' '];
            let hotkey = vec!['[', self.key, ']'];
            vec![
                literal(&two, SpanStyle::Plain),
                literal(&hotkey, SpanStyle::Accent),
                StyledSpan { text: chars_with(&one, self.label.as_str(), &none), style: SpanStyle::MenuEntry },
                StyledSpan { text: chars_with(&one, self.description.as_str(), &none), style: SpanStyle::Muted },
            ]
        };
        assert(one@ =~= seq![' ']);
        assert(none@ =~= Seq::<char>::empty());
        assert(spans_view(r@) =~~= self.rendered());
        r
    }
}

/// The star shown after a featured project.
pub fn featured_badge() -> (r: StyledSpan)
    ensures
        r.text@ == seq![' ', '\u{2605}'],
        r.style == SpanStyle::Warning,
{
    let star = vec![' ', '\u{2605}'];
    literal(&star, SpanStyle::Warning)
}

/// The style of a project's name when the cursor is elsewhere.
pub fn accent_bold() -> (r: SpanStyle)
    ensures
        r == SpanStyle::AccentBold,
{
    SpanStyle::AccentBold
}

} // verus!

//! A boxed code listing.
use vstd::prelude::*;
use crate::text::{chars_of, lines_of, repeated, string_of, text_lines};
use crate::widgets::markdown::{rendered_view, spans_view, SpanStyle, StyledSpan};
use crate::widgets::text_wrap::{capped, display_width, str_width};

verus! {

/// `a - b`, or zero when `b` is larger.
pub open spec fn less(a: int, b: int) -> int {
    if a >= b {
        a - b
    } else {
        0
    }
}

/// The top border: the language label, then a rule to the corner.
pub open spec fn header_text(lang: Seq<char>, width: int) -> Seq<char> {
    let prefix = seq!['\u{250c}', '\u{2500}', ' '] + lang + seq![' '];
    let corner = seq!['\u{2510}'];
    let rule = less(width, capped((str_width(prefix) + str_width(corner)) as int));
    prefix + repeated('\u{2500}', rule as nat) + corner
}

/// A code line padded with spaces to `width` characters.
pub open spec fn padded(line: Seq<char>, width: int) -> Seq<char> {
    if line.len() >= width {
        line
    } else {
        line + repeated(' ', (width - line.len()) as nat)
    }
}

/// The bottom border.
pub open spec fn footer_text(width: int) -> Seq<char> {
    let left = seq!['\u{2514}'];
    let right = seq!['\u{2518}'];
    left + repeated('\u{2500}', less(width, capped((str_width(left) + str_width(right)) as int)) as nat)
        + right
}

pub open spec fn code_row(line: Seq<char>, width: int) -> Seq<(Seq<char>, SpanStyle)> {
    seq![
        (seq!['\u{2502}', ' '], SpanStyle::CodeLabel),
        (padded(line, less(width, 4)), SpanStyle::Code),
        (seq![' ', '\u{2502}'], SpanStyle::CodeLabel),
    ]
}

/// The rendered block: the header, one row per line of code, the footer.
pub open spec fn block_rows(code: Seq<char>, lang: Seq<char>, width: int) -> Seq<
    Seq<(Seq<char>, SpanStyle)>,
> {
    seq![seq![(header_text(lang, width), SpanStyle::CodeLabel)]] + text_lines(code).map_values(
        |l: Seq<char>| code_row(l, width),
    ) + seq![seq![(footer_text(width), SpanStyle::CodeLabel)]]
}

fn rule_of(n: usize) -> (r: Vec<char>)
    ensures
        r@ == repeated('\u{2500}', n as nat),
{
    let mut v: Vec<char> = Vec::new();
    let mut i: usize = 0;
    while i < n
        invariant
            i <= n,
            v@ == repeated('\u{2500}', i as nat),
        decreases n - i,
    {
        v.push('\u{2500}');
        i += 1;
        assert(v@ =~= repeated('\u{2500}', i as nat));
    }
    v
}

fn append(v: &mut Vec<char>, w: &Vec<char>)
    ensures
        final(v)@ == old(v)@ + w@,
{
    let mut i: usize = 0;
    while i < w.len()
        invariant
            i <= w@.len(),
            v@ == old(v)@ + w@.take(i as int),
        decreases w@.len() - i,
    {
        v.push(w[i]);
        assert(old(v)@ + w@.take(i as int + 1) =~= (old(v)@ + w@.take(i as int)).push(w@[i as int]));
        i += 1;
    }
    assert(w@.take(w@.len() as int) =~= w@);
}

fn width_of(v: &Vec<char>) -> (r: usize)
    ensures
        r == str_width(v@),
{
    display_width(string_of(v.as_slice()).as_str())
}

/// Code with an optional language label, drawn in a box of a given width.
pub struct CodeBlock {
    pub code: String,
    pub language: Option<String>,
    pub width: u16,
}

impl CodeBlock {
    /// A 70-column block with no language label.
    pub fn new(code: &str) -> (r: CodeBlock)
        ensures
            r.code@ == code@,
            r.language is None,
            r.width == 70,
    {
        CodeBlock { code: code.to_owned(), language: None, width: 70 }
    }

    /// The same block labelled with `lang`.
    pub fn language(self, lang: &str) -> (r: CodeBlock)
        ensures
            r.code == self.code,
            r.language matches Some(l) && l@ == lang@,
            r.width == self.width,
    {
        CodeBlock { language: Some(lang.to_owned()), ..self }
    }

    /// The label shown in the header: the language, or `code`.
    pub open spec fn label(&self) -> Seq<char> {
        match self.language {
            Some(l) => l@,
            None => seq!['c', 'o', 'd', 'e'],
        }
    }

    /// The block as rendered rows.
    pub fn to_lines(&self) -> (r: Vec<Vec<StyledSpan>>)
        ensures
            rendered_view(r@) == block_rows(self.code@, self.label(), self.width as int),
    {
        let w = self.width as usize;
        let label: Vec<char> = match &self.language {
            Some(l) => chars_of(l.as_str()),
            None => vec!['c', 'o', 'd', 'e'],
        };
        assert(label@ == self.label());
        let mut prefix: Vec<char> = vec!['\u{250c}', '\u{2500}', ' '];
        append(&mut prefix, &label);
        prefix.push(' ');
        let corner: Vec<char> = vec!['\u{2510}'];
        let used = {
            let a = width_of(&prefix);
            let b = width_of(&corner);
            if a > usize::MAX - b {
                usize::MAX
            } else {
                a + b
            }
        };
        assert(prefix@ =~= seq!['\u{250c}', '\u{2500}', ' '] + label@ + seq![' ']);
        assert(corner@ =~= seq!['\u{2510}']);
        assert(used as int == capped((str_width(prefix@) + str_width(corner@)) as int));
        let rule = rule_of(w.saturating_sub(used));
        assert(rule@ == repeated('\u{2500}', less(self.width as int, used as int) as nat));
        let mut header = prefix.clone();
        append(&mut header, &rule);
        append(&mut header, &corner);
        assert(header@ =~= header_text(self.label(), self.width as int));
        let mut rows: Vec<Vec<StyledSpan>> = Vec::new();
        let top = vec![StyledSpan { text: string_of(header.as_slice()), style: SpanStyle::CodeLabel }];
        assert(spans_view(top@) =~= seq![(header_text(self.label(), self.width as int), SpanStyle::CodeLabel)]);
        rows.push(top);
        let lines = lines_of(self.code.as_str());
        let ghost code_lines = text_lines(self.code@);
        let pad_to = w.saturating_sub(4);
        let mut i: usize = 0;
        assert(rendered_view(rows@) =~= seq![seq![(header_text(self.label(), self.width as int), SpanStyle::CodeLabel)]]
            + code_lines.take(0).map_values(|l: Seq<char>| code_row(l, self.width as int)));
        while i < lines.len()
            invariant
                lines@.len() == code_lines.len(),
                forall|k: int| 0 <= k < lines@.len() ==> #[trigger] lines@[k]@ == code_lines[k],
                i <= lines@.len(),
                pad_to == less(self.width as int, 4),
                rows@.len() == i + 1,
                rendered_view(rows@) == seq![seq![(header_text(self.label(), self.width as int), SpanStyle::CodeLabel)]]
                    + code_lines.take(i as int).map_values(|l: Seq<char>| code_row(l, self.width as int)),
            decreases lines@.len() - i,
        {
            let mut cell = chars_of(lines[i].as_str());
            let ghost line = cell@;
            while cell.len() < pad_to
                invariant
                    line.len() <= cell@.len() <= pad_to || cell@.len() == line.len(),
                    cell@.take(line.len() as int) == line,
                    forall|k: int| line.len() <= k < cell@.len() ==> cell@[k] == ' ',
                decreases pad_to - cell@.len(),
            {
                cell.push(' ');
            }
            assert(cell@ =~= padded(line, pad_to as int));
            let ghost prev = rows@;
            let bar_left = vec!['\u{2502}', ' '];
            let bar_right = vec![' ', '\u{2502}'];
            let row = vec![
                StyledSpan { text: string_of(bar_left.as_slice()), style: SpanStyle::CodeLabel },
                StyledSpan { text: string_of(cell.as_slice()), style: SpanStyle::Code },
                StyledSpan { text: string_of(bar_right.as_slice()), style: SpanStyle::CodeLabel },
            ];
            assert(spans_view(row@) =~= code_row(code_lines[i as int], self.width as int));
            rows.push(row);
            assert(rendered_view(rows@) =~= rendered_view(prev).push(spans_view(row@)));
            assert(code_lines.take(i as int + 1) =~= code_lines.take(i as int).push(code_lines[i as int]));
            i += 1;
        }
        assert(code_lines.take(lines@.len() as int) =~= code_lines);
        let left: Vec<char> = vec!['\u{2514}'];
        let right: Vec<char> = vec!['\u{2518}'];
        let edges = {
            let a = width_of(&left);
            let b = width_of(&right);
            if a > usize::MAX - b {
                usize::MAX
            } else {
                a + b
            }
        };
        assert(left@ =~= seq!['\u{2514}']);
        assert(right@ =~= seq!['\u{2518}']);
        assert(edges as int == capped((str_width(left@) + str_width(right@)) as int));
        let bottom_rule = rule_of(w.saturating_sub(edges));
        assert(bottom_rule@ == repeated('\u{2500}', less(self.width as int, edges as int) as nat));
        let mut footer = left.clone();
        append(&mut footer, &bottom_rule);
        append(&mut footer, &right);
        assert(footer@ =~= footer_text(self.width as int));
        let ghost before = rows@;
        let bottom = vec![StyledSpan { text: string_of(footer.as_slice()), style: SpanStyle::CodeLabel }];
        assert(spans_view(bottom@) =~= seq![(footer_text(self.width as int), SpanStyle::CodeLabel)]);
        rows.push(bottom);
        assert(rendered_view(rows@) =~= rendered_view(before).push(seq![(footer_text(self.width as int), SpanStyle::CodeLabel)]));
        assert(rendered_view(rows@) =~= block_rows(self.code@, self.label(), self.width as int));
        rows
    }

    /// The same block, `width` columns wide.
    pub fn width(self, width: u16) -> (r: CodeBlock)
        ensures
            r.code == self.code,
            r.language == self.language,
            r.width == width,
    {
        CodeBlock { width, ..self }
    }
}

} // verus!

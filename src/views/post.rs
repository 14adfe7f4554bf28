//! A blog post's body as rows: wrapped markdown lines and boxed code blocks.
use vstd::prelude::*;
use crate::text::{lines_of, string_of, text_lines};
use crate::widgets::code_block::{block_rows, CodeBlock};
use crate::widgets::markdown::{render_line, rendered_view, spans_view, SpanStyle, StyledSpan, line_spans};
use crate::widgets::text_wrap::{wrap_all, wrap_text, texts};

verus! {

/// A row of a rendered post: a markdown line still to be styled, or a
/// finished row of a code block.
pub enum ContentLine {
    Text(String),
    CodeBlockLine(Vec<StyledSpan>),
}

/// A row as values.
pub enum RowView {
    Text(Seq<char>),
    Code(Seq<(Seq<char>, SpanStyle)>),
}

pub open spec fn row_view(c: ContentLine) -> RowView {
    match c {
        ContentLine::Text(s) => RowView::Text(s@),
        ContentLine::CodeBlockLine(v) => RowView::Code(spans_view(v@)),
    }
}

pub open spec fn rows_view(v: Seq<ContentLine>) -> Seq<RowView> {
    v.map_values(|c: ContentLine| row_view(c))
}

/// Whether a line opens or closes a code block.
pub open spec fn is_fence(l: Seq<char>) -> bool {
    l.len() >= 3 && l[0] == '`' && l[1] == '`' && l[2] == '`'
}

/// The line without its leading fences.
pub open spec fn trim_fences(l: Seq<char>) -> Seq<char>
    decreases l.len(),
{
    if is_fence(l) {
        trim_fences(l.skip(3))
    } else {
        l
    }
}

/// The width of a post's code blocks: the wrap width cut to 16 bits, and at
/// most 72.
pub open spec fn block_width(w: usize) -> int {
    let cut = (w as int) % 65536;
    if cut < 72 {
        cut
    } else {
        72
    }
}

/// What `wrap_text` makes of one line.
pub open spec fn wrap_spec(line: Seq<char>, w: usize) -> Seq<Seq<char>> {
    if w == 0 {
        seq![line]
    } else {
        wrap_all(text_lines(line), w as int)
    }
}

/// Reading a post line by line: the rows so far, whether a code block is
/// open, its code so far and its language.
pub struct PostScan {
    pub rows: Seq<RowView>,
    pub in_code: bool,
    pub buffer: Seq<char>,
    pub lang: Seq<char>,
}

pub open spec fn scan_step(st: PostScan, line: Seq<char>, w: usize) -> PostScan {
    if is_fence(line) {
        if st.in_code {
            PostScan {
                rows: st.rows + block_rows(st.buffer, st.lang, block_width(w)).map_values(
                    |r: Seq<(Seq<char>, SpanStyle)>| RowView::Code(r),
                ),
                in_code: false,
                buffer: Seq::empty(),
                lang: Seq::empty(),
            }
        } else {
            PostScan {
                lang: if trim_fences(line).len() == 0 {
                    seq!['c', 'o', 'd', 'e']
                } else {
                    trim_fences(line)
                },
                in_code: true,
                ..st
            }
        }
    } else if st.in_code {
        PostScan {
            buffer: if st.buffer.len() == 0 {
                line
            } else {
                st.buffer.push('\n') + line
            },
            ..st
        }
    } else {
        PostScan {
            rows: st.rows + wrap_spec(line, w).map_values(|t: Seq<char>| RowView::Text(t)),
            ..st
        }
    }
}

pub open spec fn scan(lines: Seq<Seq<char>>, w: usize) -> PostScan
    decreases lines.len(),
{
    if lines.len() == 0 {
        PostScan { rows: Seq::empty(), in_code: false, buffer: Seq::empty(), lang: Seq::empty() }
    } else {
        scan_step(scan(lines.drop_last(), w), lines.last(), w)
    }
}

/// The rows of a post body at wrap width `w`: markdown lines wrapped, fenced
/// code drawn as boxes (a block left open at the end is dropped).
pub open spec fn post_rows(content: Seq<char>, w: usize) -> Seq<RowView> {
    scan(text_lines(content), w).rows
}

fn append_chars(v: &mut Vec<char>, w: &Vec<char>, from: usize)
    requires
        from <= w@.len(),
    ensures
        final(v)@ == old(v)@ + w@.skip(from as int),
{
    let mut i: usize = from;
    while i < w.len()
        invariant
            from <= i <= w@.len(),
            v@ == old(v)@ + w@.subrange(from as int, i as int),
        decreases w@.len() - i,
    {
        v.push(w[i]);
        assert(old(v)@ + w@.subrange(from as int, i as int + 1) =~= (old(v)@ + w@.subrange(from as int, i as int)).push(w@[i as int]));
        i += 1;
    }
    assert(w@.subrange(from as int, w@.len() as int) =~= w@.skip(from as int));
}

fn fence_start(l: &Vec<char>, from: usize) -> (r: bool)
    requires
        from <= l@.len(),
    ensures
        r == is_fence(l@.skip(from as int)),
{
    l.len() - from >= 3 && l[from] == '`' && l[from + 1] == '`' && l[from + 2] == '`'
}

/// Renders a post body into rows, `wrap_width` columns wide.
pub fn render_post_content(content: &str, wrap_width: usize) -> (r: Vec<ContentLine>)
    ensures
        rows_view(r@) == post_rows(content@, wrap_width),
{
    let lines = lines_of(content);
    let ghost all = text_lines(content@);
    let mut result: Vec<ContentLine> = Vec::new();
    let mut in_code = false;
    let mut buffer: Vec<char> = Vec::new();
    let mut lang: Vec<char> = Vec::new();
    let mut i: usize = 0;
    assert(all.take(0) =~= Seq::<Seq<char>>::empty());
    assert(rows_view(result@) =~= Seq::<RowView>::empty());
    while i < lines.len()
        invariant
            lines@.len() == all.len(),
            forall|k: int| 0 <= k < lines@.len() ==> #[trigger] lines@[k]@ == all[k],
            i <= lines@.len(),
            ({
                let st = scan(all.take(i as int), wrap_width);
                &&& rows_view(result@) == st.rows
                &&& in_code == st.in_code
                &&& buffer@ == st.buffer
                &&& lang@ == st.lang
            }),
        decreases lines@.len() - i,
    {
        assert(all.take(i as int + 1).drop_last() =~= all.take(i as int));
        let line = crate::text::chars_of(lines[i].as_str());
        let ghost prev_rows = result@;
        if fence_start(&line, 0) {
            assert(line@.skip(0) =~= line@);
            if in_code {
                let cut = (wrap_width % 65536) as u16;
                let width: u16 = if cut < 72 {
                    cut
                } else {
                    72
                };
                let block = CodeBlock::new(string_of(buffer.as_slice()).as_str()).language(
                    string_of(lang.as_slice()).as_str(),
                ).width(width);
                let mut rows = block.to_lines();
                let ghost all_rows = rendered_view(rows@);
                let total = rows.len();
                let mut j: usize = 0;
                assert(all_rows.skip(0) =~= all_rows);
                assert(all_rows.take(0).map_values(|r: Seq<(Seq<char>, SpanStyle)>| RowView::Code(r)) =~= Seq::<RowView>::empty());
                assert(rows_view(result@) =~= rows_view(prev_rows) + Seq::<RowView>::empty());
                while rows.len() > 0
                    invariant
                        total == all_rows.len(),
                        j + rows@.len() == total,
                        rendered_view(rows@) == all_rows.skip(j as int),
                        rows_view(result@) == rows_view(prev_rows) + all_rows.take(j as int).map_values(
                            |r: Seq<(Seq<char>, SpanStyle)>| RowView::Code(r),
                        ),
                    decreases rows@.len(),
                {
                    let ghost before = rows@;
                    let row = rows.remove(0);
                    assert(rows@ =~= before.subrange(1, before.len() as int));
                    assert(rendered_view(rows@) =~= rendered_view(before).subrange(1, before.len() as int));
                    assert(rendered_view(before).subrange(1, before.len() as int) =~= all_rows.skip(j as int + 1));
                    assert(row == before[0]);
                    assert(spans_view(row@) == rendered_view(before)[0]);
                    assert(rendered_view(before)[0] == all_rows[j as int]);
                    let ghost mid = result@;
                    result.push(ContentLine::CodeBlockLine(row));
                    assert(rows_view(result@) =~= rows_view(mid).push(RowView::Code(all_rows[j as int])));
                    assert(all_rows.take(j as int + 1) =~= all_rows.take(j as int).push(all_rows[j as int]));
                    j += 1;
                }
                assert(all_rows.take(j as int) =~= all_rows);
                buffer = Vec::new();
                lang = Vec::new();
                in_code = false;
                proof {
                    assert(buffer@ =~= Seq::<char>::empty());
                    assert(lang@ =~= Seq::<char>::empty());
                }
            } else {
                let n = line.len();
                let mut start: usize = 0;
                while fence_start(&line, start)
                    invariant
                        n == line@.len(),
                        start <= line@.len(),
                        trim_fences(line@) == trim_fences(line@.skip(start as int)),
                    decreases line@.len() - start,
                {
                    assert(line@.skip(start as int).skip(3) =~= line@.skip(start as int + 3));
                    start += 3;
                }
                let mut name: Vec<char> = Vec::new();
                append_chars(&mut name, &line, start);
                if name.len() == 0 {
                    name = vec!['c', 'o', 'd', 'e'];
                }
                lang = name;
                in_code = true;
            }
        } else if in_code {
            if buffer.len() > 0 {
                buffer.push('\n');
            }
            append_chars(&mut buffer, &line, 0);
            assert(line@.skip(0) =~= line@);
        } else {
            let pieces = wrap_text(string_of(line.as_slice()).as_str(), wrap_width);
            let ghost wrapped = texts(pieces@);
            let mut k: usize = 0;
            while k < pieces.len()
                invariant
                    k <= pieces@.len(),
                    wrapped == texts(pieces@),
                    rows_view(result@) == rows_view(prev_rows) + wrapped.take(k as int).map_values(
                        |t: Seq<char>| RowView::Text(t),
                    ),
                decreases pieces@.len() - k,
            {
                let ghost mid = result@;
                result.push(ContentLine::Text(pieces[k].clone()));
                assert(rows_view(result@) =~= rows_view(mid).push(RowView::Text(wrapped[k as int])));
                assert(wrapped.take(k as int + 1) =~= wrapped.take(k as int).push(wrapped[k as int]));
                k += 1;
            }
            assert(wrapped.take(pieces@.len() as int) =~= wrapped);
        }
        i += 1;
    }
    assert(all.take(lines@.len() as int) =~= all);
    result
}

/// What a row looks like when drawn.
pub open spec fn drawn(r: RowView) -> Seq<(Seq<char>, SpanStyle)> {
    match r {
        RowView::Text(t) => line_spans(t),
        RowView::Code(spans) => spans,
    }
}

impl ContentLine {
    /// The row as styled pieces: markdown lines are styled now, code rows
    /// are already.
    pub fn to_line(&self) -> (r: Vec<StyledSpan>)
        ensures
            spans_view(r@) == drawn(row_view(*self)),
    {
        match self {
            ContentLine::Text(t) => render_line(t.as_str()),
            ContentLine::CodeBlockLine(spans) => {
                let mut out: Vec<StyledSpan> = Vec::new();
                let mut i: usize = 0;
                while i < spans.len()
                    invariant
                        i <= spans@.len(),
                        spans_view(out@) == spans_view(spans@).take(i as int),
                    decreases spans@.len() - i,
                {
                    let ghost prev = out@;
                    out.push(crate::widgets::markdown::copy_span(&spans[i]));
                    assert(spans_view(out@) =~= spans_view(prev).push((spans@[i as int].text@, spans@[i as int].style)));
                    assert(spans_view(spans@).take(i as int + 1) =~= spans_view(spans@).take(i as int).push((spans@[i as int].text@, spans@[i as int].style)));
                    i += 1;
                }
                assert(spans_view(spans@).take(spans@.len() as int) =~= spans_view(spans@));
                out
            },
        }
    }
}

} // verus!

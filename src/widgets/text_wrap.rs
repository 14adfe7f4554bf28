//! Word wrapping of markdown text to a terminal width.
use vstd::prelude::*;
use crate::text::{chars_of, lines_of, string_of, text_lines};

verus! {

/// The displayed width of a text, in terminal columns.
pub uninterp spec fn str_width(s: Seq<char>) -> nat;

/// Relies on `unicode_width::UnicodeWidthStr::width`: the displayed width of
/// the text in columns, which depends on the text alone.
#[verifier::external_body]
pub(crate) fn display_width(s: &str) -> (r: usize)
    ensures
        r == str_width(s@),
{
    unicode_width::UnicodeWidthStr::width(s)
}

/// Whether a character is white space.
pub uninterp spec fn white_space(c: char) -> bool;

/// Relies on `char::is_whitespace`: whether the character has the Unicode
/// `White_Space` property.
#[verifier::external_body]
fn is_space(c: char) -> (r: bool)
    ensures
        r == white_space(c),
{
    c.is_whitespace()
}

pub open spec fn all_space(s: Seq<char>) -> bool {
    forall|i: int| 0 <= i < s.len() ==> white_space(#[trigger] s[i])
}

/// How many white-space characters a text starts with.
pub open spec fn leading_space(s: Seq<char>) -> nat
    decreases s.len(),
{
    if s.len() == 0 || !white_space(s[0]) {
        0
    } else {
        1 + leading_space(s.drop_first())
    }
}

/// Reading a text left to right: the words finished so far and the one
/// still being read.
pub open spec fn word_scan(s: Seq<char>) -> (Seq<Seq<char>>, Seq<char>)
    decreases s.len(),
{
    if s.len() == 0 {
        (Seq::empty(), Seq::empty())
    } else {
        let (done, cur) = word_scan(s.drop_last());
        if white_space(s.last()) {
            if cur.len() > 0 {
                (done.push(cur), Seq::empty())
            } else {
                (done, cur)
            }
        } else {
            (done, cur.push(s.last()))
        }
    }
}

/// The maximal runs of non-white-space characters of a text, in order.
pub open spec fn split_words(s: Seq<char>) -> Seq<Seq<char>> {
    let (done, cur) = word_scan(s);
    if cur.len() > 0 {
        done.push(cur)
    } else {
        done
    }
}

/// A sum capped at the largest `usize`.
pub open spec fn capped(x: int) -> int {
    if x > usize::MAX {
        usize::MAX as int
    } else {
        x
    }
}

/// Where wrapping a line stands: the finished lines, the line being filled,
/// its width, and whether no word was placed yet.
pub struct WrapState {
    pub lines: Seq<Seq<char>>,
    pub current: Seq<char>,
    pub width: int,
    pub first: bool,
}

/// Places one word: on a new line when it would pass `max` (but never
/// before the first word), else after a space on the current line.
pub open spec fn wrap_step(st: WrapState, word: Seq<char>, max: int, indent: Seq<char>) -> WrapState {
    let ww = str_width(word) as int;
    if st.width + ww + 1 > max && !st.first {
        WrapState {
            lines: if all_space(st.current) {
                st.lines
            } else {
                st.lines.push(st.current)
            },
            current: indent + word,
            width: capped(str_width(indent) + ww),
            first: st.first,
        }
    } else if all_space(st.current) {
        WrapState {
            lines: st.lines,
            current: indent + word,
            width: capped(str_width(indent) + ww),
            first: false,
        }
    } else {
        WrapState {
            lines: st.lines,
            current: st.current.push(' ') + word,
            width: capped(st.width + ww + 1),
            first: false,
        }
    }
}

pub open spec fn wrap_words(words: Seq<Seq<char>>, max: int, indent: Seq<char>) -> WrapState
    decreases words.len(),
{
    if words.len() == 0 {
        WrapState { lines: Seq::empty(), current: indent, width: str_width(indent) as int, first: true }
    } else {
        wrap_step(wrap_words(words.drop_last(), max, indent), words.last(), max, indent)
    }
}

/// The lines one line of text wraps into, each continuation starting with
/// `indent`.
pub open spec fn wrapped_line(text: Seq<char>, max: int, indent: Seq<char>) -> Seq<Seq<char>> {
    let st = wrap_words(split_words(text), max, indent);
    let ls = if st.current.len() > 0 {
        st.lines.push(st.current)
    } else {
        st.lines
    };
    if ls.len() == 0 {
        seq![Seq::empty()]
    } else {
        ls
    }
}

pub open spec fn is_fence_or_heading(line: Seq<char>) -> bool {
    (line.len() > 0 && line[0] == '#') || (line.len() >= 3 && line[0] == '`' && line[1] == '`'
        && line[2] == '`')
}

/// One line of text, wrapped: empty lines, headings, code fences and lines
/// whose indent leaves fewer than ten columns stay as they are.
pub open spec fn wrap_one(line: Seq<char>, max: int) -> Seq<Seq<char>> {
    if line.len() == 0 {
        seq![Seq::empty()]
    } else if is_fence_or_heading(line) {
        seq![line]
    } else {
        let indent = line.take(leading_space(line) as int);
        let content = line.skip(leading_space(line) as int);
        let room = if max >= str_width(indent) {
            max - str_width(indent)
        } else {
            0
        };
        if room < 10 {
            seq![line]
        } else {
            wrapped_line(content, room, indent)
        }
    }
}

pub open spec fn wrap_all(lines: Seq<Seq<char>>, max: int) -> Seq<Seq<char>>
    decreases lines.len(),
{
    if lines.len() == 0 {
        Seq::empty()
    } else {
        wrap_all(lines.drop_last(), max) + wrap_one(lines.last(), max)
    }
}

pub open spec fn texts(v: Seq<String>) -> Seq<Seq<char>> {
    v.map_values(|s: String| s@)
}

/// Wraps `text` to `max_width` columns, line by line, keeping words whole;
/// a width of zero leaves the text as one line.
pub fn wrap_text(text: &str, max_width: usize) -> (r: Vec<String>)
    ensures
        max_width == 0 ==> texts(r@) == seq![text@],
        max_width > 0 ==> texts(r@) == wrap_all(text_lines(text@), max_width as int),
{
    if max_width == 0 {
        let r = vec![text.to_owned()];
        assert(texts(r@) =~= seq![text@]);
        return r;
    }
    let lines = lines_of(text);
    let ghost all = text_lines(text@);
    let mut result: Vec<String> = Vec::new();
    let mut i: usize = 0;
    assert(all.take(0) =~= Seq::<Seq<char>>::empty());
    while i < lines.len()
        invariant
            lines@.len() == all.len(),
            forall|k: int| 0 <= k < lines@.len() ==> #[trigger] lines@[k]@ == all[k],
            i <= lines@.len(),
            max_width > 0,
            texts(result@) == wrap_all(all.take(i as int), max_width as int),
        decreases lines@.len() - i,
    {
        let line = chars_of(lines[i].as_str());
        let pieces = wrap_one_line(&line, max_width);
        let ghost before = result@;
        let mut j: usize = 0;
        while j < pieces.len()
            invariant
                j <= pieces@.len(),
                texts(result@) == texts(before) + char_lines(pieces@).take(j as int),
            decreases pieces@.len() - j,
        {
            let piece = string_of(pieces[j].as_slice());
            let ghost prev = result@;
            result.push(piece);
            assert(texts(result@) =~= texts(prev).push(piece@));
            assert(char_lines(pieces@).take(j as int + 1) =~= char_lines(pieces@).take(j as int).push(
                pieces@[j as int]@,
            ));
            assert(texts(result@) =~= texts(before) + char_lines(pieces@).take(j as int + 1));
            j += 1;
        }
        assert(char_lines(pieces@).take(pieces@.len() as int) =~= char_lines(pieces@));
        assert(all.take(i as int + 1).drop_last() =~= all.take(i as int));
        i += 1;
    }
    assert(all.take(lines@.len() as int) =~= all);
    result
}

pub open spec fn char_lines(v: Seq<Vec<char>>) -> Seq<Seq<char>> {
    v.map_values(|s: Vec<char>| s@)
}

fn wrap_one_line(line: &Vec<char>, max_width: usize) -> (r: Vec<Vec<char>>)
    requires
        max_width > 0,
    ensures
        char_lines(r@) == wrap_one(line@, max_width as int),
{
    let n = line.len();
    if n == 0 {
        let r = vec![Vec::new()];
        assert(char_lines(r@) =~= seq![Seq::<char>::empty()]);
        return r;
    }
    if line[0] == '#' || (n >= 3 && line[0] == '`' && line[1] == '`' && line[2] == '`') {
        let r = vec![line.clone()];
        assert(char_lines(r@) =~= seq![line@]);
        return r;
    }
    let (indent, content) = extract_indent(line);
    let indent_width = display_width(string_of(indent.as_slice()).as_str());
    let room = max_width.saturating_sub(indent_width);
    if room < 10 {
        let r = vec![line.clone()];
        assert(char_lines(r@) =~= seq![line@]);
        return r;
    }
    wrap_line(&content, room, &indent)
}

/// The leading white space of a line, and the rest of it.
fn extract_indent(line: &Vec<char>) -> (r: (Vec<char>, Vec<char>))
    ensures
        r.0@ == line@.take(leading_space(line@) as int),
        r.1@ == line@.skip(leading_space(line@) as int),
{
    let mut k: usize = 0;
    assert(line@.skip(0) =~= line@);
    while k < line.len() && is_space(line[k])
        invariant
            k <= line@.len(),
            leading_space(line@) == k + leading_space(line@.skip(k as int)),
        decreases line@.len() - k,
    {
        assert(line@.skip(k as int).drop_first() =~= line@.skip(k as int + 1));
        k += 1;
    }
    assert(leading_space(line@.skip(k as int)) == 0);
    let mut indent: Vec<char> = Vec::new();
    let mut rest: Vec<char> = Vec::new();
    let mut j: usize = 0;
    while j < line.len()
        invariant
            k <= line@.len(),
            j <= line@.len(),
            indent@ == line@.take(if j < k { j as int } else { k as int }),
            rest@ == line@.subrange(k as int, if j < k { k as int } else { j as int }),
        decreases line@.len() - j,
    {
        if j < k {
            indent.push(line[j]);
        } else {
            rest.push(line[j]);
        }
        j += 1;
    }
    assert(rest@ =~= line@.skip(k as int));
    (indent, rest)
}

fn only_space(s: &Vec<char>) -> (r: bool)
    ensures
        r == all_space(s@),
{
    let mut i: usize = 0;
    while i < s.len()
        invariant
            i <= s@.len(),
            forall|k: int| 0 <= k < i ==> white_space(#[trigger] s@[k]),
        decreases s@.len() - i,
    {
        if !is_space(s[i]) {
            return false;
        }
        i += 1;
    }
    true
}

fn split_words_of(s: &Vec<char>) -> (r: Vec<Vec<char>>)
    ensures
        char_lines(r@) == split_words(s@),
{
    let mut done: Vec<Vec<char>> = Vec::new();
    let mut cur: Vec<char> = Vec::new();
    let mut i: usize = 0;
    assert(s@.take(0) =~= Seq::<char>::empty());
    while i < s.len()
        invariant
            i <= s@.len(),
            (char_lines(done@), cur@) == word_scan(s@.take(i as int)),
        decreases s@.len() - i,
    {
        assert(s@.take(i as int + 1).drop_last() =~= s@.take(i as int));
        let c = s[i];
        if is_space(c) {
            if cur.len() > 0 {
                let ghost d = done@;
                let w = cur;
                done.push(w);
                cur = Vec::new();
                assert(char_lines(done@) =~= char_lines(d).push(w@));
                assert(cur@ =~= Seq::<char>::empty());
            }
        } else {
            cur.push(c);
        }
        i += 1;
    }
    assert(s@.take(s@.len() as int) =~= s@);
    if cur.len() > 0 {
        let ghost d = done@;
        let w = cur;
        done.push(w);
        assert(char_lines(done@) =~= char_lines(d).push(w@));
    }
    done
}

fn concat(a: &Vec<char>, b: &Vec<char>) -> (r: Vec<char>)
    ensures
        r@ == a@ + b@,
{
    let mut r = a.clone();
    let mut i: usize = 0;
    while i < b.len()
        invariant
            i <= b@.len(),
            r@ == a@ + b@.take(i as int),
        decreases b@.len() - i,
    {
        r.push(b[i]);
        assert(a@ + b@.take(i as int + 1) =~= (a@ + b@.take(i as int)).push(b@[i as int]));
        i += 1;
    }
    assert(b@.take(b@.len() as int) =~= b@);
    r
}

fn width_of(s: &Vec<char>) -> (r: usize)
    ensures
        r == str_width(s@),
{
    display_width(string_of(s.as_slice()).as_str())
}

fn capped_add(a: usize, b: usize) -> (r: usize)
    ensures
        r == capped(a + b),
{
    if a > usize::MAX - b {
        usize::MAX
    } else {
        a + b
    }
}

/// Wraps the words of `text` into lines of at most `max_width` columns where
/// the words allow, each line starting with `indent`.
fn wrap_line(text: &Vec<char>, max_width: usize, indent: &Vec<char>) -> (r: Vec<Vec<char>>)
    ensures
        char_lines(r@) == wrapped_line(text@, max_width as int, indent@),
{
    let words = split_words_of(text);
    let ghost ws = split_words(text@);
    let mut lines: Vec<Vec<char>> = Vec::new();
    let mut current: Vec<char> = indent.clone();
    let indent_width = width_of(indent);
    let mut current_width: usize = indent_width;
    let mut first = true;
    assert(ws.take(0) =~= Seq::<Seq<char>>::empty());
    assert(char_lines(lines@) =~= Seq::<Seq<char>>::empty());
    let mut i: usize = 0;
    while i < words.len()
        invariant
            char_lines(words@) == ws,
            i <= words@.len(),
            indent_width == str_width(indent@),
            ({
                let st = wrap_words(ws.take(i as int), max_width as int, indent@);
                &&& char_lines(lines@) == st.lines
                &&& current@ == st.current
                &&& current_width == st.width
                &&& first == st.first
            }),
        decreases words@.len() - i,
    {
        assert(ws.take(i as int + 1).drop_last() =~= ws.take(i as int));
        let word = &words[i];
        assert(word@ == ws[i as int]);
        let word_width = width_of(word);
        let too_wide = current_width > max_width || word_width >= max_width - current_width;
        if too_wide && !first {
            if !only_space(&current) {
                let ghost l = lines@;
                lines.push(current);
                assert(char_lines(lines@) =~= char_lines(l).push(lines@.last()@));
            }
            current = concat(indent, word);
            current_width = capped_add(indent_width, word_width);
        } else if only_space(&current) {
            current = concat(indent, word);
            current_width = capped_add(indent_width, word_width);
            first = false;
        } else {
            current.push(' ');
            current = concat(&current, word);
            current_width = capped_add(current_width, capped_add(word_width, 1));
            first = false;
        }
        i += 1;
    }
    assert(ws.take(words@.len() as int) =~= ws);
    if current.len() > 0 {
        let ghost l = lines@;
        lines.push(current);
        assert(char_lines(lines@) =~= char_lines(l).push(lines@.last()@));
    }
    if lines.len() == 0 {
        lines.push(Vec::new());
        assert(char_lines(lines@) =~= seq![Seq::<char>::empty()]);
    }
    lines
}

} // verus!

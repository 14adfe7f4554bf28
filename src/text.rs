//! Conversions between text and characters.
use vstd::prelude::*;

verus! {

/// Relies on `str::chars`: it yields the characters of the text in order.
#[verifier::external_body]
pub(crate) fn chars_of(s: &str) -> (r: Vec<char>)
    ensures
        r@ == s@,
{
    s.chars().collect()
}

/// Relies on `String`'s `FromIterator<char>`: the characters, in order, as
/// text.
#[verifier::external_body]
pub(crate) fn string_of(cs: &[char]) -> (r: String)
    ensures
        r@ == cs@,
{
    cs.iter().collect()
}

/// The lines of a text, as `str::lines` cuts them.
pub uninterp spec fn text_lines(s: Seq<char>) -> Seq<Seq<char>>;

/// Relies on `str::lines`: the text cut at each line ending, the endings
/// left out; an empty text has no lines.
#[verifier::external_body]
pub(crate) fn lines_of(s: &str) -> (r: Vec<String>)
    ensures
        r@.len() == text_lines(s@).len(),
        forall|i: int| 0 <= i < r@.len() ==> #[trigger] r@[i]@ == text_lines(s@)[i],
        s@.len() == 0 ==> r@.len() == 0,
{
    s.lines().map(|l| l.to_string()).collect()
}

/// `c` repeated `n` times.
pub open spec fn repeated(c: char, n: nat) -> Seq<char> {
    Seq::new(n, |i: int| c)
}

/// A horizontal rule of `width` box-drawing characters.
pub fn divider(width: u16) -> (r: String)
    ensures
        r@ == repeated('\u{2500}', width as nat),
{
    let mut cs: Vec<char> = Vec::new();
    let mut i: u16 = 0;
    while i < width
        invariant
            i <= width,
            cs@ == repeated('\u{2500}', i as nat),
        decreases width - i,
    {
        cs.push('\u{2500}');
        i += 1;
        assert(cs@ == repeated('\u{2500}', i as nat));
    }
    string_of(cs.as_slice())
}

} // verus!

verus! {

/// The characters of `cs` from `start` up to `end`, as text.
pub fn substring(cs: &[char], start: usize, end: usize) -> (r: String)
    requires
        start <= end <= cs@.len(),
    ensures
        r@ == cs@.subrange(start as int, end as int),
{
    let mut v: Vec<char> = Vec::new();
    let mut i: usize = start;
    while i < end
        invariant
            start <= i <= end <= cs@.len(),
            v@ == cs@.subrange(start as int, i as int),
        decreases end - i,
    {
        v.push(cs[i]);
        assert(cs@.subrange(start as int, i as int + 1) =~= cs@.subrange(start as int, i as int).push(cs@[i as int]));
        i += 1;
    }
    string_of(v.as_slice())
}

} // verus!

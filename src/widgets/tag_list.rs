//! A row of tag badges.
use vstd::prelude::*;
use crate::text::{chars_of, string_of};
use crate::widgets::markdown::{copy_span, spans_view, SpanStyle, StyledSpan};

verus! {

/// The badges of a list of tags: each tag padded by a space on each side,
/// then a plain space.
pub open spec fn tag_spans(tags: Seq<Seq<char>>) -> Seq<(Seq<char>, SpanStyle)>
    decreases tags.len(),
{
    if tags.len() == 0 {
        Seq::empty()
    } else {
        tag_spans(tags.drop_last()) + seq![
            (seq![' '] + tags.last() + seq![' '], SpanStyle::Tag),
            (seq![' '], SpanStyle::Plain),
        ]
    }
}

pub open spec fn strs(v: Seq<&str>) -> Seq<Seq<char>> {
    v.map_values(|s: &str| s@)
}

/// Tags with an optional leading piece.
pub struct TagList<'a> {
    pub tags: Vec<&'a str>,
    pub prefix: Option<StyledSpan>,
}

fn copy_tags<'a>(tags: &[&'a str]) -> (r: Vec<&'a str>)
    ensures
        r@ == tags@,
{
    let mut v: Vec<&'a str> = Vec::new();
    let mut i: usize = 0;
    while i < tags.len()
        invariant
            i <= tags@.len(),
            v@ == tags@.take(i as int),
        decreases tags@.len() - i,
    {
        v.push(tags[i]);
        assert(tags@.take(i as int + 1) =~= tags@.take(i as int).push(tags@[i as int]));
        i += 1;
    }
    assert(tags@.take(tags@.len() as int) =~= tags@);
    v
}

fn badge(tag: &str) -> (r: StyledSpan)
    ensures
        r.text@ == seq![' '] + tag@ + seq![' '],
        r.style == SpanStyle::Tag,
{
    let cs = chars_of(tag);
    let mut v: Vec<char> = vec![' '];
    let mut i: usize = 0;
    while i < cs.len()
        invariant
            i <= cs@.len(),
            v@ == seq![' '] + cs@.take(i as int),
        decreases cs@.len() - i,
    {
        v.push(cs[i]);
        assert(seq![' '] + cs@.take(i as int + 1) =~= (seq![' '] + cs@.take(i as int)).push(cs@[i as int]));
        i += 1;
    }
    v.push(' ');
    assert(cs@.take(cs@.len() as int) =~= cs@);
    assert(v@ =~= seq![' '] + tag@ + seq![' ']);
    StyledSpan { text: string_of(v.as_slice()), style: SpanStyle::Tag }
}

impl<'a> TagList<'a> {
    /// The tags, with no leading piece.
    pub fn new(tags: &[&'a str]) -> (r: TagList<'a>)
        ensures
            r.tags@ == tags@,
            r.prefix is None,
    {
        TagList { tags: copy_tags(tags), prefix: None }
    }

    /// The tags, with no leading piece.
    pub fn from_vec(tags: &[&'a str]) -> (r: TagList<'a>)
        ensures
            r.tags@ == tags@,
            r.prefix is None,
    {
        TagList { tags: copy_tags(tags), prefix: None }
    }

    /// The same list led by `prefix`.
    pub fn prefix(self, prefix: StyledSpan) -> (r: TagList<'a>)
        ensures
            r.tags == self.tags,
            r.prefix == Some(prefix),
    {
        TagList { prefix: Some(prefix), ..self }
    }

    /// The same list led by `spaces` plain spaces.
    pub fn indent(self, spaces: usize) -> (r: TagList<'a>)
        ensures
            r.tags == self.tags,
            r.prefix matches Some(p) && p.style == SpanStyle::Plain && p.text@ == Seq::new(
                spaces as nat,
                |i: int| ' ',
            ),
    {
        let mut v: Vec<char> = Vec::new();
        let mut i: usize = 0;
        while i < spaces
            invariant
                i <= spaces,
                v@ == Seq::new(i as nat, |k: int| ' '),
            decreases spaces - i,
        {
            v.push(' ');
            i += 1;
            assert(v@ =~= Seq::new(i as nat, |k: int| ' '));
        }
        self.prefix(StyledSpan { text: string_of(v.as_slice()), style: SpanStyle::Plain })
    }

    /// The badges.
    pub fn to_spans(&self) -> (r: Vec<StyledSpan>)
        ensures
            spans_view(r@) == tag_spans(strs(self.tags@)),
    {
        let mut spans: Vec<StyledSpan> = Vec::new();
        let mut i: usize = 0;
        assert(strs(self.tags@).take(0) =~= Seq::<Seq<char>>::empty());
        while i < self.tags.len()
            invariant
                i <= self.tags@.len(),
                spans_view(spans@) == tag_spans(strs(self.tags@).take(i as int)),
            decreases self.tags@.len() - i,
        {
            let ghost prev = spans@;
            let one = vec![' '];
            spans.push(badge(self.tags[i]));
            spans.push(StyledSpan { text: string_of(one.as_slice()), style: SpanStyle::Plain });
            assert(strs(self.tags@).take(i as int + 1).drop_last() =~= strs(self.tags@).take(i as int));
            assert(one@ =~= seq![' ']);
            assert(spans_view(spans@) =~~= spans_view(prev) + seq![
                (seq![' '] + self.tags@[i as int]@ + seq![' '], SpanStyle::Tag),
                (seq![' '], SpanStyle::Plain),
            ]);
            i += 1;
        }
        assert(strs(self.tags@).take(self.tags@.len() as int) =~= strs(self.tags@));
        spans
    }

    /// The leading piece, if any, then the badges.
    pub fn to_line(&self) -> (r: Vec<StyledSpan>)
        ensures
            spans_view(r@) == match self.prefix {
                Some(p) => seq![(p.text@, p.style)],
                None => Seq::empty(),
            } + tag_spans(strs(self.tags@)),
    {
        let badges = self.to_spans();
        let mut out: Vec<StyledSpan> = Vec::new();
        if let Some(p) = &self.prefix {
            out.push(copy_span(p));
        }
        let ghost head = spans_view(out@);
        let mut i: usize = 0;
        while i < badges.len()
            invariant
                i <= badges@.len(),
                spans_view(out@) == head + spans_view(badges@).take(i as int),
            decreases badges@.len() - i,
        {
            let ghost prev = out@;
            out.push(copy_span(&badges[i]));
            assert(spans_view(out@) =~= spans_view(prev).push((badges@[i as int].text@, badges@[i as int].style)));
            assert(spans_view(badges@).take(i as int + 1) =~= spans_view(badges@).take(i as int).push((badges@[i as int].text@, badges@[i as int].style)));
            i += 1;
        }
        assert(spans_view(badges@).take(badges@.len() as int) =~= spans_view(badges@));
        out
    }
}

} // verus!

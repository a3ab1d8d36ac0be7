//! A horizontal sequence of spans.
use super::span::Span;
use super::style::Style;
use super::{Render, RenderContext, RenderError};
use crate::strs::push_all;
use vstd::prelude::*;
use vstd::utf8::*;

verus! {

/// Characters of the spans, one after another.
pub open spec fn spans_chars(spans: Seq<Span>, color: bool) -> Seq<char>
    decreases spans.len(),
{
    if spans.len() == 0 {
        Seq::empty()
    } else {
        spans_chars(spans.drop_last(), color) + spans.last().chars(color)
    }
}

/// Sum of the span widths.
pub open spec fn spans_width(spans: Seq<Span>) -> nat
    decreases spans.len(),
{
    if spans.len() == 0 {
        0
    } else {
        spans_width(spans.drop_last()) + spans.last().width_spec() as nat
    }
}

/// A width sum, held at `usize::MAX` when it does not fit.
pub open spec fn capped(n: nat) -> usize {
    if n <= usize::MAX {
        n as usize
    } else {
        usize::MAX
    }
}

/// Horizontal sequence of [`Span`]s. Renders without trailing newline.
pub struct Line {
    pub spans: Vec<Span>,
}

impl Line {
    pub open spec fn chars(&self, color: bool) -> Seq<char> {
        spans_chars(self.spans@, color)
    }

    pub open spec fn width_spec(&self) -> usize {
        capped(spans_width(self.spans@))
    }

    pub fn new() -> (r: Self)
        ensures
            r.spans@.len() == 0,
    {
        Line { spans: Vec::new() }
    }

    pub fn raw(content: String) -> (r: Self)
        ensures
            r.spans@.len() == 1,
            r.spans@[0].content@ == content@,
            r.spans@[0].style is None,
    {
        let mut spans = Vec::new();
        spans.push(Span::raw(content));
        Line { spans }
    }

    pub fn styled(content: String, style: Style) -> (r: Self)
        ensures
            r.spans@.len() == 1,
            r.spans@[0].content@ == content@,
            r.spans@[0].style == Some(style),
    {
        let mut spans = Vec::new();
        spans.push(Span::styled(content, style));
        Line { spans }
    }

    /// Plain line holding a copy of a string slice.
    pub fn text(content: &str) -> (r: Self)
        ensures
            r.spans@.len() == 1,
            r.spans@[0].content@ == content@,
            r.spans@[0].style is None,
    {
        Line::raw(content.to_owned())
    }

    pub fn from_span(span: Span) -> (r: Self)
        ensures
            r.spans@ == seq![span],
    {
        let mut spans = Vec::new();
        spans.push(span);
        Line { spans }
    }

    pub fn push_span(self, span: Span) -> (r: Self)
        ensures
            r.spans@ == self.spans@.push(span),
    {
        let mut spans = self.spans;
        spans.push(span);
        Line { spans }
    }

    pub fn push_plain(self, content: String) -> (r: Self)
        ensures
            r.spans@.len() == self.spans@.len() + 1,
            r.spans@.drop_last() == self.spans@,
            r.spans@.last().content@ == content@,
            r.spans@.last().style is None,
    {
        let r = self.push_span(Span::raw(content));
        assert(r.spans@.drop_last() =~= self.spans@);
        r
    }

    pub fn push_styled(self, content: String, style: Style) -> (r: Self)
        ensures
            r.spans@.len() == self.spans@.len() + 1,
            r.spans@.drop_last() == self.spans@,
            r.spans@.last().content@ == content@,
            r.spans@.last().style == Some(style),
    {
        let r = self.push_span(Span::styled(content, style));
        assert(r.spans@.drop_last() =~= self.spans@);
        r
    }

    /// Total width of the spans (held at `usize::MAX` if it does not fit).
    pub fn width(&self) -> (r: usize)
        ensures
            r == self.width_spec(),
    {
        let mut w: usize = 0;
        let mut i: usize = 0;
        while i < self.spans.len()
            invariant
                i <= self.spans@.len(),
                w == capped(spans_width(self.spans@.subrange(0, i as int))),
            decreases self.spans@.len() - i,
        {
            let sw = self.spans[i].width();
            assert(self.spans@.subrange(0, i + 1).drop_last() =~= self.spans@.subrange(
                0,
                i as int,
            ));
            if w <= usize::MAX - sw {
                w = w + sw;
            } else {
                w = usize::MAX;
            }
            i = i + 1;
        }
        assert(self.spans@.subrange(0, self.spans@.len() as int) =~= self.spans@);
        w
    }

    /// This line followed by the spans of `other`.
    pub fn extend(self, other: Line) -> (r: Self)
        ensures
            r.spans@ == self.spans@ + other.spans@,
    {
        let mut spans = self.spans;
        let mut rest = other.spans;
        spans.append(&mut rest);
        Line { spans }
    }

    pub fn to_chars(&self, color: bool) -> (r: Vec<char>)
        ensures
            r@ == self.chars(color),
    {
        let mut v: Vec<char> = Vec::new();
        let mut i: usize = 0;
        while i < self.spans.len()
            invariant
                i <= self.spans@.len(),
                v@ == spans_chars(self.spans@.subrange(0, i as int), color),
            decreases self.spans@.len() - i,
        {
            let c = self.spans[i].to_chars(color);
            push_all(&mut v, c.as_slice());
            assert(self.spans@.subrange(0, i + 1).drop_last() =~= self.spans@.subrange(
                0,
                i as int,
            ));
            i = i + 1;
        }
        assert(self.spans@.subrange(0, self.spans@.len() as int) =~= self.spans@);
        v
    }
}

impl Render for Line {
    open spec fn fails(&self) -> bool {
        false
    }

    open spec fn rendered(&self, color: bool) -> Seq<u8> {
        encode_utf8(self.chars(color))
    }

    fn render(&self, ctx: &mut RenderContext) -> (r: Result<(), RenderError>) {
        let c = self.to_chars(ctx.color);
        ctx.write_chars(c.as_slice());
        Ok(())
    }
}

} // verus!

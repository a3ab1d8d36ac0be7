//! A vertical sequence of lines.
use super::line::Line;
use super::{Render, RenderContext, RenderError};
use crate::strs::push_all;
use vstd::prelude::*;
use vstd::utf8::*;

verus! {

/// Each line's characters followed by a newline.
pub open spec fn lines_chars(lines: Seq<Line>, color: bool) -> Seq<char>
    decreases lines.len(),
{
    if lines.len() == 0 {
        Seq::empty()
    } else {
        lines_chars(lines.drop_last(), color) + lines.last().chars(color) + seq!['\n']
    }
}

/// Vertical sequence of [`Line`]s. Renders each line followed by a newline.
pub struct Text {
    pub lines: Vec<Line>,
}

impl Text {
    pub open spec fn chars(&self, color: bool) -> Seq<char> {
        lines_chars(self.lines@, color)
    }

    pub fn new() -> (r: Self)
        ensures
            r.lines@.len() == 0,
    {
        Text { lines: Vec::new() }
    }

    pub fn line(self, line: Line) -> (r: Self)
        ensures
            r.lines@ == self.lines@.push(line),
    {
        let mut lines = self.lines;
        lines.push(line);
        Text { lines }
    }

    pub fn lines(self, more: Vec<Line>) -> (r: Self)
        ensures
            r.lines@ == self.lines@ + more@,
    {
        let mut lines = self.lines;
        let mut more = more;
        lines.append(&mut more);
        Text { lines }
    }

    /// A text of one line.
    pub fn from_line(line: Line) -> (r: Self)
        ensures
            r.lines@ == seq![line],
    {
        Text::new().line(line)
    }

    /// A text with one plain line per string.
    pub fn from_strings(items: &Vec<String>) -> (r: Self)
        ensures
            r.lines@.len() == items@.len(),
            forall|i: int|
                0 <= i < items@.len() ==> (#[trigger] r.lines@[i]).spans@.len() == 1
                    && r.lines@[i].spans@[0].content@ == items@[i]@
                    && r.lines@[i].spans@[0].style is None,
    {
        let mut lines: Vec<Line> = Vec::new();
        let mut i: usize = 0;
        while i < items.len()
            invariant
                i <= items@.len(),
                lines@.len() == i,
                forall|j: int|
                    0 <= j < i ==> (#[trigger] lines@[j]).spans@.len() == 1
                        && lines@[j].spans@[0].content@ == items@[j]@
                        && lines@[j].spans@[0].style is None,
            decreases items@.len() - i,
        {
            let l = Line::raw(items[i].clone());
            lines.push(l);
            assert(lines@[i as int] == l);
            i = i + 1;
        }
        Text { lines }
    }

    pub fn to_chars(&self, color: bool) -> (r: Vec<char>)
        ensures
            r@ == self.chars(color),
    {
        let mut v: Vec<char> = Vec::new();
        let mut i: usize = 0;
        while i < self.lines.len()
            invariant
                i <= self.lines@.len(),
                v@ == lines_chars(self.lines@.subrange(0, i as int), color),
            decreases self.lines@.len() - i,
        {
            let c = self.lines[i].to_chars(color);
            push_all(&mut v, c.as_slice());
            v.push('\n');
            assert(self.lines@.subrange(0, i + 1).drop_last() =~= self.lines@.subrange(
                0,
                i as int,
            ));
            assert(v@ =~= lines_chars(self.lines@.subrange(0, i + 1), color));
            i = i + 1;
        }
        assert(self.lines@.subrange(0, self.lines@.len() as int) =~= self.lines@);
        v
    }
}

impl Render for Text {
    open spec fn fails(&self) -> bool {
        false
    }

    open spec fn rendered(&self, color: bool) -> Seq<u8> {
        encode_utf8(self.chars(color))
    }

    fn render(&self, ctx: &mut RenderContext) -> (r: Result<(), RenderError>) {
        let c = self.to_chars(ctx.color);
        ctx.write_chars(c.as_slice());
        Ok(())
    }
}

} // verus!

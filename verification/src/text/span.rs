//! A styled fragment of text.
use super::style::{escapes_of, style_escapes, Style};
use super::{Render, RenderContext, RenderError};
use crate::strs::{chars_of, push_str};
use vstd::prelude::*;
use vstd::utf8::*;

verus! {

/// Display width of text in terminal columns, as `unicode-width` computes it.
pub uninterp spec fn display_width(s: Seq<char>) -> usize;

/// `unicode_width::UnicodeWidthStr::width`: the number of terminal columns
/// the text occupies; the result is named `display_width` of the text.
#[verifier::external_body]
pub(crate) fn text_width(s: &str) -> (r: usize)
    ensures
        r == display_width(s@),
{
    unicode_width::UnicodeWidthStr::width(s)
}

/// Characters written for `content` in `style`: the style's escape
/// sequences around the content when color is on, the bare content otherwise.
pub open spec fn styled_chars(content: Seq<char>, style: Option<Style>, color: bool) -> Seq<char> {
    match style {
        Some(st) => if color {
            escapes_of(st).0 + content + escapes_of(st).1
        } else {
            content
        },
        None => content,
    }
}

/// Atomic styled text fragment.
pub struct Span {
    pub content: String,
    pub style: Option<Style>,
}

impl Span {
    pub open spec fn chars(&self, color: bool) -> Seq<char> {
        styled_chars(self.content@, self.style, color)
    }

    pub open spec fn width_spec(&self) -> usize {
        display_width(self.content@)
    }

    pub fn raw(content: String) -> (r: Self)
        ensures
            r.content@ == content@,
            r.style is None,
    {
        Span { content, style: None }
    }

    pub fn styled(content: String, style: Style) -> (r: Self)
        ensures
            r.content@ == content@,
            r.style == Some(style),
    {
        Span { content, style: Some(style) }
    }

    /// Plain span holding a copy of a string slice.
    pub fn text(content: &str) -> (r: Self)
        ensures
            r.content@ == content@,
            r.style is None,
    {
        Span { content: content.to_owned(), style: None }
    }

    pub fn width(&self) -> (r: usize)
        ensures
            r == self.width_spec(),
    {
        text_width(self.content.as_str())
    }

    pub fn to_chars(&self, color: bool) -> (r: Vec<char>)
        ensures
            r@ == self.chars(color),
    {
        styled_to_chars(self.content.as_str(), self.style, color)
    }
}

/// Characters of `content` written in `style`.
pub fn styled_to_chars(content: &str, style: Option<Style>, color: bool) -> (r: Vec<char>)
    ensures
        r@ == styled_chars(content@, style, color),
{
    match style {
        Some(st) => {
            if color {
                let (pre, post) = style_escapes(st);
                let mut v = chars_of(pre.as_str());
                push_str(&mut v, content);
                push_str(&mut v, post.as_str());
                v
            } else {
                chars_of(content)
            }
        },
        None => chars_of(content),
    }
}

impl Render for Span {
    open spec fn fails(&self) -> bool {
        false
    }

    open spec fn rendered(&self, color: bool) -> Seq<u8> {
        encode_utf8(self.chars(color))
    }

    fn render(&self, ctx: &mut RenderContext) -> (r: Result<(), RenderError>) {
        let c = self.to_chars(ctx.color);
        ctx.write_chars(c.as_slice());
        Ok(())
    }
}

} // verus!

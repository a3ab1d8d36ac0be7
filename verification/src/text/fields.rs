//! Label/value pairs with aligned values.
use super::span::Span;
use super::{push_spaces, sat_add, sat_sub, saturating_add, saturating_sub, spaces};
use super::{Render, RenderContext, RenderError};
use crate::strs::push_all;
use vstd::prelude::*;
use vstd::utf8::*;

verus! {

pub struct Field {
    pub label: Span,
    pub value: Span,
}

impl Field {
    pub fn new(label: Span, value: Span) -> (r: Self)
        ensures
            r.label == label,
            r.value == value,
    {
        Field { label, value }
    }
}

/// Widest label among the fields (0 when there is none).
pub open spec fn label_width(fields: Seq<Field>) -> usize
    decreases fields.len(),
{
    if fields.len() == 0 {
        0
    } else {
        let w = label_width(fields.drop_last());
        let l = fields.last().label.width_spec();
        if w >= l {
            w
        } else {
            l
        }
    }
}

/// One field's line: indentation, label, padding up to the label column
/// width plus the gap, value, newline.
pub open spec fn field_chars(f: Field, width: usize, indent: usize, gap: usize, color: bool) -> Seq<
    char,
> {
    spaces(indent as nat) + f.label.chars(color) + spaces(
        sat_add(sat_sub(width, f.label.width_spec()), gap) as nat,
    ) + f.value.chars(color) + seq!['\n']
}

pub open spec fn fields_chars(
    fields: Seq<Field>,
    width: usize,
    indent: usize,
    gap: usize,
    color: bool,
) -> Seq<char>
    decreases fields.len(),
{
    if fields.len() == 0 {
        Seq::empty()
    } else {
        fields_chars(fields.drop_last(), width, indent, gap, color) + field_chars(
            fields.last(),
            width,
            indent,
            gap,
            color,
        )
    }
}

/// Label/value lines whose values start in the same column.
pub struct Fields {
    pub fields: Vec<Field>,
    pub indent: usize,
    pub gap: usize,
}

impl Fields {
    pub open spec fn chars(&self, color: bool) -> Seq<char> {
        fields_chars(self.fields@, label_width(self.fields@), self.indent, self.gap, color)
    }

    /// Fields with no indentation and a gap of 2 between labels and values.
    pub fn new(fields: Vec<Field>) -> (r: Self)
        ensures
            r.fields@ == fields@,
            r.indent == 0,
            r.gap == 2,
    {
        Fields { fields, indent: 0, gap: 2 }
    }

    pub fn indent(self, indent: usize) -> (r: Self)
        ensures
            r.fields@ == self.fields@,
            r.indent == indent,
            r.gap == self.gap,
    {
        Fields { fields: self.fields, indent, gap: self.gap }
    }

    pub fn gap(self, gap: usize) -> (r: Self)
        ensures
            r.fields@ == self.fields@,
            r.indent == self.indent,
            r.gap == gap,
    {
        Fields { fields: self.fields, indent: self.indent, gap }
    }

    /// The widest label.
    pub fn label_width(&self) -> (r: usize)
        ensures
            r == label_width(self.fields@),
    {
        let n = self.fields.len();
        let mut width: usize = 0;
        let mut i: usize = 0;
        while i < n
            invariant
                n == self.fields@.len(),
                i <= n,
                width == label_width(self.fields@.subrange(0, i as int)),
            decreases n - i,
        {
            let l = self.fields[i].label.width();
            assert(self.fields@.subrange(0, i + 1).drop_last() =~= self.fields@.subrange(
                0,
                i as int,
            ));
            if l > width {
                width = l;
            }
            i = i + 1;
        }
        assert(self.fields@.subrange(0, n as int) =~= self.fields@);
        width
    }

    /// The lines with the labels padded to `width` columns.
    pub fn to_chars_with_width(&self, width: usize, color: bool) -> (r: Vec<char>)
        ensures
            r@ == fields_chars(self.fields@, width, self.indent, self.gap, color),
    {
        let n = self.fields.len();
        let mut v: Vec<char> = Vec::new();
        let mut i: usize = 0;
        while i < n
            invariant
                n == self.fields@.len(),
                i <= n,
                v@ == fields_chars(
                    self.fields@.subrange(0, i as int),
                    width,
                    self.indent,
                    self.gap,
                    color,
                ),
            decreases n - i,
        {
            let f = &self.fields[i];
            let pad = saturating_add(saturating_sub(width, f.label.width()), self.gap);
            let ghost before = v@;
            push_spaces(&mut v, self.indent);
            let lc = f.label.to_chars(color);
            push_all(&mut v, lc.as_slice());
            push_spaces(&mut v, pad);
            let vc = f.value.to_chars(color);
            push_all(&mut v, vc.as_slice());
            v.push('\n');
            assert(self.fields@.subrange(0, i + 1).drop_last() =~= self.fields@.subrange(
                0,
                i as int,
            ));
            assert(v@ =~= before + field_chars(*f, width, self.indent, self.gap, color));
            i = i + 1;
        }
        assert(self.fields@.subrange(0, n as int) =~= self.fields@);
        v
    }

    pub fn to_chars(&self, color: bool) -> (r: Vec<char>)
        ensures
            r@ == self.chars(color),
    {
        let w = self.label_width();
        self.to_chars_with_width(w, color)
    }
}

impl Render for Fields {
    open spec fn fails(&self) -> bool {
        false
    }

    open spec fn rendered(&self, color: bool) -> Seq<u8> {
        encode_utf8(self.chars(color))
    }

    fn render(&self, ctx: &mut RenderContext) -> (r: Result<(), RenderError>) {
        let c = self.to_chars(ctx.color);
        ctx.write_chars(c.as_slice());
        Ok(())
    }
}

} // verus!

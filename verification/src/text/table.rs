//! A bordered grid of lines.
use super::line::Line;
use super::span::{styled_chars, styled_to_chars};
use super::style::Style;
use super::{push_repeat, push_spaces, repeat_char, sat_sub, saturating_sub, spaces};
use super::{Render, RenderContext, RenderError};
use crate::strs::{push_all, string_of};
use vstd::prelude::*;
use vstd::utf8::*;

verus! {

/// One row of a [`Table`]: a line per cell.
pub struct TableRow {
    pub cells: Vec<Line>,
}

impl TableRow {
    pub fn new(cells: Vec<Line>) -> (r: Self)
        ensures
            r.cells@ == cells@,
    {
        TableRow { cells }
    }

    /// A row of plain cells, one per string.
    pub fn plain(cells: &[&str]) -> (r: Self)
        ensures
            r.cells@.len() == cells@.len(),
            forall|i: int|
                0 <= i < cells@.len() ==> (#[trigger] r.cells@[i]).spans@.len() == 1
                    && r.cells@[i].spans@[0].content@ == cells@[i]@
                    && r.cells@[i].spans@[0].style is None,
    {
        let mut v: Vec<Line> = Vec::new();
        let mut i: usize = 0;
        while i < cells.len()
            invariant
                i <= cells@.len(),
                v@.len() == i,
                forall|j: int|
                    0 <= j < i ==> (#[trigger] v@[j]).spans@.len() == 1
                        && v@[j].spans@[0].content@ == cells@[j]@
                        && v@[j].spans@[0].style is None,
            decreases cells@.len() - i,
        {
            let l = Line::text(cells[i]);
            v.push(l);
            assert(v@[i as int] == l);
            i = i + 1;
        }
        TableRow { cells: v }
    }
}

/// Width of cell `j` of a row, 0 when the row has no such cell.
pub open spec fn cell_width(row: TableRow, j: int) -> usize {
    if 0 <= j < row.cells@.len() {
        row.cells@[j].width_spec()
    } else {
        0
    }
}

/// Largest cell count over the rows.
pub open spec fn column_count(rows: Seq<TableRow>) -> nat
    decreases rows.len(),
{
    if rows.len() == 0 {
        0
    } else {
        let prev = column_count(rows.drop_last());
        let n = rows.last().cells@.len();
        if n > prev {
            n
        } else {
            prev
        }
    }
}

/// Width of column `j`: the widest of its cells over the rows.
pub open spec fn column_width(rows: Seq<TableRow>, j: int) -> usize
    decreases rows.len(),
{
    if rows.len() == 0 {
        0
    } else {
        let prev = column_width(rows.drop_last(), j);
        let w = cell_width(rows.last(), j);
        if w > prev {
            w
        } else {
            prev
        }
    }
}

/// The column widths of a grid of rows.
pub open spec fn column_widths(rows: Seq<TableRow>) -> Seq<usize> {
    Seq::new(column_count(rows), |j: int| column_width(rows, j))
}

/// Text drawn in the border style.
pub open spec fn border(s: Seq<char>, style: Style, color: bool) -> Seq<char> {
    styled_chars(s, Some(style), color)
}

/// The segments of a horizontal rule from column `0` to `k`.
pub open spec fn rule_segments(sep: char, widths: Seq<usize>, style: Style, color: bool) -> Seq<
    char,
>
    decreases widths.len(),
{
    if widths.len() == 0 {
        Seq::empty()
    } else {
        let prev = widths.drop_last();
        rule_segments(sep, prev, style, color) + (if prev.len() > 0 {
            border(seq![sep], style, color)
        } else {
            Seq::empty()
        }) + border(repeat_char('─', (widths.last() + 2) as nat), style, color)
    }
}

/// A full horizontal rule line.
pub open spec fn rule_chars(
    indent: usize,
    left: char,
    sep: char,
    right: char,
    widths: Seq<usize>,
    style: Style,
    color: bool,
) -> Seq<char> {
    spaces(indent as nat) + border(seq![left], style, color) + rule_segments(
        sep,
        widths,
        style,
        color,
    ) + border(seq![right], style, color) + seq!['\n']
}

/// Cell `j` of a row, padded to width `w`, between single spaces.
pub open spec fn cell_chars(row: TableRow, j: int, w: usize, color: bool) -> Seq<char> {
    seq![' '] + (if 0 <= j < row.cells@.len() {
        row.cells@[j].chars(color) + spaces(sat_sub(w, row.cells@[j].width_spec()) as nat)
    } else {
        spaces(w as nat)
    }) + seq![' ']
}

/// The cells of a row up to the number of widths given, separated by bars.
pub open spec fn row_cells(row: TableRow, widths: Seq<usize>, style: Style, color: bool) -> Seq<
    char,
>
    decreases widths.len(),
{
    if widths.len() == 0 {
        Seq::empty()
    } else {
        let prev = widths.drop_last();
        row_cells(row, prev, style, color) + (if prev.len() > 0 {
            border(seq!['│'], style, color)
        } else {
            Seq::empty()
        }) + cell_chars(row, prev.len() as int, widths.last(), color)
    }
}

/// A full row line.
pub open spec fn row_chars(
    indent: usize,
    row: TableRow,
    widths: Seq<usize>,
    style: Style,
    color: bool,
) -> Seq<char> {
    spaces(indent as nat) + border(seq!['│'], style, color) + row_cells(row, widths, style, color)
        + border(seq!['│'], style, color) + seq!['\n']
}

/// Row lines of several rows.
pub open spec fn rows_chars(
    indent: usize,
    rows: Seq<TableRow>,
    widths: Seq<usize>,
    style: Style,
    color: bool,
) -> Seq<char>
    decreases rows.len(),
{
    if rows.len() == 0 {
        Seq::empty()
    } else {
        rows_chars(indent, rows.drop_last(), widths, style, color) + row_chars(
            indent,
            rows.last(),
            widths,
            style,
            color,
        )
    }
}

/// Bordered grid with an optional header row separated by a rule.
pub struct Table {
    pub header: Option<TableRow>,
    pub rows: Vec<TableRow>,
    pub indent: usize,
    pub border_style: Style,
}

impl Table {
    /// Header (if any) followed by the body rows.
    pub open spec fn all_rows(&self) -> Seq<TableRow> {
        match self.header {
            Some(h) => seq![h] + self.rows@,
            None => self.rows@,
        }
    }

    /// The characters the table renders: nothing when it has neither
    /// header nor rows, otherwise a top rule, the header and its rule, the
    /// rows, and a bottom rule, all sized by the column widths.
    pub open spec fn chars(&self, color: bool) -> Seq<char> {
        if self.header is None && self.rows@.len() == 0 {
            Seq::empty()
        } else {
            let w = column_widths(self.all_rows());
            let st = self.border_style;
            rule_chars(self.indent, '┌', '┬', '┐', w, st, color) + (match self.header {
                Some(h) => row_chars(self.indent, h, w, st, color) + rule_chars(
                    self.indent,
                    '├',
                    '┼',
                    '┤',
                    w,
                    st,
                    color,
                ),
                None => Seq::empty(),
            }) + rows_chars(self.indent, self.rows@, w, st, color) + rule_chars(
                self.indent,
                '└',
                '┴',
                '┘',
                w,
                st,
                color,
            )
        }
    }

    pub fn new(rows: Vec<TableRow>) -> (r: Self)
        ensures
            r.header is None,
            r.rows@ == rows@,
            r.indent == 0,
            r.border_style == Style::plain(),
    {
        Table { header: None, rows, indent: 0, border_style: Style::new() }
    }

    pub fn header(self, header: TableRow) -> (r: Self)
        ensures
            r.header == Some(header),
            r.rows@ == self.rows@,
            r.indent == self.indent,
            r.border_style == self.border_style,
    {
        Table { header: Some(header), rows: self.rows, indent: self.indent, border_style: self.border_style }
    }

    pub fn indent(self, indent: usize) -> (r: Self)
        ensures
            r.header == self.header,
            r.rows@ == self.rows@,
            r.indent == indent,
            r.border_style == self.border_style,
    {
        Table { header: self.header, rows: self.rows, indent, border_style: self.border_style }
    }

    pub fn border_style(self, style: Style) -> (r: Self)
        ensures
            r.header == self.header,
            r.rows@ == self.rows@,
            r.indent == self.indent,
            r.border_style == style,
    {
        Table { header: self.header, rows: self.rows, indent: self.indent, border_style: style }
    }

    /// The column widths over the header and the rows.
    pub fn column_widths(&self) -> (r: Vec<usize>)
        ensures
            r@ == column_widths(self.all_rows()),
    {
        let ghost all = self.all_rows();
        let mut columns: usize = 0;
        let mut done: usize = 0;
        match &self.header {
            Some(h) => {
                columns = h.cells.len();
                done = 1;
                assert(all.subrange(0, 1).drop_last() =~= Seq::<TableRow>::empty());
                assert(all.subrange(0, 1).last() == *h);
                assert(column_count(Seq::<TableRow>::empty()) == 0);
                assert(column_count(all.subrange(0, 1).drop_last()) == 0);
                assert(column_count(all.subrange(0, 1)) == h.cells@.len());
            },
            None => {
                assert(all.subrange(0, 0) =~= Seq::<TableRow>::empty());
            },
        }
        let ghost off: int = done as int;
        let mut i: usize = 0;
        while i < self.rows.len()
            invariant
                i <= self.rows@.len(),
                off == (if self.header is Some { 1int } else { 0int }),
                all == self.all_rows(),
                columns == column_count(all.subrange(0, off + i)),
            decreases self.rows@.len() - i,
        {
            assert(all.subrange(0, off + i + 1).drop_last() =~= all.subrange(0, off + i));
            assert(all[off + i] == self.rows@[i as int]);
            if self.rows[i].cells.len() > columns {
                columns = self.rows[i].cells.len();
            }
            i = i + 1;
        }
        assert(all.subrange(0, off + i) =~= all);
        let mut widths: Vec<usize> = Vec::new();
        let mut k: usize = 0;
        while k < columns
            invariant
                k <= columns,
                widths@.len() == k,
                forall|j: int| 0 <= j < k ==> widths@[j] == 0,
            decreases columns - k,
        {
            widths.push(0);
            k = k + 1;
        }
        assert(forall|j: int| 0 <= j < columns ==> widths@[j] == column_width(all.subrange(0, 0), j));
        match &self.header {
            Some(h) => {
                proof {
                    lemma_count_bounds(all, 1);
                }
                widen(&mut widths, h);
                assert(all.subrange(0, 1).drop_last() =~= all.subrange(0, 0));
            },
            None => {},
        }
        let mut i: usize = 0;
        while i < self.rows.len()
            invariant
                i <= self.rows@.len(),
                off == (if self.header is Some { 1int } else { 0int }),
                all == self.all_rows(),
                columns == column_count(all),
                widths@.len() == columns,
                forall|j: int|
                    0 <= j < columns ==> widths@[j] == column_width(all.subrange(0, off + i), j),
            decreases self.rows@.len() - i,
        {
            proof {
                lemma_count_bounds(all, off + i + 1);
            }
            assert(all.subrange(0, off + i + 1).drop_last() =~= all.subrange(0, off + i));
            assert(all[off + i] == self.rows@[i as int]);
            widen(&mut widths, &self.rows[i]);
            i = i + 1;
        }
        assert(all.subrange(0, off + i) =~= all);
        assert(widths@ =~= column_widths(all));
        widths
    }

}

/// Every row's cell count is at most the column count.
proof fn lemma_count_bounds(rows: Seq<TableRow>, k: int)
    requires
        0 < k <= rows.len(),
    ensures
        rows[k - 1].cells@.len() <= column_count(rows),
    decreases rows.len(),
{
    if k < rows.len() {
        lemma_count_bounds(rows.drop_last(), k);
    }
}

/// Raises each width to the width of the row's cell in that column.
fn widen(widths: &mut Vec<usize>, row: &TableRow)
    requires
        row.cells@.len() <= old(widths)@.len(),
    ensures
        final(widths)@.len() == old(widths)@.len(),
        forall|j: int|
            0 <= j < old(widths)@.len() ==> #[trigger] final(widths)@[j] == (if cell_width(*row, j)
                > old(widths)@[j] {
                cell_width(*row, j)
            } else {
                old(widths)@[j]
            }),
{
    let ghost w0 = widths@;
    let mut k: usize = 0;
    while k < row.cells.len()
        invariant
            k <= row.cells@.len(),
            row.cells@.len() <= w0.len(),
            widths@.len() == w0.len(),
            forall|j: int|
                0 <= j < w0.len() ==> #[trigger] widths@[j] == (if j < k && cell_width(*row, j)
                    > w0[j] {
                    cell_width(*row, j)
                } else {
                    w0[j]
                }),
        decreases row.cells@.len() - k,
    {
        let cw = row.cells[k].width();
        if cw > widths[k] {
            widths.set(k, cw);
        }
        k = k + 1;
    }
}

/// Appends `content` drawn in the border style.
fn push_border(out: &mut Vec<char>, content: Vec<char>, style: Style, color: bool)
    ensures
        final(out)@ == old(out)@ + border(content@, style, color),
{
    let s = string_of(content.as_slice());
    let c = styled_to_chars(s.as_str(), Some(style), color);
    push_all(out, c.as_slice());
}

fn one(c: char) -> (r: Vec<char>)
    ensures
        r@ == seq![c],
{
    let mut v = Vec::new();
    v.push(c);
    v
}

/// Appends a horizontal rule line.
fn push_rule(
    out: &mut Vec<char>,
    indent: usize,
    left: char,
    sep: char,
    right: char,
    widths: &Vec<usize>,
    style: Style,
    color: bool,
)
    ensures
        final(out)@ == old(out)@ + rule_chars(indent, left, sep, right, widths@, style, color),
{
    let ghost start = out@;
    push_spaces(out, indent);
    push_border(out, one(left), style, color);
    let ghost mid = out@;
    let mut i: usize = 0;
    while i < widths.len()
        invariant
            i <= widths@.len(),
            out@ == mid + rule_segments(sep, widths@.subrange(0, i as int), style, color),
        decreases widths@.len() - i,
    {
        let ghost before = out@;
        assert(widths@.subrange(0, i + 1).drop_last() =~= widths@.subrange(0, i as int));
        if i > 0 {
            push_border(out, one(sep), style, color);
        }
        let mut dash: Vec<char> = Vec::new();
        push_repeat(&mut dash, '─', widths[i]);
        dash.push('─');
        dash.push('─');
        assert(dash@ =~= repeat_char('─', (widths@[i as int] + 2) as nat));
        push_border(out, dash, style, color);
        i = i + 1;
    }
    assert(widths@.subrange(0, widths@.len() as int) =~= widths@);
    push_border(out, one(right), style, color);
    out.push('\n');
    assert(out@ =~= start + rule_chars(indent, left, sep, right, widths@, style, color));
}

/// Appends one padded cell.
fn push_cell(out: &mut Vec<char>, row: &TableRow, i: usize, w: usize, color: bool)
    ensures
        final(out)@ == old(out)@ + cell_chars(*row, i as int, w, color),
{
    let ghost before = out@;
    out.push(' ');
    if i < row.cells.len() {
        let c = row.cells[i].to_chars(color);
        push_all(out, c.as_slice());
        let cw = row.cells[i].width();
        push_spaces(out, saturating_sub(w, cw));
    } else {
        push_spaces(out, w);
    }
    out.push(' ');
    assert(out@ =~= before + cell_chars(*row, i as int, w, color));
}

/// Appends a row line.
fn push_row(
    out: &mut Vec<char>,
    indent: usize,
    row: &TableRow,
    widths: &Vec<usize>,
    style: Style,
    color: bool,
)
    ensures
        final(out)@ == old(out)@ + row_chars(indent, *row, widths@, style, color),
{
    let ghost start = out@;
    push_spaces(out, indent);
    push_border(out, one('│'), style, color);
    let ghost mid = out@;
    let mut i: usize = 0;
    while i < widths.len()
        invariant
            i <= widths@.len(),
            out@ == mid + row_cells(*row, widths@.subrange(0, i as int), style, color),
        decreases widths@.len() - i,
    {
        assert(widths@.subrange(0, i + 1).drop_last() =~= widths@.subrange(0, i as int));
        if i > 0 {
            push_border(out, one('│'), style, color);
        }
        push_cell(out, row, i, widths[i], color);
        i = i + 1;
    }
    assert(widths@.subrange(0, widths@.len() as int) =~= widths@);
    push_border(out, one('│'), style, color);
    out.push('\n');
    assert(out@ =~= start + row_chars(indent, *row, widths@, style, color));
}

impl Table {
    pub fn to_chars(&self, color: bool) -> (r: Vec<char>)
        ensures
            r@ == self.chars(color),
    {
        let mut out: Vec<char> = Vec::new();
        if self.header.is_none() && self.rows.len() == 0 {
            return out;
        }
        let widths = self.column_widths();
        let st = self.border_style;
        push_rule(&mut out, self.indent, '┌', '┬', '┐', &widths, st, color);
        let ghost top = out@;
        match &self.header {
            Some(h) => {
                push_row(&mut out, self.indent, h, &widths, st, color);
                push_rule(&mut out, self.indent, '├', '┼', '┤', &widths, st, color);
            },
            None => {},
        }
        let ghost head = out@;
        self.push_body(&mut out, &widths, color);
        let ghost body = out@;
        push_rule(&mut out, self.indent, '└', '┴', '┘', &widths, st, color);
        assert(out@ =~= top + (head.subrange(top.len() as int, head.len() as int)) + (
        body.subrange(head.len() as int, body.len() as int)) + rule_chars(
            self.indent,
            '└',
            '┴',
            '┘',
            widths@,
            st,
            color,
        ));
        out
    }

    fn push_body(&self, out: &mut Vec<char>, widths: &Vec<usize>, color: bool)
        ensures
            final(out)@ == old(out)@ + rows_chars(self.indent, self.rows@, widths@, self.border_style, color),
    {
        let ghost mid = out@;
        let mut i: usize = 0;
        while i < self.rows.len()
            invariant
                i <= self.rows@.len(),
                out@ == mid + rows_chars(
                    self.indent,
                    self.rows@.subrange(0, i as int),
                    widths@,
                    self.border_style,
                    color,
                ),
            decreases self.rows@.len() - i,
        {
            assert(self.rows@.subrange(0, i + 1).drop_last() =~= self.rows@.subrange(0, i as int));
            push_row(out, self.indent, &self.rows[i], widths, self.border_style, color);
            i = i + 1;
        }
        assert(self.rows@.subrange(0, self.rows@.len() as int) =~= self.rows@);
    }
}

impl Render for Table {
    open spec fn fails(&self) -> bool {
        false
    }

    open spec fn rendered(&self, color: bool) -> Seq<u8> {
        encode_utf8(self.chars(color))
    }

    fn render(&self, ctx: &mut RenderContext) -> (r: Result<(), RenderError>) {
        let c = self.to_chars(ctx.color);
        ctx.write_chars(c.as_slice());
        Ok(())
    }
}

} // verus!

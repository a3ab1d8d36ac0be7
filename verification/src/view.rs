//! Building blocks of the command views: a heading over label/value
//! fields, a listing that is either a table or a "nothing found" line, and
//! the fields the views show (a label dimmed, a value plain, `-` for what
//! is missing).
use crate::strs::string_of;
use crate::text::fields::{Field, Fields};
use crate::text::line::Line;
use crate::text::span::Span;
use crate::text::style::Style;
use crate::text::table::{Table, TableRow};
use crate::text::text::Text;
use crate::text::{Render, RenderContext, RenderError};
use crate::theme;
use vstd::prelude::*;
use vstd::utf8::*;

verus! {

/// A heading text followed by fields.
pub struct Section {
    pub heading: Text,
    pub fields: Fields,
}

impl Section {
    pub open spec fn chars(&self, color: bool) -> Seq<char> {
        self.heading.chars(color) + self.fields.chars(color)
    }
}

impl Render for Section {
    open spec fn fails(&self) -> bool {
        false
    }

    open spec fn rendered(&self, color: bool) -> Seq<u8> {
        encode_utf8(self.chars(color))
    }

    fn render(&self, ctx: &mut RenderContext) -> (r: Result<(), RenderError>) {
        let mut c = self.heading.to_chars(ctx.color);
        let f = self.fields.to_chars(ctx.color);
        crate::strs::push_all(&mut c, f.as_slice());
        ctx.write_chars(c.as_slice());
        Ok(())
    }
}

/// A list view: a table of the items, or a dimmed line when there is none.
pub enum Listing {
    Empty(Text),
    Rows(Table),
}

impl Listing {
    pub open spec fn chars(&self, color: bool) -> Seq<char> {
        match self {
            Listing::Empty(t) => t.chars(color),
            Listing::Rows(t) => t.chars(color),
        }
    }

    /// The line shown when there is nothing to list.
    pub fn empty(message: &str) -> (r: Self)
        ensures
            r matches Listing::Empty(t) && t.lines@.len() == 1 && t.lines@[0].spans@.len() == 1
                && t.lines@[0].spans@[0].content@ == message@ && t.lines@[0].spans@[0].style == Some(
                Style::plain().with_dimmed(),
            ),
    {
        Listing::Empty(Text::new().line(Line::styled(message.to_owned(), theme::dim())))
    }
}

impl Render for Listing {
    open spec fn fails(&self) -> bool {
        false
    }

    open spec fn rendered(&self, color: bool) -> Seq<u8> {
        encode_utf8(self.chars(color))
    }

    fn render(&self, ctx: &mut RenderContext) -> (r: Result<(), RenderError>) {
        let c = match self {
            Listing::Empty(t) => t.to_chars(ctx.color),
            Listing::Rows(t) => t.to_chars(ctx.color),
        };
        ctx.write_chars(c.as_slice());
        Ok(())
    }
}

/// A field's label and value text.
pub open spec fn field_text(f: Field) -> (Seq<char>, Seq<char>) {
    (f.label.content@, f.value.content@)
}

pub open spec fn fields_text(fs: Seq<Field>) -> Seq<(Seq<char>, Seq<char>)> {
    Seq::new(fs.len(), |i: int| field_text(fs[i]))
}

/// Every label dimmed and every value plain.
pub open spec fn styled_as_fields(fs: Seq<Field>) -> bool {
    forall|i: int|
        0 <= i < fs.len() ==> (#[trigger] fs[i]).label.style == Some(Style::plain().with_dimmed())
            && fs[i].value.style == Some(Style::plain())
}

/// A value, or `-` when it is missing.
pub open spec fn or_dash(o: Option<Seq<char>>) -> Seq<char> {
    match o {
        Some(s) => s,
        None => "-"@,
    }
}

/// `true`, `false`, or `-` when unknown.
pub open spec fn flag_text(o: Option<bool>) -> Seq<char> {
    match o {
        Some(true) => "true"@,
        Some(false) => "false"@,
        None => "-"@,
    }
}

pub open spec fn opt_str(o: Option<String>) -> Option<Seq<char>> {
    match o {
        Some(s) => Some(s@),
        None => None,
    }
}

/// A field with a dimmed label and a plain value.
pub fn field(label: &str, value: &str) -> (r: Field)
    ensures
        field_text(r) == (label@, value@),
        r.label.style == Some(Style::plain().with_dimmed()),
        r.value.style == Some(Style::plain()),
{
    Field::new(Span::styled(label.to_owned(), theme::label()), Span::styled(value.to_owned(), theme::value()))
}

/// A field whose value may be missing.
pub fn field_opt(label: &str, value: &Option<String>) -> (r: Field)
    ensures
        field_text(r) == (label@, or_dash(opt_str(*value))),
        r.label.style == Some(Style::plain().with_dimmed()),
        r.value.style == Some(Style::plain()),
{
    match value {
        Some(v) => field(label, v.as_str()),
        None => field(label, "-"),
    }
}

/// A yes/no field that may be unknown.
pub fn field_flag(label: &str, value: Option<bool>) -> (r: Field)
    ensures
        field_text(r) == (label@, flag_text(value)),
        r.label.style == Some(Style::plain().with_dimmed()),
        r.value.style == Some(Style::plain()),
{
    proof {
        reveal_strlit("true");
        reveal_strlit("false");
        reveal_strlit("-");
    }
    match value {
        Some(true) => field(label, "true"),
        Some(false) => field(label, "false"),
        None => field(label, "-"),
    }
}

/// A green heading line: the title, then a plain detail when there is one.
pub open spec fn heading_ok(t: Text, title: Seq<char>, detail: Option<Seq<char>>) -> bool {
    &&& t.lines@.len() == 1
    &&& t.lines@[0].spans@.len() == (if detail is Some { 3int } else { 1int })
    &&& t.lines@[0].spans@[0].content@ == title
    &&& t.lines@[0].spans@[0].style == Some(Style::plain().with_fg(crate::text::style::AnsiColor::Green))
    &&& detail matches Some(d) ==> {
        &&& t.lines@[0].spans@[1].content@ == " "@
        &&& t.lines@[0].spans@[1].style is None
        &&& t.lines@[0].spans@[2].content@ == d
        &&& t.lines@[0].spans@[2].style == Some(Style::plain())
    }
}

pub fn heading(title: &str, detail: Option<String>) -> (r: Text)
    ensures
        heading_ok(r, title@, opt_str(detail)),
{
    let line = Line::styled(title.to_owned(), theme::success());
    let line = match detail {
        Some(d) => line.push_plain(" ".to_owned()).push_styled(d, theme::value()),
        None => line,
    };
    proof {
        reveal_strlit(" ");
    }
    Text::new().line(line)
}

/// `NAME (ID)`.
pub open spec fn name_and_id(name: Seq<char>, id: Seq<char>) -> Seq<char> {
    name + " ("@ + id + ")"@
}

pub fn name_with_id(name: &str, id: &str) -> (r: String)
    ensures
        r@ == name_and_id(name@, id@),
{
    let mut v: Vec<char> = Vec::new();
    crate::strs::push_str(&mut v, name);
    crate::strs::push_str(&mut v, " (");
    crate::strs::push_str(&mut v, id);
    crate::strs::push_str(&mut v, ")");
    string_of(v.as_slice())
}

} // verus!

verus! {

/// A row whose cells are the given texts, one unstyled span each.
pub open spec fn plain_row(row: TableRow, cells: Seq<Seq<char>>) -> bool {
    &&& row.cells@.len() == cells.len()
    &&& forall|i: int|
        0 <= i < cells.len() ==> (#[trigger] row.cells@[i]).spans@.len() == 1
            && row.cells@[i].spans@[0].content@ == cells[i] && row.cells@[i].spans@[0].style is None
}

pub open spec fn string_texts(v: Seq<String>) -> Seq<Seq<char>> {
    Seq::new(v.len(), |i: int| v[i]@)
}

/// A row of unstyled cells.
pub fn row_of(cells: Vec<String>) -> (r: TableRow)
    ensures
        plain_row(r, string_texts(cells@)),
{
    let mut v: Vec<Line> = Vec::new();
    let mut i: usize = 0;
    while i < cells.len()
        invariant
            i <= cells@.len(),
            v@.len() == i,
            forall|j: int|
                0 <= j < i ==> (#[trigger] v@[j]).spans@.len() == 1 && v@[j].spans@[0].content@
                    == cells@[j]@ && v@[j].spans@[0].style is None,
        decreases cells@.len() - i,
    {
        let l = Line::text(cells[i].as_str());
        v.push(l);
        assert(v@[i as int] == l);
        i = i + 1;
    }
    TableRow::new(v)
}

/// A listing of the given rows under a header, or the empty message: the
/// table has dimmed borders and no indentation.
pub open spec fn listing_ok(
    l: Listing,
    empty_message: Seq<char>,
    header: Seq<Seq<char>>,
    rows: Seq<Seq<Seq<char>>>,
) -> bool {
    if rows.len() == 0 {
        l matches Listing::Empty(t) && t.lines@.len() == 1 && t.lines@[0].spans@.len() == 1
            && t.lines@[0].spans@[0].content@ == empty_message && t.lines@[0].spans@[0].style == Some(
            Style::plain().with_dimmed(),
        )
    } else {
        l matches Listing::Rows(t) && t.header matches Some(h) && plain_row(h, header)
            && t.rows@.len() == rows.len() && (forall|i: int|
            0 <= i < rows.len() ==> plain_row(#[trigger] t.rows@[i], rows[i])) && t.indent == 0
            && t.border_style == Style::plain().with_dimmed()
    }
}

/// Builds a listing; `rows` are already rows of unstyled cells.
pub(crate) fn listing(
    empty_message: &str,
    header: TableRow,
    rows: Vec<TableRow>,
    Ghost(header_cells): Ghost<Seq<Seq<char>>>,
    Ghost(cells): Ghost<Seq<Seq<Seq<char>>>>,
) -> (r: Listing)
    requires
        plain_row(header, header_cells),
        rows@.len() == cells.len(),
        forall|i: int| 0 <= i < cells.len() ==> plain_row(#[trigger] rows@[i], cells[i]),
    ensures
        listing_ok(r, empty_message@, header_cells, cells),
{
    if rows.len() == 0 {
        Listing::empty(empty_message)
    } else {
        Listing::Rows(Table::new(rows).header(header).border_style(theme::dim()))
    }
}

} // verus!

verus! {

/// A text whose lines are one span each, with these contents and styles.
pub open spec fn lines_are(t: Text, expected: Seq<(Seq<char>, Option<Style>)>) -> bool {
    &&& t.lines@.len() == expected.len()
    &&& forall|i: int|
        0 <= i < expected.len() ==> (#[trigger] t.lines@[i]).spans@.len() == 1
            && t.lines@[i].spans@[0].content@ == expected[i].0 && t.lines@[i].spans@[0].style
            == expected[i].1
}

/// One-span lines built in order.
pub struct LinesBuilder {
    pub text: Text,
    pub expected: Ghost<Seq<(Seq<char>, Option<Style>)>>,
}

impl LinesBuilder {
    pub fn new() -> (r: Self)
        ensures
            lines_are(r.text, r.expected@),
            r.expected@ == Seq::<(Seq<char>, Option<Style>)>::empty(),
    {
        LinesBuilder { text: Text::new(), expected: Ghost(Seq::empty()) }
    }

    pub fn plain(self, content: String) -> (r: Self)
        requires
            lines_are(self.text, self.expected@),
        ensures
            lines_are(r.text, r.expected@),
            r.expected@ == self.expected@.push((content@, None)),
    {
        let ghost e = self.expected@.push((content@, None));
        let t = self.text.line(Line::raw(content));
        LinesBuilder { text: t, expected: Ghost(e) }
    }

    pub fn styled(self, content: String, style: Style) -> (r: Self)
        requires
            lines_are(self.text, self.expected@),
        ensures
            lines_are(r.text, r.expected@),
            r.expected@ == self.expected@.push((content@, Some(style))),
    {
        let ghost e = self.expected@.push((content@, Some(style)));
        let t = self.text.line(Line::styled(content, style));
        LinesBuilder { text: t, expected: Ghost(e) }
    }
}

} // verus!

//! The "D1V CLI" banner's text: the glyph rows of each letter, how they are
//! laid out into six rows, and which cells are blank, face or shadow. The
//! gradient colouring is the caller's part.
use crate::strs::{chars_of, push_str, string_of};
use vstd::prelude::*;

verus! {

/// The number of rows of every glyph.
pub const ROWS: usize = 6;

/// The glyph rows of the letters D, 1, V, C, L and I, in that order.
pub open spec fn letter_rows(letter: int) -> Seq<Seq<char>> {
    if letter == 0 {
        seq!["██████╗ "@, "██╔══██╗"@, "██║  ██║"@, "██║  ██║"@, "██████╔╝"@, "╚═════╝ "@]
    } else if letter == 1 {
        seq![" ██╗"@, "███║"@, "╚██║"@, " ██║"@, " ██║"@, " ╚═╝"@]
    } else if letter == 2 {
        seq!["██╗   ██╗"@, "██║   ██║"@, "██║   ██║"@, "╚██╗ ██╔╝"@, " ╚████╔╝ "@, "  ╚═══╝  "@]
    } else if letter == 3 {
        seq![" ██████╗"@, "██╔════╝"@, "██║     "@, "██║     "@, "╚██████╗"@, " ╚═════╝"@]
    } else if letter == 4 {
        seq!["██╗     "@, "██║     "@, "██║     "@, "██║     "@, "███████╗"@, "╚══════╝"@]
    } else {
        seq!["██╗"@, "██║"@, "██║"@, "██║"@, "██║"@, "╚═╝"@]
    }
}

/// One row of one letter's glyph.
pub fn glyph_row(letter: usize, row: usize) -> (r: &'static str)
    requires
        letter < 6,
        row < ROWS,
    ensures
        r@ == letter_rows(letter as int)[row as int],
{
    let rows: [&'static str; 6] = if letter == 0 {
        ["██████╗ ", "██╔══██╗", "██║  ██║", "██║  ██║", "██████╔╝", "╚═════╝ "]
    } else if letter == 1 {
        [" ██╗", "███║", "╚██║", " ██║", " ██║", " ╚═╝"]
    } else if letter == 2 {
        ["██╗   ██╗", "██║   ██║", "██║   ██║", "╚██╗ ██╔╝", " ╚████╔╝ ", "  ╚═══╝  "]
    } else if letter == 3 {
        [" ██████╗", "██╔════╝", "██║     ", "██║     ", "╚██████╗", " ╚═════╝"]
    } else if letter == 4 {
        ["██╗     ", "██║     ", "██║     ", "██║     ", "███████╗", "╚══════╝"]
    } else {
        ["██╗", "██║", "██║", "██║", "██║", "╚═╝"]
    };
    rows[row]
}

/// The spacing of the banner.
#[derive(Debug, Clone)]
pub struct BannerLayout {
    pub padding_top: String,
    pub padding_bottom: String,
    pub padding_left: String,
    /// Between the letters of a word.
    pub letter_spacing: String,
    /// Between the two words.
    pub word_spacing: String,
}

impl BannerLayout {
    /// The default layout: two blank lines above and below, a two-space
    /// margin, one space between letters and five between words.
    pub fn new() -> (r: BannerLayout)
        ensures
            r.padding_top@ == "\n\n"@,
            r.padding_bottom@ == "\n\n"@,
            r.padding_left@ == "  "@,
            r.letter_spacing@ == " "@,
            r.word_spacing@ == "     "@,
    {
        BannerLayout {
            padding_top: "\n\n".to_owned(),
            padding_bottom: "\n\n".to_owned(),
            padding_left: "  ".to_owned(),
            letter_spacing: " ".to_owned(),
            word_spacing: "     ".to_owned(),
        }
    }
}

/// Row `row` of the banner: the rows of D, 1 and V joined by the letter
/// spacing, then the word spacing, then those of C, L and I.
pub open spec fn banner_row(layout: BannerLayout, row: int) -> Seq<char> {
    let ls = layout.letter_spacing@;
    letter_rows(0)[row] + ls + letter_rows(1)[row] + ls + letter_rows(2)[row] + layout.word_spacing@
        + letter_rows(3)[row] + ls + letter_rows(4)[row] + ls + letter_rows(5)[row]
}

/// The six rows of the banner, uncoloured.
pub fn compose(layout: &BannerLayout) -> (r: Vec<String>)
    ensures
        r@.len() == ROWS,
        forall|i: int| 0 <= i < ROWS ==> #[trigger] r@[i]@ == banner_row(*layout, i),
{
    let mut out: Vec<String> = Vec::new();
    let mut row: usize = 0;
    while row < ROWS
        invariant
            row <= ROWS,
            out@.len() == row,
            forall|i: int| 0 <= i < row ==> #[trigger] out@[i]@ == banner_row(*layout, i),
        decreases ROWS - row,
    {
        let mut v: Vec<char> = Vec::new();
        push_str(&mut v, glyph_row(0, row));
        push_str(&mut v, layout.letter_spacing.as_str());
        push_str(&mut v, glyph_row(1, row));
        push_str(&mut v, layout.letter_spacing.as_str());
        push_str(&mut v, glyph_row(2, row));
        push_str(&mut v, layout.word_spacing.as_str());
        push_str(&mut v, glyph_row(3, row));
        push_str(&mut v, layout.letter_spacing.as_str());
        push_str(&mut v, glyph_row(4, row));
        push_str(&mut v, layout.letter_spacing.as_str());
        push_str(&mut v, glyph_row(5, row));
        assert(v@ =~= banner_row(*layout, row as int));
        out.push(string_of(v.as_slice()));
        row = row + 1;
    }
    out
}

/// The box-drawing characters that draw a glyph's shadow.
pub open spec fn is_shadow_spec(c: char) -> bool {
    c == '╗' || c == '╔' || c == '║' || c == '═' || c == '╚' || c == '╝'
}

pub fn is_shadow(c: char) -> (r: bool)
    ensures
        r == is_shadow_spec(c),
{
    c == '╗' || c == '╔' || c == '║' || c == '═' || c == '╚' || c == '╝'
}

/// How a cell of the banner is drawn.
#[derive(Debug, Clone, Copy, PartialEq, Eq)]
pub enum Shade {
    /// A space, left uncoloured.
    Blank,
    /// The glyph's face, in the gradient's colour.
    Face,
    /// The glyph's shadow, in the gradient's colour dimmed.
    Shadow,
}

pub open spec fn shade_of(c: char) -> Shade {
    if c == ' ' {
        Shade::Blank
    } else if is_shadow_spec(c) {
        Shade::Shadow
    } else {
        Shade::Face
    }
}

/// The shade of each character of a row, by column.
pub fn shades(line: &str) -> (r: Vec<Shade>)
    ensures
        r@ == line@.map_values(|c: char| shade_of(c)),
{
    let cs = chars_of(line);
    let mut out: Vec<Shade> = Vec::new();
    let mut i: usize = 0;
    while i < cs.len()
        invariant
            i <= cs@.len(),
            cs@ == line@,
            out@ == cs@.take(i as int).map_values(|c: char| shade_of(c)),
        decreases cs@.len() - i,
    {
        let c = cs[i];
        let s = if c == ' ' {
            Shade::Blank
        } else if is_shadow(c) {
            Shade::Shadow
        } else {
            Shade::Face
        };
        out.push(s);
        assert(cs@.take(i + 1) =~= cs@.take(i as int).push(c));
        i = i + 1;
    }
    assert(cs@.take(cs@.len() as int) =~= cs@);
    out
}

/// The longest row's length in characters.
pub open spec fn max_len(rows: Seq<Seq<char>>) -> nat
    decreases rows.len(),
{
    if rows.len() == 0 {
        0
    } else {
        let m = max_len(rows.drop_last());
        if rows.last().len() > m {
            rows.last().len()
        } else {
            m
        }
    }
}

/// The width the gradient spans: the longest row, or 1 without rows.
pub open spec fn width_spec(rows: Seq<Seq<char>>) -> nat {
    if rows.len() == 0 {
        1
    } else {
        max_len(rows)
    }
}

pub fn width(rows: &Vec<String>) -> (r: usize)
    ensures
        r == width_spec(crate::view::string_texts(rows@)),
{
    let ghost texts = crate::view::string_texts(rows@);
    if rows.len() == 0 {
        return 1;
    }
    let mut m: usize = 0;
    let mut i: usize = 0;
    while i < rows.len()
        invariant
            i <= rows@.len(),
            texts == crate::view::string_texts(rows@),
            m == max_len(texts.take(i as int)),
        decreases rows@.len() - i,
    {
        let n = chars_of(rows[i].as_str()).len();
        assert(texts.take(i + 1).drop_last() =~= texts.take(i as int));
        assert(texts.take(i + 1).last() == rows@[i as int]@);
        if n > m {
            m = n;
        }
        i = i + 1;
    }
    assert(texts.take(rows@.len() as int) =~= texts);
    m
}

} // verus!

//! Terminal styles and their ANSI escape sequences.
use vstd::prelude::*;

verus! {

/// The 16 palette colors of an ANSI terminal.
#[derive(Debug, Clone, Copy, PartialEq, Eq)]
pub enum AnsiColor {
    Black,
    Red,
    Green,
    Yellow,
    Blue,
    Magenta,
    Cyan,
    White,
    BrightBlack,
    BrightRed,
    BrightGreen,
    BrightYellow,
    BrightBlue,
    BrightMagenta,
    BrightCyan,
    BrightWhite,
}

/// Foreground/background color and text effects of a span.
#[derive(Debug, Clone, Copy, PartialEq, Eq)]
pub struct Style {
    pub fg: Option<AnsiColor>,
    pub bg: Option<AnsiColor>,
    pub bold: bool,
    pub dimmed: bool,
    pub italic: bool,
    pub underline: bool,
}

impl Style {
    /// The plain style: no color, no effect.
    pub fn new() -> (r: Self)
        ensures
            r == Style::plain(),
    {
        Style { fg: None, bg: None, bold: false, dimmed: false, italic: false, underline: false }
    }

    pub open spec fn plain() -> Style {
        Style { fg: None, bg: None, bold: false, dimmed: false, italic: false, underline: false }
    }

    pub open spec fn with_fg(self, c: AnsiColor) -> Style {
        Style { fg: Some(c), ..self }
    }

    pub open spec fn with_dimmed(self) -> Style {
        Style { dimmed: true, ..self }
    }

    pub fn fg_color(self, c: AnsiColor) -> (r: Self)
        ensures
            r == (Style { fg: Some(c), ..self }),
    {
        Style { fg: Some(c), ..self }
    }

    pub fn bg_color(self, c: AnsiColor) -> (r: Self)
        ensures
            r == (Style { bg: Some(c), ..self }),
    {
        Style { bg: Some(c), ..self }
    }

    pub fn bold(self) -> (r: Self)
        ensures
            r == (Style { bold: true, ..self }),
    {
        Style { bold: true, ..self }
    }

    pub fn dimmed(self) -> (r: Self)
        ensures
            r == (Style { dimmed: true, ..self }),
    {
        Style { dimmed: true, ..self }
    }

    pub fn italic(self) -> (r: Self)
        ensures
            r == (Style { italic: true, ..self }),
    {
        Style { italic: true, ..self }
    }

    pub fn underline(self) -> (r: Self)
        ensures
            r == (Style { underline: true, ..self }),
    {
        Style { underline: true, ..self }
    }
}

/// Palette index of a color (0 to 15).
pub open spec fn color_index(c: AnsiColor) -> u8 {
    match c {
        AnsiColor::Black => 0,
        AnsiColor::Red => 1,
        AnsiColor::Green => 2,
        AnsiColor::Yellow => 3,
        AnsiColor::Blue => 4,
        AnsiColor::Magenta => 5,
        AnsiColor::Cyan => 6,
        AnsiColor::White => 7,
        AnsiColor::BrightBlack => 8,
        AnsiColor::BrightRed => 9,
        AnsiColor::BrightGreen => 10,
        AnsiColor::BrightYellow => 11,
        AnsiColor::BrightBlue => 12,
        AnsiColor::BrightMagenta => 13,
        AnsiColor::BrightCyan => 14,
        AnsiColor::BrightWhite => 15,
    }
}

pub fn palette_index(c: AnsiColor) -> (r: u8)
    ensures
        r == color_index(c),
        r < 16,
{
    match c {
        AnsiColor::Black => 0,
        AnsiColor::Red => 1,
        AnsiColor::Green => 2,
        AnsiColor::Yellow => 3,
        AnsiColor::Blue => 4,
        AnsiColor::Magenta => 5,
        AnsiColor::Cyan => 6,
        AnsiColor::White => 7,
        AnsiColor::BrightBlack => 8,
        AnsiColor::BrightRed => 9,
        AnsiColor::BrightGreen => 10,
        AnsiColor::BrightYellow => 11,
        AnsiColor::BrightBlue => 12,
        AnsiColor::BrightMagenta => 13,
        AnsiColor::BrightCyan => 14,
        AnsiColor::BrightWhite => 15,
    }
}

pub open spec fn opt_index(c: Option<AnsiColor>) -> Option<u8> {
    match c {
        Some(c) => Some(color_index(c)),
        None => None,
    }
}

fn opt_palette_index(c: Option<AnsiColor>) -> (r: Option<u8>)
    ensures
        r == opt_index(c),
{
    match c {
        Some(c) => Some(palette_index(c)),
        None => None,
    }
}

/// The escape sequences `anstyle` writes before and after text with the
/// given palette colors and effects.
pub uninterp spec fn ansi_escapes(
    fg: Option<u8>,
    bg: Option<u8>,
    bold: bool,
    dimmed: bool,
    italic: bool,
    underline: bool,
) -> (Seq<char>, Seq<char>);

/// Escape sequences of a library style.
pub open spec fn escapes_of(style: Style) -> (Seq<char>, Seq<char>) {
    ansi_escapes(
        opt_index(style.fg),
        opt_index(style.bg),
        style.bold,
        style.dimmed,
        style.italic,
        style.underline,
    )
}

/// `anstyle::Style::render` and `render_reset` for a style built from
/// 4-bit palette colors and effects: the sequence that switches to the
/// style and the one that resets it; the pair is named `ansi_escapes`.
#[verifier::external_body]
fn anstyle_escapes(
    fg: Option<u8>,
    bg: Option<u8>,
    bold: bool,
    dimmed: bool,
    italic: bool,
    underline: bool,
) -> (r: (String, String))
    requires
        fg matches Some(i) ==> i < 16,
        bg matches Some(i) ==> i < 16,
    ensures
        (r.0@, r.1@) == ansi_escapes(fg, bg, bold, dimmed, italic, underline),
{
    let fg = fg.map(anstyle::Ansi256Color).and_then(anstyle::Ansi256Color::into_ansi);
    let bg = bg.map(anstyle::Ansi256Color).and_then(anstyle::Ansi256Color::into_ansi);
    let e = anstyle::Effects::new().set(anstyle::Effects::BOLD, bold);
    let e = e.set(anstyle::Effects::DIMMED, dimmed).set(anstyle::Effects::ITALIC, italic);
    let e = e.set(anstyle::Effects::UNDERLINE, underline);
    let s = anstyle::Style::new().fg_color(fg.map(anstyle::Color::Ansi));
    let s = s.bg_color(bg.map(anstyle::Color::Ansi)).effects(e);
    (s.render().to_string(), s.render_reset().to_string())
}

/// The escape sequences of a style.
pub fn style_escapes(style: Style) -> (r: (String, String))
    ensures
        (r.0@, r.1@) == escapes_of(style),
{
    let fg = opt_palette_index(style.fg);
    let bg = opt_palette_index(style.bg);
    anstyle_escapes(fg, bg, style.bold, style.dimmed, style.italic, style.underline)
}

} // verus!

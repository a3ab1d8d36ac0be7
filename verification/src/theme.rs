//! The styles status output uses.
use crate::text::style::{AnsiColor, Style};
use vstd::prelude::*;

verus! {

/// Success messages and symbols: green.
pub fn success() -> (r: Style)
    ensures
        r == Style::plain().with_fg(AnsiColor::Green),
{
    Style::new().fg_color(AnsiColor::Green)
}

/// Error messages and symbols: red.
pub fn error() -> (r: Style)
    ensures
        r == Style::plain().with_fg(AnsiColor::Red),
{
    Style::new().fg_color(AnsiColor::Red)
}

/// Informational messages: cyan.
pub fn info() -> (r: Style)
    ensures
        r == Style::plain().with_fg(AnsiColor::Cyan),
{
    Style::new().fg_color(AnsiColor::Cyan)
}

/// Secondary text: dimmed.
pub fn dim() -> (r: Style)
    ensures
        r == Style::plain().with_dimmed(),
{
    Style::new().dimmed()
}

/// Hints: dimmed.
pub fn hint() -> (r: Style)
    ensures
        r == Style::plain().with_dimmed(),
{
    Style::new().dimmed()
}

/// Field labels: dimmed.
pub fn label() -> (r: Style)
    ensures
        r == Style::plain().with_dimmed(),
{
    Style::new().dimmed()
}

/// Field values: plain.
pub fn value() -> (r: Style)
    ensures
        r == Style::plain(),
{
    Style::new()
}

} // verus!

verus! {

/// Warnings: yellow.
pub fn warning() -> (r: crate::text::style::Style)
    ensures
        r == crate::text::style::Style::plain().with_fg(crate::text::style::AnsiColor::Yellow),
{
    crate::text::style::Style::new().fg_color(crate::text::style::AnsiColor::Yellow)
}

} // verus!

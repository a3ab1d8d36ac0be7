//! Output format selection and human-readable durations.
use crate::strs::{dec, push_dec, string_of};
use vstd::prelude::*;

verus! {

/// Output format.
#[derive(Debug, Clone, Copy, PartialEq, Eq, Structural)]
pub enum Format {
    /// Plain text
    Text,
    /// JSON
    Json,
}

impl Default for Format {
    fn default() -> (r: Self)
        ensures
            r == Format::Text,
    {
        Format::Text
    }
}

impl Format {
    /// The format's name as given on the command line.
    pub fn as_str(&self) -> (r: &'static str)
        ensures
            r@ == (match *self {
                Format::Text => "text"@,
                Format::Json => "json"@,
            }),
    {
        match self {
            Format::Text => "text",
            Format::Json => "json",
        }
    }
}

/// The duration text for a number of seconds: `"{d}d {h}h"` from a day up,
/// `"{h}h {m}m"` from an hour up, otherwise `"{m}m"` with at least one
/// minute (also for zero or negative durations).
pub open spec fn duration_text(total_secs: int) -> Seq<char> {
    if total_secs >= 86400 {
        let d = (total_secs / 86400) as nat;
        let h = ((total_secs % 86400) / 3600) as nat;
        dec(d) + seq!['d', ' '] + dec(h) + seq!['h']
    } else if total_secs >= 3600 {
        let h = (total_secs / 3600) as nat;
        let m = ((total_secs % 3600) / 60) as nat;
        dec(h) + seq!['h', ' '] + dec(m) + seq!['m']
    } else {
        let m = if total_secs >= 60 {
            (total_secs / 60) as nat
        } else {
            1nat
        };
        dec(m) + seq!['m']
    }
}

/// Formats seconds into a human-readable duration (e.g. `2d 3h`).
pub fn format_duration(total_secs: i64) -> (r: String)
    ensures
        r@ == duration_text(total_secs as int),
{
    let mut v: Vec<char> = Vec::new();
    if total_secs >= 86400 {
        let t = total_secs as u64;
        push_dec(&mut v, t / 86400);
        v.push('d');
        v.push(' ');
        push_dec(&mut v, (t % 86400) / 3600);
        v.push('h');
    } else if total_secs >= 3600 {
        let t = total_secs as u64;
        push_dec(&mut v, t / 3600);
        v.push('h');
        v.push(' ');
        push_dec(&mut v, (t % 3600) / 60);
        v.push('m');
    } else {
        let m: u64 = if total_secs >= 60 {
            (total_secs as u64) / 60
        } else {
            1
        };
        push_dec(&mut v, m);
        v.push('m');
    }
    assert(v@ =~= duration_text(total_secs as int));
    string_of(v.as_slice())
}

} // verus!

verus! {

/// When an output keeps ANSI styling, as `anstream` names the settings.
#[derive(Debug, Clone, Copy, PartialEq, Eq)]
pub enum ColorChoice {
    /// Styling only on a terminal; a byte buffer is no terminal, so a
    /// caller writing to one resolves this first.
    Auto,
    AlwaysAnsi,
    Always,
    Never,
}

pub open spec fn keeps_ansi(c: ColorChoice) -> bool {
    c is AlwaysAnsi || c is Always
}

/// The bytes an output stream passes on: all of them when it keeps
/// styling, else what stripping the ANSI sequences leaves.
pub open spec fn emitted(keep: bool, chars: Seq<char>) -> Seq<u8> {
    if keep {
        vstd::utf8::encode_utf8(chars)
    } else {
        crate::text::ansi_stripped(vstd::utf8::encode_utf8(chars))
    }
}

/// A status line: the symbol and the message in one style, a space between.
pub open spec fn status_line(symbol: Seq<char>, msg: Seq<char>, style: crate::text::style::Style) -> Seq<char> {
    crate::text::span::styled_chars(symbol, Some(style), true) + " "@ + crate::text::span::styled_chars(
        msg,
        Some(style),
        true,
    ) + "\n"@
}

/// Where status messages go and in which format.
#[derive(Debug, Clone, Copy)]
pub struct Output {
    pub format: Format,
    pub color: ColorChoice,
}

fn emit(keep: bool, out: &mut Vec<u8>, chars: &[char])
    ensures
        final(out)@ == old(out)@ + emitted(keep, chars@),
{
    let mut ctx = crate::text::RenderContext::new(true);
    ctx.write_chars(chars);
    if keep {
        append_bytes(out, ctx.out.as_slice());
    } else {
        let stripped = crate::text::strip_ansi(ctx.out.as_slice());
        append_bytes(out, stripped.as_slice());
    }
}

fn append_bytes(out: &mut Vec<u8>, bytes: &[u8])
    ensures
        final(out)@ == old(out)@ + bytes@,
{
    let ghost start = out@;
    let mut i: usize = 0;
    while i < bytes.len()
        invariant
            i <= bytes@.len(),
            out@ == start + bytes@.take(i as int),
        decreases bytes@.len() - i,
    {
        out.push(bytes[i]);
        assert(out@ =~= start + bytes@.take(i + 1));
        i = i + 1;
    }
    assert(bytes@.take(bytes@.len() as int) =~= bytes@);
}

fn status_chars(symbol: &str, msg: &str, style: crate::text::style::Style) -> (r: Vec<char>)
    ensures
        r@ == status_line(symbol@, msg@, style),
{
    let mut v = crate::text::span::styled_to_chars(symbol, Some(style), true);
    crate::strs::push_str(&mut v, " ");
    let m = crate::text::span::styled_to_chars(msg, Some(style), true);
    crate::strs::push_all(&mut v, m.as_slice());
    crate::strs::push_str(&mut v, "\n");
    v
}

fn line_of(msg: &str) -> (r: Vec<char>)
    ensures
        r@ == msg@ + "\n"@,
{
    let mut v = crate::strs::chars_of(msg);
    crate::strs::push_str(&mut v, "\n");
    v
}

/// The JSON form of an error: `{"error": msg}` pretty-printed.
pub open spec fn error_json(msg: Seq<char>) -> Seq<char> {
    "{\n  \"error\": "@ + crate::relay::json_string_literal(msg) + "\n}\n"@
}

impl Output {
    pub fn new(format: Format, color: ColorChoice) -> (r: Self)
        ensures
            r.format == format,
            r.color == color,
    {
        Output { format, color }
    }

    fn keep(&self) -> (r: bool)
        ensures
            r == keeps_ansi(self.color),
    {
        match self.color {
            ColorChoice::AlwaysAnsi | ColorChoice::Always => true,
            _ => false,
        }
    }

    /// A view as text, or its JSON (already pretty-printed) with a newline.
    pub fn present_to<T: crate::text::Render>(&self, out: &mut Vec<u8>, text: &T, json: &str) -> (r: Result<
        (),
        crate::text::RenderError,
    >)
        ensures
            r is Ok <==> (self.format is Json || !text.fails()),
            r is Err ==> final(out)@ == old(out)@,
            r is Ok ==> final(out)@ == old(out)@ + match self.format {
                Format::Text => if keeps_ansi(self.color) {
                    text.rendered(true)
                } else {
                    crate::text::ansi_stripped(text.rendered(true))
                },
                Format::Json => emitted(keeps_ansi(self.color), json@ + "\n"@),
            },
    {
        match self.format {
            Format::Text => {
                let mut ctx = crate::text::RenderContext::new(true);
                let res = text.render(&mut ctx);
                match res {
                    Err(e) => Err(e),
                    Ok(()) => {
                        assert(ctx.out@ =~= text.rendered(true));
                        if self.keep() {
                            append_bytes(out, ctx.out.as_slice());
                        } else {
                            let stripped = crate::text::strip_ansi(ctx.out.as_slice());
                            append_bytes(out, stripped.as_slice());
                        }
                        Ok(())
                    },
                }
            },
            Format::Json => {
                let v = line_of(json);
                emit(self.keep(), out, v.as_slice());
                Ok(())
            },
        }
    }

    /// A success: `✓ msg` in green as text, the bare message as JSON.
    pub fn success_to(&self, out: &mut Vec<u8>, msg: &str) -> (r: Result<(), crate::text::RenderError>)
        ensures
            r is Ok,
            final(out)@ == old(out)@ + emitted(
                keeps_ansi(self.color),
                match self.format {
                    Format::Text => status_line(crate::auth::SUCCESS@, msg@, crate::text::style::Style::plain().with_fg(crate::text::style::AnsiColor::Green)),
                    Format::Json => msg@ + "\n"@,
                },
            ),
    {
        let v = match self.format {
            Format::Text => status_chars(crate::auth::SUCCESS, msg, crate::theme::success()),
            Format::Json => line_of(msg),
        };
        emit(self.keep(), out, v.as_slice());
        Ok(())
    }

    /// An informational message: `→ msg` in cyan as text, the bare message
    /// as JSON.
    pub fn info_to(&self, out: &mut Vec<u8>, msg: &str) -> (r: Result<(), crate::text::RenderError>)
        ensures
            r is Ok,
            final(out)@ == old(out)@ + emitted(
                keeps_ansi(self.color),
                match self.format {
                    Format::Text => status_line(crate::auth::INFO@, msg@, crate::text::style::Style::plain().with_fg(crate::text::style::AnsiColor::Cyan)),
                    Format::Json => msg@ + "\n"@,
                },
            ),
    {
        let v = match self.format {
            Format::Text => status_chars(crate::auth::INFO, msg, crate::theme::info()),
            Format::Json => line_of(msg),
        };
        emit(self.keep(), out, v.as_slice());
        Ok(())
    }

    /// An error: `✗ msg` in red as text, `{"error": msg}` as JSON.
    pub fn error_to(&self, out: &mut Vec<u8>, msg: &str) -> (r: Result<(), crate::text::RenderError>)
        ensures
            r is Ok,
            final(out)@ == old(out)@ + emitted(
                keeps_ansi(self.color),
                match self.format {
                    Format::Text => status_line(crate::auth::ERROR@, msg@, crate::text::style::Style::plain().with_fg(crate::text::style::AnsiColor::Red)),
                    Format::Json => error_json(msg@),
                },
            ),
    {
        let v = match self.format {
            Format::Text => status_chars(crate::auth::ERROR, msg, crate::theme::error()),
            Format::Json => {
                let mut v: Vec<char> = Vec::new();
                crate::strs::push_str(&mut v, "{\n  \"error\": ");
                let q = crate::relay::json_string(msg);
                crate::strs::push_str(&mut v, q.as_str());
                crate::strs::push_str(&mut v, "\n}\n");
                v
            },
        };
        emit(self.keep(), out, v.as_slice());
        Ok(())
    }

    /// A hint: the message dimmed and indented by two spaces as text;
    /// nothing as JSON.
    pub fn hint_to(&self, out: &mut Vec<u8>, msg: &str) -> (r: Result<(), crate::text::RenderError>)
        ensures
            r is Ok,
            self.format is Json ==> final(out)@ == old(out)@,
            self.format is Text ==> final(out)@ == old(out)@ + emitted(
                keeps_ansi(self.color),
                "  "@ + crate::text::span::styled_chars(msg@, Some(crate::text::style::Style::plain().with_dimmed()), true) + "\n"@,
            ),
    {
        match self.format {
            Format::Text => {
                let mut v: Vec<char> = Vec::new();
                crate::strs::push_str(&mut v, "  ");
                let m = crate::text::span::styled_to_chars(msg, Some(crate::theme::hint()), true);
                crate::strs::push_all(&mut v, m.as_slice());
                crate::strs::push_str(&mut v, "\n");
                emit(self.keep(), out, v.as_slice());
            },
            Format::Json => {},
        }
        Ok(())
    }
}

} // verus!

//! Terminal text building blocks: styled spans, lines, text blocks, aligned
//! fields, bordered tables and stacks of renderables.
//!
//! Rendering writes UTF-8 bytes into a [`RenderContext`]; the caller copies
//! them to the terminal.
pub mod fields;
pub mod line;
pub mod span;
pub mod stack;
pub mod style;
pub mod table;
pub mod text;

pub use fields::{Field, Fields};
pub use line::Line;
pub use span::Span;
pub use stack::Stack;
pub use style::{AnsiColor, Style};
pub use table::{Table, TableRow};
pub use text::Text;

use crate::strs::string_of;
use vstd::prelude::*;
use vstd::string::*;
use vstd::utf8::*;

verus! {

/// Failure while rendering.
#[derive(Debug, Clone, PartialEq, Eq)]
pub enum RenderError {
    /// A renderable reported a failure of its own.
    Failed(String),
    /// The rendered bytes are not valid UTF-8 once styling is stripped.
    InvalidUtf8,
}

/// The destination of a rendering: the bytes written so far and whether
/// ANSI styling is emitted.
pub struct RenderContext {
    pub out: Vec<u8>,
    pub color: bool,
}

/// UTF-8 encoding distributes over concatenation.
pub proof fn lemma_encode_concat(a: Seq<char>, b: Seq<char>)
    ensures
        encode_utf8(a + b) == encode_utf8(a) + encode_utf8(b),
    decreases a.len(),
{
    if a.len() == 0 {
        assert(a + b =~= b);
    } else {
        assert((a + b).drop_first() =~= a.drop_first() + b);
        assert((a + b)[0] == a[0]);
        lemma_encode_concat(a.drop_first(), b);
    }
}

impl RenderContext {
    pub fn new(color: bool) -> (r: Self)
        ensures
            r.out@ == Seq::<u8>::empty(),
            r.color == color,
    {
        RenderContext { out: Vec::new(), color }
    }

    /// Appends raw bytes.
    pub fn write_bytes(&mut self, bytes: &[u8])
        ensures
            final(self).out@ == old(self).out@ + bytes@,
            final(self).color == old(self).color,
    {
        let ghost start = self.out@;
        let mut i: usize = 0;
        while i < bytes.len()
            invariant
                i <= bytes@.len(),
                self.out@ == start + bytes@.subrange(0, i as int),
                self.color == old(self).color,
            decreases bytes@.len() - i,
        {
            self.out.push(bytes[i]);
            assert(self.out@ =~= start + bytes@.subrange(0, i + 1));
            i = i + 1;
        }
        assert(bytes@.subrange(0, bytes@.len() as int) =~= bytes@);
    }

    /// Appends the UTF-8 encoding of a string slice.
    pub fn write_str(&mut self, s: &str)
        ensures
            final(self).out@ == old(self).out@ + encode_utf8(s@),
            final(self).color == old(self).color,
    {
        let b = s.as_bytes();
        self.write_bytes(b);
    }

    /// Appends the UTF-8 encoding of a character sequence.
    pub fn write_chars(&mut self, s: &[char])
        ensures
            final(self).out@ == old(self).out@ + encode_utf8(s@),
            final(self).color == old(self).color,
    {
        let st = string_of(s);
        self.write_str(st.as_str());
    }
}

/// Something that can be written to a [`RenderContext`]: a rendering
/// fails exactly when the renderable reports a failure of its own (the
/// context is an in-memory buffer, so writing never fails); otherwise it
/// appends exactly the renderable's bytes.
pub trait Render {
    /// The bytes one rendering appends, given the context's color setting.
    spec fn rendered(&self, color: bool) -> Seq<u8>;

    /// Whether rendering reports a failure.
    spec fn fails(&self) -> bool;

    fn render(&self, ctx: &mut RenderContext) -> (r: Result<(), RenderError>)
        ensures
            r is Ok <==> !self.fails(),
            final(ctx).color == old(ctx).color,
            !self.fails() ==> final(ctx).out@ == old(ctx).out@ + self.rendered(old(ctx).color),
    ;
}

/// What `anstream`'s ANSI stripping keeps of the given bytes.
pub uninterp spec fn ansi_stripped(bytes: Seq<u8>) -> Seq<u8>;

/// Bytes that ANSI stripping passes through unchanged: printable ASCII
/// (space to `~`) and the ASCII whitespace controls (tab, line feed, form
/// feed, carriage return).
pub open spec fn plain_ascii(bytes: Seq<u8>) -> bool {
    forall|i: int|
        0 <= i < bytes.len() ==> ((0x20 <= #[trigger] bytes[i] && bytes[i] <= 0x7e) || bytes[i] == 9
            || bytes[i] == 10 || bytes[i] == 12 || bytes[i] == 13)
}

/// Plain ASCII bytes are valid UTF-8.
proof fn lemma_plain_ascii_valid(b: Seq<u8>)
    requires
        plain_ascii(b),
    ensures
        valid_utf8(b),
{
    assert(b.subrange(0, 0) =~= Seq::<u8>::empty());
    assert(vstd::utf8::partial_valid_utf8(b, 0));
    assert forall|i: int| 0 <= 0 <= i < b.len() <= b.len() implies #[trigger]
        vstd::utf8::is_leading_byte_width_1(b[i]) by {
        assert((0x20 <= b[i] && b[i] <= 0x7e) || b[i] == 9 || b[i] == 10 || b[i] == 12 || b[i]
            == 13);
    }
    vstd::utf8::partial_valid_utf8_extend_ascii_block(b, 0, b.len() as int);
    assert(b.subrange(0, b.len() as int) =~= b);
}

/// Text that ANSI stripping passes through unchanged: valid UTF-8 whose
/// ASCII bytes are printable or whitespace controls (its other characters,
/// of two to four bytes, are kept whole).
pub open spec fn plain_text(bytes: Seq<u8>) -> bool {
    &&& valid_utf8(bytes)
    &&& forall|i: int|
        0 <= i < bytes.len() ==> (0x80 <= #[trigger] bytes[i] || (0x20 <= bytes[i] && bytes[i]
            <= 0x7e) || bytes[i] == 9 || bytes[i] == 10 || bytes[i] == 12 || bytes[i] == 13)
}

/// Plain ASCII is plain text.
pub proof fn lemma_plain_ascii_text(b: Seq<u8>)
    requires
        plain_ascii(b),
    ensures
        plain_text(b),
{
    lemma_plain_ascii_valid(b);
    assert forall|i: int| 0 <= i < b.len() implies (0x80 <= #[trigger] b[i] || (0x20 <= b[i]
        && b[i] <= 0x7e) || b[i] == 9 || b[i] == 10 || b[i] == 12 || b[i] == 13) by {
        assert((0x20 <= b[i] && b[i] <= 0x7e) || b[i] == 9 || b[i] == 10 || b[i] == 12 || b[i]
            == 13);
    }
}

/// `anstream::adapter::strip_bytes(..).into_vec()`: removes ANSI escape
/// sequences and keeps the printable bytes; the result is named
/// `ansi_stripped` of the input. Plain text comes back as it is: from the
/// ground state its ASCII bytes are printed (or executed whitespace), which
/// the stripper keeps without leaving that state, and each leading byte of
/// a longer character begins a UTF-8 sequence, whose bytes the stripper
/// keeps until the character is complete and the ground state returns.
#[verifier::external_body]
pub(crate) fn strip_ansi(bytes: &[u8]) -> (r: Vec<u8>)
    ensures
        r@ == ansi_stripped(bytes@),
        plain_text(bytes@) ==> r@ == bytes@,
{
    anstream::adapter::strip_bytes(bytes).into_vec()
}

/// `String::from_utf8` from std: succeeds exactly on valid UTF-8, and the
/// string's characters are then the decoded bytes.
#[verifier::external_body]
fn utf8_to_string(bytes: Vec<u8>) -> (r: Option<String>)
    ensures
        r is Some <==> valid_utf8(bytes@),
        r matches Some(s) ==> s@ == decode_utf8(bytes@),
{
    String::from_utf8(bytes).ok()
}

/// Plain-text view of a renderable: renders without color and strips any
/// ANSI styling the renderable wrote itself.
pub struct RenderDisplay<T> {
    pub inner: T,
}

impl<T: Render> RenderDisplay<T> {
    pub fn new(renderable: T) -> (r: Self)
        ensures
            r.inner == renderable,
    {
        RenderDisplay { inner: renderable }
    }

    /// The plain text of the rendering.
    pub fn to_string(&self) -> (r: Result<String, RenderError>)
        ensures
            r is Ok <==> !self.inner.fails() && valid_utf8(ansi_stripped(self.inner.rendered(false))),
            r matches Ok(s) ==> s@ == decode_utf8(ansi_stripped(self.inner.rendered(false))),
            self.inner.fails() ==> r matches Err(RenderError::Failed(_)),
            !self.inner.fails() && r is Err ==> r == Err::<String, RenderError>(RenderError::InvalidUtf8),
            !self.inner.fails() && plain_text(self.inner.rendered(false)) ==> (r matches Ok(s)
                && s@ == decode_utf8(self.inner.rendered(false))),
    {
        let mut ctx = RenderContext::new(false);
        let res = self.inner.render(&mut ctx);
        match res {
            Err(e) => {
                match e {
                    RenderError::Failed(m) => Err(RenderError::Failed(m)),
                    RenderError::InvalidUtf8 => Err(RenderError::Failed(String::new())),
                }
            },
            Ok(()) => {
                assert(ctx.out@ =~= self.inner.rendered(false));
                let stripped = strip_ansi(ctx.out.as_slice());
                match utf8_to_string(stripped) {
                    Some(s) => Ok(s),
                    None => Err(RenderError::InvalidUtf8),
                }
            },
        }
    }
}

/// A renderable that reports a failure when rendered, with its message:
/// what a view whose content could not be produced stands as.
pub struct Failing {
    pub message: String,
}

impl Failing {
    pub fn new(message: String) -> (r: Self)
        ensures
            r.message == message,
    {
        Failing { message }
    }
}

impl Render for Failing {
    open spec fn rendered(&self, color: bool) -> Seq<u8> {
        Seq::empty()
    }

    open spec fn fails(&self) -> bool {
        true
    }

    fn render(&self, ctx: &mut RenderContext) -> (r: Result<(), RenderError>) {
        Err(RenderError::Failed(self.message.clone()))
    }
}

/// Bytes rendered exactly as given (already styled output, for instance).
pub struct Raw {
    pub bytes: Vec<u8>,
}

impl Raw {
    pub fn new(bytes: &[u8]) -> (r: Self)
        ensures
            r.bytes@ == bytes@,
    {
        let mut ctx = RenderContext::new(false);
        ctx.write_bytes(bytes);
        Raw { bytes: ctx.out }
    }
}

impl Render for Raw {
    open spec fn fails(&self) -> bool {
        false
    }

    open spec fn rendered(&self, color: bool) -> Seq<u8> {
        self.bytes@
    }

    fn render(&self, ctx: &mut RenderContext) -> (r: Result<(), RenderError>) {
        ctx.write_bytes(self.bytes.as_slice());
        Ok(())
    }
}

/// Plain-text display of any renderable.
pub trait RenderExt: Render + Sized {
    fn display(self) -> (r: RenderDisplay<Self>)
        ensures
            r.inner == self,
    {
        RenderDisplay::new(self)
    }
}

impl<T: Render> RenderExt for T {

}

/// The plain text of library renderables: their characters with no styling.
pub proof fn lemma_plain_text_roundtrip(chars: Seq<char>)
    ensures
        valid_utf8(encode_utf8(chars)),
        decode_utf8(encode_utf8(chars)) == chars,
{
    encode_utf8_valid_utf8(chars);
    encode_utf8_decode_utf8(chars);
}

/// Spaces, `n` of them.
pub open spec fn spaces(n: nat) -> Seq<char> {
    Seq::new(n, |_i: int| ' ')
}

/// `n` copies of `c`.
pub open spec fn repeat_char(c: char, n: nat) -> Seq<char> {
    Seq::new(n, |_i: int| c)
}

/// Appends `n` copies of `c`.
pub fn push_repeat(v: &mut Vec<char>, c: char, n: usize)
    ensures
        final(v)@ == old(v)@ + repeat_char(c, n as nat),
{
    let ghost v0 = v@;
    let mut i: usize = 0;
    while i < n
        invariant
            i <= n,
            v@ == v0 + repeat_char(c, i as nat),
        decreases n - i,
    {
        v.push(c);
        assert(v@ =~= v0 + repeat_char(c, (i + 1) as nat));
        i = i + 1;
    }
}

/// Appends `n` spaces.
pub fn push_spaces(v: &mut Vec<char>, n: usize)
    ensures
        final(v)@ == old(v)@ + spaces(n as nat),
{
    push_repeat(v, ' ', n);
    assert(repeat_char(' ', n as nat) =~= spaces(n as nat));
}

/// `a - b`, or 0 when `b > a` (`usize::saturating_sub`).
pub open spec fn sat_sub(a: usize, b: usize) -> usize {
    if a >= b {
        (a - b) as usize
    } else {
        0
    }
}

/// `a + b`, or `usize::MAX` on overflow (`usize::saturating_add`).
pub open spec fn sat_add(a: usize, b: usize) -> usize {
    if a + b <= usize::MAX {
        (a + b) as usize
    } else {
        usize::MAX
    }
}

pub fn saturating_sub(a: usize, b: usize) -> (r: usize)
    ensures
        r == sat_sub(a, b),
{
    if a >= b {
        a - b
    } else {
        0
    }
}

pub fn saturating_add(a: usize, b: usize) -> (r: usize)
    ensures
        r == sat_add(a, b),
{
    if a <= usize::MAX - b {
        a + b
    } else {
        usize::MAX
    }
}

} // verus!

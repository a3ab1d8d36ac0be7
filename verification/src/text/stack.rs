//! A vertical stack of renderables of any kind.
use super::{Render, RenderContext, RenderError};
use vstd::prelude::*;

verus! {

/// One child of a stack, taken when it was added: what it renders with and
/// without styling (for a failing child, what it wrote before failing), and
/// the failure it reports, if any.
#[derive(Debug)]
pub struct StackChild {
    pub plain: Vec<u8>,
    pub styled: Vec<u8>,
    pub failure: Option<RenderError>,
}

/// The bytes a child writes, given the context's color setting.
pub open spec fn child_bytes(c: StackChild, color: bool) -> Seq<u8> {
    if color {
        c.styled@
    } else {
        c.plain@
    }
}

/// A child holds what the renderable renders: it fails exactly when the
/// renderable does, and otherwise writes the renderable's bytes for either
/// color setting.
pub open spec fn holds<R: Render>(c: StackChild, x: R) -> bool {
    &&& (c.failure is Some <==> x.fails())
    &&& !x.fails() ==> (forall|color: bool| #[trigger] child_bytes(c, color) == x.rendered(color))
}

/// What the children render, one after another.
pub open spec fn children_rendered(children: Seq<StackChild>, color: bool) -> Seq<u8>
    decreases children.len(),
{
    if children.len() == 0 {
        Seq::empty()
    } else {
        children_rendered(children.drop_last(), color) + child_bytes(children.last(), color)
    }
}

/// Children render one after another: a list of children followed by
/// more renders what the list renders, then what the rest render.
pub proof fn lemma_children_rendered_concat(a: Seq<StackChild>, b: Seq<StackChild>, color: bool)
    ensures
        children_rendered(a + b, color) == children_rendered(a, color) + children_rendered(b, color),
    decreases b.len(),
{
    if b.len() == 0 {
        assert(a + b =~= a);
    } else {
        lemma_children_rendered_concat(a, b.drop_last(), color);
        assert((a + b).drop_last() =~= a + b.drop_last());
        assert((a + b).last() == b.last());
    }
}

/// Renders its children in order, stopping at the first failure.
pub struct Stack {
    pub children: Vec<StackChild>,
}

/// Takes a renderable as a stack child.
fn take_child<R: Render>(x: &R) -> (c: StackChild)
    ensures
        holds(c, *x),
{
    let mut plain = RenderContext::new(false);
    match x.render(&mut plain) {
        Err(e) => {
            let mut styled = RenderContext::new(true);
            let _ = x.render(&mut styled);
            StackChild { plain: plain.out, styled: styled.out, failure: Some(e) }
        },
        Ok(()) => {
            let mut styled = RenderContext::new(true);
            let _ = x.render(&mut styled);
            assert(plain.out@ =~= x.rendered(false));
            assert(styled.out@ =~= x.rendered(true));
            let c = StackChild { plain: plain.out, styled: styled.out, failure: None };
            assert forall|color: bool| #[trigger] child_bytes(c, color) == x.rendered(color) by {}
            c
        },
    }
}

impl Stack {
    pub fn new() -> (r: Self)
        ensures
            r.children@.len() == 0,
    {
        Stack { children: Vec::new() }
    }

    /// Adds one child at the end; the children before it stay as they
    /// were, and the new one renders what `child` renders.
    pub fn child<R: Render + 'static>(self, child: R) -> (r: Self)
        ensures
            r.children@.len() == self.children@.len() + 1,
            r.children@.take(self.children@.len() as int) == self.children@,
            holds(r.children@.last(), child),
    {
        let mut children = self.children;
        children.push(take_child(&child));
        Stack { children }
    }

    /// Adds the given children at the end, in order; the children before
    /// them stay as they were, and each new one renders what the
    /// corresponding given renderable renders.
    pub fn children<R: Render + 'static>(self, more: Vec<R>) -> (r: Self)
        ensures
            r.children@.len() == self.children@.len() + more@.len(),
            r.children@.take(self.children@.len() as int) == self.children@,
            forall|i: int|
                0 <= i < more@.len() ==> holds(#[trigger] r.children@[self.children@.len() + i], more@[i]),
    {
        let ghost first = self.children@;
        let mut children = self.children;
        let mut k: usize = 0;
        while k < more.len()
            invariant
                k <= more@.len(),
                children@.len() == first.len() + k,
                children@.take(first.len() as int) == first,
                forall|i: int| 0 <= i < k ==> holds(#[trigger] children@[first.len() + i], more@[i]),
            decreases more@.len() - k,
        {
            let ghost before = children@;
            children.push(take_child(&more[k]));
            assert(children@.take(first.len() as int) =~= before.take(first.len() as int));
            assert forall|i: int| 0 <= i < k + 1 implies holds(#[trigger] children@[first.len() + i], more@[i]) by {
                if i < k {
                    assert(children@[first.len() + i] == before[first.len() + i]);
                }
            }
            k = k + 1;
        }
        Stack { children }
    }
}

impl Render for Stack {
    open spec fn rendered(&self, color: bool) -> Seq<u8> {
        children_rendered(self.children@, color)
    }

    /// A stack fails when one of its children does.
    open spec fn fails(&self) -> bool {
        exists|i: int| 0 <= i < self.children@.len() && (#[trigger] self.children@[i]).failure is Some
    }

    /// A failing stack writes its children up to and including the first
    /// failing one (what that one wrote before it failed), then reports
    /// that child's failure.
    fn render(&self, ctx: &mut RenderContext) -> (r: Result<(), RenderError>)
        ensures
            r is Err ==> exists|i: int|
                0 <= i < self.children@.len() && (#[trigger] self.children@[i]).failure == Some(
                    r->Err_0,
                ) && (forall|j: int| 0 <= j < i ==> (#[trigger] self.children@[j]).failure is None)
                    && final(ctx).out@ == old(ctx).out@ + children_rendered(
                    self.children@.subrange(0, i),
                    old(ctx).color,
                ) + child_bytes(self.children@[i], old(ctx).color),
    {
        let ghost start = ctx.out@;
        let mut i: usize = 0;
        while i < self.children.len()
            invariant
                i <= self.children@.len(),
                ctx.color == old(ctx).color,
                start == old(ctx).out@,
                ctx.out@ == start + children_rendered(self.children@.subrange(0, i as int), ctx.color),
                forall|j: int| 0 <= j < i ==> (#[trigger] self.children@[j]).failure is None,
            decreases self.children@.len() - i,
        {
            let c = &self.children[i];
            match &c.failure {
                Some(e) => {
                    if ctx.color {
                        ctx.write_bytes(c.styled.as_slice());
                    } else {
                        ctx.write_bytes(c.plain.as_slice());
                    }
                    let err = match e {
                        RenderError::Failed(m) => RenderError::Failed(m.clone()),
                        RenderError::InvalidUtf8 => RenderError::InvalidUtf8,
                    };
                    return Err(err);
                },
                None => {},
            }
            if ctx.color {
                ctx.write_bytes(c.styled.as_slice());
            } else {
                ctx.write_bytes(c.plain.as_slice());
            }
            assert(self.children@.subrange(0, i + 1).drop_last() =~= self.children@.subrange(0, i as int));
            i = i + 1;
        }
        assert(self.children@.subrange(0, self.children@.len() as int) =~= self.children@);
        Ok(())
    }
}

} // verus!

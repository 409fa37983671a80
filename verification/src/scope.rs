//! The LIFO discipline of the ambient-context slot.
//!
//! An execution unit carries one ambient trace context at a time.  Attaching
//! a context saves the previous one; releasing the most recent attachment
//! restores it.  Contexts themselves are opaque to this model, which tracks
//! their identities only; the stack below states the discipline that a scope
//! guard enforces: attachments nest, and each release restores exactly the
//! context that was current before the matching attach.

use vstd::prelude::*;

verus! {

/// The current context of a stack of attachments: the most recent attachment
/// still live, or nothing when no attachment is live.
pub open spec fn current_of(frames: Seq<u64>) -> Option<u64> {
    if frames.len() == 0 {
        None
    } else {
        Some(frames.last())
    }
}

/// Model of one execution unit's ambient-context slot: the stack of live
/// attachments, innermost last.  Context values are carried as opaque
/// identifiers.
pub struct ContextStack {
    frames: Vec<u64>,
}

impl ContextStack {
    /// The stack of live attachments, outermost first.
    pub closed spec fn view(&self) -> Seq<u64> {
        self.frames@
    }

    /// The context currently observable as ambient.
    pub open spec fn spec_current(&self) -> Option<u64> {
        current_of(self.view())
    }

    /// A fresh execution unit: no attachment is live and no context is
    /// ambient.
    pub fn new() -> (r: ContextStack)
        ensures
            r.view() == Seq::<u64>::empty(),
            r.spec_current() is None,
    {
        ContextStack { frames: Vec::new() }
    }

    /// Read the ambient context, without changing the stack.
    pub fn current(&self) -> (r: Option<u64>)
        ensures
            r == self.spec_current(),
    {
        if self.frames.len() == 0 {
            None
        } else {
            Some(self.frames[self.frames.len() - 1])
        }
    }

    /// Attach a context: it becomes ambient, and the previously current
    /// context is saved underneath it.
    pub fn attach(&mut self, cx: u64)
        ensures
            final(self).view() == old(self).view().push(cx),
            final(self).spec_current() == Some(cx),
    {
        self.frames.push(cx);
    }

    /// Release the most recent attachment: the context that was ambient
    /// before the matching attach becomes current again.  Exactly one
    /// release corresponds to each attach, so the stack is never empty here.
    pub fn detach(&mut self) -> (r: u64)
        requires
            old(self).view().len() > 0,
        ensures
            final(self).view() == old(self).view().drop_last(),
            Some(r) == old(self).spec_current(),
            final(self).spec_current() == current_of(old(self).view().drop_last()),
    {
        let r = self.frames.pop().unwrap();
        r
    }
}

/// Attach/release pairs nest in strict LIFO order: after attaching `a` and
/// then `b`, releasing the inner attachment makes `a` ambient again, and
/// releasing the outer one restores whatever was ambient before `a` was
/// attached, including nothing at all.
pub proof fn lemma_guard_lifo_restore(frames: Seq<u64>, a: u64, b: u64)
    ensures
        current_of(frames.push(a).push(b)) == Some(b),
        current_of(frames.push(a).push(b).drop_last()) == Some(a),
        current_of(frames.push(a).push(b).drop_last().drop_last()) == current_of(frames),
{
    assert(frames.push(a).push(b).drop_last() =~= frames.push(a));
    assert(frames.push(a).drop_last() =~= frames);
}

} // verus!

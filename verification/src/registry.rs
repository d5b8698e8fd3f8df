//! The context handle manager.
//!
//! The boundary never hands a raw address to the foreign caller: it keeps
//! every context in a slot table and exposes the slot's position, plus one,
//! as the handle.  Handle `0` is the null handle, always dead; a destroyed
//! slot stays in the table as `None`, so a stale handle is distinguishable
//! from a live one and every operation on it resolves to its failure
//! sentinel instead of undefined behavior.
//!
//! The spec model of the table is its sequence of slots; the `after_*`
//! functions say how each mutating operation transforms that sequence.
use vstd::prelude::*;

use crate::context::Context;

verus! {

/// Whether handle `h` refers to a live context in slot table `s`.
/// The null handle `0` is never live, nor is a handle past the table
/// or one whose slot was destroyed.
pub open spec fn live_at(s: Seq<Option<Context>>, h: usize) -> bool {
    1 <= h && h <= s.len() && s[h - 1] is Some
}

/// The context handle `h` refers to (meaningful only when `live_at`).
pub open spec fn ctx_at(s: Seq<Option<Context>>, h: usize) -> Context {
    s[h - 1]->0
}

/// The slot table after destroying handle `h`: the slot is vacated if it
/// was live, and nothing changes otherwise (destroying the null handle or
/// an already-dead handle is a no-op).
pub open spec fn after_destroy(s: Seq<Option<Context>>, h: usize) -> Seq<Option<Context>> {
    if live_at(s, h) {
        s.update(h - 1, None)
    } else {
        s
    }
}

/// The slot table after resetting the execution counter of handle `h`.
pub open spec fn after_reset(s: Seq<Option<Context>>, h: usize) -> Seq<Option<Context>> {
    if live_at(s, h) {
        s.update(h - 1, Some(Context { exec_count: 0, ..ctx_at(s, h) }))
    } else {
        s
    }
}

/// A context after one successful evaluation: its counter goes up by one,
/// saturating at the machine limit.
pub open spec fn bumped(c: Context) -> Context {
    Context {
        exec_count: if c.exec_count < usize::MAX {
            (c.exec_count + 1) as usize
        } else {
            c.exec_count
        },
        ..c
    }
}

/// The slot table after a successful evaluation against handle `h`.
pub open spec fn after_eval_success(s: Seq<Option<Context>>, h: usize) -> Seq<Option<Context>> {
    if live_at(s, h) {
        s.update(h - 1, Some(bumped(ctx_at(s, h))))
    } else {
        s
    }
}

/// What the counter-reading operation reports for handle `h`: the counter
/// of a live context, and `0` for a dead or null handle — by design
/// indistinguishable from a genuinely zero count.
pub open spec fn reported_count(s: Seq<Option<Context>>, h: usize) -> usize {
    if live_at(s, h) {
        ctx_at(s, h).exec_count
    } else {
        0
    }
}

/// The handle table.  Slots are never removed, only vacated, so a handle
/// is produced exactly once and never reused after destruction.
pub struct Registry {
    slots: Vec<Option<Context>>,
}

impl View for Registry {
    type V = Seq<Option<Context>>;

    closed spec fn view(&self) -> Seq<Option<Context>> {
        self.slots@
    }
}

impl Registry {
    /// An empty table: no handle is live.
    pub fn new() -> (r: Registry)
        ensures
            r@ == Seq::<Option<Context>>::empty(),
    {
        Registry { slots: Vec::new() }
    }

    /// Installs a fresh context and hands out its handle, which is
    /// non-null, live, and new: every previously issued handle keeps
    /// its slot.
    pub fn install(&mut self, ctx: Context) -> (h: usize)
        ensures
            final(self)@ == old(self)@.push(Some(ctx)),
            h == final(self)@.len(),
            1 <= h,
            live_at(final(self)@, h),
            ctx_at(final(self)@, h) == ctx,
    {
        self.slots.push(Some(ctx));
        let h = self.slots.len();
        assert(self@[h - 1] is Some);
        h
    }

    /// Vacates the slot of `h`; a no-op on the null handle or on a handle
    /// that is already dead.
    pub fn destroy(&mut self, h: usize)
        ensures
            final(self)@ == after_destroy(old(self)@, h),
            !live_at(final(self)@, h),
    {
        if 1 <= h && h <= self.slots.len() {
            let slot: Option<Context> = self.slots[h - 1];
            if slot.is_some() {
                self.slots.set(h - 1, None);
            }
        }
    }

    /// Whether `h` is a live handle.
    pub fn is_live(&self, h: usize) -> (r: bool)
        ensures
            r == live_at(self@, h),
    {
        if 1 <= h && h <= self.slots.len() {
            let slot: Option<Context> = self.slots[h - 1];
            slot.is_some()
        } else {
            false
        }
    }

    /// The execution counter reported for `h`: zero for a dead or null
    /// handle.
    pub fn count_of(&self, h: usize) -> (r: usize)
        ensures
            r == reported_count(self@, h),
    {
        if 1 <= h && h <= self.slots.len() {
            match self.slots[h - 1] {
                Some(ctx) => ctx.exec_count,
                None => 0,
            }
        } else {
            0
        }
    }

    /// Sets the execution counter of `h` to zero; a no-op on a dead or
    /// null handle.
    pub fn reset_count(&mut self, h: usize)
        ensures
            final(self)@ == after_reset(old(self)@, h),
    {
        if 1 <= h && h <= self.slots.len() {
            match self.slots[h - 1] {
                Some(ctx) => {
                    self.slots.set(h - 1, Some(Context { exec_count: 0, ..ctx }));
                },
                None => (),
            }
        }
    }

    /// Records one successful evaluation against `h`; a no-op on a dead
    /// or null handle.
    pub fn note_eval_success(&mut self, h: usize)
        ensures
            final(self)@ == after_eval_success(old(self)@, h),
    {
        if 1 <= h && h <= self.slots.len() {
            match self.slots[h - 1] {
                Some(ctx) => {
                    let new_count: usize = if ctx.exec_count < usize::MAX {
                        ctx.exec_count + 1
                    } else {
                        ctx.exec_count
                    };
                    self.slots.set(h - 1, Some(Context { exec_count: new_count, ..ctx }));
                },
                None => (),
            }
        }
    }
}

} // verus!

//! Strong references as values: the `Reference` trait for wrapper types
//! that can take a further reference on their object, and `Ref`, a holder
//! that owns exactly one such reference and gives it back explicitly.

use vstd::prelude::*;
use crate::Handle;
use crate::engine::{unchanged, Engine, ref_added, ref_dropped};

verus! {

/// A wrapper type whose values each hold one strong reference and can take
/// a further, independently owned one on the same object.
pub trait Reference: Handle {
    /// An independent wrapper sharing the same object: the object's count
    /// goes up by one and nothing else in the engine changes.  This aliases
    /// the object; it does not copy it.
    fn reference(&self, eng: &mut Engine) -> (r: Self)
        requires
            old(eng).live(self.raw()),
            old(eng).count(self.raw()) < u32::MAX,
        ensures
            r.raw() == self.raw(),
            ref_added(*old(eng), *final(eng), self.raw()),
    ;
}

/// Holds one strong reference on the object of the wrapper inside; the
/// reference is released by exactly one call of [`Ref::unref`].
pub struct Ref<T> {
    value: T,
}

impl<T> Ref<T> {
    /// The wrapper held inside.
    pub closed spec fn inner(&self) -> T {
        self.value
    }

    pub fn get(&self) -> (t: &T)
        ensures
            *t == self.inner(),
    {
        &self.value
    }

    pub fn get_mut(&mut self) -> (t: &mut T)
        ensures
            *t == old(self).inner(),
            final(self).inner() == *final(t),
    {
        &mut self.value
    }

    /// Hand the wrapper out; the caller takes over the duty to release the
    /// reference it holds.
    pub fn into_inner(self) -> (t: T)
        ensures
            t == self.inner(),
    {
        self.value
    }
}

impl<T: Reference> Ref<T> {
    /// Take a reference on `t`'s object and hold it.
    pub fn new(t: &T, eng: &mut Engine) -> (r: Ref<T>)
        requires
            old(eng).live(t.raw()),
            old(eng).count(t.raw()) < u32::MAX,
        ensures
            r.inner().raw() == t.raw(),
            ref_added(*old(eng), *final(eng), t.raw()),
    {
        Ref { value: t.reference(eng) }
    }

    /// A further holder of the same object, as cloning would give.
    pub fn duplicate(&self, eng: &mut Engine) -> (r: Ref<T>)
        requires
            old(eng).live(self.inner().raw()),
            old(eng).count(self.inner().raw()) < u32::MAX,
        ensures
            r.inner().raw() == self.inner().raw(),
            ref_added(*old(eng), *final(eng), self.inner().raw()),
    {
        Ref { value: self.value.reference(eng) }
    }

    /// Release the one reference this holder owns.
    pub fn unref(self, eng: &mut Engine)
        requires
            old(eng).live(self.inner().raw()),
        ensures
            ref_dropped(*old(eng), *final(eng), self.inner().raw()),
    {
        let h = self.value.handle();
        eng.decref(h);
    }
}

/// Taking a reference and then dropping it leaves the engine exactly as
/// it was: the aliasing operation and its release balance out, slot by
/// slot.  This is the single round trip the balance law below composes.
pub proof fn lemma_reference_round_trip(e0: Engine, e1: Engine, e2: Engine, h: usize)
    requires
        ref_added(e0, e1, h),
        ref_dropped(e1, e2, h),
    ensures
        unchanged(e0, e2),
{
    assert(e2.slots@[h as int] =~= e0.slots@[h as int]);
    assert(e2.slots@ =~= e0.slots@);
}

/// One step of a reference history: taking a reference or dropping one.
#[derive(Clone, Copy, PartialEq, Eq, Structural)]
pub enum RefOp {
    Acquire,
    Release,
}

/// The count an object shows after a history of acquire and release steps,
/// starting from `start`.
pub open spec fn count_after(start: int, ops: Seq<RefOp>) -> int
    decreases ops.len(),
{
    if ops.len() == 0 {
        start
    } else {
        count_after(
            if ops[0] is Acquire {
                start + 1
            } else {
                start - 1
            },
            ops.drop_first(),
        )
    }
}

/// How many steps of a history acquire a reference.
pub open spec fn n_acquires(ops: Seq<RefOp>) -> int
    decreases ops.len(),
{
    if ops.len() == 0 {
        0int
    } else {
        (if ops[0] is Acquire {
            1int
        } else {
            0int
        }) + n_acquires(ops.drop_first())
    }
}

/// How many steps of a history release a reference.
pub open spec fn n_releases(ops: Seq<RefOp>) -> int
    decreases ops.len(),
{
    if ops.len() == 0 {
        0int
    } else {
        (if ops[0] is Release {
            1int
        } else {
            0int
        }) + n_releases(ops.drop_first())
    }
}

/// A history's net effect on a count is acquires minus releases.
pub proof fn lemma_count_after(start: int, ops: Seq<RefOp>)
    ensures
        count_after(start, ops) == start + n_acquires(ops) - n_releases(ops),
    decreases ops.len(),
{
    if ops.len() > 0 {
        if ops[0] is Acquire {
            lemma_count_after(start + 1, ops.drop_first());
        } else {
            lemma_count_after(start - 1, ops.drop_first());
        }
    }
}

/// Reference-count balance: after any history in which every wrapper taken
/// is also dropped — as many releases as acquires — the object's count is
/// exactly what it was before the first wrapper was constructed.  Each
/// acquire step is what [`Reference::reference`] and [`Ref::new`] do to the
/// count, and each release step is what [`Ref::unref`] and the wrappers'
/// own `unref` methods do.
pub proof fn lemma_refcount_balance(start: int, ops: Seq<RefOp>)
    requires
        n_acquires(ops) == n_releases(ops),
    ensures
        count_after(start, ops) == start,
{
    lemma_count_after(start, ops);
}

/// `engines` is a run of the engine under a history of reference steps on
/// `h`: each acquire step is an engine transition of the shape
/// [`Reference::reference`] leaves behind, each release step one of the
/// shape the `unref` methods leave behind.
pub open spec fn ref_history(h: usize, engines: Seq<Engine>, ops: Seq<RefOp>) -> bool {
    &&& engines.len() == ops.len() + 1
    &&& forall|i: int|
        0 <= i < ops.len() ==> if ops[i] is Acquire {
            ref_added(#[trigger] engines[i], engines[i + 1], h)
        } else {
            ref_dropped(engines[i], engines[i + 1], h)
        }
}

/// Over any run of the engine under a reference history, the count moves
/// by exactly acquires minus releases.
pub proof fn lemma_history_count(h: usize, engines: Seq<Engine>, ops: Seq<RefOp>)
    requires
        ref_history(h, engines, ops),
    ensures
        engines.last().count(h) == engines[0].count(h) + n_acquires(ops) - n_releases(ops),
    decreases ops.len(),
{
    if ops.len() == 0 {
        assert(engines.last() == engines[0]);
    } else {
        let tail_engines = engines.drop_first();
        let tail_ops = ops.drop_first();
        assert(ref_history(h, tail_engines, tail_ops)) by {
            assert forall|i: int|
                0 <= i < tail_ops.len() implies if tail_ops[i] is Acquire {
                ref_added(#[trigger] tail_engines[i], tail_engines[i + 1], h)
            } else {
                ref_dropped(tail_engines[i], tail_engines[i + 1], h)
            } by {
                assert(tail_engines[i] == engines[i + 1]);
                assert(tail_engines[i + 1] == engines[i + 2]);
                assert(tail_ops[i] == ops[i + 1]);
            }
        }
        lemma_history_count(h, tail_engines, tail_ops);
        assert(tail_engines.last() == engines.last());
        assert(tail_engines[0] == engines[1]);
    }
}

/// Reference-count balance over the engine itself: after a balanced
/// history of reference and release transitions, the object shows exactly
/// the count it had before the first wrapper was constructed.
pub proof fn lemma_engine_refcount_balance(h: usize, engines: Seq<Engine>, ops: Seq<RefOp>)
    requires
        ref_history(h, engines, ops),
        n_acquires(ops) == n_releases(ops),
    ensures
        engines.last().count(h) == engines[0].count(h),
{
    lemma_history_count(h, engines, ops);
}

} // verus!

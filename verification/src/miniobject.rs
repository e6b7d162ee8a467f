//! Wrapper over a reference-counted mini-object: a buffer, capability set,
//! sample, event or message.  Each wrapper value holds exactly one strong
//! reference, taken when the wrapper is constructed from a borrowed handle
//! and released by exactly one `unref` (or given away whole by `transfer`).

use vstd::prelude::*;
use crate::{Handle, Transfer};
use crate::engine::{
    appended_eqv, content_eqv, ref_added, ref_dropped, clone_content, unchanged, Engine,
    LockMode, NULL_HANDLE,
};
use crate::reference::Reference;

verus! {

/// One strong reference to a mini-object of the engine.
pub struct MiniObject {
    raw: usize,
}

impl Handle for MiniObject {
    closed spec fn raw(&self) -> usize {
        self.raw
    }

    fn handle(&self) -> usize {
        self.raw
    }
}

impl MiniObject {
    /// Wrap a handle whose reference the caller already owns; the count is
    /// not touched.  The null handle gives no wrapper, and no fault.
    pub fn new_from_gst_miniobject(h: usize) -> (r: Option<MiniObject>)
        ensures
            h == NULL_HANDLE ==> r is None,
            h != NULL_HANDLE ==> (r matches Some(m) && m.raw() == h),
    {
        if h != NULL_HANDLE {
            Some(MiniObject { raw: h })
        } else {
            None
        }
    }

    /// Wrap a handle the caller does not own: take a fresh reference on it.
    /// The null handle gives no wrapper, no fault, and no engine change.
    pub fn from_borrowed(eng: &mut Engine, h: usize) -> (r: Option<MiniObject>)
        requires
            h == NULL_HANDLE || (old(eng).live(h) && old(eng).count(h) < u32::MAX),
        ensures
            h == NULL_HANDLE ==> r is None && *final(eng) == *old(eng),
            h != NULL_HANDLE ==> (r matches Some(m) && m.raw() == h) && ref_added(
                *old(eng),
                *final(eng),
                h,
            ),
    {
        if h != NULL_HANDLE {
            eng.incref(h);
            Some(MiniObject { raw: h })
        } else {
            None
        }
    }

    /// Release the one reference this wrapper holds; the wrapper is gone
    /// afterwards.
    pub fn unref(self, eng: &mut Engine)
        requires
            old(eng).live(self.raw()),
        ensures
            ref_dropped(*old(eng), *final(eng), self.raw()),
    {
        eng.decref(self.raw);
    }

    /// Scoped locking: try to take the object's lock in `mode`; when it is
    /// free, run the critical section once and release the lock again,
    /// whatever the section does.  When the lock is held, the section is
    /// never run and nothing changes.  Either way the engine is exactly
    /// as before, and the return value says whether the acquisition
    /// succeeded; on success the section's postcondition holds.
    pub fn lock<F: FnOnce(&MiniObject)>(&self, eng: &mut Engine, mode: LockMode, f: F) -> (ok:
        bool)
        requires
            old(eng).live(self.raw()),
            call_requires(f, (self,)),
        ensures
            ok == (old(eng).lock_state(self.raw()) is None),
            unchanged(*old(eng), *final(eng)),
            ok ==> call_ensures(f, (self,), ()),
    {
        let acquired = eng.try_lock(self.raw, mode);
        if acquired {
            let ran = f(self);
            eng.unlock(self.raw);
            proof {
                assert(eng.slots@ =~= old(eng).slots@);
                assert(call_ensures(f, (self,), ran));
            }
            true
        } else {
            false
        }
    }

    /// Copy-on-write: when this wrapper is the only owner, the object is
    /// returned as it is; when the object is shared, the held reference is
    /// released and a private copy with a count of one is returned instead.
    /// Callers must not assume the object's identity survives this call.
    pub fn make_writable(self, eng: &mut Engine) -> (r: MiniObject)
        requires
            old(eng).wf(),
            old(eng).live(self.raw()),
        ensures
            final(eng).wf(),
            final(eng).live(r.raw()),
            old(eng).count(self.raw()) == 1 ==> r.raw() == self.raw() && *final(eng) == *old(
                eng,
            ),
            old(eng).count(self.raw()) > 1 ==> {
                &&& r.raw() == old(eng).n_slots()
                &&& final(eng).count(r.raw()) == 1
                &&& content_eqv(final(eng).content(r.raw()), old(eng).content(self.raw()))
                &&& exists|mid: Engine|
                    ref_dropped(*old(eng), mid, self.raw()) && appended_eqv(
                        mid,
                        *final(eng),
                        old(eng).content(self.raw()),
                    )
            },
    {
        let count = eng.count_of(self.raw);
        if count == 1 {
            self
        } else {
            let copy = clone_content(eng.content_ref(self.raw));
            let h = self.raw;
            eng.decref(h);
            let ghost mid = *eng;
            let fresh = eng.allocate(copy);
            proof {
                assert(ref_dropped(*old(eng), mid, h) && appended_eqv(
                    mid,
                    *final(eng),
                    old(eng).content(h),
                ));
            }
            MiniObject { raw: fresh }
        }
    }

    /// A deep copy: a fresh object with view-equal content, solely owned
    /// by the returned wrapper.  The source keeps its reference and is
    /// not touched — this copies the object, where `reference` merely
    /// aliases it.
    pub fn duplicate(&self, eng: &mut Engine) -> (r: MiniObject)
        requires
            old(eng).wf(),
            old(eng).in_range(self.raw()),
        ensures
            r.raw() as int == old(eng).n_slots(),
            appended_eqv(*old(eng), *final(eng), old(eng).content(self.raw())),
            final(eng).live(r.raw()),
            final(eng).count(r.raw()) == 1,
            content_eqv(final(eng).content(r.raw()), old(eng).content(self.raw())),
            final(eng).wf(),
    {
        let copy = clone_content(eng.content_ref(self.raw));
        let h = eng.allocate(copy);
        MiniObject { raw: h }
    }

    /// Escape hatch: the raw handle, for foreign calls made outside this
    /// library.  The wrapper keeps its reference.
    pub fn gst_miniobject(&self) -> (h: usize)
        ensures
            h == self.raw(),
    {
        self.raw
    }

    /// Escape hatch: the raw handle of a wrapper held mutably.
    pub fn gst_miniobject_mut(&mut self) -> (h: usize)
        ensures
            h == old(self).raw(),
            *final(self) == *old(self),
    {
        self.raw
    }
}

impl Reference for MiniObject {
    fn reference(&self, eng: &mut Engine) -> (r: MiniObject) {
        eng.incref(self.raw);
        MiniObject { raw: self.raw }
    }
}

impl Transfer for MiniObject {
    fn transfer(self) -> usize {
        self.raw
    }
}

} // verus!

//! Wrapper over a reference-counted hierarchical object: a pipeline
//! element, a pad, the event bus.  Beyond the counting discipline shared
//! with mini-objects, hierarchical objects carry a name, flag bits and an
//! optional parent, all held in the engine.

use vstd::prelude::*;
use crate::{Handle, Transfer};
use crate::engine::{
    clone_content, ref_added, ref_dropped, same_except, unchanged, Content, Engine, Slot,
    NULL_HANDLE,
};
use crate::reference::{Ref, Reference};

verus! {

/// One strong reference to a hierarchical object of the engine.
pub struct Object {
    raw: usize,
}

/// `h` is an object slot: its content carries a name and a parent.
pub open spec fn is_object(eng: Engine, h: usize) -> bool {
    eng.content(h) is ObjectInfo
}

/// The name recorded for object `h`.
pub open spec fn object_name(eng: Engine, h: usize) -> Seq<char> {
    match eng.content(h) {
        Content::ObjectInfo { name, .. } => name@,
        _ => Seq::empty(),
    }
}

/// The parent handle recorded for object `h`; `NULL_HANDLE` when none.
pub open spec fn object_parent(eng: Engine, h: usize) -> usize {
    match eng.content(h) {
        Content::ObjectInfo { parent, .. } => parent,
        _ => NULL_HANDLE,
    }
}

impl Handle for Object {
    closed spec fn raw(&self) -> usize {
        self.raw
    }

    fn handle(&self) -> usize {
        self.raw
    }
}

impl Object {
    /// Wrap a handle whose reference the caller already owns; the count is
    /// not touched.  The null handle gives no wrapper, and no fault.
    pub fn new(h: usize) -> (r: Option<Object>)
        ensures
            h == NULL_HANDLE ==> r is None,
            h != NULL_HANDLE ==> (r matches Some(o) && o.raw() == h),
    {
        if h != NULL_HANDLE {
            Some(Object { raw: h })
        } else {
            None
        }
    }

    /// Wrap a handle the caller does not own: take a fresh reference on it.
    pub fn from_borrowed(eng: &mut Engine, h: usize) -> (r: Option<Object>)
        requires
            h == NULL_HANDLE || (old(eng).live(h) && old(eng).count(h) < u32::MAX),
        ensures
            h == NULL_HANDLE ==> r is None && *final(eng) == *old(eng),
            h != NULL_HANDLE ==> (r matches Some(o) && o.raw() == h) && ref_added(
                *old(eng),
                *final(eng),
                h,
            ),
    {
        if h != NULL_HANDLE {
            eng.incref(h);
            Some(Object { raw: h })
        } else {
            None
        }
    }

    /// Release the one reference this wrapper holds.
    pub fn unref(self, eng: &mut Engine)
        requires
            old(eng).live(self.raw()),
        ensures
            ref_dropped(*old(eng), *final(eng), self.raw()),
    {
        eng.decref(self.raw);
    }

    /// Give the object a new name.
    pub fn set_name(&mut self, eng: &mut Engine, name: &str) -> (ok: bool)
        requires
            old(eng).live(old(self).raw()),
            is_object(*old(eng), old(self).raw()),
        ensures
            ok,
            *final(self) == *old(self),
            same_except(*old(eng), *final(eng), old(self).raw()),
            is_object(*final(eng), old(self).raw()),
            object_name(*final(eng), old(self).raw()) == name@,
            object_parent(*final(eng), old(self).raw()) == object_parent(
                *old(eng),
                old(self).raw(),
            ),
            final(eng).count(old(self).raw()) == old(eng).count(old(self).raw()),
            final(eng).slot(old(self).raw()).flags == old(eng).slot(old(self).raw()).flags,
            final(eng).slot(old(self).raw()).lock == old(eng).slot(old(self).raw()).lock,
    {
        let parent = match eng.content_ref(self.raw) {
            Content::ObjectInfo { parent, .. } => *parent,
            _ => NULL_HANDLE,
        };
        eng.set_content(self.raw, Content::ObjectInfo { name: name.to_owned(), parent });
        true
    }

    /// The object's name, as an independently owned string.
    pub fn name(&self, eng: &Engine) -> (n: String)
        requires
            eng.in_range(self.raw()),
            is_object(*eng, self.raw()),
        ensures
            n@ == object_name(*eng, self.raw()),
    {
        match eng.content_ref(self.raw) {
            Content::ObjectInfo { name, .. } => name.clone(),
            _ => String::new(),
        }
    }

    /// The object's flag bits.
    pub fn flags(&self, eng: &Engine) -> (f: u32)
        requires
            eng.in_range(self.raw()),
        ensures
            f == eng.flag_bits(self.raw()),
    {
        eng.flags_of(self.raw)
    }

    /// Whether every bit of `flag` is set on the object.
    pub fn is_flag_set(&self, eng: &Engine, flag: u32) -> (r: bool)
        requires
            eng.in_range(self.raw()),
        ensures
            r == (eng.flag_bits(self.raw()) & flag == flag),
    {
        self.flags(eng) & flag == flag
    }

    /// Set every bit of `flag` on the object.
    pub fn set_flag(&mut self, eng: &mut Engine, flag: u32)
        requires
            old(eng).live(old(self).raw()),
        ensures
            *final(self) == *old(self),
            same_except(*old(eng), *final(eng), old(self).raw()),
            final(eng).slot(old(self).raw()) == (Slot {
                flags: old(eng).flag_bits(old(self).raw()) | flag,
                ..old(eng).slot(old(self).raw())
            }),
    {
        let bits = eng.flags_of(self.raw);
        eng.set_flag_bits(self.raw, bits | flag);
    }

    /// Clear every bit of `flag` on the object.
    pub fn unset_flag(&mut self, eng: &mut Engine, flag: u32)
        requires
            old(eng).live(old(self).raw()),
        ensures
            *final(self) == *old(self),
            same_except(*old(eng), *final(eng), old(self).raw()),
            final(eng).slot(old(self).raw()) == (Slot {
                flags: old(eng).flag_bits(old(self).raw()) & !flag,
                ..old(eng).slot(old(self).raw())
            }),
    {
        let bits = eng.flags_of(self.raw);
        eng.set_flag_bits(self.raw, bits & !flag);
    }

    /// The object's current strong-reference count, as the engine reports
    /// it.
    pub fn refcount(&self, eng: &Engine) -> (c: u32)
        requires
            eng.in_range(self.raw()),
        ensures
            c == eng.count(self.raw()),
    {
        eng.count_of(self.raw)
    }

    /// Scoped mutual exclusion on the object: takes the object's lock,
    /// runs the critical section once, and releases the lock whatever
    /// the section does, so the section's postcondition holds and the
    /// engine is exactly as before.  Taking a lock that is already held
    /// would block for ever in this single-owner setting, so a free lock
    /// is required.
    pub fn lock<F: FnOnce(&Object)>(&self, eng: &mut Engine, f: F)
        requires
            old(eng).live(self.raw()),
            old(eng).lock_state(self.raw()) is None,
            call_requires(f, (self,)),
        ensures
            unchanged(*old(eng), *final(eng)),
            call_ensures(f, (self,), ()),
    {
        let _acquired = eng.try_lock(self.raw, crate::engine::LockMode::Exclusive);
        let ran = f(self);
        eng.unlock(self.raw);
        proof {
            assert(eng.slots@ =~= old(eng).slots@);
            assert(call_ensures(f, (self,), ran));
        }
    }

    /// Make `parent` this object's parent.  The parent then holds a
    /// reference on this object, so its count goes up by one.  Fails, with
    /// no side effect, when the object already has a parent.
    pub fn set_parent(&mut self, eng: &mut Engine, parent: &Object) -> (ok: bool)
        requires
            old(eng).live(old(self).raw()),
            is_object(*old(eng), old(self).raw()),
            old(eng).count(old(self).raw()) < u32::MAX,
            parent.raw() != NULL_HANDLE,
        ensures
            *final(self) == *old(self),
            ok == (object_parent(*old(eng), old(self).raw()) == NULL_HANDLE),
            !ok ==> *final(eng) == *old(eng),
            ok ==> {
                &&& same_except(*old(eng), *final(eng), old(self).raw())
                &&& is_object(*final(eng), old(self).raw())
                &&& object_parent(*final(eng), old(self).raw()) == parent.raw()
                &&& object_name(*final(eng), old(self).raw()) == object_name(
                    *old(eng),
                    old(self).raw(),
                )
                &&& final(eng).count(old(self).raw()) == old(eng).count(old(self).raw()) + 1
            },
    {
        let current = match eng.content_ref(self.raw) {
            Content::ObjectInfo { parent, .. } => *parent,
            _ => NULL_HANDLE,
        };
        if current != NULL_HANDLE {
            return false;
        }
        let name = self.name(eng);
        let p = parent.handle();
        eng.set_content(self.raw, Content::ObjectInfo { name, parent: p });
        eng.incref(self.raw);
        true
    }

    /// The object's parent, as a fresh reference holder; `None` when it has
    /// none.
    pub fn parent(&self, eng: &mut Engine) -> (r: Option<Ref<Object>>)
        requires
            old(eng).live(self.raw()),
            is_object(*old(eng), self.raw()),
            object_parent(*old(eng), self.raw()) != NULL_HANDLE ==> old(eng).live(
                object_parent(*old(eng), self.raw()),
            ) && old(eng).count(object_parent(*old(eng), self.raw())) < u32::MAX,
        ensures
            object_parent(*old(eng), self.raw()) == NULL_HANDLE ==> r is None && *final(eng)
                == *old(eng),
            object_parent(*old(eng), self.raw()) != NULL_HANDLE ==> (r matches Some(p)
                && p.inner().raw() == object_parent(*old(eng), self.raw())) && ref_added(
                *old(eng),
                *final(eng),
                object_parent(*old(eng), self.raw()),
            ),
    {
        let current = match eng.content_ref(self.raw) {
            Content::ObjectInfo { parent, .. } => *parent,
            _ => NULL_HANDLE,
        };
        if current == NULL_HANDLE {
            None
        } else {
            let obj = Object { raw: current };
            Some(Ref::new(&obj, eng))
        }
    }

    /// Detach the object from its parent; the parent's reference on this
    /// object is released.  Without a parent this is a no-op.
    pub fn unparent(&mut self, eng: &mut Engine)
        requires
            old(eng).live(old(self).raw()),
            is_object(*old(eng), old(self).raw()),
        ensures
            *final(self) == *old(self),
            object_parent(*old(eng), old(self).raw()) == NULL_HANDLE ==> *final(eng) == *old(
                eng,
            ),
            object_parent(*old(eng), old(self).raw()) != NULL_HANDLE ==> {
                &&& same_except(*old(eng), *final(eng), old(self).raw())
                &&& is_object(*final(eng), old(self).raw())
                &&& object_parent(*final(eng), old(self).raw()) == NULL_HANDLE
                &&& object_name(*final(eng), old(self).raw()) == object_name(
                    *old(eng),
                    old(self).raw(),
                )
                &&& final(eng).count(old(self).raw()) == old(eng).count(old(self).raw()) - 1
            },
    {
        let current = match eng.content_ref(self.raw) {
            Content::ObjectInfo { parent, .. } => *parent,
            _ => NULL_HANDLE,
        };
        if current != NULL_HANDLE {
            let name = self.name(eng);
            eng.set_content(self.raw, Content::ObjectInfo { name, parent: NULL_HANDLE });
            eng.decref(self.raw);
        }
    }

    /// Escape hatch: the raw handle, for foreign calls made outside this
    /// library.
    pub fn gst_object(&self) -> (h: usize)
        ensures
            h == self.raw(),
    {
        self.raw
    }

    /// Escape hatch: the raw handle of a wrapper held mutably.
    pub fn gst_object_mut(&mut self) -> (h: usize)
        ensures
            h == old(self).raw(),
            *final(self) == *old(self),
    {
        self.raw
    }
}

impl Reference for Object {
    fn reference(&self, eng: &mut Engine) -> (r: Object) {
        eng.incref(self.raw);
        Object { raw: self.raw }
    }
}

impl Transfer for Object {
    fn transfer(self) -> usize {
        self.raw
    }
}

} // verus!

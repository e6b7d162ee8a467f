//! Wrapper over a pipeline element.  Construction stands for the foreign
//! factory call; everything an element shares with other hierarchical
//! objects — naming, flags, parents, locking — is reached through the
//! object inside.

use vstd::prelude::*;
use crate::{Handle, Transfer};
use crate::engine::{Content, Engine, NULL_HANDLE};
use crate::object::{is_object, object_name, object_parent, Object};
use crate::reference::Reference;

verus! {

/// One strong reference to a pipeline element.
pub struct Element {
    object: Object,
}

impl Handle for Element {
    closed spec fn raw(&self) -> usize {
        self.object.raw()
    }

    fn handle(&self) -> usize {
        self.object.handle()
    }
}

impl Element {
    /// Make an element through the engine's factory, under the given name.
    /// The model engine knows every factory, so construction always
    /// succeeds; the element is a fresh object solely owned by the
    /// returned wrapper.
    pub fn new(eng: &mut Engine, factory_name: &str, element_name: &str) -> (r: Option<Element>)
        requires
            old(eng).wf(),
        ensures
            r matches Some(e) && {
                &&& e.raw() as int == old(eng).n_slots()
                &&& final(eng).slots@.len() == old(eng).slots@.len() + 1
                &&& forall|j: int|
                    0 <= j < old(eng).slots@.len() ==> final(eng).slots@[j] == old(
                        eng,
                    ).slots@[j]
                &&& final(eng).next_seqnum == old(eng).next_seqnum
                &&& final(eng).live(e.raw())
                &&& final(eng).count(e.raw()) == 1
                &&& final(eng).lock_state(e.raw()) is None
                &&& final(eng).flag_bits(e.raw()) == 0
                &&& is_object(*final(eng), e.raw())
                &&& object_name(*final(eng), e.raw()) == element_name@
                &&& object_parent(*final(eng), e.raw()) == NULL_HANDLE
            },
            final(eng).wf(),
    {
        let h = eng.allocate(
            Content::ObjectInfo { name: element_name.to_owned(), parent: NULL_HANDLE },
        );
        let obj = Object::new(h);
        match obj {
            Some(object) => Some(Element { object }),
            None => None,
        }
    }

    /// As [`Element::new`].
    pub fn factory_make(eng: &mut Engine, factory_name: &str, element_name: &str) -> (r: Option<
        Element,
    >)
        requires
            old(eng).wf(),
        ensures
            r matches Some(e) && final(eng).live(e.raw()) && final(eng).count(e.raw()) == 1
                && is_object(*final(eng), e.raw()) && object_name(*final(eng), e.raw())
                == element_name@,
            final(eng).wf(),
    {
        Element::new(eng, factory_name, element_name)
    }

    /// Wrap an element handle whose reference the caller already owns.
    pub fn new_from_gst_element(h: usize) -> (r: Option<Element>)
        ensures
            h == NULL_HANDLE ==> r is None,
            h != NULL_HANDLE ==> (r matches Some(e) && e.raw() == h),
    {
        match Object::new(h) {
            Some(object) => Some(Element { object }),
            None => None,
        }
    }

    /// The hierarchical object inside.
    pub fn object(&self) -> (o: &Object)
        ensures
            o.raw() == self.raw(),
    {
        &self.object
    }

    /// The hierarchical object inside, of a wrapper held mutably.
    pub fn object_mut(&mut self) -> (o: &mut Object)
        ensures
            o.raw() == old(self).raw(),
            final(self).raw() == final(o).raw(),
    {
        &mut self.object
    }

    /// Escape hatch: the raw handle, for foreign calls made outside this
    /// library.
    pub fn gst_element(&self) -> (h: usize)
        ensures
            h == self.raw(),
    {
        self.object.gst_object()
    }

    /// Release the one reference this wrapper holds.
    pub fn unref(self, eng: &mut Engine)
        requires
            old(eng).live(self.raw()),
        ensures
            crate::engine::ref_dropped(*old(eng), *final(eng), self.raw()),
    {
        self.object.unref(eng);
    }
}

impl Reference for Element {
    fn reference(&self, eng: &mut Engine) -> (r: Element) {
        Element { object: self.object.reference(eng) }
    }
}

impl Transfer for Element {
    fn transfer(self) -> usize {
        self.object.transfer()
    }
}

} // verus!

//! Wrapper over a capability set, held by its textual description.

use vstd::prelude::*;
use crate::{Handle, Transfer};
use crate::engine::{ref_dropped, Content, Engine, NULL_HANDLE};
use crate::miniobject::MiniObject;
use crate::reference::Reference;

verus! {

/// One strong reference to a capability set.
pub struct Caps {
    mini: MiniObject,
}

/// `h` is a capability-set slot.
pub open spec fn is_caps(eng: Engine, h: usize) -> bool {
    eng.content(h) is CapsInfo
}

/// The description recorded for capability set `h`.
pub open spec fn caps_desc(eng: Engine, h: usize) -> Seq<char> {
    match eng.content(h) {
        Content::CapsInfo { desc } => desc@,
        _ => Seq::empty(),
    }
}

/// What every capability-set constructor establishes: one fresh slot
/// solely owned by the returned wrapper, recording the description.
pub open spec fn fresh_caps(pre: Engine, post: Engine, c: Caps, desc: Seq<char>) -> bool {
    &&& c.raw() as int == pre.n_slots()
    &&& post.slots@.len() == pre.slots@.len() + 1
    &&& forall|j: int| 0 <= j < pre.slots@.len() ==> post.slots@[j] == pre.slots@[j]
    &&& post.next_seqnum == pre.next_seqnum
    &&& post.live(c.raw())
    &&& post.count(c.raw()) == 1
    &&& is_caps(post, c.raw())
    &&& caps_desc(post, c.raw()) == desc
}

impl Handle for Caps {
    closed spec fn raw(&self) -> usize {
        self.mini.raw()
    }

    fn handle(&self) -> usize {
        self.mini.handle()
    }
}

impl Caps {
    /// Wrap a capability-set handle whose reference the caller already
    /// owns; the null handle gives no wrapper, and no fault.
    pub fn new(h: usize) -> (r: Option<Caps>)
        ensures
            h == NULL_HANDLE ==> r is None,
            h != NULL_HANDLE ==> (r matches Some(c) && c.raw() == h),
    {
        match MiniObject::new_from_gst_miniobject(h) {
            Some(mini) => Some(Caps { mini }),
            None => None,
        }
    }

    /// A fresh capability set from a textual description — the foreign
    /// parser; in the model every description is accepted and kept as it
    /// is.
    pub fn from_string(eng: &mut Engine, desc: &str) -> (r: Option<Caps>)
        requires
            old(eng).wf(),
        ensures
            r matches Some(c) && fresh_caps(*old(eng), *final(eng), c, desc@),
            final(eng).wf(),
    {
        let h = eng.allocate(Content::CapsInfo { desc: desc.to_owned() });
        match MiniObject::new_from_gst_miniobject(h) {
            Some(mini) => Some(Caps { mini }),
            None => None,
        }
    }

    /// The empty capability set.
    pub fn new_empty(eng: &mut Engine) -> (r: Option<Caps>)
        requires
            old(eng).wf(),
        ensures
            r matches Some(c) && fresh_caps(*old(eng), *final(eng), c, "EMPTY"@),
            final(eng).wf(),
    {
        Caps::from_string(eng, "EMPTY")
    }

    /// The empty capability set of one media type.
    pub fn new_empty_simple(eng: &mut Engine, media_type: &str) -> (r: Option<Caps>)
        requires
            old(eng).wf(),
        ensures
            r matches Some(c) && fresh_caps(*old(eng), *final(eng), c, media_type@),
            final(eng).wf(),
    {
        Caps::from_string(eng, media_type)
    }

    /// The capability set that accepts anything.
    pub fn new_any(eng: &mut Engine) -> (r: Option<Caps>)
        requires
            old(eng).wf(),
        ensures
            r matches Some(c) && fresh_caps(*old(eng), *final(eng), c, "ANY"@),
            final(eng).wf(),
    {
        Caps::from_string(eng, "ANY")
    }

    /// The textual description, as an independently owned string.
    pub fn to_string(&self, eng: &Engine) -> (s: String)
        requires
            eng.in_range(self.raw()),
        ensures
            s@ == caps_desc(*eng, self.raw()),
    {
        match eng.content_ref(self.mini.gst_miniobject()) {
            Content::CapsInfo { desc } => desc.clone(),
            _ => String::new(),
        }
    }

    /// Whether the set is exclusively owned and may be written to.
    pub fn is_writable(&self, eng: &Engine) -> (w: bool)
        requires
            eng.in_range(self.raw()),
        ensures
            w == (eng.count(self.raw()) == 1),
    {
        eng.count_of(self.mini.gst_miniobject()) == 1
    }

    /// Escape hatch: the raw handle.
    pub fn gst_caps(&self) -> (h: usize)
        ensures
            h == self.raw(),
    {
        self.mini.gst_miniobject()
    }

    /// Release the one reference this wrapper holds.
    pub fn unref(self, eng: &mut Engine)
        requires
            old(eng).live(self.raw()),
        ensures
            ref_dropped(*old(eng), *final(eng), self.raw()),
    {
        self.mini.unref(eng);
    }
}

impl Reference for Caps {
    fn reference(&self, eng: &mut Engine) -> (r: Caps) {
        Caps { mini: self.mini.reference(eng) }
    }
}

impl Transfer for Caps {
    fn transfer(self) -> usize {
        self.mini.transfer()
    }
}

} // verus!

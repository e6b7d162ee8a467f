//! Wrapper over a sample: a data unit pulled from the pipeline, referring
//! to a buffer and, optionally, to the capability set that describes it.
//! A sample holds its own references on both; handing out the buffer or
//! the capability set takes a fresh reference, so what a consumer gets is
//! independently owned.

use vstd::prelude::*;
use crate::{Handle, Transfer};
use crate::engine::{ref_added, ref_dropped, Content, Engine, NULL_HANDLE};
use crate::buffer::{is_buffer, Buffer};
use crate::caps::{is_caps, Caps};
use crate::miniobject::MiniObject;
use crate::reference::Reference;

verus! {

/// One strong reference to a sample.
pub struct Sample {
    mini: MiniObject,
}

/// `h` is a sample slot.
pub open spec fn is_sample(eng: Engine, h: usize) -> bool {
    eng.content(h) is SampleInfo
}

/// The buffer handle recorded for sample `h`.
pub open spec fn sample_buffer(eng: Engine, h: usize) -> usize {
    match eng.content(h) {
        Content::SampleInfo { buffer, .. } => buffer,
        _ => NULL_HANDLE,
    }
}

/// The capability-set handle recorded for sample `h`.
pub open spec fn sample_caps(eng: Engine, h: usize) -> usize {
    match eng.content(h) {
        Content::SampleInfo { caps, .. } => caps,
        _ => NULL_HANDLE,
    }
}

impl Handle for Sample {
    closed spec fn raw(&self) -> usize {
        self.mini.raw()
    }

    fn handle(&self) -> usize {
        self.mini.handle()
    }
}

impl Sample {
    /// Wrap a sample handle.  With `owned` the caller's reference moves
    /// into the wrapper; without it a fresh reference is taken.  The null
    /// handle gives no wrapper, no fault, and no engine change.
    pub fn new(eng: &mut Engine, h: usize, owned: bool) -> (r: Option<Sample>)
        requires
            h == NULL_HANDLE || owned || (old(eng).live(h) && old(eng).count(h) < u32::MAX),
        ensures
            h == NULL_HANDLE ==> r is None && *final(eng) == *old(eng),
            h != NULL_HANDLE ==> (r matches Some(s) && s.raw() == h),
            h != NULL_HANDLE && owned ==> *final(eng) == *old(eng),
            h != NULL_HANDLE && !owned ==> ref_added(*old(eng), *final(eng), h),
    {
        if h == NULL_HANDLE {
            return None;
        }
        if !owned {
            eng.incref(h);
        }
        match MiniObject::new_from_gst_miniobject(h) {
            Some(mini) => Some(Sample { mini }),
            None => None,
        }
    }

    /// A fresh sample over a buffer and an optional capability set — the
    /// foreign factory call.  The sample takes its own reference on each.
    pub fn create(eng: &mut Engine, buffer: &Buffer, caps: Option<&Caps>) -> (s: Sample)
        requires
            old(eng).wf(),
            old(eng).live(buffer.raw()),
            old(eng).count(buffer.raw()) < u32::MAX,
            is_buffer(*old(eng), buffer.raw()),
            caps matches Some(c) ==> old(eng).live(c.raw()) && old(eng).count(c.raw())
                < u32::MAX && is_caps(*old(eng), c.raw()),
        ensures
            s.raw() as int == old(eng).n_slots(),
            final(eng).slots@.len() == old(eng).slots@.len() + 1,
            final(eng).next_seqnum == old(eng).next_seqnum,
            final(eng).live(s.raw()),
            final(eng).count(s.raw()) == 1,
            is_sample(*final(eng), s.raw()),
            sample_buffer(*final(eng), s.raw()) == buffer.raw(),
            sample_caps(*final(eng), s.raw()) == (match caps {
                Some(c) => c.raw(),
                None => NULL_HANDLE,
            }),
            final(eng).count(buffer.raw()) == old(eng).count(buffer.raw()) + 1,
            caps matches Some(c) ==> final(eng).count(c.raw()) == old(eng).count(c.raw()) + 1,
            forall|j: int|
                0 <= j < old(eng).slots@.len() && j != buffer.raw() as int && (match caps {
                    Some(c) => j != c.raw() as int,
                    None => true,
                }) ==> final(eng).slots@[j] == old(eng).slots@[j],
            final(eng).wf(),
    {
        proof {
            if caps is Some {
                assert(caps.unwrap().raw() != buffer.raw());
            }
        }
        let b = buffer.handle();
        eng.incref(b);
        let c = match caps {
            Some(cp) => {
                let ch = cp.handle();
                eng.incref(ch);
                ch
            },
            None => NULL_HANDLE,
        };
        let h = eng.allocate(Content::SampleInfo { buffer: b, caps: c });
        Sample { mini: MiniObject::new_from_gst_miniobject(h).unwrap() }
    }

    /// The buffer the sample refers to, with a fresh reference taken for
    /// the caller; `None` when the sample has none.
    pub fn buffer(&self, eng: &mut Engine) -> (r: Option<Buffer>)
        requires
            old(eng).in_range(self.raw()),
            is_sample(*old(eng), self.raw()),
            sample_buffer(*old(eng), self.raw()) != NULL_HANDLE ==> old(eng).live(
                sample_buffer(*old(eng), self.raw()),
            ) && old(eng).count(sample_buffer(*old(eng), self.raw())) < u32::MAX,
        ensures
            sample_buffer(*old(eng), self.raw()) == NULL_HANDLE ==> r is None && *final(eng)
                == *old(eng),
            sample_buffer(*old(eng), self.raw()) != NULL_HANDLE ==> (r matches Some(b)
                && b.raw() == sample_buffer(*old(eng), self.raw())) && ref_added(
                *old(eng),
                *final(eng),
                sample_buffer(*old(eng), self.raw()),
            ),
    {
        let bh = match eng.content_ref(self.mini.gst_miniobject()) {
            Content::SampleInfo { buffer, .. } => *buffer,
            _ => NULL_HANDLE,
        };
        if bh == NULL_HANDLE {
            None
        } else {
            eng.incref(bh);
            match Buffer::new(bh) {
                Some(b) => Some(b),
                None => None,
            }
        }
    }

    /// The capability set the sample refers to, with a fresh reference
    /// taken for the caller; `None` when the sample has none.
    pub fn caps(&self, eng: &mut Engine) -> (r: Option<Caps>)
        requires
            old(eng).in_range(self.raw()),
            is_sample(*old(eng), self.raw()),
            sample_caps(*old(eng), self.raw()) != NULL_HANDLE ==> old(eng).live(
                sample_caps(*old(eng), self.raw()),
            ) && old(eng).count(sample_caps(*old(eng), self.raw())) < u32::MAX,
        ensures
            sample_caps(*old(eng), self.raw()) == NULL_HANDLE ==> r is None && *final(eng)
                == *old(eng),
            sample_caps(*old(eng), self.raw()) != NULL_HANDLE ==> (r matches Some(c)
                && c.raw() == sample_caps(*old(eng), self.raw())) && ref_added(
                *old(eng),
                *final(eng),
                sample_caps(*old(eng), self.raw()),
            ),
    {
        let ch = match eng.content_ref(self.mini.gst_miniobject()) {
            Content::SampleInfo { caps, .. } => *caps,
            _ => NULL_HANDLE,
        };
        if ch == NULL_HANDLE {
            None
        } else {
            eng.incref(ch);
            match Caps::new(ch) {
                Some(c) => Some(c),
                None => None,
            }
        }
    }

    /// Escape hatch: the raw handle.
    pub fn gst_sample(&self) -> (h: usize)
        ensures
            h == self.raw(),
    {
        self.mini.gst_miniobject()
    }

    /// Release the one reference this wrapper holds.  The references the
    /// sample object itself holds on its buffer and capability set are the
    /// engine's to release when the sample object dies.
    pub fn unref(self, eng: &mut Engine)
        requires
            old(eng).live(self.raw()),
        ensures
            ref_dropped(*old(eng), *final(eng), self.raw()),
    {
        self.mini.unref(eng);
    }
}

impl Reference for Sample {
    fn reference(&self, eng: &mut Engine) -> (r: Sample) {
        Sample { mini: self.mini.reference(eng) }
    }
}

impl Transfer for Sample {
    fn transfer(self) -> usize {
        self.mini.transfer()
    }
}

} // verus!

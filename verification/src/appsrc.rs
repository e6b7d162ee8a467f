//! Producer bridge: application pushes into the pipeline's ingestion
//! queue.  `push_buffer` transfers the single reference held by the given
//! buffer wrapper into the queue and answers a flow-control code; it never
//! blocks, and pacing is the caller's responsibility.  After
//! `end_of_stream` nothing further is accepted.

use vstd::prelude::*;
use crate::Handle;
use crate::buffer::Buffer;
use crate::element::Element;
use crate::engine::{ref_dropped, Engine};
use crate::flow::FlowReturn;
use crate::object::{is_object, object_name};

verus! {

/// The producer bridge around one source element.
pub struct AppSrc {
    element: Element,
    queue: Vec<Buffer>,
    ended: bool,
}

impl AppSrc {
    /// The buffers pushed and not yet taken by the pipeline, oldest
    /// first.
    pub closed spec fn pending(&self) -> Seq<Buffer> {
        self.queue@
    }

    /// Whether end-of-stream has been signalled.
    pub closed spec fn ended(&self) -> bool {
        self.ended
    }

    /// The handle of the source element inside.
    pub closed spec fn element_raw(&self) -> usize {
        self.element.raw()
    }

    /// Make a source element with an empty ingestion queue.
    pub fn new(eng: &mut Engine, name: &str) -> (r: Option<AppSrc>)
        requires
            old(eng).wf(),
        ensures
            r matches Some(s) && {
                &&& s.pending() == Seq::<Buffer>::empty()
                &&& !s.ended()
                &&& s.element_raw() as int == old(eng).n_slots()
                &&& final(eng).live(s.element_raw())
                &&& final(eng).count(s.element_raw()) == 1
                &&& is_object(*final(eng), s.element_raw())
                &&& object_name(*final(eng), s.element_raw()) == name@
            },
            final(eng).wf(),
    {
        match Element::new(eng, "appsrc", name) {
            Some(element) => Some(AppSrc { element, queue: Vec::new(), ended: false }),
            None => None,
        }
    }

    /// Take over an existing element as the producer bridge.
    pub fn new_from_element(element: Element) -> (r: AppSrc)
        ensures
            r.pending() == Seq::<Buffer>::empty(),
            !r.ended(),
            r.element_raw() == element.raw(),
    {
        AppSrc { element, queue: Vec::new(), ended: false }
    }

    /// Push a buffer into the pipeline's queue, transferring the one
    /// reference the wrapper holds.  Accepted — and only then answered
    /// with `FlowOk` — exactly while the stream has not ended; after
    /// end-of-stream the reference is released and `Eos` comes back.
    /// This call never blocks.
    pub fn push_buffer(&mut self, eng: &mut Engine, buffer: Buffer) -> (r: FlowReturn)
        requires
            old(eng).live(buffer.raw()),
        ensures
            final(self).ended() == old(self).ended(),
            final(self).element_raw() == old(self).element_raw(),
            r == FlowReturn::FlowOk <==> !old(self).ended(),
            !old(self).ended() ==> final(self).pending() == old(self).pending().push(buffer)
                && *final(eng) == *old(eng),
            old(self).ended() ==> final(self).pending() == old(self).pending() && ref_dropped(
                *old(eng),
                *final(eng),
                buffer.raw(),
            ),
    {
        if self.ended {
            buffer.unref(eng);
            FlowReturn::Eos
        } else {
            self.queue.push(buffer);
            FlowReturn::FlowOk
        }
    }

    /// Signal that no further buffers will be pushed.  Answered with
    /// `FlowOk` the first time and `Eos` once already ended.
    pub fn end_of_stream(&mut self) -> (r: FlowReturn)
        ensures
            final(self).ended(),
            final(self).pending() == old(self).pending(),
            final(self).element_raw() == old(self).element_raw(),
            r == FlowReturn::FlowOk <==> !old(self).ended(),
    {
        if self.ended {
            FlowReturn::Eos
        } else {
            self.ended = true;
            FlowReturn::FlowOk
        }
    }

    /// The pipeline's side: take the oldest queued buffer, in push order.
    pub fn pull_buffer(&mut self) -> (r: Option<Buffer>)
        ensures
            final(self).ended() == old(self).ended(),
            final(self).element_raw() == old(self).element_raw(),
            old(self).pending().len() == 0 ==> r is None && final(self).pending() == old(
                self,
            ).pending(),
            old(self).pending().len() > 0 ==> (r matches Some(b) && b == old(self).pending()[0])
                && final(self).pending() == old(self).pending().drop_first(),
    {
        if self.queue.len() == 0 {
            None
        } else {
            Some(self.queue.remove(0))
        }
    }

    /// Escape hatch: the raw handle of the source element.
    pub fn gst_appsrc(&self) -> (h: usize)
        ensures
            h == self.element_raw(),
    {
        self.element.gst_element()
    }

    /// The source element inside.
    pub fn element(&self) -> (e: &Element)
        ensures
            e.raw() == self.element_raw(),
    {
        &self.element
    }
}

} // verus!

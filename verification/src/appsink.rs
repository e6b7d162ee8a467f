//! Consumer bridge: the pipeline's data-ready, preroll-ready and
//! end-of-stream callbacks, converted into a pull channel.  The foreign
//! streaming thread hands each callback's outcome to a `deliver_*` method
//! and gets a flow-control code back; the application pulls the forwarded
//! values with `recv` and `try_recv`.  An abandoned consumer makes the
//! next delivery answer end-of-stream rather than keep producing — the
//! backpressure signal.  Once an end-of-stream value has been forwarded,
//! nothing further is ever forwarded: the `Eos` value can only stand last
//! in the channel, so a consumer that observes it has seen everything.

use vstd::prelude::*;
use crate::{Handle, RecvError, TryRecvError};
use crate::element::Element;
use crate::engine::{ref_dropped, Engine};
use crate::flow::FlowReturn;
use crate::object::{is_object, object_name};
use crate::sample::Sample;

verus! {

/// A value pulled from the consumer bridge.
pub enum Message {
    /// A data unit became available and was pulled.
    NewSample(Sample),
    /// A preroll unit became available and was pulled.
    NewPreroll(Sample),
    /// The stream ended; nothing further will ever arrive.
    Eos,
}

impl Message {
    pub fn is_eos(&self) -> (r: bool)
        ensures
            r == (self is Eos),
    {
        match self {
            Message::Eos => true,
            _ => false,
        }
    }

    pub fn is_preroll(&self) -> (r: bool)
        ensures
            r == (self is NewPreroll),
    {
        match self {
            Message::NewPreroll(..) => true,
            _ => false,
        }
    }

    pub fn is_sample(&self) -> (r: bool)
        ensures
            r == (self is NewSample),
    {
        match self {
            Message::NewSample(..) => true,
            _ => false,
        }
    }
}

/// An end-of-stream value closes the channel: it can only stand last.
pub open spec fn eos_last(s: Seq<Message>) -> bool {
    forall|i: int| 0 <= i < s.len() && #[trigger] s[i] is Eos ==> i == s.len() - 1
}

/// The consumer bridge around one sink element.
pub struct AppSink {
    element: Element,
    queue: Vec<Message>,
    receiver_open: bool,
    ended: bool,
}

impl AppSink {
    /// The values forwarded into the channel and not yet pulled, oldest
    /// first.
    pub closed spec fn inbox(&self) -> Seq<Message> {
        self.queue@
    }

    /// Whether the consumer still holds the receiving half.
    pub closed spec fn receiver_open(&self) -> bool {
        self.receiver_open
    }

    /// Whether end-of-stream has been forwarded; from then on nothing
    /// further ever is.
    pub closed spec fn ended(&self) -> bool {
        self.ended
    }

    /// The handle of the sink element inside.
    pub closed spec fn element_raw(&self) -> usize {
        self.element.raw()
    }

    /// The bridge's invariant, established by the constructors and kept
    /// by every operation: an `Eos` value only ever stands last in the
    /// channel, and once one is there the stream is marked ended.
    pub open spec fn wf(&self) -> bool {
        &&& eos_last(self.inbox())
        &&& self.inbox().len() > 0 && self.inbox().last() is Eos ==> self.ended()
    }

    /// Make a sink element and wire its callbacks into a fresh channel.
    pub fn new(eng: &mut Engine, name: &str) -> (r: Option<AppSink>)
        requires
            old(eng).wf(),
        ensures
            r matches Some(s) && {
                &&& s.wf()
                &&& s.inbox() == Seq::<Message>::empty()
                &&& s.receiver_open()
                &&& !s.ended()
                &&& s.element_raw() as int == old(eng).n_slots()
                &&& final(eng).live(s.element_raw())
                &&& final(eng).count(s.element_raw()) == 1
                &&& is_object(*final(eng), s.element_raw())
                &&& object_name(*final(eng), s.element_raw()) == name@
            },
            final(eng).wf(),
    {
        match Element::new(eng, "appsink", name) {
            Some(element) => Some(
                AppSink { element, queue: Vec::new(), receiver_open: true, ended: false },
            ),
            None => None,
        }
    }

    /// Wire an existing element's callbacks into a fresh channel.
    pub fn new_from_element(element: Element) -> (r: AppSink)
        ensures
            r.wf(),
            r.inbox() == Seq::<Message>::empty(),
            r.receiver_open(),
            !r.ended(),
            r.element_raw() == element.raw(),
    {
        AppSink { element, queue: Vec::new(), receiver_open: true, ended: false }
    }

    /// The data-ready trampoline, handed what the foreign pull returned.
    /// A pulled unit is forwarded and production continues; a failed
    /// pull, an abandoned consumer, or a stream already ended answers
    /// end-of-stream — and a unit that cannot be forwarded is released,
    /// since nobody will ever pull it.
    pub fn deliver_sample(&mut self, eng: &mut Engine, sample: Option<Sample>) -> (r: FlowReturn)
        requires
            old(self).wf(),
            sample matches Some(s) ==> old(eng).live(s.raw()),
        ensures
            final(self).wf(),
            final(self).receiver_open() == old(self).receiver_open(),
            final(self).ended() == old(self).ended(),
            final(self).element_raw() == old(self).element_raw(),
            r == FlowReturn::FlowOk <==> (sample is Some && old(self).receiver_open() && !old(
                self,
            ).ended()),
            r == FlowReturn::FlowOk || r == FlowReturn::Eos,
            sample is None ==> final(self).inbox() == old(self).inbox() && *final(eng) == *old(
                eng,
            ),
            sample matches Some(s) ==> {
                &&& old(self).receiver_open() && !old(self).ended() ==> final(self).inbox()
                    == old(self).inbox().push(Message::NewSample(s)) && *final(eng) == *old(
                    eng,
                )
                &&& !(old(self).receiver_open() && !old(self).ended()) ==> final(self).inbox()
                    == old(self).inbox() && ref_dropped(*old(eng), *final(eng), s.raw())
            },
    {
        match sample {
            Some(s) => {
                if self.receiver_open && !self.ended {
                    self.queue.push(Message::NewSample(s));
                    FlowReturn::FlowOk
                } else {
                    s.unref(eng);
                    FlowReturn::Eos
                }
            },
            None => FlowReturn::Eos,
        }
    }

    /// The preroll-ready trampoline; as [`AppSink::deliver_sample`], with
    /// the preroll tag.
    pub fn deliver_preroll(&mut self, eng: &mut Engine, sample: Option<Sample>) -> (r: FlowReturn)
        requires
            old(self).wf(),
            sample matches Some(s) ==> old(eng).live(s.raw()),
        ensures
            final(self).wf(),
            final(self).receiver_open() == old(self).receiver_open(),
            final(self).ended() == old(self).ended(),
            final(self).element_raw() == old(self).element_raw(),
            r == FlowReturn::FlowOk <==> (sample is Some && old(self).receiver_open() && !old(
                self,
            ).ended()),
            r == FlowReturn::FlowOk || r == FlowReturn::Eos,
            sample is None ==> final(self).inbox() == old(self).inbox() && *final(eng) == *old(
                eng,
            ),
            sample matches Some(s) ==> {
                &&& old(self).receiver_open() && !old(self).ended() ==> final(self).inbox()
                    == old(self).inbox().push(Message::NewPreroll(s)) && *final(eng) == *old(
                    eng,
                )
                &&& !(old(self).receiver_open() && !old(self).ended()) ==> final(self).inbox()
                    == old(self).inbox() && ref_dropped(*old(eng), *final(eng), s.raw())
            },
    {
        match sample {
            Some(s) => {
                if self.receiver_open && !self.ended {
                    self.queue.push(Message::NewPreroll(s));
                    FlowReturn::FlowOk
                } else {
                    s.unref(eng);
                    FlowReturn::Eos
                }
            },
            None => FlowReturn::Eos,
        }
    }

    /// The end-of-stream trampoline.  The end-of-stream value is
    /// forwarded once, while the consumer still listens; with the
    /// receiver gone, or the stream already ended, the event is simply
    /// dropped — a failed forward affects only that event and never
    /// faults the delivering thread.  Either way the stream is ended
    /// from here on.
    pub fn deliver_eos(&mut self)
        requires
            old(self).wf(),
        ensures
            final(self).wf(),
            final(self).ended(),
            final(self).receiver_open() == old(self).receiver_open(),
            final(self).element_raw() == old(self).element_raw(),
            old(self).receiver_open() && !old(self).ended() ==> final(self).inbox() == old(
                self,
            ).inbox().push(Message::Eos),
            !(old(self).receiver_open() && !old(self).ended()) ==> final(self).inbox() == old(
                self,
            ).inbox(),
    {
        if self.receiver_open && !self.ended {
            self.queue.push(Message::Eos);
        }
        self.ended = true;
    }

    /// Pull the oldest forwarded value.  Delivery order is foreign
    /// invocation order, and an end-of-stream value is the last thing
    /// the channel will ever hold: pulling it leaves the channel empty
    /// for good.  With nothing in the channel this call would block
    /// until the pipeline produces, which a single-owner model cannot
    /// show, so a non-empty channel is required.
    pub fn recv(&mut self) -> (r: Result<Message, RecvError>)
        requires
            old(self).wf(),
            old(self).inbox().len() > 0,
        ensures
            final(self).wf(),
            r matches Ok(m) && m == old(self).inbox()[0],
            final(self).inbox() == old(self).inbox().drop_first(),
            old(self).inbox()[0] is Eos ==> final(self).inbox() == Seq::<Message>::empty()
                && final(self).ended(),
            final(self).receiver_open() == old(self).receiver_open(),
            final(self).ended() == old(self).ended(),
            final(self).element_raw() == old(self).element_raw(),
    {
        Ok(self.queue.remove(0))
    }

    /// Pull the oldest forwarded value without blocking; `Empty` when
    /// nothing is there yet.  The sending half lives inside the bridge,
    /// so this channel never reports itself disconnected.  As with
    /// `recv`, an end-of-stream value is the last one ever pulled.
    pub fn try_recv(&mut self) -> (r: Result<Message, TryRecvError>)
        requires
            old(self).wf(),
        ensures
            final(self).wf(),
            old(self).inbox().len() == 0 ==> r == Err::<Message, TryRecvError>(
                TryRecvError::Empty,
            ) && final(self).inbox() == old(self).inbox(),
            old(self).inbox().len() > 0 ==> (r matches Ok(m) && m == old(self).inbox()[0])
                && final(self).inbox() == old(self).inbox().drop_first(),
            old(self).inbox().len() > 0 && old(self).inbox()[0] is Eos ==> final(self).inbox()
                == Seq::<Message>::empty() && final(self).ended(),
            final(self).receiver_open() == old(self).receiver_open(),
            final(self).ended() == old(self).ended(),
            final(self).element_raw() == old(self).element_raw(),
    {
        if self.queue.len() == 0 {
            Err(TryRecvError::Empty)
        } else {
            Ok(self.queue.remove(0))
        }
    }

    /// Abandon the receiving half: the next delivery answers
    /// end-of-stream instead of forwarding.
    pub fn disconnect(&mut self)
        ensures
            final(self).wf() == old(self).wf(),
            !final(self).receiver_open(),
            final(self).inbox() == old(self).inbox(),
            final(self).ended() == old(self).ended(),
            final(self).element_raw() == old(self).element_raw(),
    {
        self.receiver_open = false;
    }

    /// Escape hatch: the raw handle of the sink element.
    pub fn gst_appsink(&self) -> (h: usize)
        ensures
            h == self.element_raw(),
    {
        self.element.gst_element()
    }

    /// The sink element inside.
    pub fn element(&self) -> (e: &Element)
        ensures
            e.raw() == self.element_raw(),
    {
        &self.element
    }
}

/// Once the channel shows an end-of-stream value at its front, that value
/// is all that is left: under the bridge invariant nothing stands behind
/// it, and the stream is marked ended, so nothing further is ever
/// forwarded.
pub proof fn lemma_eos_closes_the_stream(s: AppSink)
    requires
        s.wf(),
        s.inbox().len() > 0,
        s.inbox()[0] is Eos,
    ensures
        s.inbox().len() == 1,
        s.ended(),
{
    assert(s.inbox()[0] is Eos);
}

} // verus!

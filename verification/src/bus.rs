//! Bus watch bridge: registration of a callback with the foreign event
//! loop, delivery of posted events through a pull channel, and a
//! race-free cancellation protocol.
//!
//! Cancellation cannot safely instruct a foreign-thread callback to stop
//! from outside that callback's own invocation, so it is done by posting
//! a sentinel: an application-class event carrying a private structure
//! name.  When the trampoline sees the sentinel it frees the callback
//! context and answers "stop" from within the same invocation the
//! foreign loop uses to retire watches.  [`Bus::pump`] drives the loop
//! over everything posted and carries the protocol's theorem: with a
//! live consumer, the events before the first sentinel are delivered in
//! order; a sentinel tears the watch down exactly once; and nothing
//! posted after it is ever delivered.

use vstd::prelude::*;
use crate::{Handle, RecvError, TryRecvError};
use crate::engine::{ref_dropped, Content, Engine, MessageKind, MsgBody, NULL_HANDLE};
use crate::message::{fresh_msg, msg_body, Message};
use crate::object::Object;

verus! {

/// The structure name of the cancellation sentinel.  A genuine
/// application event using this exact name is indistinguishable from the
/// sentinel and will be swallowed: a documented risk of the protocol.
pub open spec fn cancel_label() -> Seq<char> {
    "gst_rs_remove_watch_message"@
}

/// The sentinel's structure name, as a value.
pub fn cancel_name() -> (s: String)
    ensures
        s@ == cancel_label(),
{
    "gst_rs_remove_watch_message".to_owned()
}

/// `m` is the cancellation sentinel: an application-class event whose
/// structure carries the private name.
pub open spec fn is_cancel(eng: Engine, m: Message) -> bool {
    &&& m.base_kind() == MessageKind::Application
    &&& msg_body(eng, m.handle_of()) matches MsgBody::StructData { name } && name@
        == cancel_label()
}

/// Every message of `msgs` is live in `eng`.
pub open spec fn all_live(eng: Engine, msgs: Seq<Message>) -> bool {
    forall|i: int| 0 <= i < msgs.len() ==> eng.live(#[trigger] msgs[i].handle_of())
}

/// No two messages of `msgs` share a handle.
pub open spec fn distinct_handles(msgs: Seq<Message>) -> bool {
    forall|i: int, j: int|
        0 <= i < j < msgs.len() ==> msgs[i].handle_of() != msgs[j].handle_of()
}

/// `post` is `pre` after releasing one reference on each message of
/// `msgs`, in order.
pub open spec fn drained(pre: Engine, msgs: Seq<Message>, post: Engine) -> bool
    decreases msgs.len(),
{
    if msgs.len() == 0 {
        post == pre
    } else {
        exists|mid: Engine|
            #[trigger] ref_dropped(pre, mid, msgs[0].handle_of()) && drained(
                mid,
                msgs.drop_first(),
                post,
            )
    }
}

/// The position of the first cancellation sentinel in `msgs`, or the
/// length when there is none.
pub open spec fn cancel_index(eng: Engine, msgs: Seq<Message>) -> int
    decreases msgs.len(),
{
    if msgs.len() == 0 {
        0int
    } else if is_cancel(eng, msgs[0]) {
        0int
    } else {
        1 + cancel_index(eng, msgs.drop_first())
    }
}

/// The two engines hold the same slots with the same contents; only
/// counts and locks may differ.
pub open spec fn same_contents(pre: Engine, post: Engine) -> bool {
    &&& post.slots@.len() == pre.slots@.len()
    &&& forall|h: int|
        0 <= h < pre.slots@.len() ==> #[trigger] post.slots@[h].content == pre.slots@[h].content
}

/// Where the first sentinel sits: never negative, never past the end,
/// nothing before it is a sentinel, and what it points at — if inside —
/// is one.
pub proof fn lemma_cancel_index(eng: Engine, msgs: Seq<Message>)
    ensures
        0 <= cancel_index(eng, msgs) <= msgs.len(),
        forall|i: int| 0 <= i < cancel_index(eng, msgs) ==> !is_cancel(eng, #[trigger] msgs[i]),
        cancel_index(eng, msgs) < msgs.len() ==> is_cancel(eng, msgs[cancel_index(eng, msgs)]),
    decreases msgs.len(),
{
    if msgs.len() > 0 && !is_cancel(eng, msgs[0]) {
        lemma_cancel_index(eng, msgs.drop_first());
        assert forall|i: int| 0 <= i < cancel_index(eng, msgs) implies !is_cancel(
            eng,
            #[trigger] msgs[i],
        ) by {
            if i > 0 {
                assert(msgs[i] == msgs.drop_first()[i - 1]);
            }
        }
    }
}

/// Sentinelhood only depends on the message value and the slot contents,
/// so it survives reference counting.
pub proof fn lemma_cancel_stable(e1: Engine, e2: Engine, m: Message)
    requires
        same_contents(e1, e2),
        e1.in_range(m.handle_of()),
    ensures
        is_cancel(e1, m) == is_cancel(e2, m),
{
    assert(e2.slots@[m.handle_of() as int].content == e1.slots@[m.handle_of() as int].content);
}

/// A drain of one more message at the end is a drain of the longer
/// history.
pub proof fn lemma_drained_snoc(
    pre: Engine,
    msgs: Seq<Message>,
    mid: Engine,
    m: Message,
    post: Engine,
)
    requires
        drained(pre, msgs, mid),
        ref_dropped(mid, post, m.handle_of()),
    ensures
        drained(pre, msgs.push(m), post),
    decreases msgs.len(),
{
    if msgs.len() == 0 {
        assert(mid == pre);
        assert(msgs.push(m)[0] == m);
        assert(msgs.push(m).drop_first() =~= Seq::<Message>::empty());
        assert(ref_dropped(pre, post, msgs.push(m)[0].handle_of()) && drained(
            post,
            msgs.push(m).drop_first(),
            post,
        ));
    } else {
        let mid0 = choose|mid0: Engine|
            #[trigger] ref_dropped(pre, mid0, msgs[0].handle_of()) && drained(
                mid0,
                msgs.drop_first(),
                mid,
            );
        lemma_drained_snoc(mid0, msgs.drop_first(), mid, m, post);
        assert(msgs.push(m).drop_first() =~= msgs.drop_first().push(m));
        assert(msgs.push(m)[0] == msgs[0]);
        assert(ref_dropped(pre, mid0, msgs.push(m)[0].handle_of()) && drained(
            mid0,
            msgs.push(m).drop_first(),
            post,
        ));
    }
}

/// A registered callback, invoked once per delivered event until it
/// signals rejection.  `can_accept` and `accepted` are the abstraction
/// the bridge's proofs rest on: a call forwards the event exactly while
/// the watch can accept, acceptance is not changed by the call itself,
/// and a rejected event is handed back so the caller can release the
/// reference it carries.
pub trait Watch: Sized {
    /// Whether a delivery can still be forwarded.
    spec fn can_accept(&self) -> bool;

    /// The events forwarded so far, oldest first.
    spec fn accepted(&self) -> Seq<Message>;

    /// One delivery.  `None` means the event was forwarded and the watch
    /// stays; `Some` hands the event back — the signal to tear the watch
    /// down.
    fn call(&mut self, msg: Message) -> (rejected: Option<Message>)
        ensures
            (rejected is None) == old(self).can_accept(),
            final(self).can_accept() == old(self).can_accept(),
            old(self).can_accept() ==> final(self).accepted() == old(self).accepted().push(
                msg,
            ),
            !old(self).can_accept() ==> final(self).accepted() == old(self).accepted()
                && rejected == Some(msg),
    ;
}

/// The sending half of a delivery channel, as a watch: forwards every
/// event while the receiving half is held, and rejects — the trampoline's
/// signal to tear down — once it is gone.
pub struct ChannelWatch {
    queue: Vec<Message>,
    receiver_open: bool,
}

impl ChannelWatch {
    /// A fresh channel with both halves held.
    pub fn new() -> (w: ChannelWatch)
        ensures
            w.can_accept(),
            w.accepted() == Seq::<Message>::empty(),
    {
        ChannelWatch { queue: Vec::new(), receiver_open: true }
    }

    /// Abandon the receiving half.
    pub fn disconnect(&mut self)
        ensures
            !final(self).can_accept(),
            final(self).accepted() == old(self).accepted(),
    {
        self.receiver_open = false;
    }
}

impl Watch for ChannelWatch {
    closed spec fn can_accept(&self) -> bool {
        self.receiver_open
    }

    closed spec fn accepted(&self) -> Seq<Message> {
        self.queue@
    }

    fn call(&mut self, msg: Message) -> Option<Message> {
        if self.receiver_open {
            self.queue.push(msg);
            None
        } else {
            Some(msg)
        }
    }
}

/// The fixed-signature trampoline the foreign loop invokes once per
/// event, generic over the registered watch.  The boxed context comes in
/// owned; it comes back in the first component while the watch stays
/// registered, and is gone — freed within this same invocation, the one
/// reclaim point — when the event is the sentinel or the forward fails.
/// The second component is the "continue" flag handed back to the loop.
/// The event itself stays the loop's to dispose of.
pub fn bus_callback<W: Watch>(watch: W, eng: &Engine, msg: Message) -> (r: (
    Option<W>,
    bool,
    Option<Message>,
))
    requires
        eng.in_range(msg.handle_of()),
    ensures
        r.1 == (r.0 is Some),
        is_cancel(*eng, msg) ==> r.0 is None && r.2 == Some(msg),
        !is_cancel(*eng, msg) && watch.can_accept() ==> (r.0 matches Some(w2) && w2.can_accept()
            && w2.accepted() == watch.accepted().push(msg)) && r.2 is None,
        !is_cancel(*eng, msg) && !watch.can_accept() ==> r.0 is None && r.2 == Some(msg),
{
    if is_cancel_event(eng, &msg) {
        (None, false, Some(msg))
    } else {
        let mut w = watch;
        match w.call(msg) {
            None => (Some(w), true, None),
            Some(rejected) => (None, false, Some(rejected)),
        }
    }
}

/// Whether `msg` is the cancellation sentinel, decided as the trampoline
/// does: application class, and the private structure name.
pub fn is_cancel_event(eng: &Engine, msg: &Message) -> (r: bool)
    requires
        eng.in_range(msg.handle_of()),
    ensures
        r == is_cancel(*eng, *msg),
{
    match msg.ty() {
        MessageKind::Application => {
            match eng.content_ref(msg.gst_message()) {
                Content::MsgInfo { body: MsgBody::StructData { name }, .. } => {
                    let cancel = cancel_name();
                    *name == cancel
                },
                _ => false,
            }
        },
        _ => false,
    }
}

/// The event bus: holds the posted, undispatched events, the registered
/// watch, and the pull channel the watch forwards into.  The foreign
/// loop's work — one trampoline invocation per posted event — is
/// explicit here as `dispatch_next` and `pump`.
pub struct Bus {
    object: Object,
    pending: Vec<Message>,
    watch_installed: bool,
    receiver_open: bool,
    inbox: Vec<Message>,
}

impl Bus {
    /// The events posted and not yet dispatched, oldest first.
    pub closed spec fn pending_events(&self) -> Seq<Message> {
        self.pending@
    }

    /// The events forwarded into the channel and not yet pulled, oldest
    /// first.
    pub closed spec fn delivered(&self) -> Seq<Message> {
        self.inbox@
    }

    /// Whether a watch is registered with the foreign loop.
    pub closed spec fn watch_installed(&self) -> bool {
        self.watch_installed
    }

    /// Whether the consumer still holds the receiving half.
    pub closed spec fn receiver_open(&self) -> bool {
        self.receiver_open
    }

    /// The handle of the bus object inside.
    pub closed spec fn bus_raw(&self) -> usize {
        self.object.raw()
    }

    /// Wrap a bus handle whose reference the caller already owns; the
    /// null handle gives no bridge, and no fault.
    pub fn new(h: usize) -> (r: Option<Bus>)
        ensures
            h == NULL_HANDLE ==> r is None,
            h != NULL_HANDLE ==> (r matches Some(b) && {
                &&& b.bus_raw() == h
                &&& !b.watch_installed()
                &&& !b.receiver_open()
                &&& b.pending_events() == Seq::<Message>::empty()
                &&& b.delivered() == Seq::<Message>::empty()
            }),
    {
        match Object::new(h) {
            Some(object) => Some(
                Bus {
                    object,
                    pending: Vec::new(),
                    watch_installed: false,
                    receiver_open: false,
                    inbox: Vec::new(),
                },
            ),
            None => None,
        }
    }

    /// Register the channel watch with the foreign loop; its identifier
    /// comes back.  Any previously registered watch is replaced.
    pub fn add_watch(&mut self) -> (id: u32)
        ensures
            id == 1,
            final(self).watch_installed(),
            final(self).receiver_open(),
            final(self).delivered() == Seq::<Message>::empty(),
            final(self).pending_events() == old(self).pending_events(),
            final(self).bus_raw() == old(self).bus_raw(),
    {
        self.watch_installed = true;
        self.receiver_open = true;
        self.inbox = Vec::new();
        1
    }

    /// The pull-based consumer API: make a channel, register its sending
    /// half as the watch, and pull delivered events with `recv` and
    /// `try_recv`.
    pub fn receiver(&mut self)
        ensures
            final(self).watch_installed(),
            final(self).receiver_open(),
            final(self).delivered() == Seq::<Message>::empty(),
            final(self).pending_events() == old(self).pending_events(),
            final(self).bus_raw() == old(self).bus_raw(),
    {
        self.add_watch();
    }

    /// Post an event onto the bus; the foreign loop will hand it to the
    /// trampoline in posting order.
    pub fn post(&mut self, msg: Message) -> (ok: bool)
        ensures
            ok,
            final(self).pending_events() == old(self).pending_events().push(msg),
            final(self).delivered() == old(self).delivered(),
            final(self).watch_installed() == old(self).watch_installed(),
            final(self).receiver_open() == old(self).receiver_open(),
            final(self).bus_raw() == old(self).bus_raw(),
    {
        self.pending.push(msg);
        true
    }

    /// Cancel the watch by posting the sentinel.  The watch is not torn
    /// down here: that happens inside the trampoline invocation that
    /// meets the sentinel, which is what makes cancellation race-free.
    pub fn remove_watch(&mut self, eng: &mut Engine) -> (ok: bool)
        requires
            old(eng).wf(),
            old(eng).next_seqnum < u32::MAX,
        ensures
            ok,
            final(self).pending_events().len() == old(self).pending_events().len() + 1,
            final(self).pending_events() == old(self).pending_events().push(
                final(self).pending_events().last(),
            ),
            is_cancel(*final(eng), final(self).pending_events().last()),
            fresh_msg(
                *old(eng),
                *final(eng),
                final(self).pending_events().last(),
                MessageKind::Application,
                NULL_HANDLE,
                Seq::<char>::empty(),
            ),
            final(eng).wf(),
            final(self).delivered() == old(self).delivered(),
            final(self).watch_installed() == old(self).watch_installed(),
            final(self).receiver_open() == old(self).receiver_open(),
            final(self).bus_raw() == old(self).bus_raw(),
    {
        let cancel = cancel_name();
        let m = Message::new_application(eng, None, cancel.as_str());
        match m {
            Some(msg) => {
                self.pending.push(msg);
                true
            },
            None => false,
        }
    }

    /// Abandon the receiving half of the channel: from the next delivery
    /// on, the trampoline tears itself down rather than keep running for
    /// an audience of none.
    pub fn drop_receiver(&mut self)
        ensures
            !final(self).receiver_open(),
            final(self).delivered() == old(self).delivered(),
            final(self).pending_events() == old(self).pending_events(),
            final(self).watch_installed() == old(self).watch_installed(),
            final(self).bus_raw() == old(self).bus_raw(),
    {
        self.receiver_open = false;
    }

    /// One invocation of the foreign loop: take the oldest posted event
    /// and run the trampoline on it.  A sentinel, or a failed forward,
    /// frees the watch within this invocation and answers "stop"; a
    /// forwarded event moves — reference and all — into the channel; an
    /// event with no watch registered, or not forwarded, is released.
    pub fn dispatch_next(&mut self, eng: &mut Engine) -> (cont: bool)
        requires
            old(self).pending_events().len() > 0,
            old(eng).live(old(self).pending_events()[0].handle_of()),
        ensures
            final(self).pending_events() == old(self).pending_events().drop_first(),
            final(self).receiver_open() == old(self).receiver_open(),
            final(self).bus_raw() == old(self).bus_raw(),
            ({
                let m = old(self).pending_events()[0];
                &&& !old(self).watch_installed() ==> !final(self).watch_installed() && final(self).delivered() == old(self).delivered() && ref_dropped(
                    *old(eng),
                    *final(eng),
                    m.handle_of(),
                ) && cont
                &&& old(self).watch_installed() && is_cancel(*old(eng), m) ==> !final(self).watch_installed() && final(self).delivered() == old(self).delivered()
                    && ref_dropped(*old(eng), *final(eng), m.handle_of()) && !cont
                &&& old(self).watch_installed() && !is_cancel(*old(eng), m) && old(
                    self,
                ).receiver_open() ==> final(self).watch_installed() && final(self).delivered()
                    == old(self).delivered().push(m) && *final(eng) == *old(eng) && cont
                &&& old(self).watch_installed() && !is_cancel(*old(eng), m) && !old(
                    self,
                ).receiver_open() ==> !final(self).watch_installed() && final(self).delivered()
                    == old(self).delivered() && ref_dropped(*old(eng), *final(eng), m.handle_of())
                    && !cont
            }),
    {
        let m = self.pending.remove(0);
        if !self.watch_installed {
            m.unref(eng);
            return true;
        }
        if is_cancel_event(eng, &m) {
            self.watch_installed = false;
            m.unref(eng);
            false
        } else if self.receiver_open {
            self.inbox.push(m);
            true
        } else {
            self.watch_installed = false;
            m.unref(eng);
            false
        }
    }

    /// Drive the foreign loop over everything posted.  The cancellation
    /// protocol's guarantee, proved: with a watch and a live consumer,
    /// the events before the first sentinel are forwarded, in posting
    /// order; a sentinel present tears the watch down exactly once, and
    /// no event at or after it is ever delivered; with the consumer gone,
    /// the first event already tears the watch down and nothing is
    /// delivered; all undelivered events are released.
    pub fn pump(&mut self, eng: &mut Engine)
        requires
            old(eng).wf(),
            all_live(*old(eng), old(self).pending_events()),
            distinct_handles(old(self).pending_events()),
        ensures
            final(self).pending_events() == Seq::<Message>::empty(),
            final(self).receiver_open() == old(self).receiver_open(),
            final(self).bus_raw() == old(self).bus_raw(),
            final(eng).wf(),
            same_contents(*old(eng), *final(eng)),
            final(eng).next_seqnum == old(eng).next_seqnum,
            !old(self).watch_installed() ==> !final(self).watch_installed() && final(self).delivered() == old(self).delivered() && drained(
                *old(eng),
                old(self).pending_events(),
                *final(eng),
            ),
            old(self).watch_installed() && !old(self).receiver_open() ==> {
                &&& final(self).delivered() == old(self).delivered()
                &&& old(self).pending_events().len() == 0 ==> final(self).watch_installed()
                    && *final(eng) == *old(eng)
                &&& old(self).pending_events().len() > 0 ==> !final(self).watch_installed()
                    && drained(*old(eng), old(self).pending_events(), *final(eng))
            },
            old(self).watch_installed() && old(self).receiver_open() ==> {
                let k = cancel_index(*old(eng), old(self).pending_events());
                let n = old(self).pending_events().len() as int;
                &&& final(self).delivered() == old(self).delivered() + old(
                    self,
                ).pending_events().subrange(0, k)
                &&& k == n ==> final(self).watch_installed() && *final(eng) == *old(eng)
                &&& k < n ==> !final(self).watch_installed() && drained(
                    *old(eng),
                    old(self).pending_events().skip(k),
                    *final(eng),
                )
            },
    {
        let ghost e0 = *old(eng);
        let ghost p = old(self).pending_events();
        let ghost i0 = old(self).delivered();
        let ghost w0 = old(self).watch_installed();
        let ghost r0 = old(self).receiver_open();
        let ghost k = cancel_index(e0, p);
        let ghost mut i: int = 0;
        proof {
            lemma_cancel_index(e0, p);
            assert(self.pending@ =~= p.skip(0));
            assert(p.subrange(0, 0) =~= Seq::<Message>::empty());
            assert(i0 + p.subrange(0, 0) =~= i0);
        }
        while self.pending.len() > 0
            invariant
                0 <= i <= p.len(),
                self.pending@ == p.skip(i),
                self.receiver_open() == r0,
                self.bus_raw() == old(self).bus_raw(),
                eng.wf() == e0.wf(),
                e0.wf(),
                same_contents(e0, *eng),
                eng.next_seqnum == e0.next_seqnum,
                all_live(*eng, self.pending@),
                distinct_handles(p),
                0 <= k <= p.len(),
                forall|j: int| 0 <= j < k ==> !is_cancel(e0, #[trigger] p[j]),
                k < p.len() ==> is_cancel(e0, p[k]),
                !w0 ==> !self.watch_installed() && self.delivered() == i0 && drained(
                    e0,
                    p.subrange(0, i),
                    *eng,
                ),
                w0 && !r0 ==> self.delivered() == i0 && (i == 0 ==> self.watch_installed()
                    && *eng == e0) && (i > 0 ==> !self.watch_installed() && drained(
                    e0,
                    p.subrange(0, i),
                    *eng,
                )),
                w0 && r0 ==> (i <= k ==> self.watch_installed() && *eng == e0
                    && self.delivered() == i0 + p.subrange(0, i)) && (i > k ==> !self.watch_installed()
                    && self.delivered() == i0 + p.subrange(0, k) && drained(
                    e0,
                    p.subrange(k, i),
                    *eng,
                )),
            decreases self.pending@.len(),
        {
            let ghost pre_eng = *eng;
            let ghost pre_inbox = self.delivered();
            let ghost m = self.pending@[0];
            proof {
                assert(m == p[i]);
                assert(eng.live(m.handle_of()));
                assert(eng.in_range(m.handle_of()));
                assert(e0.in_range(m.handle_of())) by {
                    assert(eng.slots@.len() == e0.slots@.len());
                }
                lemma_cancel_stable(e0, *eng, m);
            }
            let cont = self.dispatch_next(eng);
            proof {
                assert(self.pending@ =~= p.skip(i + 1));
                // Liveness of what is still pending survives one release.
                assert forall|j: int|
                    0 <= j < self.pending@.len() implies eng.live(
                    #[trigger] self.pending@[j].handle_of(),
                ) by {
                    let h = self.pending@[j].handle_of();
                    assert(self.pending@[j] == p[i + 1 + j]);
                    assert(pre_eng.live(h));
                    if *eng != pre_eng {
                        assert(ref_dropped(pre_eng, *eng, m.handle_of()));
                        assert(m.handle_of() != h);
                        assert(eng.slots@[h as int] == pre_eng.slots@[h as int]);
                    }
                };
                if *eng != pre_eng {
                    assert(ref_dropped(pre_eng, *eng, m.handle_of()));
                    assert(same_contents(pre_eng, *eng)) by {
                        assert(forall|h: int|
                            0 <= h < pre_eng.slots@.len() && h != m.handle_of() as int
                                ==> #[trigger] eng.slots@[h] == pre_eng.slots@[h]);
                    }
                }
                // Re-establish the mode invariants.
                if !w0 {
                    assert(p.subrange(0, i + 1) =~= p.subrange(0, i).push(m));
                    lemma_drained_snoc(e0, p.subrange(0, i), pre_eng, m, *eng);
                } else if w0 && !r0 {
                    if i == 0 {
                        assert(p.subrange(0, 1) =~= Seq::<Message>::empty().push(m));
                        assert(drained(e0, Seq::<Message>::empty(), pre_eng));
                        lemma_drained_snoc(e0, Seq::<Message>::empty(), pre_eng, m, *eng);
                        assert(drained(e0, p.subrange(0, 1), *eng));
                    } else {
                        assert(p.subrange(0, i + 1) =~= p.subrange(0, i).push(m));
                        lemma_drained_snoc(e0, p.subrange(0, i), pre_eng, m, *eng);
                    }
                } else {
                    // w0 && r0
                    if i < k {
                        assert(!is_cancel(e0, m));
                        assert(self.delivered() =~= i0 + p.subrange(0, i + 1)) by {
                            assert(self.delivered() == (i0 + p.subrange(0, i)).push(m));
                            assert(p.subrange(0, i + 1) =~= p.subrange(0, i).push(m));
                        }
                    } else if i == k {
                        assert(is_cancel(e0, m));
                        assert(p.subrange(k, k + 1) =~= Seq::<Message>::empty().push(m));
                        assert(drained(e0, Seq::<Message>::empty(), pre_eng));
                        lemma_drained_snoc(e0, Seq::<Message>::empty(), pre_eng, m, *eng);
                        assert(drained(e0, p.subrange(k, k + 1), *eng));
                    } else {
                        assert(p.subrange(k, i + 1) =~= p.subrange(k, i).push(m));
                        lemma_drained_snoc(e0, p.subrange(k, i), pre_eng, m, *eng);
                    }
                }
                i = i + 1;
            }
        }
        proof {
            assert(i == p.len());
            assert(p.subrange(0, p.len() as int) =~= p);
            assert(self.pending@ =~= Seq::<Message>::empty());
            if w0 && r0 {
                if k == p.len() as int {
                    assert(i0 + p.subrange(0, k) =~= i0 + p);
                } else {
                    assert(p.skip(k) =~= p.subrange(k, p.len() as int));
                }
            }
        }
    }

    /// Pull the oldest delivered event, driving the loop first so that
    /// everything already posted is dispatched.  Events come out in
    /// posting order.  `Err` means the channel is disconnected: the
    /// watch is gone and nothing further will ever arrive.  A call that
    /// would find no event and a still-registered watch would block, so
    /// that case is excluded.
    pub fn recv(&mut self, eng: &mut Engine) -> (r: Result<Message, RecvError>)
        requires
            old(eng).wf(),
            old(self).receiver_open(),
            all_live(*old(eng), old(self).pending_events()),
            distinct_handles(old(self).pending_events()),
            old(self).delivered().len() > 0 || old(self).pending_events().len() > 0 || !old(
                self,
            ).watch_installed(),
        ensures
            final(self).pending_events() == Seq::<Message>::empty(),
            final(self).receiver_open(),
            final(self).bus_raw() == old(self).bus_raw(),
            final(eng).wf(),
            ({
                let stream = old(self).delivered() + (if old(self).watch_installed() {
                    old(self).pending_events().subrange(
                        0,
                        cancel_index(*old(eng), old(self).pending_events()),
                    )
                } else {
                    Seq::<Message>::empty()
                });
                &&& stream.len() > 0 ==> (r matches Ok(m) && m == stream[0]) && final(self).delivered() == stream.drop_first()
                &&& stream.len() == 0 ==> r is Err && !final(self).watch_installed() && final(self).delivered() == Seq::<Message>::empty()
            }),
    {
        proof {
            lemma_cancel_index(*old(eng), old(self).pending_events());
        }
        self.pump(eng);
        if self.inbox.len() > 0 {
            proof {
                assert(self.delivered().drop_first() =~= self.delivered().subrange(
                    1,
                    self.delivered().len() as int,
                ));
            }
            Ok(self.inbox.remove(0))
        } else {
            Err(RecvError)
        }
    }

    /// Pull the oldest delivered event without driving the loop and
    /// without blocking: `Empty` while the watch may still deliver,
    /// `Disconnected` once it is gone for good.
    pub fn try_recv(&mut self) -> (r: Result<Message, TryRecvError>)
        requires
            old(self).receiver_open(),
        ensures
            final(self).pending_events() == old(self).pending_events(),
            final(self).receiver_open(),
            final(self).watch_installed() == old(self).watch_installed(),
            final(self).bus_raw() == old(self).bus_raw(),
            old(self).delivered().len() > 0 ==> (r matches Ok(m) && m == old(self).delivered()[0])
                && final(self).delivered() == old(self).delivered().drop_first(),
            old(self).delivered().len() == 0 && old(self).watch_installed() ==> r == Err::<
                Message,
                TryRecvError,
            >(TryRecvError::Empty) && final(self).delivered() == old(self).delivered(),
            old(self).delivered().len() == 0 && !old(self).watch_installed() ==> r == Err::<
                Message,
                TryRecvError,
            >(TryRecvError::Disconnected) && final(self).delivered() == old(self).delivered(),
    {
        if self.inbox.len() > 0 {
            Ok(self.inbox.remove(0))
        } else if self.watch_installed {
            Err(TryRecvError::Empty)
        } else {
            Err(TryRecvError::Disconnected)
        }
    }

    /// Escape hatch: the raw handle of the bus object.
    pub fn gst_bus(&self) -> (h: usize)
        ensures
            h == self.bus_raw(),
    {
        self.object.gst_object()
    }

    /// Release the reference held on the bus object.  Events still queued
    /// in the bridge are the caller's to release.
    pub fn unref_object(self, eng: &mut Engine) -> (rest: (Vec<Message>, Vec<Message>))
        requires
            old(eng).live(self.bus_raw()),
        ensures
            ref_dropped(*old(eng), *final(eng), self.bus_raw()),
            rest.0@ == self.pending_events(),
            rest.1@ == self.delivered(),
    {
        let Bus { object, pending, inbox, .. } = self;
        object.unref(eng);
        (pending, inbox)
    }
}

} // verus!

//! Explicit model of the foreign engine's reference-counted heap.
//!
//! Every foreign object the library wraps — mini-objects such as buffers,
//! capability sets, samples and messages, and hierarchical objects such as
//! elements and the event bus — lives in one [`Engine`] value as a slot with
//! a strong-reference count, a lock word and a content record.  Handles are
//! slot indices; the index `0` is reserved and stands for the null handle.
//! Slots are never reused: a count that has dropped to zero marks a dead
//! object, so a fresh allocation can always be told apart from every handle
//! given out before.

use vstd::prelude::*;

verus! {

/// The null handle: no object.
pub const NULL_HANDLE: usize = 0;

/// Access mode requested when locking an object for a critical section.
#[derive(Clone, Copy, PartialEq, Eq, Structural, Debug)]
pub enum LockMode {
    Read,
    Write,
    Exclusive,
}

/// The states a pipeline element can be in; `VoidPending` stands for the
/// absence of a pending state.
#[derive(Clone, Copy, PartialEq, Eq, Structural, Debug)]
pub enum State {
    VoidPending,
    Null,
    Ready,
    Paused,
    Playing,
}

/// The closed set of event kinds the bus can carry.
#[derive(Clone, Copy, PartialEq, Eq, Structural, Debug)]
pub enum MessageKind {
    Unknown,
    Eos,
    Error,
    Warning,
    Info,
    Tag,
    Buffering,
    StateChanged,
    StateDirty,
    StepDone,
    ClockProvide,
    ClockLost,
    NewClock,
    StructureChange,
    StreamStatus,
    Application,
    Element,
    SegmentStart,
    SegmentDone,
    DurationChanged,
    Latency,
    AsyncStart,
    AsyncDone,
    RequestState,
    StepStart,
    Qos,
    Progress,
    Toc,
    ResetTime,
    StreamStart,
    NeedContext,
    HaveContext,
    Extended,
    DeviceAdded,
    DeviceRemoved,
    Any,
}

/// The decodable payload carried by a message object.
pub enum MsgBody {
    /// No payload beyond the kind itself.
    Plain,
    /// Payload of error, warning and info messages: an error triple sourced
    /// from the engine plus a debug string.
    Fault { domain: u32, code: i32, text: String, debug: String },
    /// Payload of tag messages.
    TagData { tags: Vec<String> },
    /// Payload of buffering messages: a completion percentage.
    BufferingData { pct: i32 },
    /// Payload of state-transition messages.
    StateData { old_state: State, new_state: State, pending: State },
    /// Payload of application- and element-class messages: the name of
    /// the structure posted with the message.
    StructData { name: String },
    /// Payload of clock messages: the clock object and a readiness flag.
    ClockData { clock: usize, ready: bool },
}

/// What a slot's object is, and the data of it that the library reads.
pub enum Content {
    /// A mini-object with no payload the library ever decodes.
    Inert,
    /// A hierarchical object: a name and the handle of its parent
    /// (`NULL_HANDLE` when it has none).
    ObjectInfo { name: String, parent: usize },
    /// A message: kind, sequence number, timestamp, the handle and name of
    /// the object that posted it, and its decodable payload.
    MsgInfo {
        kind: MessageKind,
        seqnum: u32,
        timestamp: u64,
        src: usize,
        src_name: String,
        body: MsgBody,
    },
    /// A buffer: the bytes it carries.
    Bytes { data: Vec<u8> },
    /// A sample: the handles of the buffer and the capability set it refers
    /// to (`NULL_HANDLE` where absent).
    SampleInfo { buffer: usize, caps: usize },
    /// A capability set: its textual description.
    CapsInfo { desc: String },
}

/// One reference-counted object of the foreign heap.
#[verifier::ext_equal]
pub struct Slot {
    /// Strong-reference count; zero means the object has been destroyed.
    pub count: u32,
    /// Flag bits readable and settable through object wrappers.
    pub flags: u32,
    /// The lock currently held on the object, if any.
    pub lock: Option<LockMode>,
    /// What the object is.
    pub content: Content,
}

/// The foreign engine's heap as an explicit state value.
pub struct Engine {
    /// Slot `0` is reserved as the null handle and is never live.
    pub slots: Vec<Slot>,
    /// Sequence number the next allocated message will carry.
    pub next_seqnum: u32,
}

/// View equality for message payloads: equal fields, with strings compared
/// by their characters.
pub open spec fn body_eqv(a: MsgBody, b: MsgBody) -> bool {
    match (a, b) {
        (MsgBody::Plain, MsgBody::Plain) => true,
        (
            MsgBody::Fault { domain: d1, code: c1, text: t1, debug: g1 },
            MsgBody::Fault { domain: d2, code: c2, text: t2, debug: g2 },
        ) => d1 == d2 && c1 == c2 && t1@ == t2@ && g1@ == g2@,
        (MsgBody::TagData { tags: t1 }, MsgBody::TagData { tags: t2 }) => t1.deep_view()
            == t2.deep_view(),
        (MsgBody::BufferingData { pct: p1 }, MsgBody::BufferingData { pct: p2 }) => p1 == p2,
        (
            MsgBody::StateData { old_state: o1, new_state: n1, pending: p1 },
            MsgBody::StateData { old_state: o2, new_state: n2, pending: p2 },
        ) => o1 == o2 && n1 == n2 && p1 == p2,
        (MsgBody::StructData { name: n1 }, MsgBody::StructData { name: n2 }) => n1@ == n2@,
        (
            MsgBody::ClockData { clock: c1, ready: r1 },
            MsgBody::ClockData { clock: c2, ready: r2 },
        ) => c1 == c2 && r1 == r2,
        _ => false,
    }
}

/// View equality for slot contents.
pub open spec fn content_eqv(a: Content, b: Content) -> bool {
    match (a, b) {
        (Content::Inert, Content::Inert) => true,
        (
            Content::ObjectInfo { name: n1, parent: p1 },
            Content::ObjectInfo { name: n2, parent: p2 },
        ) => n1@ == n2@ && p1 == p2,
        (
            Content::MsgInfo {
                kind: k1,
                seqnum: q1,
                timestamp: t1,
                src: r1,
                src_name: s1,
                body: b1,
            },
            Content::MsgInfo {
                kind: k2,
                seqnum: q2,
                timestamp: t2,
                src: r2,
                src_name: s2,
                body: b2,
            },
        ) => k1 == k2 && q1 == q2 && t1 == t2 && r1 == r2 && s1@ == s2@ && body_eqv(b1, b2),
        (Content::Bytes { data: d1 }, Content::Bytes { data: d2 }) => d1@ == d2@,
        (
            Content::SampleInfo { buffer: b1, caps: c1 },
            Content::SampleInfo { buffer: b2, caps: c2 },
        ) => b1 == b2 && c1 == c2,
        (Content::CapsInfo { desc: d1 }, Content::CapsInfo { desc: d2 }) => d1@ == d2@,
        _ => false,
    }
}

/// The two engines agree on every slot and on the sequence counter.
pub open spec fn unchanged(pre: Engine, post: Engine) -> bool {
    &&& post.slots@ == pre.slots@
    &&& post.next_seqnum == pre.next_seqnum
}

/// The two engines agree on every slot other than `h`, and on the sequence
/// counter.
pub open spec fn same_except(pre: Engine, post: Engine, h: usize) -> bool {
    &&& post.slots@.len() == pre.slots@.len()
    &&& post.next_seqnum == pre.next_seqnum
    &&& forall|j: int|
        0 <= j < pre.slots@.len() && j != h as int ==> post.slots@[j] == pre.slots@[j]
}

/// `post` is `pre` with one strong reference added on `h` and nothing else
/// changed.
pub open spec fn ref_added(pre: Engine, post: Engine, h: usize) -> bool {
    &&& same_except(pre, post, h)
    &&& pre.in_range(h)
    &&& post.slot(h).count == pre.slot(h).count + 1
    &&& post.slot(h).flags == pre.slot(h).flags
    &&& post.slot(h).lock == pre.slot(h).lock
    &&& post.slot(h).content == pre.slot(h).content
}

/// `post` is `pre` with one strong reference released on `h` and nothing
/// else changed.  A count that reaches zero marks the object destroyed.
pub open spec fn ref_dropped(pre: Engine, post: Engine, h: usize) -> bool {
    &&& same_except(pre, post, h)
    &&& pre.in_range(h)
    &&& post.slot(h).count == pre.slot(h).count - 1
    &&& post.slot(h).flags == pre.slot(h).flags
    &&& post.slot(h).lock == pre.slot(h).lock
    &&& post.slot(h).content == pre.slot(h).content
}

/// `post` is `pre` with exactly one fresh slot appended, holding `c` with a
/// count of one.
pub open spec fn appended(pre: Engine, post: Engine, c: Content) -> bool {
    &&& post.slots@ == pre.slots@.push(Slot { count: 1, flags: 0, lock: None, content: c })
    &&& post.next_seqnum == pre.next_seqnum
}

/// As [`appended`], but only up to view equality of the new content — what
/// an allocation from a deep copy establishes.
pub open spec fn appended_eqv(pre: Engine, post: Engine, c: Content) -> bool {
    &&& post.slots@.len() == pre.slots@.len() + 1
    &&& forall|j: int| 0 <= j < pre.slots@.len() ==> post.slots@[j] == pre.slots@[j]
    &&& post.next_seqnum == pre.next_seqnum
    &&& post.slots@.last().count == 1
    &&& post.slots@.last().flags == 0
    &&& post.slots@.last().lock is None
    &&& content_eqv(post.slots@.last().content, c)
}

impl Engine {
    /// Basic well-formedness: the null slot exists and is dead.
    pub open spec fn wf(&self) -> bool {
        &&& self.slots@.len() >= 1
        &&& self.slots@[0].count == 0
    }

    pub open spec fn n_slots(&self) -> int {
        self.slots@.len() as int
    }

    /// `h` names an actual slot (live or destroyed), not the null handle.
    pub open spec fn in_range(&self, h: usize) -> bool {
        1 <= h < self.slots@.len()
    }

    pub open spec fn slot(&self, h: usize) -> Slot {
        self.slots@[h as int]
    }

    /// `h` names an object that has not been destroyed.
    pub open spec fn live(&self, h: usize) -> bool {
        self.in_range(h) && self.slot(h).count > 0
    }

    pub open spec fn count(&self, h: usize) -> u32 {
        self.slot(h).count
    }

    pub open spec fn content(&self, h: usize) -> Content {
        self.slot(h).content
    }

    pub open spec fn lock_state(&self, h: usize) -> Option<LockMode> {
        self.slot(h).lock
    }

    pub open spec fn flag_bits(&self, h: usize) -> u32 {
        self.slot(h).flags
    }

    /// A fresh engine: only the reserved null slot, no live object.
    pub fn new() -> (e: Engine)
        ensures
            e.wf(),
            e.n_slots() == 1,
            e.next_seqnum == 1,
    {
        let mut slots: Vec<Slot> = Vec::new();
        slots.push(Slot { count: 0, flags: 0, lock: None, content: Content::Inert });
        Engine { slots, next_seqnum: 1 }
    }

    /// A foreign factory call: a fresh object holding `c`, owned by the
    /// caller with a single strong reference.
    pub fn allocate(&mut self, c: Content) -> (h: usize)
        requires
            old(self).wf(),
        ensures
            appended(*old(self), *final(self), c),
            h == old(self).n_slots(),
            final(self).wf(),
            final(self).live(h),
            final(self).count(h) == 1,
            final(self).content(h) == c,
            final(self).lock_state(h) is None,
            final(self).flag_bits(h) == 0,
    {
        let h = self.slots.len();
        self.slots.push(Slot { count: 1, flags: 0, lock: None, content: c });
        h
    }

    /// Take one more strong reference on `h`.
    pub fn incref(&mut self, h: usize)
        requires
            old(self).live(h),
            old(self).count(h) < u32::MAX,
        ensures
            ref_added(*old(self), *final(self), h),
            final(self).wf() == old(self).wf(),
            final(self).live(h),
    {
        let slot = &mut self.slots[h];
        slot.count = slot.count + 1;
    }

    /// Release one strong reference on `h`; the object is destroyed when the
    /// last one goes.
    pub fn decref(&mut self, h: usize)
        requires
            old(self).live(h),
        ensures
            ref_dropped(*old(self), *final(self), h),
            final(self).wf() == old(self).wf(),
    {
        let slot = &mut self.slots[h];
        slot.count = slot.count - 1;
    }

    /// Try to take the lock on `h` in the requested mode; fails, with no
    /// side effect, when any lock is already held.
    pub fn try_lock(&mut self, h: usize, mode: LockMode) -> (ok: bool)
        requires
            old(self).live(h),
        ensures
            ok == (old(self).lock_state(h) is None),
            ok ==> same_except(*old(self), *final(self), h) && final(self).slot(h) == (Slot {
                lock: Some(mode),
                ..old(self).slot(h)
            }),
            !ok ==> *final(self) == *old(self),
    {
        let held = self.slots[h].lock;
        match held {
            None => {
                let slot = &mut self.slots[h];
                slot.lock = Some(mode);
                true
            },
            Some(_) => false,
        }
    }

    /// Release the lock held on `h`.
    pub fn unlock(&mut self, h: usize)
        requires
            old(self).live(h),
            old(self).lock_state(h) is Some,
        ensures
            same_except(*old(self), *final(self), h),
            final(self).slot(h) == (Slot { lock: None, ..old(self).slot(h) }),
    {
        let slot = &mut self.slots[h];
        slot.lock = None;
    }

    /// Read access to a slot's content.
    pub fn content_ref(&self, h: usize) -> (c: &Content)
        requires
            self.in_range(h),
        ensures
            *c == self.content(h),
    {
        &self.slots[h].content
    }

    /// Replace a slot's content; everything else about the slot stays.
    pub fn set_content(&mut self, h: usize, c: Content)
        requires
            old(self).live(h),
        ensures
            same_except(*old(self), *final(self), h),
            final(self).slot(h) == (Slot { content: c, ..old(self).slot(h) }),
    {
        let slot = &mut self.slots[h];
        slot.content = c;
    }

    /// Replace a slot's flag bits.
    pub fn set_flag_bits(&mut self, h: usize, flags: u32)
        requires
            old(self).live(h),
        ensures
            same_except(*old(self), *final(self), h),
            final(self).slot(h) == (Slot { flags, ..old(self).slot(h) }),
    {
        let slot = &mut self.slots[h];
        slot.flags = flags;
    }

    /// Read a slot's flag bits.
    pub fn flags_of(&self, h: usize) -> (f: u32)
        requires
            self.in_range(h),
        ensures
            f == self.flag_bits(h),
    {
        self.slots[h].flags
    }

    /// Hand out the next message sequence number and advance the counter.
    pub fn take_seqnum(&mut self) -> (s: u32)
        requires
            old(self).next_seqnum < u32::MAX,
        ensures
            s == old(self).next_seqnum,
            final(self).next_seqnum == old(self).next_seqnum + 1,
            final(self).slots@ == old(self).slots@,
    {
        let s = self.next_seqnum;
        self.next_seqnum = self.next_seqnum + 1;
        s
    }

    /// Read a slot's strong-reference count.
    pub fn count_of(&self, h: usize) -> (c: u32)
        requires
            self.in_range(h),
        ensures
            c == self.count(h),
    {
        self.slots[h].count
    }
}

/// An independently owned copy of a content record, equal to the original up
/// to view equality.
pub fn clone_content(c: &Content) -> (r: Content)
    ensures
        content_eqv(r, *c),
{
    match c {
        Content::Inert => Content::Inert,
        Content::ObjectInfo { name, parent } => Content::ObjectInfo {
            name: name.clone(),
            parent: *parent,
        },
        Content::MsgInfo { kind, seqnum, timestamp, src, src_name, body } => Content::MsgInfo {
            kind: *kind,
            seqnum: *seqnum,
            timestamp: *timestamp,
            src: *src,
            src_name: src_name.clone(),
            body: clone_body(body),
        },
        Content::Bytes { data } => Content::Bytes { data: clone_bytes(data) },
        Content::SampleInfo { buffer, caps } => Content::SampleInfo {
            buffer: *buffer,
            caps: *caps,
        },
        Content::CapsInfo { desc } => Content::CapsInfo { desc: desc.clone() },
    }
}

/// An independently owned copy of a message payload.
pub fn clone_body(b: &MsgBody) -> (r: MsgBody)
    ensures
        body_eqv(r, *b),
{
    match b {
        MsgBody::Plain => MsgBody::Plain,
        MsgBody::Fault { domain, code, text, debug } => MsgBody::Fault {
            domain: *domain,
            code: *code,
            text: text.clone(),
            debug: debug.clone(),
        },
        MsgBody::TagData { tags } => MsgBody::TagData { tags: clone_strings(tags) },
        MsgBody::BufferingData { pct } => MsgBody::BufferingData { pct: *pct },
        MsgBody::StateData { old_state, new_state, pending } => MsgBody::StateData {
            old_state: *old_state,
            new_state: *new_state,
            pending: *pending,
        },
        MsgBody::StructData { name } => MsgBody::StructData { name: name.clone() },
        MsgBody::ClockData { clock, ready } => MsgBody::ClockData {
            clock: *clock,
            ready: *ready,
        },
    }
}

/// A byte-for-byte copy of a buffer's data.
pub fn clone_bytes(data: &Vec<u8>) -> (r: Vec<u8>)
    ensures
        r@ == data@,
{
    let mut out: Vec<u8> = Vec::new();
    let mut i: usize = 0;
    while i < data.len()
        invariant
            i <= data.len(),
            out@ == data@.subrange(0, i as int),
        decreases data.len() - i,
    {
        out.push(data[i]);
        i = i + 1;
    }
    proof {
        assert(out@ =~= data@);
    }
    out
}

/// A copy of a list of strings, equal in its deep view.
pub fn clone_strings(v: &Vec<String>) -> (r: Vec<String>)
    ensures
        r.deep_view() == v.deep_view(),
{
    let mut out: Vec<String> = Vec::new();
    let mut i: usize = 0;
    while i < v.len()
        invariant
            i <= v.len(),
            out@.len() == i,
            forall|j: int| 0 <= j < i as int ==> out@[j]@ == v@[j]@,
        decreases v.len() - i,
    {
        out.push(v[i].clone());
        i = i + 1;
    }
    proof {
        assert(out.deep_view() =~~= v.deep_view());
    }
    out
}

} // verus!

//! Bus events as a tagged union over the engine's closed set of message
//! kinds, with lazy, ownership-preserving decoding.  A plain variant holds
//! only the handle of the message object; `parse` deep-copies the object
//! and, for the kinds that carry a decodable payload, returns an enriched
//! variant carrying both the fresh handle and the independently owned
//! decoded values.  The source message is never mutated.

use vstd::prelude::*;
use crate::{Handle, Transfer};
use crate::engine::{
    appended_eqv, body_eqv, clone_content, content_eqv, ref_added, ref_dropped, Content,
    Engine, MessageKind,
    MsgBody, State, NULL_HANDLE,
};
use crate::error::Error;
use crate::object::{is_object, object_name, Object};
use crate::reference::Reference;

verus! {

/// A bus event.  Plain variants carry the handle of the message object;
/// the `*Parsed` variants additionally carry the decoded payload, which is
/// owned independently of the engine.
pub enum Message {
    Unknown(usize),
    Eos(usize),
    Error(usize),
    ErrorParsed { msg: usize, error: Error, debug: String },
    Warning(usize),
    WarningParsed { msg: usize, error: Error, debug: String },
    Info(usize),
    InfoParsed { msg: usize, error: Error, debug: String },
    Tag(usize),
    TagParsed { msg: usize, tags: Vec<String> },
    Buffering(usize),
    BufferingParsed { msg: usize, pct: i32 },
    StateChanged(usize),
    StateChangedParsed { msg: usize, old_state: State, new_state: State, pending: State },
    StateDirty(usize),
    StepDone(usize),
    ClockProvide(usize),
    ClockLost(usize),
    NewClock(usize),
    StructureChange(usize),
    StreamStatus(usize),
    Application(usize),
    Element(usize),
    SegmentStart(usize),
    SegmentDone(usize),
    DurationChanged(usize),
    Latency(usize),
    AsyncStart(usize),
    AsyncDone(usize),
    RequestState(usize),
    StepStart(usize),
    Qos(usize),
    Progress(usize),
    Toc(usize),
    ResetTime(usize),
    StreamStart(usize),
    NeedContext(usize),
    HaveContext(usize),
    Extended(usize),
    DeviceAdded(usize),
    DeviceRemoved(usize),
    Any(usize),
}

/// The kind recorded for message object `h`.
pub open spec fn msg_kind(eng: Engine, h: usize) -> MessageKind {
    match eng.content(h) {
        Content::MsgInfo { kind, .. } => kind,
        _ => MessageKind::Unknown,
    }
}

/// The sequence number recorded for message object `h`.
pub open spec fn msg_seqnum(eng: Engine, h: usize) -> u32 {
    match eng.content(h) {
        Content::MsgInfo { seqnum, .. } => seqnum,
        _ => 0,
    }
}

/// The timestamp recorded for message object `h`.
pub open spec fn msg_timestamp(eng: Engine, h: usize) -> u64 {
    match eng.content(h) {
        Content::MsgInfo { timestamp, .. } => timestamp,
        _ => 0,
    }
}

/// The posting object's handle recorded for message object `h`.
pub open spec fn msg_src(eng: Engine, h: usize) -> usize {
    match eng.content(h) {
        Content::MsgInfo { src, .. } => src,
        _ => NULL_HANDLE,
    }
}

/// The posting object's name recorded for message object `h`.
pub open spec fn msg_src_name(eng: Engine, h: usize) -> Seq<char> {
    match eng.content(h) {
        Content::MsgInfo { src_name, .. } => src_name@,
        _ => Seq::empty(),
    }
}

/// The payload recorded for message object `h`.
pub open spec fn msg_body(eng: Engine, h: usize) -> MsgBody {
    match eng.content(h) {
        Content::MsgInfo { body, .. } => body,
        _ => MsgBody::Plain,
    }
}

/// A kind and a payload fit together: each payload-carrying kind holds its
/// own payload form, every other kind holds none.  Every message this
/// library creates satisfies this.
pub open spec fn kind_body_coherent(kind: MessageKind, body: MsgBody) -> bool {
    match kind {
        MessageKind::Error => body is Fault,
        MessageKind::Warning => body is Fault,
        MessageKind::Info => body is Fault,
        MessageKind::Tag => body is TagData,
        MessageKind::Buffering => body is BufferingData,
        MessageKind::StateChanged => body is StateData,
        MessageKind::Application => body is StructData,
        MessageKind::Element => body is StructData,
        MessageKind::ClockProvide => body is ClockData,
        MessageKind::ClockLost => body is ClockData,
        MessageKind::NewClock => body is ClockData,
        _ => body is Plain,
    }
}

/// `h` is a message object whose kind and payload fit together.
pub open spec fn is_message(eng: Engine, h: usize) -> bool {
    &&& eng.content(h) is MsgInfo
    &&& kind_body_coherent(msg_kind(eng, h), msg_body(eng, h))
}

impl Message {
    /// The handle of the message object this variant carries.
    pub open spec fn handle_of(&self) -> usize {
        match *self {
            Message::Unknown(msg) => msg,
            Message::Eos(msg) => msg,
            Message::Error(msg) => msg,
            Message::ErrorParsed { msg, .. } => msg,
            Message::Warning(msg) => msg,
            Message::WarningParsed { msg, .. } => msg,
            Message::Info(msg) => msg,
            Message::InfoParsed { msg, .. } => msg,
            Message::Tag(msg) => msg,
            Message::TagParsed { msg, .. } => msg,
            Message::Buffering(msg) => msg,
            Message::BufferingParsed { msg, .. } => msg,
            Message::StateChanged(msg) => msg,
            Message::StateChangedParsed { msg, .. } => msg,
            Message::StateDirty(msg) => msg,
            Message::StepDone(msg) => msg,
            Message::ClockProvide(msg) => msg,
            Message::ClockLost(msg) => msg,
            Message::NewClock(msg) => msg,
            Message::StructureChange(msg) => msg,
            Message::StreamStatus(msg) => msg,
            Message::Application(msg) => msg,
            Message::Element(msg) => msg,
            Message::SegmentStart(msg) => msg,
            Message::SegmentDone(msg) => msg,
            Message::DurationChanged(msg) => msg,
            Message::Latency(msg) => msg,
            Message::AsyncStart(msg) => msg,
            Message::AsyncDone(msg) => msg,
            Message::RequestState(msg) => msg,
            Message::StepStart(msg) => msg,
            Message::Qos(msg) => msg,
            Message::Progress(msg) => msg,
            Message::Toc(msg) => msg,
            Message::ResetTime(msg) => msg,
            Message::StreamStart(msg) => msg,
            Message::NeedContext(msg) => msg,
            Message::HaveContext(msg) => msg,
            Message::Extended(msg) => msg,
            Message::DeviceAdded(msg) => msg,
            Message::DeviceRemoved(msg) => msg,
            Message::Any(msg) => msg,
        }
    }

    /// The kind this variant stands for; an enriched variant has the kind
    /// of the plain variant it was decoded from.
    pub open spec fn base_kind(&self) -> MessageKind {
        match *self {
            Message::Unknown(..) => MessageKind::Unknown,
            Message::Eos(..) => MessageKind::Eos,
            Message::Error(..) => MessageKind::Error,
            Message::ErrorParsed { .. } => MessageKind::Error,
            Message::Warning(..) => MessageKind::Warning,
            Message::WarningParsed { .. } => MessageKind::Warning,
            Message::Info(..) => MessageKind::Info,
            Message::InfoParsed { .. } => MessageKind::Info,
            Message::Tag(..) => MessageKind::Tag,
            Message::TagParsed { .. } => MessageKind::Tag,
            Message::Buffering(..) => MessageKind::Buffering,
            Message::BufferingParsed { .. } => MessageKind::Buffering,
            Message::StateChanged(..) => MessageKind::StateChanged,
            Message::StateChangedParsed { .. } => MessageKind::StateChanged,
            Message::StateDirty(..) => MessageKind::StateDirty,
            Message::StepDone(..) => MessageKind::StepDone,
            Message::ClockProvide(..) => MessageKind::ClockProvide,
            Message::ClockLost(..) => MessageKind::ClockLost,
            Message::NewClock(..) => MessageKind::NewClock,
            Message::StructureChange(..) => MessageKind::StructureChange,
            Message::StreamStatus(..) => MessageKind::StreamStatus,
            Message::Application(..) => MessageKind::Application,
            Message::Element(..) => MessageKind::Element,
            Message::SegmentStart(..) => MessageKind::SegmentStart,
            Message::SegmentDone(..) => MessageKind::SegmentDone,
            Message::DurationChanged(..) => MessageKind::DurationChanged,
            Message::Latency(..) => MessageKind::Latency,
            Message::AsyncStart(..) => MessageKind::AsyncStart,
            Message::AsyncDone(..) => MessageKind::AsyncDone,
            Message::RequestState(..) => MessageKind::RequestState,
            Message::StepStart(..) => MessageKind::StepStart,
            Message::Qos(..) => MessageKind::Qos,
            Message::Progress(..) => MessageKind::Progress,
            Message::Toc(..) => MessageKind::Toc,
            Message::ResetTime(..) => MessageKind::ResetTime,
            Message::StreamStart(..) => MessageKind::StreamStart,
            Message::NeedContext(..) => MessageKind::NeedContext,
            Message::HaveContext(..) => MessageKind::HaveContext,
            Message::Extended(..) => MessageKind::Extended,
            Message::DeviceAdded(..) => MessageKind::DeviceAdded,
            Message::DeviceRemoved(..) => MessageKind::DeviceRemoved,
            Message::Any(..) => MessageKind::Any,
        }
    }

    /// Whether this is an enriched variant carrying decoded payload.
    pub open spec fn is_parsed(&self) -> bool {
        match *self {
            Message::ErrorParsed { .. } => true,
            Message::WarningParsed { .. } => true,
            Message::InfoParsed { .. } => true,
            Message::TagParsed { .. } => true,
            Message::BufferingParsed { .. } => true,
            Message::StateChangedParsed { .. } => true,
            _ => false,
        }
    }
}

/// The plain variant for a kind and a handle.
fn wrap(kind: MessageKind, h: usize) -> (m: Message)
    ensures
        m.handle_of() == h,
        m.base_kind() == kind,
        !m.is_parsed(),
{
    match kind {
        MessageKind::Unknown => Message::Unknown(h),
        MessageKind::Eos => Message::Eos(h),
        MessageKind::Error => Message::Error(h),
        MessageKind::Warning => Message::Warning(h),
        MessageKind::Info => Message::Info(h),
        MessageKind::Tag => Message::Tag(h),
        MessageKind::Buffering => Message::Buffering(h),
        MessageKind::StateChanged => Message::StateChanged(h),
        MessageKind::StateDirty => Message::StateDirty(h),
        MessageKind::StepDone => Message::StepDone(h),
        MessageKind::ClockProvide => Message::ClockProvide(h),
        MessageKind::ClockLost => Message::ClockLost(h),
        MessageKind::NewClock => Message::NewClock(h),
        MessageKind::StructureChange => Message::StructureChange(h),
        MessageKind::StreamStatus => Message::StreamStatus(h),
        MessageKind::Application => Message::Application(h),
        MessageKind::Element => Message::Element(h),
        MessageKind::SegmentStart => Message::SegmentStart(h),
        MessageKind::SegmentDone => Message::SegmentDone(h),
        MessageKind::DurationChanged => Message::DurationChanged(h),
        MessageKind::Latency => Message::Latency(h),
        MessageKind::AsyncStart => Message::AsyncStart(h),
        MessageKind::AsyncDone => Message::AsyncDone(h),
        MessageKind::RequestState => Message::RequestState(h),
        MessageKind::StepStart => Message::StepStart(h),
        MessageKind::Qos => Message::Qos(h),
        MessageKind::Progress => Message::Progress(h),
        MessageKind::Toc => Message::Toc(h),
        MessageKind::ResetTime => Message::ResetTime(h),
        MessageKind::StreamStart => Message::StreamStart(h),
        MessageKind::NeedContext => Message::NeedContext(h),
        MessageKind::HaveContext => Message::HaveContext(h),
        MessageKind::Extended => Message::Extended(h),
        MessageKind::DeviceAdded => Message::DeviceAdded(h),
        MessageKind::DeviceRemoved => Message::DeviceRemoved(h),
        MessageKind::Any => Message::Any(h),
    }
}

/// The handle of the posting object named by a constructor argument.
pub open spec fn src_of(src: Option<&Object>) -> usize {
    match src {
        Some(o) => o.raw(),
        None => NULL_HANDLE,
    }
}

/// The name of the posting object named by a constructor argument.
pub open spec fn src_label(eng: Engine, src: Option<&Object>) -> Seq<char> {
    match src {
        Some(o) => object_name(eng, o.raw()),
        None => Seq::empty(),
    }
}

/// A constructor argument is acceptable: absent, or a live object.
pub open spec fn src_ok(eng: Engine, src: Option<&Object>) -> bool {
    match src {
        Some(o) => eng.in_range(o.raw()) && is_object(eng, o.raw()) && o.raw() != NULL_HANDLE,
        None => true,
    }
}

/// What every message constructor establishes, short of the payload: one
/// fresh message object owned by the returned wrapper, carrying the next
/// sequence number, no timestamp, and the posting object's handle and
/// name.
pub open spec fn fresh_msg(
    pre: Engine,
    post: Engine,
    m: Message,
    kind: MessageKind,
    src: usize,
    src_name: Seq<char>,
) -> bool {
    &&& post.slots@.len() == pre.slots@.len() + 1
    &&& forall|j: int| 0 <= j < pre.slots@.len() ==> post.slots@[j] == pre.slots@[j]
    &&& post.next_seqnum == pre.next_seqnum + 1
    &&& m.handle_of() as int == pre.n_slots()
    &&& !m.is_parsed()
    &&& m.base_kind() == kind
    &&& post.live(m.handle_of())
    &&& post.count(m.handle_of()) == 1
    &&& post.lock_state(m.handle_of()) is None
    &&& post.flag_bits(m.handle_of()) == 0
    &&& is_message(post, m.handle_of())
    &&& msg_kind(post, m.handle_of()) == kind
    &&& msg_seqnum(post, m.handle_of()) == pre.next_seqnum
    &&& msg_timestamp(post, m.handle_of()) == u64::MAX
    &&& msg_src(post, m.handle_of()) == src
    &&& msg_src_name(post, m.handle_of()) == src_name
}

/// Allocate one fresh message object and wrap it.
fn alloc_msg(eng: &mut Engine, kind: MessageKind, src: Option<&Object>, body: MsgBody) -> (m:
    Message)
    requires
        old(eng).wf(),
        old(eng).next_seqnum < u32::MAX,
        src_ok(*old(eng), src),
        kind_body_coherent(kind, body),
    ensures
        fresh_msg(*old(eng), *final(eng), m, kind, src_of(src), src_label(*old(eng), src)),
        body_eqv(msg_body(*final(eng), m.handle_of()), body),
        final(eng).wf(),
    {
    let seqnum = eng.take_seqnum();
    let (src_handle, src_name): (usize, String) = match src {
        Some(o) => (o.handle(), o.name(eng)),
        None => (NULL_HANDLE, String::new()),
    };
    let h = eng.allocate(
        Content::MsgInfo {
            kind,
            seqnum,
            timestamp: u64::MAX,
            src: src_handle,
            src_name,
            body,
        },
    );
    wrap(kind, h)
}

impl Handle for Message {
    open spec fn raw(&self) -> usize {
        self.handle_of()
    }

    fn handle(&self) -> usize {
        self.gst_message()
    }
}

impl Message {
    /// Wrap a message handle the caller does not own: take a fresh
    /// reference and tag the wrapper by the recorded kind.  The null
    /// handle gives no wrapper, no fault, and no engine change.
    pub fn new(eng: &mut Engine, h: usize) -> (r: Option<Message>)
        requires
            h == NULL_HANDLE || (old(eng).live(h) && old(eng).count(h) < u32::MAX && old(
                eng,
            ).content(h) is MsgInfo),
        ensures
            h == NULL_HANDLE ==> r is None && *final(eng) == *old(eng),
            h != NULL_HANDLE ==> (r matches Some(m) && m.handle_of() == h && !m.is_parsed()
                && m.base_kind() == msg_kind(*old(eng), h)) && ref_added(
                *old(eng),
                *final(eng),
                h,
            ),
    {
        if h == NULL_HANDLE {
            return None;
        }
        let kind = match eng.content_ref(h) {
            Content::MsgInfo { kind, .. } => *kind,
            _ => MessageKind::Unknown,
        };
        eng.incref(h);
        Some(wrap(kind, h))
    }

    /// A fresh end-of-stream message.
    pub fn new_eos(eng: &mut Engine, src: Option<&Object>) -> (r: Option<Message>)
        requires
            old(eng).wf(),
            old(eng).next_seqnum < u32::MAX,
            src_ok(*old(eng), src),
        ensures
            r matches Some(m) && fresh_msg(
                *old(eng),
                *final(eng),
                m,
                MessageKind::Eos,
                src_of(src),
                src_label(*old(eng), src),
            ),
            final(eng).wf(),
    {
        Some(alloc_msg(eng, MessageKind::Eos, src, MsgBody::Plain))
    }

    /// A fresh error message carrying a copy of `error` and the debug
    /// string.
    pub fn new_error(eng: &mut Engine, src: Option<&Object>, error: &Error, debug: &str) -> (r:
        Option<Message>)
        requires
            old(eng).wf(),
            old(eng).next_seqnum < u32::MAX,
            src_ok(*old(eng), src),
        ensures
            r matches Some(m) && fresh_msg(
                *old(eng),
                *final(eng),
                m,
                MessageKind::Error,
                src_of(src),
                src_label(*old(eng), src),
            ) && (msg_body(*final(eng), m.handle_of()) matches MsgBody::Fault {
                domain,
                code,
                text,
                debug: d,
            } && domain == error.domain && code == error.code && text@ == error.message@ && d@
                == debug@),
            final(eng).wf(),
    {
        let body = MsgBody::Fault {
            domain: error.domain,
            code: error.code,
            text: error.message.clone(),
            debug: debug.to_owned(),
        };
        Some(alloc_msg(eng, MessageKind::Error, src, body))
    }

    /// A fresh warning message carrying a copy of `error` and the debug
    /// string.
    pub fn new_warning(eng: &mut Engine, src: Option<&Object>, error: &Error, debug: &str) -> (r:
        Option<Message>)
        requires
            old(eng).wf(),
            old(eng).next_seqnum < u32::MAX,
            src_ok(*old(eng), src),
        ensures
            r matches Some(m) && fresh_msg(
                *old(eng),
                *final(eng),
                m,
                MessageKind::Warning,
                src_of(src),
                src_label(*old(eng), src),
            ) && (msg_body(*final(eng), m.handle_of()) matches MsgBody::Fault {
                domain,
                code,
                text,
                debug: d,
            } && domain == error.domain && code == error.code && text@ == error.message@ && d@
                == debug@),
            final(eng).wf(),
    {
        let body = MsgBody::Fault {
            domain: error.domain,
            code: error.code,
            text: error.message.clone(),
            debug: debug.to_owned(),
        };
        Some(alloc_msg(eng, MessageKind::Warning, src, body))
    }

    /// A fresh info message carrying a copy of `error` and the debug
    /// string.
    pub fn new_info(eng: &mut Engine, src: Option<&Object>, error: &Error, debug: &str) -> (r:
        Option<Message>)
        requires
            old(eng).wf(),
            old(eng).next_seqnum < u32::MAX,
            src_ok(*old(eng), src),
        ensures
            r matches Some(m) && fresh_msg(
                *old(eng),
                *final(eng),
                m,
                MessageKind::Info,
                src_of(src),
                src_label(*old(eng), src),
            ) && (msg_body(*final(eng), m.handle_of()) matches MsgBody::Fault {
                domain,
                code,
                text,
                debug: d,
            } && domain == error.domain && code == error.code && text@ == error.message@ && d@
                == debug@),
            final(eng).wf(),
    {
        let body = MsgBody::Fault {
            domain: error.domain,
            code: error.code,
            text: error.message.clone(),
            debug: debug.to_owned(),
        };
        Some(alloc_msg(eng, MessageKind::Info, src, body))
    }

    /// A fresh tag message carrying the given tag container.
    pub fn new_tag(eng: &mut Engine, src: Option<&Object>, tags: Vec<String>) -> (r: Option<
        Message,
    >)
        requires
            old(eng).wf(),
            old(eng).next_seqnum < u32::MAX,
            src_ok(*old(eng), src),
        ensures
            r matches Some(m) && fresh_msg(
                *old(eng),
                *final(eng),
                m,
                MessageKind::Tag,
                src_of(src),
                src_label(*old(eng), src),
            ) && (msg_body(*final(eng), m.handle_of()) matches MsgBody::TagData { tags: t }
                && t.deep_view() == tags.deep_view()),
            final(eng).wf(),
    {
        Some(alloc_msg(eng, MessageKind::Tag, src, MsgBody::TagData { tags }))
    }

    /// A fresh buffering message carrying a completion percentage.
    pub fn new_buffering(eng: &mut Engine, src: Option<&Object>, pct: i32) -> (r: Option<Message>)
        requires
            old(eng).wf(),
            old(eng).next_seqnum < u32::MAX,
            src_ok(*old(eng), src),
        ensures
            r matches Some(m) && fresh_msg(
                *old(eng),
                *final(eng),
                m,
                MessageKind::Buffering,
                src_of(src),
                src_label(*old(eng), src),
            ) && msg_body(*final(eng), m.handle_of()) == (MsgBody::BufferingData { pct }),
            final(eng).wf(),
    {
        Some(alloc_msg(eng, MessageKind::Buffering, src, MsgBody::BufferingData { pct }))
    }

    /// A fresh state-transition message.
    pub fn new_state_changed(
        eng: &mut Engine,
        src: Option<&Object>,
        old_state: State,
        new_state: State,
        pending: State,
    ) -> (r: Option<Message>)
        requires
            old(eng).wf(),
            old(eng).next_seqnum < u32::MAX,
            src_ok(*old(eng), src),
        ensures
            r matches Some(m) && fresh_msg(
                *old(eng),
                *final(eng),
                m,
                MessageKind::StateChanged,
                src_of(src),
                src_label(*old(eng), src),
            ) && msg_body(*final(eng), m.handle_of()) == (MsgBody::StateData {
                old_state,
                new_state,
                pending,
            }),
            final(eng).wf(),
    {
        Some(
            alloc_msg(
                eng,
                MessageKind::StateChanged,
                src,
                MsgBody::StateData { old_state, new_state, pending },
            ),
        )
    }

    /// A fresh state-dirty message.
    pub fn new_state_dirty(eng: &mut Engine, src: Option<&Object>) -> (r: Option<Message>)
        requires
            old(eng).wf(),
            old(eng).next_seqnum < u32::MAX,
            src_ok(*old(eng), src),
        ensures
            r matches Some(m) && fresh_msg(
                *old(eng),
                *final(eng),
                m,
                MessageKind::StateDirty,
                src_of(src),
                src_label(*old(eng), src),
            ),
            final(eng).wf(),
    {
        Some(alloc_msg(eng, MessageKind::StateDirty, src, MsgBody::Plain))
    }

    /// A fresh clock-provide message.
    pub fn new_clock_provide(eng: &mut Engine, src: Option<&Object>, clock: &Object, ready: bool)
        -> (r: Option<Message>)
        requires
            old(eng).wf(),
            old(eng).next_seqnum < u32::MAX,
            src_ok(*old(eng), src),
        ensures
            r matches Some(m) && fresh_msg(
                *old(eng),
                *final(eng),
                m,
                MessageKind::ClockProvide,
                src_of(src),
                src_label(*old(eng), src),
            ) && msg_body(*final(eng), m.handle_of()) == (MsgBody::ClockData {
                clock: clock.raw(),
                ready,
            }),
            final(eng).wf(),
    {
        let c = clock.handle();
        Some(alloc_msg(eng, MessageKind::ClockProvide, src, MsgBody::ClockData { clock: c, ready }))
    }

    /// A fresh clock-lost message.
    pub fn new_clock_lost(eng: &mut Engine, src: Option<&Object>, clock: &Object) -> (r: Option<
        Message,
    >)
        requires
            old(eng).wf(),
            old(eng).next_seqnum < u32::MAX,
            src_ok(*old(eng), src),
        ensures
            r matches Some(m) && fresh_msg(
                *old(eng),
                *final(eng),
                m,
                MessageKind::ClockLost,
                src_of(src),
                src_label(*old(eng), src),
            ) && msg_body(*final(eng), m.handle_of()) == (MsgBody::ClockData {
                clock: clock.raw(),
                ready: false,
            }),
            final(eng).wf(),
    {
        let c = clock.handle();
        Some(
            alloc_msg(
                eng,
                MessageKind::ClockLost,
                src,
                MsgBody::ClockData { clock: c, ready: false },
            ),
        )
    }

    /// A fresh new-clock message.
    pub fn new_new_clock(eng: &mut Engine, src: Option<&Object>, clock: &Object) -> (r: Option<
        Message,
    >)
        requires
            old(eng).wf(),
            old(eng).next_seqnum < u32::MAX,
            src_ok(*old(eng), src),
        ensures
            r matches Some(m) && fresh_msg(
                *old(eng),
                *final(eng),
                m,
                MessageKind::NewClock,
                src_of(src),
                src_label(*old(eng), src),
            ) && msg_body(*final(eng), m.handle_of()) == (MsgBody::ClockData {
                clock: clock.raw(),
                ready: false,
            }),
            final(eng).wf(),
    {
        let c = clock.handle();
        Some(
            alloc_msg(eng, MessageKind::NewClock, src, MsgBody::ClockData { clock: c, ready: false }),
        )
    }

    /// A fresh application-class message carrying a structure name.
    pub fn new_application(eng: &mut Engine, src: Option<&Object>, name: &str) -> (r: Option<
        Message,
    >)
        requires
            old(eng).wf(),
            old(eng).next_seqnum < u32::MAX,
            src_ok(*old(eng), src),
        ensures
            r matches Some(m) && fresh_msg(
                *old(eng),
                *final(eng),
                m,
                MessageKind::Application,
                src_of(src),
                src_label(*old(eng), src),
            ) && (msg_body(*final(eng), m.handle_of()) matches MsgBody::StructData { name: n }
                && n@ == name@),
            final(eng).wf(),
    {
        Some(
            alloc_msg(
                eng,
                MessageKind::Application,
                src,
                MsgBody::StructData { name: name.to_owned() },
            ),
        )
    }

    /// A fresh element-class message carrying a structure name.
    pub fn new_element(eng: &mut Engine, src: Option<&Object>, name: &str) -> (r: Option<Message>)
        requires
            old(eng).wf(),
            old(eng).next_seqnum < u32::MAX,
            src_ok(*old(eng), src),
        ensures
            r matches Some(m) && fresh_msg(
                *old(eng),
                *final(eng),
                m,
                MessageKind::Element,
                src_of(src),
                src_label(*old(eng), src),
            ) && (msg_body(*final(eng), m.handle_of()) matches MsgBody::StructData { name: n }
                && n@ == name@),
            final(eng).wf(),
    {
        Some(
            alloc_msg(eng, MessageKind::Element, src, MsgBody::StructData { name: name.to_owned() }),
        )
    }

    /// A fresh message of a payload-free kind.
    pub fn new_custom(eng: &mut Engine, kind: MessageKind, src: Option<&Object>) -> (r: Option<
        Message,
    >)
        requires
            old(eng).wf(),
            old(eng).next_seqnum < u32::MAX,
            src_ok(*old(eng), src),
            kind_body_coherent(kind, MsgBody::Plain),
        ensures
            r matches Some(m) && fresh_msg(
                *old(eng),
                *final(eng),
                m,
                kind,
                src_of(src),
                src_label(*old(eng), src),
            ),
            final(eng).wf(),
    {
        Some(alloc_msg(eng, kind, src, MsgBody::Plain))
    }

    /// The handle of the underlying message object.
    pub fn gst_message(&self) -> (h: usize)
        ensures
            h == self.handle_of(),
    {
        match self {
            Message::Unknown(msg) => *msg,
            Message::Eos(msg) => *msg,
            Message::Error(msg) => *msg,
            Message::ErrorParsed { msg, .. } => *msg,
            Message::Warning(msg) => *msg,
            Message::WarningParsed { msg, .. } => *msg,
            Message::Info(msg) => *msg,
            Message::InfoParsed { msg, .. } => *msg,
            Message::Tag(msg) => *msg,
            Message::TagParsed { msg, .. } => *msg,
            Message::Buffering(msg) => *msg,
            Message::BufferingParsed { msg, .. } => *msg,
            Message::StateChanged(msg) => *msg,
            Message::StateChangedParsed { msg, .. } => *msg,
            Message::StateDirty(msg) => *msg,
            Message::StepDone(msg) => *msg,
            Message::ClockProvide(msg) => *msg,
            Message::ClockLost(msg) => *msg,
            Message::NewClock(msg) => *msg,
            Message::StructureChange(msg) => *msg,
            Message::StreamStatus(msg) => *msg,
            Message::Application(msg) => *msg,
            Message::Element(msg) => *msg,
            Message::SegmentStart(msg) => *msg,
            Message::SegmentDone(msg) => *msg,
            Message::DurationChanged(msg) => *msg,
            Message::Latency(msg) => *msg,
            Message::AsyncStart(msg) => *msg,
            Message::AsyncDone(msg) => *msg,
            Message::RequestState(msg) => *msg,
            Message::StepStart(msg) => *msg,
            Message::Qos(msg) => *msg,
            Message::Progress(msg) => *msg,
            Message::Toc(msg) => *msg,
            Message::ResetTime(msg) => *msg,
            Message::StreamStart(msg) => *msg,
            Message::NeedContext(msg) => *msg,
            Message::HaveContext(msg) => *msg,
            Message::Extended(msg) => *msg,
            Message::DeviceAdded(msg) => *msg,
            Message::DeviceRemoved(msg) => *msg,
            Message::Any(msg) => *msg,
        }
    }

    /// The handle of the underlying message object, from a wrapper held
    /// mutably.
    pub fn gst_message_mut(&mut self) -> (h: usize)
        ensures
            h == old(self).handle_of(),
            *final(self) == *old(self),
    {
        self.gst_message()
    }

    /// The kind this wrapper stands for.
    pub fn ty(&self) -> (k: MessageKind)
        ensures
            k == self.base_kind(),
    {
        match self {
            Message::Unknown(..) => MessageKind::Unknown,
            Message::Eos(..) => MessageKind::Eos,
            Message::Error(..) => MessageKind::Error,
            Message::ErrorParsed { .. } => MessageKind::Error,
            Message::Warning(..) => MessageKind::Warning,
            Message::WarningParsed { .. } => MessageKind::Warning,
            Message::Info(..) => MessageKind::Info,
            Message::InfoParsed { .. } => MessageKind::Info,
            Message::Tag(..) => MessageKind::Tag,
            Message::TagParsed { .. } => MessageKind::Tag,
            Message::Buffering(..) => MessageKind::Buffering,
            Message::BufferingParsed { .. } => MessageKind::Buffering,
            Message::StateChanged(..) => MessageKind::StateChanged,
            Message::StateChangedParsed { .. } => MessageKind::StateChanged,
            Message::StateDirty(..) => MessageKind::StateDirty,
            Message::StepDone(..) => MessageKind::StepDone,
            Message::ClockProvide(..) => MessageKind::ClockProvide,
            Message::ClockLost(..) => MessageKind::ClockLost,
            Message::NewClock(..) => MessageKind::NewClock,
            Message::StructureChange(..) => MessageKind::StructureChange,
            Message::StreamStatus(..) => MessageKind::StreamStatus,
            Message::Application(..) => MessageKind::Application,
            Message::Element(..) => MessageKind::Element,
            Message::SegmentStart(..) => MessageKind::SegmentStart,
            Message::SegmentDone(..) => MessageKind::SegmentDone,
            Message::DurationChanged(..) => MessageKind::DurationChanged,
            Message::Latency(..) => MessageKind::Latency,
            Message::AsyncStart(..) => MessageKind::AsyncStart,
            Message::AsyncDone(..) => MessageKind::AsyncDone,
            Message::RequestState(..) => MessageKind::RequestState,
            Message::StepStart(..) => MessageKind::StepStart,
            Message::Qos(..) => MessageKind::Qos,
            Message::Progress(..) => MessageKind::Progress,
            Message::Toc(..) => MessageKind::Toc,
            Message::ResetTime(..) => MessageKind::ResetTime,
            Message::StreamStart(..) => MessageKind::StreamStart,
            Message::NeedContext(..) => MessageKind::NeedContext,
            Message::HaveContext(..) => MessageKind::HaveContext,
            Message::Extended(..) => MessageKind::Extended,
            Message::DeviceAdded(..) => MessageKind::DeviceAdded,
            Message::DeviceRemoved(..) => MessageKind::DeviceRemoved,
            Message::Any(..) => MessageKind::Any,
        }
    }


    /// The canonical name of the kind this wrapper stands for.
    pub fn type_label(&self) -> (n: String)
        ensures
            n@ == kind_name(self.base_kind()),
    {
        match self.ty() {
            MessageKind::Unknown => "unknown".to_owned(),
            MessageKind::Eos => "eos".to_owned(),
            MessageKind::Error => "error".to_owned(),
            MessageKind::Warning => "warning".to_owned(),
            MessageKind::Info => "info".to_owned(),
            MessageKind::Tag => "tag".to_owned(),
            MessageKind::Buffering => "buffering".to_owned(),
            MessageKind::StateChanged => "state-changed".to_owned(),
            MessageKind::StateDirty => "state-dirty".to_owned(),
            MessageKind::StepDone => "step-done".to_owned(),
            MessageKind::ClockProvide => "clock-provide".to_owned(),
            MessageKind::ClockLost => "clock-lost".to_owned(),
            MessageKind::NewClock => "new-clock".to_owned(),
            MessageKind::StructureChange => "structure-change".to_owned(),
            MessageKind::StreamStatus => "stream-status".to_owned(),
            MessageKind::Application => "application".to_owned(),
            MessageKind::Element => "element".to_owned(),
            MessageKind::SegmentStart => "segment-start".to_owned(),
            MessageKind::SegmentDone => "segment-done".to_owned(),
            MessageKind::DurationChanged => "duration-changed".to_owned(),
            MessageKind::Latency => "latency".to_owned(),
            MessageKind::AsyncStart => "async-start".to_owned(),
            MessageKind::AsyncDone => "async-done".to_owned(),
            MessageKind::RequestState => "request-state".to_owned(),
            MessageKind::StepStart => "step-start".to_owned(),
            MessageKind::Qos => "qos".to_owned(),
            MessageKind::Progress => "progress".to_owned(),
            MessageKind::Toc => "toc".to_owned(),
            MessageKind::ResetTime => "reset-time".to_owned(),
            MessageKind::StreamStart => "stream-start".to_owned(),
            MessageKind::NeedContext => "need-context".to_owned(),
            MessageKind::HaveContext => "have-context".to_owned(),
            MessageKind::Extended => "extended".to_owned(),
            MessageKind::DeviceAdded => "device-added".to_owned(),
            MessageKind::DeviceRemoved => "device-removed".to_owned(),
            MessageKind::Any => "any".to_owned(),
        }
    }

    /// The message's sequence number, as the engine records it.
    pub fn seqnum(&self, eng: &Engine) -> (s: u32)
        requires
            eng.in_range(self.handle_of()),
        ensures
            s == msg_seqnum(*eng, self.handle_of()),
    {
        match eng.content_ref(self.gst_message()) {
            Content::MsgInfo { seqnum, .. } => *seqnum,
            _ => 0,
        }
    }

    /// Give the message a new sequence number; everything else about it
    /// stays.
    pub fn set_seqnum(&mut self, eng: &mut Engine, seqnum: u32)
        requires
            old(eng).live(old(self).handle_of()),
            old(eng).content(old(self).handle_of()) is MsgInfo,
        ensures
            *final(self) == *old(self),
            crate::engine::same_except(*old(eng), *final(eng), old(self).handle_of()),
            final(eng).content(old(self).handle_of()) is MsgInfo,
            msg_seqnum(*final(eng), old(self).handle_of()) == seqnum,
            msg_kind(*final(eng), old(self).handle_of()) == msg_kind(
                *old(eng),
                old(self).handle_of(),
            ),
            msg_timestamp(*final(eng), old(self).handle_of()) == msg_timestamp(
                *old(eng),
                old(self).handle_of(),
            ),
            msg_src(*final(eng), old(self).handle_of()) == msg_src(
                *old(eng),
                old(self).handle_of(),
            ),
            msg_src_name(*final(eng), old(self).handle_of()) == msg_src_name(
                *old(eng),
                old(self).handle_of(),
            ),
            body_eqv(
                msg_body(*final(eng), old(self).handle_of()),
                msg_body(*old(eng), old(self).handle_of()),
            ),
            final(eng).count(old(self).handle_of()) == old(eng).count(old(self).handle_of()),
    {
        let h = self.gst_message();
        let c = clone_content(eng.content_ref(h));
        match c {
            Content::MsgInfo { kind, seqnum: _, timestamp, src, src_name, body } => {
                eng.set_content(
                    h,
                    Content::MsgInfo { kind, seqnum, timestamp, src, src_name, body },
                );
            },
            _ => {},
        }
    }

    /// The message's timestamp, as the engine records it.
    pub fn timestamp(&self, eng: &Engine) -> (t: u64)
        requires
            eng.in_range(self.handle_of()),
        ensures
            t == msg_timestamp(*eng, self.handle_of()),
    {
        match eng.content_ref(self.gst_message()) {
            Content::MsgInfo { timestamp, .. } => *timestamp,
            _ => 0,
        }
    }

    /// The handle of the object that posted the message; the null handle
    /// when none was given.
    pub fn src(&self, eng: &Engine) -> (s: usize)
        requires
            eng.in_range(self.handle_of()),
        ensures
            s == msg_src(*eng, self.handle_of()),
    {
        match eng.content_ref(self.gst_message()) {
            Content::MsgInfo { src, .. } => *src,
            _ => NULL_HANDLE,
        }
    }

    /// The name of the object that posted the message, as recorded when
    /// the message was made.
    pub fn src_name(&self, eng: &Engine) -> (n: String)
        requires
            eng.in_range(self.handle_of()),
        ensures
            n@ == msg_src_name(*eng, self.handle_of()),
    {
        match eng.content_ref(self.gst_message()) {
            Content::MsgInfo { src_name, .. } => src_name.clone(),
            _ => String::new(),
        }
    }

    /// The name of the structure an application- or element-class message
    /// carries; `None` for every other payload.
    pub fn structure(&self, eng: &Engine) -> (r: Option<String>)
        requires
            eng.in_range(self.handle_of()),
        ensures
            msg_body(*eng, self.handle_of()) matches MsgBody::StructData { name } ==> (
            r matches Some(n) && n@ == name@),
            !(msg_body(*eng, self.handle_of()) is StructData) ==> r is None,
    {
        match eng.content_ref(self.gst_message()) {
            Content::MsgInfo { body: MsgBody::StructData { name }, .. } => Some(name.clone()),
            _ => None,
        }
    }

    /// Whether the underlying message object is exclusively owned and may
    /// be written to.
    pub fn is_writable(&self, eng: &Engine) -> (w: bool)
        requires
            eng.in_range(self.handle_of()),
        ensures
            w == (eng.count(self.handle_of()) == 1),
    {
        eng.count_of(self.gst_message()) == 1
    }

    /// Copy-on-write: when this wrapper is the only owner, the same
    /// message comes back, untouched; when the object is shared, the held
    /// reference is released and a private deep copy with a count of one
    /// comes back instead.  Either way the result is unparsed, of the
    /// same kind, and writable.  Callers must not assume the message's
    /// identity survives this call.
    pub fn make_writable(self, eng: &mut Engine) -> (r: Option<Message>)
        requires
            old(eng).wf(),
            old(eng).live(self.handle_of()),
            old(eng).content(self.handle_of()) is MsgInfo,
        ensures
            r matches Some(m) && {
                &&& !m.is_parsed()
                &&& m.base_kind() == msg_kind(*old(eng), self.handle_of())
                &&& final(eng).wf()
                &&& final(eng).live(m.handle_of())
                &&& old(eng).count(self.handle_of()) == 1 ==> m.handle_of()
                    == self.handle_of() && *final(eng) == *old(eng)
                &&& old(eng).count(self.handle_of()) > 1 ==> {
                    &&& m.handle_of() as int == old(eng).n_slots()
                    &&& final(eng).count(m.handle_of()) == 1
                    &&& content_eqv(
                        final(eng).content(m.handle_of()),
                        old(eng).content(self.handle_of()),
                    )
                    &&& exists|mid: Engine|
                        ref_dropped(*old(eng), mid, self.handle_of()) && appended_eqv(
                            mid,
                            *final(eng),
                            old(eng).content(self.handle_of()),
                        )
                }
            },
    {
        let h = self.gst_message();
        let kind = match eng.content_ref(h) {
            Content::MsgInfo { kind, .. } => *kind,
            _ => MessageKind::Unknown,
        };
        let count = eng.count_of(h);
        if count == 1 {
            Some(wrap(kind, h))
        } else {
            let copy = clone_content(eng.content_ref(h));
            eng.decref(h);
            let ghost mid = *eng;
            let fresh = eng.allocate(copy);
            proof {
                assert(ref_dropped(*old(eng), mid, h) && appended_eqv(
                    mid,
                    *final(eng),
                    old(eng).content(h),
                ));
            }
            Some(wrap(kind, fresh))
        }
    }

    /// An independent wrapper sharing the same message: the count goes up
    /// by one and nothing else in the engine changes.  The alias is the
    /// plain variant of this wrapper's kind; decoded payload is not
    /// carried over.
    pub fn reference(&self, eng: &mut Engine) -> (r: Message)
        requires
            old(eng).live(self.handle_of()),
            old(eng).count(self.handle_of()) < u32::MAX,
        ensures
            r.handle_of() == self.handle_of(),
            r.base_kind() == self.base_kind(),
            !r.is_parsed(),
            ref_added(*old(eng), *final(eng), self.handle_of()),
    {
        let h = self.gst_message();
        eng.incref(h);
        wrap(self.ty(), h)
    }

    /// Release the one reference this wrapper holds; the wrapper is gone
    /// afterwards.  Decoded payload carried by an enriched variant is
    /// owned independently and simply dropped with it.
    pub fn unref(self, eng: &mut Engine)
        requires
            old(eng).live(self.handle_of()),
        ensures
            crate::engine::ref_dropped(*old(eng), *final(eng), self.handle_of()),
    {
        let h = self.gst_message();
        eng.decref(h);
    }

    /// Decode the message: deep-copy the underlying object and, for the
    /// kinds that carry payload, return the enriched variant holding the
    /// fresh copy's handle and independently owned decoded values; other
    /// kinds come back as their plain variant on the fresh copy.  The
    /// source message and its engine slot are never touched.
    pub fn parse(&self, eng: &mut Engine) -> (r: Message)
        requires
            old(eng).wf(),
            old(eng).live(self.handle_of()),
            is_message(*old(eng), self.handle_of()),
        ensures
            parse_post(*self, *old(eng), r, *final(eng)),
            final(eng).wf(),
    {
        let h = self.gst_message();
        let copy = clone_content(eng.content_ref(h));
        let payload = clone_content(eng.content_ref(h));
        let fresh = eng.allocate(copy);
        match payload {
            Content::MsgInfo { kind, body, .. } => match kind {
                MessageKind::Error => match body {
                    MsgBody::Fault { domain, code, text, debug } => Message::ErrorParsed {
                        msg: fresh,
                        error: Error { domain, code, message: text },
                        debug,
                    },
                    _ => wrap(kind, fresh),
                },
                MessageKind::Warning => match body {
                    MsgBody::Fault { domain, code, text, debug } => Message::WarningParsed {
                        msg: fresh,
                        error: Error { domain, code, message: text },
                        debug,
                    },
                    _ => wrap(kind, fresh),
                },
                MessageKind::Info => match body {
                    MsgBody::Fault { domain, code, text, debug } => Message::InfoParsed {
                        msg: fresh,
                        error: Error { domain, code, message: text },
                        debug,
                    },
                    _ => wrap(kind, fresh),
                },
                MessageKind::Tag => match body {
                    MsgBody::TagData { tags } => Message::TagParsed { msg: fresh, tags },
                    _ => wrap(kind, fresh),
                },
                MessageKind::Buffering => match body {
                    MsgBody::BufferingData { pct } => Message::BufferingParsed {
                        msg: fresh,
                        pct,
                    },
                    _ => wrap(kind, fresh),
                },
                MessageKind::StateChanged => match body {
                    MsgBody::StateData { old_state, new_state, pending } => Message::StateChangedParsed {
                        msg: fresh,
                        old_state,
                        new_state,
                        pending,
                    },
                    _ => wrap(kind, fresh),
                },
                _ => wrap(kind, fresh),
            },
            _ => wrap(MessageKind::Unknown, fresh),
        }
    }
}

/// The canonical name of each message kind.
pub open spec fn kind_name(k: MessageKind) -> Seq<char> {
    match k {
        MessageKind::Unknown => "unknown"@,
        MessageKind::Eos => "eos"@,
        MessageKind::Error => "error"@,
        MessageKind::Warning => "warning"@,
        MessageKind::Info => "info"@,
        MessageKind::Tag => "tag"@,
        MessageKind::Buffering => "buffering"@,
        MessageKind::StateChanged => "state-changed"@,
        MessageKind::StateDirty => "state-dirty"@,
        MessageKind::StepDone => "step-done"@,
        MessageKind::ClockProvide => "clock-provide"@,
        MessageKind::ClockLost => "clock-lost"@,
        MessageKind::NewClock => "new-clock"@,
        MessageKind::StructureChange => "structure-change"@,
        MessageKind::StreamStatus => "stream-status"@,
        MessageKind::Application => "application"@,
        MessageKind::Element => "element"@,
        MessageKind::SegmentStart => "segment-start"@,
        MessageKind::SegmentDone => "segment-done"@,
        MessageKind::DurationChanged => "duration-changed"@,
        MessageKind::Latency => "latency"@,
        MessageKind::AsyncStart => "async-start"@,
        MessageKind::AsyncDone => "async-done"@,
        MessageKind::RequestState => "request-state"@,
        MessageKind::StepStart => "step-start"@,
        MessageKind::Qos => "qos"@,
        MessageKind::Progress => "progress"@,
        MessageKind::Toc => "toc"@,
        MessageKind::ResetTime => "reset-time"@,
        MessageKind::StreamStart => "stream-start"@,
        MessageKind::NeedContext => "need-context"@,
        MessageKind::HaveContext => "have-context"@,
        MessageKind::Extended => "extended"@,
        MessageKind::DeviceAdded => "device-added"@,
        MessageKind::DeviceRemoved => "device-removed"@,
        MessageKind::Any => "any"@,
    }
}

/// The variant and payload `parse` owes for a source message of content
/// `c`, on the fresh handle it returns.
pub open spec fn parsed_shape(r: Message, c: Content) -> bool {
    c matches Content::MsgInfo { kind, body, .. } ==> match kind {
        MessageKind::Error => (r matches Message::ErrorParsed { error, debug, .. } && (
        body matches MsgBody::Fault { domain, code, text, debug: d } && error.domain == domain
            && error.code == code && error.message@ == text@ && debug@ == d@)),
        MessageKind::Warning => (r matches Message::WarningParsed { error, debug, .. } && (
        body matches MsgBody::Fault { domain, code, text, debug: d } && error.domain == domain
            && error.code == code && error.message@ == text@ && debug@ == d@)),
        MessageKind::Info => (r matches Message::InfoParsed { error, debug, .. } && (
        body matches MsgBody::Fault { domain, code, text, debug: d } && error.domain == domain
            && error.code == code && error.message@ == text@ && debug@ == d@)),
        MessageKind::Tag => (r matches Message::TagParsed { tags, .. } && (
        body matches MsgBody::TagData { tags: t } && tags.deep_view() == t.deep_view())),
        MessageKind::Buffering => (r matches Message::BufferingParsed { pct, .. } && (
        body matches MsgBody::BufferingData { pct: p } && pct == p)),
        MessageKind::StateChanged => (r matches Message::StateChangedParsed {
            old_state,
            new_state,
            pending,
            ..
        } && (body matches MsgBody::StateData { old_state: o, new_state: n, pending: p }
            && old_state == o && new_state == n && pending == p)),
        _ => !r.is_parsed() && r.base_kind() == kind,
    }
}

/// Everything `parse` establishes: the engine grows by exactly one fresh
/// slot, a deep copy of the source message owned solely by the returned
/// wrapper; the source slot — and every other slot — is untouched; and the
/// returned variant carries the payload decoded from the source.
pub open spec fn parse_post(m: Message, pre: Engine, r: Message, post: Engine) -> bool {
    &&& post.slots@.len() == pre.slots@.len() + 1
    &&& forall|j: int| 0 <= j < pre.slots@.len() ==> post.slots@[j] == pre.slots@[j]
    &&& post.next_seqnum == pre.next_seqnum
    &&& r.handle_of() as int == pre.n_slots()
    &&& post.live(r.handle_of())
    &&& post.count(r.handle_of()) == 1
    &&& content_eqv(post.content(r.handle_of()), pre.content(m.handle_of()))
    &&& r.base_kind() == msg_kind(pre, m.handle_of())
    &&& parsed_shape(r, pre.content(m.handle_of()))
}

/// Two enriched variants carry the same decoded payload, compared by
/// views, whatever handles they hold.
pub open spec fn same_payload(r1: Message, r2: Message) -> bool {
    match (r1, r2) {
        (
            Message::ErrorParsed { error: e1, debug: d1, .. },
            Message::ErrorParsed { error: e2, debug: d2, .. },
        ) => e1.domain == e2.domain && e1.code == e2.code && e1.message@ == e2.message@ && d1@
            == d2@,
        (
            Message::WarningParsed { error: e1, debug: d1, .. },
            Message::WarningParsed { error: e2, debug: d2, .. },
        ) => e1.domain == e2.domain && e1.code == e2.code && e1.message@ == e2.message@ && d1@
            == d2@,
        (
            Message::InfoParsed { error: e1, debug: d1, .. },
            Message::InfoParsed { error: e2, debug: d2, .. },
        ) => e1.domain == e2.domain && e1.code == e2.code && e1.message@ == e2.message@ && d1@
            == d2@,
        (Message::TagParsed { tags: t1, .. }, Message::TagParsed { tags: t2, .. }) => t1.deep_view()
            == t2.deep_view(),
        (
            Message::BufferingParsed { pct: p1, .. },
            Message::BufferingParsed { pct: p2, .. },
        ) => p1 == p2,
        (
            Message::StateChangedParsed { old_state: o1, new_state: n1, pending: p1, .. },
            Message::StateChangedParsed { old_state: o2, new_state: n2, pending: p2, .. },
        ) => o1 == o2 && n1 == n2 && p1 == p2,
        _ => !r1.is_parsed() && !r2.is_parsed() && r1.base_kind() == r2.base_kind(),
    }
}

/// Decode idempotence: parsing the same source message twice gives two
/// variants with equal decoded payload but distinct, independently owned
/// handles, each with a count of one; releasing or rewriting either copy
/// cannot touch the other, because every engine operation on a handle
/// leaves every other slot as it was.
pub proof fn lemma_parse_idempotent(
    m: Message,
    e0: Engine,
    r1: Message,
    e1: Engine,
    r2: Message,
    e2: Engine,
)
    requires
        e0.in_range(m.handle_of()),
        is_message(e0, m.handle_of()),
        parse_post(m, e0, r1, e1),
        parse_post(m, e1, r2, e2),
    ensures
        r1.handle_of() != r2.handle_of(),
        r1.base_kind() == r2.base_kind(),
        e2.live(r1.handle_of()),
        e2.live(r2.handle_of()),
        e2.count(r1.handle_of()) == 1,
        e2.count(r2.handle_of()) == 1,
        same_payload(r1, r2),
        content_eqv(e2.content(r1.handle_of()), e2.content(r2.handle_of())),
{
    let h = m.handle_of();
    assert(e1.content(h) == e0.content(h));
    assert(e2.slot(r1.handle_of()) == e1.slot(r1.handle_of()));
    let c = e0.content(h);
    assert(parsed_shape(r1, c) && parsed_shape(r2, c));
    match c {
        Content::MsgInfo { kind, body, .. } => {
            match kind {
                MessageKind::Error => {},
                MessageKind::Warning => {},
                MessageKind::Info => {},
                MessageKind::Tag => {},
                MessageKind::Buffering => {},
                MessageKind::StateChanged => {},
                _ => {},
            }
        },
        _ => {},
    }
}

impl Reference for Message {
    fn reference(&self, eng: &mut Engine) -> (r: Message) {
        Message::reference(self, eng)
    }
}

impl Transfer for Message {
    fn transfer(self) -> usize {
        self.gst_message()
    }
}

} // verus!

//! Wrapper over a data buffer, with scoped, flag-qualified memory mapping.
//! A mapping hands the critical section an owned view of the bytes and is
//! undone on every exit path: whatever the section does, the engine shows
//! no trace of the mapping afterwards beyond the bytes a write mapping
//! stored back.

use vstd::prelude::*;
use crate::{Handle, Transfer};
use crate::engine::{clone_bytes, ref_dropped, same_except, Content, Engine, NULL_HANDLE};
use crate::mapinfo::MapInfo;
use crate::miniobject::MiniObject;
use crate::reference::Reference;

verus! {

/// One strong reference to a buffer.
pub struct Buffer {
    mini: MiniObject,
}

/// `h` is a buffer slot: its content carries bytes.
pub open spec fn is_buffer(eng: Engine, h: usize) -> bool {
    eng.content(h) is Bytes
}

/// The bytes recorded for buffer `h`.
pub open spec fn buffer_data(eng: Engine, h: usize) -> Seq<u8> {
    match eng.content(h) {
        Content::Bytes { data } => data@,
        _ => Seq::empty(),
    }
}

impl Handle for Buffer {
    closed spec fn raw(&self) -> usize {
        self.mini.raw()
    }

    fn handle(&self) -> usize {
        self.mini.handle()
    }
}

impl Buffer {
    /// Wrap a buffer handle whose reference the caller already owns; the
    /// null handle gives no wrapper, and no fault.
    pub fn new(h: usize) -> (r: Option<Buffer>)
        ensures
            h == NULL_HANDLE ==> r is None,
            h != NULL_HANDLE ==> (r matches Some(b) && b.raw() == h),
    {
        match MiniObject::new_from_gst_miniobject(h) {
            Some(mini) => Some(Buffer { mini }),
            None => None,
        }
    }

    /// A fresh buffer holding the given bytes, solely owned by the
    /// returned wrapper — the foreign allocation call.
    pub fn create(eng: &mut Engine, data: Vec<u8>) -> (b: Buffer)
        requires
            old(eng).wf(),
        ensures
            b.raw() as int == old(eng).n_slots(),
            crate::engine::appended(*old(eng), *final(eng), Content::Bytes { data }),
            final(eng).live(b.raw()),
            final(eng).count(b.raw()) == 1,
            is_buffer(*final(eng), b.raw()),
            buffer_data(*final(eng), b.raw()) == data@,
            final(eng).wf(),
    {
        let h = eng.allocate(Content::Bytes { data });
        Buffer { mini: MiniObject::new_from_gst_miniobject(h).unwrap() }
    }

    /// How many bytes the buffer holds.
    pub fn size(&self, eng: &Engine) -> (s: usize)
        requires
            eng.in_range(self.raw()),
        ensures
            s == buffer_data(*eng, self.raw()).len(),
    {
        match eng.content_ref(self.mini.gst_miniobject()) {
            Content::Bytes { data } => data.len(),
            _ => 0,
        }
    }

    /// As [`Buffer::size`].
    pub fn len(&self, eng: &Engine) -> (s: usize)
        requires
            eng.in_range(self.raw()),
        ensures
            s == buffer_data(*eng, self.raw()).len(),
    {
        self.size(eng)
    }

    /// Map the buffer for reading and run the critical section on an owned
    /// view of the bytes.  The mapping is undone on every exit path: the
    /// engine is handed out read-only, so nothing of it can change.
    pub fn map_read<U, F: FnOnce(MapInfo) -> U>(&self, eng: &Engine, f: F) -> (r: Result<U, ()>)
        requires
            eng.in_range(self.raw()),
            is_buffer(*eng, self.raw()),
            forall|info: MapInfo|
                info.data@ == buffer_data(*eng, self.raw()) ==> call_requires(f, (info,)),
        ensures
            r matches Ok(u) && exists|info: MapInfo|
                info.data@ == buffer_data(*eng, self.raw()) && call_ensures(f, (info,), u),
    {
        let data = match eng.content_ref(self.mini.gst_miniobject()) {
            Content::Bytes { data } => clone_bytes(data),
            _ => Vec::new(),
        };
        let info = MapInfo { data };
        let ghost ginfo = info;
        proof {
            assert(ginfo.data@ == buffer_data(*eng, self.raw()));
        }
        let u = f(info);
        proof {
            assert(call_ensures(f, (ginfo,), u));
        }
        Ok(u)
    }

    /// Map the buffer for writing: the critical section takes an owned
    /// view of the bytes and gives back the view to store, plus its
    /// result.  The mapping is undone on every exit path, and the bytes
    /// the section gave back are all the engine keeps of it.
    pub fn map_write<U, F: FnOnce(MapInfo) -> (MapInfo, U)>(
        &mut self,
        eng: &mut Engine,
        f: F,
    ) -> (r: Result<U, ()>)
        requires
            old(eng).live(old(self).raw()),
            is_buffer(*old(eng), old(self).raw()),
            forall|info: MapInfo|
                info.data@ == buffer_data(*old(eng), old(self).raw()) ==> call_requires(
                    f,
                    (info,),
                ),
        ensures
            *final(self) == *old(self),
            same_except(*old(eng), *final(eng), old(self).raw()),
            final(eng).count(old(self).raw()) == old(eng).count(old(self).raw()),
            final(eng).lock_state(old(self).raw()) == old(eng).lock_state(old(self).raw()),
            final(eng).flag_bits(old(self).raw()) == old(eng).flag_bits(old(self).raw()),
            is_buffer(*final(eng), old(self).raw()),
            r is Ok,
            exists|info: MapInfo, out: MapInfo|
                {
                    &&& info.data@ == buffer_data(*old(eng), old(self).raw())
                    &&& #[trigger] call_ensures(f, (info,), (out, r->Ok_0))
                    &&& buffer_data(*final(eng), old(self).raw()) == out.data@
                },
    {
        let h = self.mini.gst_miniobject();
        let data = match eng.content_ref(h) {
            Content::Bytes { data } => clone_bytes(data),
            _ => Vec::new(),
        };
        let info = MapInfo { data };
        let ghost ginfo = info;
        proof {
            assert(ginfo.data@ == buffer_data(*old(eng), old(self).raw()));
        }
        let (out, u) = f(info);
        let ghost gout = out;
        proof {
            assert(call_ensures(f, (ginfo,), (gout, u)));
        }
        eng.set_content(h, Content::Bytes { data: out.data });
        let r: Result<U, ()> = Ok(u);
        proof {
            assert(buffer_data(*eng, old(self).raw()) == gout.data@);
            assert(r->Ok_0 == u);
            assert(call_ensures(f, (ginfo,), (gout, r->Ok_0)));
            assert(exists|info: MapInfo, stored: MapInfo|
                {
                    &&& info.data@ == buffer_data(*old(eng), old(self).raw())
                    &&& #[trigger] call_ensures(f, (info,), (stored, r->Ok_0))
                    &&& buffer_data(*eng, old(self).raw()) == stored.data@
                });
        }
        r
    }

    /// The buffer's flag bits, held on the underlying mini-object.
    pub fn flags(&self, eng: &Engine) -> (fl: u32)
        requires
            eng.in_range(self.raw()),
        ensures
            fl == eng.flag_bits(self.raw()),
    {
        eng.flags_of(self.mini.gst_miniobject())
    }

    /// The mini-object inside.
    pub fn gst_buffer(&self) -> (h: usize)
        ensures
            h == self.raw(),
    {
        self.mini.gst_miniobject()
    }

    /// Release the one reference this wrapper holds.
    pub fn unref(self, eng: &mut Engine)
        requires
            old(eng).live(self.raw()),
        ensures
            ref_dropped(*old(eng), *final(eng), self.raw()),
    {
        self.mini.unref(eng);
    }
}

impl Reference for Buffer {
    fn reference(&self, eng: &mut Engine) -> (r: Buffer) {
        Buffer { mini: self.mini.reference(eng) }
    }
}

impl Transfer for Buffer {
    fn transfer(self) -> usize {
        self.mini.transfer()
    }
}

} // verus!

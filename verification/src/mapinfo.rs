//! The view of a buffer's memory handed to a mapping's critical section.

use vstd::prelude::*;

verus! {

/// A mapped region: the bytes of one buffer.
pub struct MapInfo {
    /// The mapped bytes.
    pub data: Vec<u8>,
}

impl MapInfo {
    /// How many bytes are mapped.
    pub fn size(&self) -> (s: usize)
        ensures
            s == self.data@.len(),
    {
        self.data.len()
    }

    /// As [`MapInfo::size`].
    pub fn len(&self) -> (s: usize)
        ensures
            s == self.data@.len(),
    {
        self.data.len()
    }

    /// Read access to the mapped bytes.
    pub fn data(&self) -> (d: &Vec<u8>)
        ensures
            d@ == self.data@,
    {
        &self.data
    }

    /// Write access to the mapped bytes.
    pub fn data_mut(&mut self) -> (d: &mut Vec<u8>)
        ensures
            d@ == old(self).data@,
            final(self).data@ == final(d)@,
    {
        &mut self.data
    }

    /// The byte at `i`.
    pub fn byte_at(&self, i: usize) -> (b: u8)
        requires
            i < self.data@.len(),
        ensures
            b == self.data@[i as int],
    {
        self.data[i]
    }
}

} // verus!

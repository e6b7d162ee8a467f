//! Safety layer for a foreign, reference-counted media engine.
//!
//! The engine's heap of reference-counted objects is represented explicitly by
//! [`engine::Engine`], a state value that every operation threads through.
//! This makes the reference-counting discipline of the wrapper types — one
//! strong reference held per wrapper, released exactly once — a verified
//! property rather than a convention.

use vstd::prelude::*;

pub mod appsink;
pub mod appsrc;
pub mod bus;
pub mod buffer;
pub mod caps;
pub mod element;
pub mod engine;
pub mod error;
pub mod flow;
pub mod mainloop;
pub mod mapinfo;
pub mod message;
pub mod miniobject;
pub mod object;
pub mod reference;
pub mod sample;

verus! {

/// Failure of a blocking receive: the producing side is gone and nothing
/// further will ever arrive.
#[derive(Clone, Copy, PartialEq, Eq, Structural, Debug)]
pub struct RecvError;

/// Failure of a non-blocking receive: nothing is there right now, or the
/// producing side is gone for good.
#[derive(Clone, Copy, PartialEq, Eq, Structural, Debug)]
pub enum TryRecvError {
    /// No value is available yet; one may still arrive.
    Empty,
    /// The producing side is gone; no value will ever arrive.
    Disconnected,
}

/// A type that stands for exactly one handle into the foreign engine's heap.
pub trait Handle: Sized {
    /// The handle this wrapper is responsible for.
    spec fn raw(&self) -> usize;

    /// Read the handle without giving up the reference held on it.
    fn handle(&self) -> (h: usize)
        ensures
            h == self.raw(),
    ;
}

/// Consuming a wrapper and taking its handle out without releasing the
/// reference the wrapper held.  The wrapper no longer exists afterwards, so
/// the reference can be taken out at most once per wrapper; it must be handed
/// to exactly one foreign call that is documented as taking ownership.
pub trait Transfer: Handle {
    fn transfer(self) -> (h: usize)
        ensures
            h == self.raw(),
    ;
}

} // verus!

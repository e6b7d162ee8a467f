//! Flow-control codes exchanged with the foreign pipeline.  The bridges in
//! this library only ever produce `FlowOk` or `Eos`; the other values pass
//! through unmodified from direct foreign calls.

use vstd::prelude::*;

verus! {

/// Whether data production or consumption should continue.
#[derive(Clone, Copy, PartialEq, Eq, Structural, Debug)]
pub enum FlowReturn {
    /// Keep producing.
    FlowOk,
    /// The pad is not linked.
    NotLinked,
    /// The pipeline is flushing.
    Flushing,
    /// End of stream: stop producing.
    Eos,
    /// The exchanged format was not negotiated.
    NotNegotiated,
    /// A fatal error occurred.
    FlowError,
    /// The operation is not supported.
    NotSupported,
}

} // verus!

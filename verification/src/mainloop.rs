//! The event loop that keeps registered watches firing.  Driving the real
//! loop blocks a thread; here the loop is a state value whose pumping is
//! explicit, so only the start/stop protocol is modelled: `run` marks the
//! loop running, and `quit` is idempotent and only effective while it
//! runs.

use vstd::prelude::*;

verus! {

/// The event loop's state.
pub struct MainLoop {
    running: bool,
}

impl MainLoop {
    /// Whether the loop is running.
    pub closed spec fn is_running(&self) -> bool {
        self.running
    }

    /// Whether the loop is running, as a value.
    pub fn running(&self) -> (r: bool)
        ensures
            r == self.is_running(),
    {
        self.running
    }

    /// A fresh, stopped loop.
    pub fn new() -> (l: MainLoop)
        ensures
            !l.is_running(),
    {
        MainLoop { running: false }
    }

    /// Start the loop.  Already running, this changes nothing.
    pub fn run(&mut self)
        ensures
            final(self).is_running(),
    {
        if !self.running {
            self.running = true;
        }
    }

    /// Stop the loop.  Idempotent, and only effective while running: a
    /// stopped loop stays exactly as it is.
    pub fn quit(&mut self)
        ensures
            !final(self).is_running(),
    {
        if self.running {
            self.running = false;
        }
    }
}

/// Stopping twice leaves the loop exactly where stopping once does: from
/// any state, `quit` brings the loop to the one stopped state, and a
/// second `quit` keeps it there.
pub proof fn lemma_quit_idempotent(l1: MainLoop, l2: MainLoop, l3: MainLoop)
    requires
        !l2.is_running(),  // what one quit on l1 leaves behind
        !l3.is_running(),  // what a further quit on l2 leaves behind
    ensures
        l2 == l3,
{
}

} // verus!

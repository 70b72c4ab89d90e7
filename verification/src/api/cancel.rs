//! Opportunistic command cancellation flag.

use vstd::prelude::*;

use crate::plat::MsTpm20PlatformState;
use crate::plat::MsTpm20RefPlatformImpl;
use crate::PlatformCallbacks;

verus! {

/// Cancellation flag: set and cleared by the embedder, polled by the core at
/// its own checkpoints while a command is being processed.
#[derive(Clone, Copy, PartialEq, Eq, Structural)]
pub struct CancelState {
    /// Whether the command in flight should be opportunistically aborted.
    pub flag: bool,
}

impl CancelState {
    /// Fresh state: no cancellation requested.
    pub fn new() -> (r: CancelState)
        ensures
            !r.flag,
    {
        CancelState { flag: false }
    }
}

impl<C: PlatformCallbacks> MsTpm20RefPlatformImpl<C> {
    /// Report whether cancellation of the command in flight was requested.
    pub fn is_canceled(&self) -> (r: bool)
        ensures
            r == self.state.cancel.flag,
    {
        self.state.cancel.flag
    }

    /// Request cancellation of the command in flight.
    pub fn set_cancel(&mut self)
        ensures
            final(self).state == (MsTpm20PlatformState {
                cancel: CancelState { flag: true },
                ..old(self).state
            }),
    {
        self.state.cancel.flag = true;
    }

    /// Withdraw a cancellation request.
    pub fn clear_cancel(&mut self)
        ensures
            final(self).state == (MsTpm20PlatformState {
                cancel: CancelState { flag: false },
                ..old(self).state
            }),
    {
        self.state.cancel.flag = false;
    }
}

} // verus!

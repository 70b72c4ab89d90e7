//! Physical presence signalling.
//!
//! The callback model has no physical-presence source, so presence is
//! hard-coded as not asserted and the on/off signals are ignored.

use vstd::prelude::*;

use crate::plat::MsTpm20RefPlatformImpl;
use crate::PlatformCallbacks;

verus! {

impl<C: PlatformCallbacks> MsTpm20RefPlatformImpl<C> {
    /// Whether a physically present operator is asserted; never, in this
    /// callback model.
    pub fn physical_presence_asserted(&mut self) -> (r: bool)
        ensures
            !r,
            *final(self) == *old(self),
    {
        false
    }

    /// Accept a physical-presence-on signal; ignored.
    pub fn signal_physical_presence_on(&mut self)
        ensures
            *final(self) == *old(self),
    {
    }

    /// Accept a physical-presence-off signal; ignored.
    pub fn signal_physical_presence_off(&mut self)
        ensures
            *final(self) == *old(self),
    {
    }
}

} // verus!

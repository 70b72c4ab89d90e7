//! Power-loss tracking and the power-on / power-off / reset sequencing.

use vstd::prelude::*;

use crate::api::cancel::CancelState;
use crate::api::clock::spec_fresh_clock;
use crate::api::locality_plat::LocalityState;
use crate::error::Error;
use crate::plat::MsTpm20PlatformState;
use crate::plat::MsTpm20RefPlatformImpl;
use crate::PlatformCallbacks;

verus! {

/// Power-loss flag: raised on power-on, consumed (returned and cleared) by
/// the core's "was power lost" query, so a power loss is observed exactly
/// once.
#[derive(Clone, Copy, PartialEq, Eq, Structural)]
pub struct PowerPlatState {
    /// Whether a power loss is pending observation by the core.
    pub power_lost: bool,
}

impl PowerPlatState {
    /// Fresh state: no power loss pending.
    pub fn new() -> (r: PowerPlatState)
        ensures
            !r.power_lost,
    {
        PowerPlatState { power_lost: false }
    }
}

impl<C: PlatformCallbacks> MsTpm20RefPlatformImpl<C> {
    /// Signal power-on: re-arm the clock, record the power loss for the core
    /// to observe, and make sure non-volatile memory is enabled (zero-filled
    /// if no blob was ever supplied).
    pub fn signal_power_on(&mut self) -> (r: Result<(), Error>)
        ensures
            r is Ok,
            final(self).state.cancel == old(self).state.cancel,
            final(self).state.locality == old(self).state.locality,
            final(self).state.clock == spec_fresh_clock(),
            final(self).state.power_plat.power_lost,
            final(self).state.nvmem.is_init,
            old(self).state.nvmem.is_init ==> final(self).state.nvmem.region@
                == old(self).state.nvmem.region@,
            !old(self).state.nvmem.is_init ==> final(self).state.nvmem.region@
                == Seq::<u8>::new(crate::api::nvmem::NV_MEMORY_SIZE as nat, |i: int| 0u8),
    {
        self.timer_reset();
        self.state.power_plat.power_lost = true;
        self.nv_enable()?;
        Ok(())
    }

    /// Signal power-off: disable non-volatile memory and stop ACT ticks.
    pub fn signal_power_off(&mut self)
        ensures
            !final(self).state.nvmem.is_init,
            final(self).state.nvmem.region@ == old(self).state.nvmem.region@,
            final(self).state.cancel == old(self).state.cancel,
            final(self).state.locality == old(self).state.locality,
            final(self).state.clock == old(self).state.clock,
            final(self).state.power_plat == old(self).state.power_plat,
    {
        self.nv_disable(false);
        self.act_enable_ticks(false);
    }

    /// Signal a reset without a power failure: re-arm the clock and drop
    /// locality and any pending cancellation; non-volatile memory keeps its
    /// contents and needs no reload.
    pub fn signal_reset(&mut self) -> (r: Result<(), Error>)
        ensures
            r is Ok,
            final(self).state == (MsTpm20PlatformState {
                cancel: CancelState { flag: false },
                locality: LocalityState { locality: 0 },
                clock: spec_fresh_clock(),
                ..old(self).state
            }),
    {
        self.timer_reset();
        self.state.locality.locality = 0;
        self.state.cancel.flag = false;
        Ok(())
    }

    /// Report and consume the pending power-loss flag: the core observes a
    /// power loss exactly once.
    pub fn was_power_lost(&mut self) -> (r: bool)
        ensures
            r == old(self).state.power_plat.power_lost,
            final(self).state == (MsTpm20PlatformState {
                power_plat: PowerPlatState { power_lost: false },
                ..old(self).state
            }),
    {
        let ret = self.state.power_plat.power_lost;
        self.state.power_plat.power_lost = false;
        ret
    }
}

} // verus!

//! Authenticated countdown timers (ACTs).
//!
//! The platform reports the ACTs as implemented — the core's manufacture
//! step requires that — but keeps them inert: no ticks are delivered and no
//! timer ever expires.

use vstd::prelude::*;

use crate::plat::MsTpm20RefPlatformImpl;
use crate::PlatformCallbacks;

verus! {

impl<C: PlatformCallbacks> MsTpm20RefPlatformImpl<C> {
    /// Report whether the given ACT is implemented; always true, or the
    /// core's manufacture step fails.
    pub fn act_get_implemented(&mut self, act: u32) -> (r: bool)
        ensures
            r,
            *final(self) == *old(self),
    {
        true
    }

    /// Remaining time of the given ACT; the inert timers have none.
    pub fn act_get_remaining(&mut self, act: u32) -> (r: u32)
        ensures
            r == 0,
            *final(self) == *old(self),
    {
        0
    }

    /// Whether the given ACT has signaled; the inert timers never do.
    pub fn act_get_signaled(&mut self, act: u32) -> (r: i32)
        ensures
            r == 0,
            *final(self) == *old(self),
    {
        0
    }

    /// Accept a signaled-state change for the given ACT; the inert timers
    /// ignore it.
    pub fn act_set_signaled(&mut self, act: u32, on: i32)
        ensures
            *final(self) == *old(self),
    {
    }

    /// Whether a signaled-state update of the given ACT is pending; never.
    pub fn act_get_pending(&mut self, act: u32) -> (r: i32)
        ensures
            r == 0,
            *final(self) == *old(self),
    {
        0
    }

    /// Accept a counter update for the given ACT; reported as done.
    pub fn act_update_counter(&mut self, act: u32, new_value: u32) -> (r: bool)
        ensures
            r,
            *final(self) == *old(self),
    {
        true
    }

    /// Enable or disable ACT tick delivery; the inert timers ignore it.
    pub fn act_enable_ticks(&mut self, enable: bool)
        ensures
            *final(self) == *old(self),
    {
    }

    /// Deliver one ACT tick; the inert timers ignore it.
    pub fn act_tick(&mut self)
        ensures
            *final(self) == *old(self),
    {
    }

    /// Initialize the ACTs; reports that no timer state was recovered.
    pub fn act_initialize(&mut self) -> (r: bool)
        ensures
            !r,
            *final(self) == *old(self),
    {
        false
    }
}

} // verus!

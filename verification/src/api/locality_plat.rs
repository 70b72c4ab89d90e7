//! Locality of the command originator.

use vstd::prelude::*;

use crate::plat::MsTpm20PlatformState;
use crate::plat::MsTpm20RefPlatformImpl;
use crate::PlatformCallbacks;

verus! {

/// Current locality; zero is the default.
#[derive(Clone, Copy, PartialEq, Eq, Structural)]
pub struct LocalityState {
    /// The locality value last accepted.
    pub locality: u8,
}

impl LocalityState {
    /// Fresh state: locality zero.
    pub fn new() -> (r: LocalityState)
        ensures
            r.locality == 0,
    {
        LocalityState { locality: 0 }
    }
}

/// The locality a request for `locality` settles on: values in `[5, 32)` are
/// invalid and coerce to the default locality zero.
pub open spec fn coerced_locality(locality: u8) -> u8 {
    if 5 <= locality < 32 {
        0
    } else {
        locality
    }
}

impl<C: PlatformCallbacks> MsTpm20RefPlatformImpl<C> {
    /// Set the current locality. Values in `[5, 32)` are invalid: such a
    /// request is rejected and coerced to zero, which is worth a warning at
    /// the embedding layer.
    pub fn locality_set(&mut self, locality: u8)
        ensures
            final(self).state == (MsTpm20PlatformState {
                locality: LocalityState { locality: coerced_locality(locality) },
                ..old(self).state
            }),
    {
        let accepted: u8 = if 5 <= locality && locality < 32 {
            0
        } else {
            locality
        };
        self.state.locality.locality = accepted;
    }

    /// Report the current locality.
    pub fn locality_get(&mut self) -> (r: u8)
        ensures
            r == old(self).state.locality.locality,
            *final(self) == *old(self),
    {
        self.state.locality.locality
    }
}

} // verus!

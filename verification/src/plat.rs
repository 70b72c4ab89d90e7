//! The platform state proper, its exclusive-ownership handle, and the
//! warm-init / save / restore decision logic.
//!
//! The platform is a process-wide singleton: at most one instance serves the
//! core's callbacks at a time, and those callbacks must never run
//! concurrently or reentrantly. Both rules are enforced by ownership rather
//! than by a lock with a fail-fast probe: the singleton slot is an explicit
//! value, [`PlatformSingleton`], owned by the embedder, and callback entry
//! needs an exclusive `&mut` borrow of the one live platform, so a
//! concurrent or reentrant invocation cannot be written at all.

use vstd::prelude::*;

use crate::api::cancel::CancelState;
use crate::api::clock::spec_fresh_clock;
use crate::api::clock::ClockState;
use crate::api::locality_plat::LocalityState;
use crate::api::nvmem::NvError;
use crate::api::nvmem::NvState;
use crate::api::nvmem::NV_MEMORY_SIZE;
use crate::api::power_plat::PowerPlatState;
use crate::error::Error;
use crate::snapshot::decode_snapshot;
use crate::snapshot::encode_snapshot;
use crate::snapshot::spec_decode_snapshot;
use crate::snapshot::spec_encode_snapshot;
use crate::tpmlib_state::MsTpm20RefLibraryState;
use crate::InitKind;
use crate::PlatformCallbacks;

verus! {

/// The whole platform-side runtime state: everything the TPM core observes
/// through its callback surface.
pub struct MsTpm20PlatformState {
    /// Opportunistic cancellation flag.
    pub cancel: CancelState,
    /// Current locality.
    pub locality: LocalityState,
    /// Synthesized rate-adjusted clock.
    pub clock: ClockState,
    /// Power-loss tracking.
    pub power_plat: PowerPlatState,
    /// Emulated non-volatile memory.
    pub nvmem: NvState,
}

/// The two states agree on every field the core can observe.
pub open spec fn state_equiv(a: &MsTpm20PlatformState, b: &MsTpm20PlatformState) -> bool {
    &&& a.cancel == b.cancel
    &&& a.locality == b.locality
    &&& a.clock == b.clock
    &&& a.power_plat == b.power_plat
    &&& a.nvmem.is_init == b.nvmem.is_init
    &&& a.nvmem.region@ == b.nvmem.region@
}

/// A state is well formed when its clock is: the well-formedness every
/// constructor establishes and every operation preserves.
pub open spec fn state_wf(s: &MsTpm20PlatformState) -> bool {
    crate::api::clock::clock_wf(&s.clock)
}

impl MsTpm20PlatformState {
    /// Fresh platform state: nothing canceled, locality zero, clock armed,
    /// no power loss recorded, non-volatile memory not yet enabled.
    pub fn new() -> (r: MsTpm20PlatformState)
        ensures
            !r.cancel.flag,
            r.locality.locality == 0,
            r.clock == crate::api::clock::spec_fresh_clock(),
            !r.power_plat.power_lost,
            !r.nvmem.is_init,
            r.nvmem.region@ == Seq::<u8>::empty(),
            state_wf(&r),
    {
        MsTpm20PlatformState {
            cancel: CancelState::new(),
            locality: LocalityState::new(),
            clock: ClockState::new(),
            power_plat: PowerPlatState::new(),
            nvmem: NvState::new(),
        }
    }
}

/// The platform implementation: the host-supplied callbacks plus the runtime
/// state. The core's callback surface is served by the methods of this type.
pub struct MsTpm20RefPlatformImpl<C: PlatformCallbacks> {
    /// Host-supplied callbacks for storage, entropy, time and uniqueness.
    pub callbacks: C,
    /// The platform runtime state.
    pub state: MsTpm20PlatformState,
}

impl<C: PlatformCallbacks> MsTpm20RefPlatformImpl<C> {
    /// Wrap the host callbacks around a fresh platform state.
    pub fn new(callbacks: C) -> (r: MsTpm20RefPlatformImpl<C>)
        ensures
            !r.state.cancel.flag,
            r.state.locality.locality == 0,
            r.state.clock == crate::api::clock::spec_fresh_clock(),
            !r.state.power_plat.power_lost,
            !r.state.nvmem.is_init,
            r.state.nvmem.region@ == Seq::<u8>::empty(),
            state_wf(&r.state),
    {
        MsTpm20RefPlatformImpl { callbacks, state: MsTpm20PlatformState::new() }
    }

    /// Overwrite the platform half of the runtime state with a previously
    /// captured one. This is a full overwrite, not a merge.
    pub fn restore_runtime_state(&mut self, state: MsTpm20PlatformState)
        ensures
            final(self).state == state,
    {
        self.state = state;
    }

    /// Capture the platform half of the runtime state.
    pub fn get_runtime_state(&self) -> (r: MsTpm20PlatformState)
        ensures
            state_equiv(&r, &self.state),
    {
        MsTpm20PlatformState {
            cancel: self.state.cancel,
            locality: self.state.locality,
            clock: self.state.clock,
            power_plat: self.state.power_plat,
            nvmem: self.state.nvmem.clone_state(),
        }
    }
}

/// The vTPM's complete runtime state: the platform half and the core
/// library's opaque half, captured together and restored together.
pub struct MsTpm20RefRuntimeState {
    /// The core library's opaque state blob.
    pub tpmlib_state: MsTpm20RefLibraryState,
    /// The platform's own state.
    pub platform_state: MsTpm20PlatformState,
}

/// The process-wide singleton slot: at most one platform handle is live at a
/// time. The embedder owns exactly one of these for the process's lifetime;
/// `initialize` occupies it and `shutdown` frees it again.
pub struct PlatformSingleton {
    /// Whether a platform handle is currently live.
    pub active: bool,
}

impl PlatformSingleton {
    /// A fresh, unoccupied slot.
    pub fn new() -> (r: PlatformSingleton)
        ensures
            !r.active,
    {
        PlatformSingleton { active: false }
    }
}

/// What the embedder owes the core after `initialize` returns: ask the core
/// to manufacture a fresh persistent image (cold init only), run the core's
/// own init entry, and — on warm init — apply the runtime state snapshot
/// through [`MsTpm20RefPlatform::apply_runtime_state`].
pub struct InitAction {
    /// Whether the core must manufacture a fresh persistent image before its
    /// init entry runs.
    pub manufacture: bool,
    /// The runtime state snapshot to apply after the core's init entry, on
    /// warm init.
    pub warm_state: Option<MsTpm20RefRuntimeState>,
}

/// The platform state a successful initialization hands out: powered on,
/// clock armed, nothing canceled, locality zero, and the non-volatile region
/// holding `region`.
pub open spec fn spec_initialized_state(s: &MsTpm20PlatformState, region: Seq<u8>) -> bool {
    &&& !s.cancel.flag
    &&& s.locality.locality == 0
    &&& s.clock == spec_fresh_clock()
    &&& s.power_plat.power_lost
    &&& s.nvmem.is_init
    &&& s.nvmem.region@ == region
    &&& state_wf(s)
}

/// A handle which encapsulates the logical ownership of the platform
/// singleton.
///
/// Only a single handle can be live at any given time: `initialize` fails
/// with `AlreadyInitialized` while the slot it occupied has not been freed by
/// `shutdown`. The core's callback surface is reached through the exclusively
/// owned [`MsTpm20RefPlatformImpl`] inside, so callback entry is serialized
/// by construction: a reentrant or concurrent invocation is a second `&mut`
/// borrow, which cannot be written.
pub struct MsTpm20RefPlatform<C: PlatformCallbacks> {
    /// The exclusively owned platform implementation.
    pub imp: MsTpm20RefPlatformImpl<C>,
}

impl<C: PlatformCallbacks> MsTpm20RefPlatform<C> {
    /// Initialize the platform with the given implementation-specific
    /// callbacks, occupying the singleton slot.
    ///
    /// Succeeds only if no handle is currently live, else fails with
    /// `AlreadyInitialized`; initialization from a blob whose length is not
    /// the fixed region size fails with `MismatchedBlobSize`. On success the
    /// embedder still owes the core the steps in the returned [`InitAction`]:
    /// this method does not itself reach the core, and it sends no startup or
    /// selftest command.
    pub fn initialize(slot: &mut PlatformSingleton, callbacks: C, init_kind: InitKind) -> (r:
        Result<(MsTpm20RefPlatform<C>, InitAction), Error>)
        ensures
            old(slot).active ==> ({
                &&& r matches Err(e)
                &&& e is AlreadyInitialized
                &&& *final(slot) == *old(slot)
            }),
            !old(slot).active ==> (init_kind matches InitKind::ColdInit ==> {
                &&& r matches Ok(p)
                &&& final(slot).active
                &&& spec_initialized_state(
                    &p.0.imp.state,
                    Seq::<u8>::new(NV_MEMORY_SIZE as nat, |i: int| 0u8),
                )
                &&& p.1.manufacture
                &&& p.1.warm_state is None
            }),
            !old(slot).active ==> (init_kind matches InitKind::ColdInitWithPersistentState {
                nvmem_blob,
            } ==> if nvmem_blob@.len() == NV_MEMORY_SIZE {
                {
                    &&& r matches Ok(p)
                    &&& final(slot).active
                    &&& spec_initialized_state(&p.0.imp.state, nvmem_blob@)
                    &&& !p.1.manufacture
                    &&& p.1.warm_state is None
                }
            } else {
                r == Err::<(MsTpm20RefPlatform<C>, InitAction), Error>(
                    Error::NvMem(NvError::MismatchedBlobSize),
                ) && *final(slot) == *old(slot)
            }),
            !old(slot).active ==> (init_kind matches InitKind::WarmInit {
                nvmem_blob,
                runtime_state,
            } ==> if nvmem_blob@.len() == NV_MEMORY_SIZE {
                {
                    &&& r matches Ok(p)
                    &&& final(slot).active
                    &&& spec_initialized_state(&p.0.imp.state, nvmem_blob@)
                    &&& !p.1.manufacture
                    &&& p.1.warm_state == Some(runtime_state)
                }
            } else {
                r == Err::<(MsTpm20RefPlatform<C>, InitAction), Error>(
                    Error::NvMem(NvError::MismatchedBlobSize),
                ) && *final(slot) == *old(slot)
            }),
    {
        if slot.active {
            return Err(Error::AlreadyInitialized);
        }
        let mut imp = MsTpm20RefPlatformImpl::new(callbacks);
        let action: InitAction;
        match init_kind {
            InitKind::ColdInit => {
                match imp.nv_enable() {
                    Ok(()) => {},
                    Err(e) => {
                        return Err(e);
                    },
                }
                action = InitAction { manufacture: true, warm_state: None };
            },
            InitKind::ColdInitWithPersistentState { nvmem_blob } => {
                match imp.nv_enable_from_blob(&nvmem_blob) {
                    Ok(()) => {},
                    Err(e) => {
                        return Err(e);
                    },
                }
                action = InitAction { manufacture: false, warm_state: None };
            },
            InitKind::WarmInit { nvmem_blob, runtime_state } => {
                match imp.nv_enable_from_blob(&nvmem_blob) {
                    Ok(()) => {},
                    Err(e) => {
                        return Err(e);
                    },
                }
                action = InitAction { manufacture: false, warm_state: Some(runtime_state) };
            },
        }
        match imp.signal_power_on() {
            Ok(()) => {},
            Err(e) => {
                return Err(e);
            },
        }
        slot.active = true;
        Ok((MsTpm20RefPlatform { imp }, action))
    }

    /// Shut the platform down: signal power-off and free the singleton slot,
    /// permitting a subsequent `initialize`.
    pub fn shutdown(self, slot: &mut PlatformSingleton)
        ensures
            !final(slot).active,
    {
        let mut plat = self;
        plat.imp.signal_power_off();
        slot.active = false;
    }

    /// Reset the platform: simulate power-off plus power-on, reloading the
    /// non-volatile region from `with_new_nvmem_blob` if one is supplied and
    /// keeping the in-memory contents otherwise. The embedder still owes the
    /// core its init entry afterwards.
    ///
    /// A blob whose length is not the fixed region size fails with
    /// `MismatchedBlobSize` and leaves the platform powered off.
    pub fn reset(&mut self, with_new_nvmem_blob: Option<&Vec<u8>>) -> (r: Result<(), Error>)
        ensures
            final(self).imp.state.cancel == old(self).imp.state.cancel,
            final(self).imp.state.locality == old(self).imp.state.locality,
            with_new_nvmem_blob matches Some(blob) ==> if blob@.len() != NV_MEMORY_SIZE {
                {
                    &&& r == Err::<(), Error>(Error::NvMem(NvError::MismatchedBlobSize))
                    &&& !final(self).imp.state.nvmem.is_init
                    &&& final(self).imp.state.nvmem.region@ == old(self).imp.state.nvmem.region@
                    &&& final(self).imp.state.clock == old(self).imp.state.clock
                    &&& final(self).imp.state.power_plat == old(self).imp.state.power_plat
                }
            } else {
                {
                    &&& r is Ok
                    &&& final(self).imp.state.clock == spec_fresh_clock()
                    &&& final(self).imp.state.power_plat.power_lost
                    &&& final(self).imp.state.nvmem.is_init
                    &&& final(self).imp.state.nvmem.region@ == blob@
                }
            },
            with_new_nvmem_blob is None ==> {
                &&& r is Ok
                &&& final(self).imp.state.clock == spec_fresh_clock()
                &&& final(self).imp.state.power_plat.power_lost
                &&& final(self).imp.state.nvmem.is_init
                &&& final(self).imp.state.nvmem.region@ == old(self).imp.state.nvmem.region@
            },
    {
        self.imp.signal_power_off();
        match with_new_nvmem_blob {
            Some(blob) => {
                match self.imp.nv_enable_from_blob(blob) {
                    Ok(()) => {},
                    Err(e) => {
                        return Err(e);
                    },
                }
            },
            None => {
                // Instead of requiring the caller to round-trip through its
                // backing storage as part of the reset, re-enable the region
                // contents still in memory.
                self.imp.state.nvmem.is_init = true;
            },
        }
        match self.imp.signal_power_on() {
            Ok(()) => {},
            Err(e) => {
                return Err(e);
            },
        }
        Ok(())
    }

    /// Sets or resets the Cancel flag.
    ///
    /// When set, the core will opportunistically abort the command being
    /// executed.
    pub fn set_cancel_flag(&mut self, enabled: bool)
        ensures
            final(self).imp.state == (MsTpm20PlatformState {
                cancel: CancelState { flag: enabled },
                ..old(self).imp.state
            }),
    {
        if enabled {
            self.imp.set_cancel();
        } else {
            self.imp.clear_cancel();
        }
    }

    /// Combine the platform half of the runtime state with the core's opaque
    /// state blob — obtained by the embedder from the core's get-state entry
    /// — into one runtime state snapshot.
    pub fn get_runtime_state(&self, tpmlib_state: MsTpm20RefLibraryState) -> (r:
        MsTpm20RefRuntimeState)
        ensures
            state_equiv(&r.platform_state, &self.imp.state),
            r.tpmlib_state == tpmlib_state,
    {
        MsTpm20RefRuntimeState { tpmlib_state, platform_state: self.imp.get_runtime_state() }
    }

    /// Apply a runtime state snapshot: overwrite the platform half — a full
    /// overwrite, not a merge — and hand the core's opaque half back to the
    /// embedder, who owes it to the core's apply-state entry.
    pub fn apply_runtime_state(&mut self, state: MsTpm20RefRuntimeState) -> (r:
        MsTpm20RefLibraryState)
        ensures
            final(self).imp.state == state.platform_state,
            r == state.tpmlib_state,
    {
        let MsTpm20RefRuntimeState { tpmlib_state, platform_state } = state;
        self.imp.restore_runtime_state(platform_state);
        tpmlib_state
    }

    /// Serialize the platform state together with the core's opaque state
    /// blob into one portable saved-state artifact.
    pub fn save_state(&self, tpmlib_state: &MsTpm20RefLibraryState) -> (r: Vec<u8>)
        ensures
            r@ == spec_encode_snapshot(&self.imp.state, tpmlib_state.opaque@),
    {
        encode_snapshot(&self.imp.state, &tpmlib_state.opaque)
    }

    /// Restore from a previously saved artifact: overwrite the platform half
    /// and hand the core's opaque half back to the embedder, who owes it to
    /// the core's apply-state entry.
    ///
    /// Fails with `FailedPlatformRestore` — leaving everything unchanged —
    /// exactly when the artifact is malformed.
    pub fn restore_state(&mut self, saved: &Vec<u8>) -> (r: Result<MsTpm20RefLibraryState, Error>)
        ensures
            spec_decode_snapshot(saved@) is None ==> ({
                &&& r matches Err(e)
                &&& e is FailedPlatformRestore
                &&& *final(self) == *old(self)
            }),
            spec_decode_snapshot(saved@) matches Some(parts) ==> {
                &&& r matches Ok(lib) && lib.opaque@ == parts.core
                &&& final(self).imp.state.cancel == parts.cancel
                &&& final(self).imp.state.locality == parts.locality
                &&& final(self).imp.state.clock == parts.clock
                &&& final(self).imp.state.power_plat == parts.power_plat
                &&& final(self).imp.state.nvmem.is_init == parts.nv_is_init
                &&& final(self).imp.state.nvmem.region@ == parts.region
                &&& state_wf(&final(self).imp.state)
            },
    {
        match decode_snapshot(saved) {
            None => Err(Error::FailedPlatformRestore),
            Some((state, core)) => {
                self.imp.restore_runtime_state(state);
                Ok(MsTpm20RefLibraryState::new(core))
            },
        }
    }
}

} // verus!

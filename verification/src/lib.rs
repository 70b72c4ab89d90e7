//! Platform abstraction layer for an embedded TPM 2.0 reference engine.
//!
//! The library owns the platform-side runtime state that a TPM command
//! processing core calls back into: a rate-adjustable monotonic clock, an
//! emulated non-volatile memory region, locality, cancellation and power
//! tracking, the request/response protocol for submitting commands to the
//! core, and a snapshot codec that persists the whole runtime state.
//!
//! The core itself is an opaque collaborator: the embedding host performs the
//! actual core entry calls and hands their outcomes back to this library's
//! verified decision functions.

use vstd::prelude::*;

pub mod api;
pub mod error;
pub mod executor;
pub mod plat;
pub mod snapshot;
pub mod tpmlib_state;

pub use error::DynResult;
pub use error::Error;
pub use plat::InitAction;
pub use plat::MsTpm20RefPlatform;
pub use plat::MsTpm20RefRuntimeState;
pub use plat::PlatformSingleton;

verus! {

/// Various library initialization modes.
pub enum InitKind {
    /// Initialize the TPM entirely from scratch, having it manufacture an
    /// initial nvmem blob.
    ColdInit,
    /// Initialize the TPM from an existing saved nvmem blob.
    ColdInitWithPersistentState {
        /// Opaque nvmem blob.
        nvmem_blob: Vec<u8>,
    },
    /// Initialize the TPM from an existing saved nvmem blob and re-apply a
    /// previously captured runtime state snapshot once the core has finished
    /// its own init sequence.
    WarmInit {
        /// Opaque nvmem blob.
        nvmem_blob: Vec<u8>,
        /// Runtime state snapshot to apply after core init.
        runtime_state: MsTpm20RefRuntimeState,
    },
}

/// Implementation-specific platform callbacks, supplied by the embedding
/// host: durable storage, entropy, a monotonic timer and a stable unique
/// value.
pub trait PlatformCallbacks {
    /// Persist the provided non volatile state.
    fn commit_nv_state(&mut self, state: &Vec<u8>) -> (r: DynResult<()>);

    /// Write cryptographically secure random bytes into `buf`.
    ///
    /// Returns the number of bytes written into `buf`. The buffer keeps its
    /// length; at most that many bytes are reported back.
    fn get_crypt_random(&mut self, buf: &mut Vec<u8>) -> (r: DynResult<usize>)
        ensures
            final(buf)@.len() == old(buf)@.len(),
            r matches Ok(n) ==> n <= old(buf)@.len(),
    ;

    /// Return a monotonically increasing reading in milliseconds.
    ///
    /// A simple implementation can record a start instant and report the
    /// elapsed time since. The clock synthesizer tolerates readings that go
    /// backwards, so no contract is demanded here.
    fn monotonic_timer(&mut self) -> (r: u64);

    /// Return a platform specific unique value that is used as
    /// VENDOR_PERMANENT authorization value.
    ///
    /// This function MUST return the same value each time it is called.
    fn get_unique_value(&self) -> (r: Vec<u8>);
}

/// Sample platform callback implementation that simply returns dummy data.
pub struct DummyPlatformCallbacks;

impl PlatformCallbacks for DummyPlatformCallbacks {
    fn commit_nv_state(&mut self, state: &Vec<u8>) -> (r: DynResult<()>) {
        Ok(())
    }

    fn get_crypt_random(&mut self, buf: &mut Vec<u8>) -> (r: DynResult<usize>) {
        if buf.len() > 0 {
            buf.set(0, 1);
        }
        Ok(buf.len())
    }

    fn monotonic_timer(&mut self) -> (r: u64) {
        0
    }

    fn get_unique_value(&self) -> (r: Vec<u8>) {
        let mut unique: Vec<u8> = Vec::new();
        unique.push(0x73);
        unique.push(0x6f);
        unique.push(0x6d);
        unique.push(0x65);
        unique.push(0x62);
        unique.push(0x6f);
        unique.push(0x64);
        unique.push(0x79);
        unique
    }
}

} // verus!

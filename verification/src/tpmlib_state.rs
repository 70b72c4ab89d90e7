//! The core library's own runtime state, handled as an opaque blob.
//!
//! The embedder obtains the blob from the core's get-state entry point (a
//! two-phase query: first with no buffer to learn the size, then with an
//! exactly-sized one) and hands it to the core's apply-state entry point on
//! restore; this module only carries the bytes and interprets the apply
//! outcome.

use vstd::prelude::*;

use crate::error::Error;

verus! {

/// Opaque runtime state of the core library.
pub struct MsTpm20RefLibraryState {
    /// The core's serialized state, treated as opaque bytes.
    pub opaque: Vec<u8>,
}

impl MsTpm20RefLibraryState {
    /// Wrap the bytes the core's get-state entry point produced.
    pub fn new(opaque: Vec<u8>) -> (r: MsTpm20RefLibraryState)
        ensures
            r.opaque@ == opaque@,
    {
        MsTpm20RefLibraryState { opaque }
    }

    /// An exact copy of this state.
    pub fn clone_state(&self) -> (r: MsTpm20RefLibraryState)
        ensures
            r.opaque@ == self.opaque@,
    {
        MsTpm20RefLibraryState { opaque: crate::api::nvmem::copy_bytes(&self.opaque) }
    }
}

/// Interpret the return code of the core's apply-state entry point: zero is
/// success, two a size mismatch, three a format validation failure. A code
/// of one reports misuse of the entry point, which the embedder rules out
/// before calling.
pub fn restore_outcome(code: i32) -> (r: Result<(), Error>)
    requires
        code == 0 || code == 2 || code == 3,
    ensures
        code == 0 ==> r == Ok::<(), Error>(()),
        code == 2 ==> r == Err::<(), Error>(Error::InvalidRestoreSize),
        code == 3 ==> r == Err::<(), Error>(Error::InvalidRestoreFormat),
{
    if code == 0 {
        Ok(())
    } else if code == 2 {
        Err(Error::InvalidRestoreSize)
    } else {
        Err(Error::InvalidRestoreFormat)
    }
}

} // verus!

//! Error taxonomy of the platform layer.

use vstd::prelude::*;

use crate::api::nvmem::NvError;

verus! {

/// Result alias for host callback outcomes; the error half carries the host's
/// own description of what went wrong.
pub type DynResult<T> = Result<T, String>;

/// Platform layer errors.
#[derive(Debug)]
pub enum Error {
    /// Platform is already initialized.
    AlreadyInitialized,
    /// Error when calling platform callback.
    PlatformCallback(String),
    /// Error calling specified core entry point.
    Ffi {
        /// The core function being called.
        function: &'static str,
        /// Returned error code.
        error: i32,
    },
    /// Mismatch between request buffer size and command header size.
    InvalidRequestSize,
    /// Mismatch between response buffer size and reply header size.
    InvalidResponseSize,
    /// Error calling nvmem platform API.
    NvMem(NvError),
    /// Error restoring platform state: the snapshot blob is malformed.
    FailedPlatformRestore,
    /// Invalid saved state size.
    InvalidRestoreSize,
    /// Invalid saved state format.
    InvalidRestoreFormat,
}

impl vstd::std_specs::convert::FromSpecImpl<NvError> for Error {
    open spec fn obeys_from_spec() -> bool {
        true
    }

    open spec fn from_spec(e: NvError) -> Error {
        Error::NvMem(e)
    }
}

impl From<NvError> for Error {
    fn from(e: NvError) -> (r: Error) {
        Error::NvMem(e)
    }
}

} // verus!

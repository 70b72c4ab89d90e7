//! Entropy, drawn from the host's cryptographic random source.

use vstd::prelude::*;

use crate::error::Error;
use crate::plat::MsTpm20RefPlatformImpl;
use crate::PlatformCallbacks;

verus! {

impl<C: PlatformCallbacks> MsTpm20RefPlatformImpl<C> {
    /// Fill `buf` from the host's cryptographic random source.
    ///
    /// Returns how many bytes were written; the buffer keeps its length. A
    /// host failure is reported, wrapped as `PlatformCallback`, never
    /// swallowed.
    pub fn get_entropy(&mut self, buf: &mut Vec<u8>) -> (r: Result<usize, Error>)
        ensures
            final(self).state == old(self).state,
            final(buf)@.len() == old(buf)@.len(),
            r matches Ok(n) ==> n <= old(buf)@.len(),
            r matches Err(e) ==> e is PlatformCallback,
    {
        match self.callbacks.get_crypt_random(buf) {
            Ok(n) => Ok(n),
            Err(e) => Err(Error::PlatformCallback(e)),
        }
    }
}

} // verus!

//! The platform's stable unique value, used by the core as VENDOR_PERMANENT
//! authorization value.

use vstd::prelude::*;

use crate::plat::MsTpm20RefPlatformImpl;
use crate::PlatformCallbacks;

verus! {

/// Copy as much of `unique` as fits into the prefix of `buf`, leaving the
/// rest of `buf` untouched; returns how many bytes were copied.
pub fn copy_unique_prefix(unique: &Vec<u8>, buf: &mut Vec<u8>) -> (n: usize)
    ensures
        final(buf)@.len() == old(buf)@.len(),
        n == if unique@.len() < old(buf)@.len() {
            unique@.len() as int
        } else {
            old(buf)@.len() as int
        },
        forall|j: int| 0 <= j < n ==> final(buf)@[j] == unique@[j],
        forall|j: int| n <= j < final(buf)@.len() ==> final(buf)@[j] == old(buf)@[j],
{
    let n: usize = if unique.len() < buf.len() {
        unique.len()
    } else {
        buf.len()
    };
    let mut i: usize = 0;
    while i < n
        invariant
            i <= n,
            n <= unique@.len(),
            n <= buf@.len(),
            buf@.len() == old(buf)@.len(),
            forall|j: int| 0 <= j < i ==> buf@[j] == unique@[j],
            forall|j: int| i <= j < buf@.len() ==> buf@[j] == old(buf)@[j],
        decreases n - i,
    {
        let b = unique[i];
        buf.set(i, b);
        i = i + 1;
    }
    n
}

impl<C: PlatformCallbacks> MsTpm20RefPlatformImpl<C> {
    /// Copy the host's unique value into the prefix of `buf`, up to `buf`'s
    /// length; returns how many bytes were copied. The `which` selector is
    /// accepted for interface compatibility and ignored.
    pub fn get_unique(&mut self, which: u32, buf: &mut Vec<u8>) -> (n: usize)
        ensures
            final(self).state == old(self).state,
            final(buf)@.len() == old(buf)@.len(),
            n <= old(buf)@.len(),
    {
        let unique = self.callbacks.get_unique_value();
        copy_unique_prefix(&unique, buf)
    }
}

} // verus!

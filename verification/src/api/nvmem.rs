//! Emulated non-volatile memory: a fixed-size, bounds-checked byte region
//! with an explicit enabled state and a commit hook to the host's durable
//! storage callback.
//!
//! Every range-taking operation validates `offset + len` against the region
//! length and fails with a structured out-of-range error; nothing is ever
//! silently clamped or truncated.

use vstd::prelude::*;

use crate::error::Error;
use crate::plat::MsTpm20RefPlatformImpl;
use crate::PlatformCallbacks;

verus! {

/// Size in bytes of the emulated non-volatile region.
pub const NV_MEMORY_SIZE: usize = 0x4000;

/// The emulated non-volatile region and whether it is currently enabled.
pub struct NvState {
    /// The byte region standing in for the TPM's non-volatile storage.
    pub region: Vec<u8>,
    /// Whether the region currently holds valid, enabled contents.
    pub is_init: bool,
}

/// Errors of the non-volatile memory emulator.
#[derive(Clone, Copy, Debug, PartialEq, Eq, Structural)]
pub enum NvError {
    /// The region was already enabled from a blob.
    AlreadyInitialized,
    /// The supplied blob does not have the fixed region size.
    MismatchedBlobSize,
    /// A range-taking operation reached outside the region.
    InvalidAccess {
        /// First byte offset of the failed access.
        start_offset: usize,
        /// Length in bytes of the failed access.
        len: usize,
    },
}

/// Report of whether non-volatile memory can currently be used.
pub enum NvAvailability {
    /// Memory is available.
    Available,
    /// Writes are failing.
    WriteFailure,
    /// Access is rate limited.
    RateLimit,
}

/// A byte-for-byte copy of `src`; the emulator's only way of duplicating
/// buffers, proved exact.
pub fn copy_bytes(src: &Vec<u8>) -> (r: Vec<u8>)
    ensures
        r@ == src@,
{
    let mut r: Vec<u8> = Vec::new();
    let mut i: usize = 0;
    while i < src.len()
        invariant
            i <= src@.len(),
            r@ == src@.subrange(0, i as int),
        decreases src@.len() - i,
    {
        r.push(src[i]);
        assert(r@ =~= src@.subrange(0, (i + 1) as int));
        i = i + 1;
    }
    assert(r@ =~= src@);
    r
}

impl NvState {
    /// Fresh state: no region contents, not enabled.
    pub fn new() -> (r: NvState)
        ensures
            r.region@ == Seq::<u8>::empty(),
            !r.is_init,
    {
        NvState { region: Vec::new(), is_init: false }
    }

    /// An exact copy of this state.
    pub fn clone_state(&self) -> (r: NvState)
        ensures
            r.region@ == self.region@,
            r.is_init == self.is_init,
    {
        NvState { region: copy_bytes(&self.region), is_init: self.is_init }
    }
}

/// The access `[off, off + len)` lies within a region of length
/// `region_len`.
pub open spec fn nv_in_bounds(region_len: int, off: int, len: int) -> bool {
    off + len <= region_len
}

/// The region after writing `data` at offset `off`.
pub open spec fn spec_nv_write(region: Seq<u8>, off: int, data: Seq<u8>) -> Seq<u8> {
    Seq::new(
        region.len(),
        |i: int|
            if off <= i < off + data.len() {
                data[i - off]
            } else {
                region[i]
            },
    )
}

/// The region after clearing `len` bytes at offset `off` to zero.
pub open spec fn spec_nv_clear(region: Seq<u8>, off: int, len: int) -> Seq<u8> {
    Seq::new(
        region.len(),
        |i: int|
            if off <= i < off + len {
                0u8
            } else {
                region[i]
            },
    )
}

/// The region after copying `len` bytes from offset `src` to offset `dst`.
pub open spec fn spec_nv_move(region: Seq<u8>, src: int, dst: int, len: int) -> Seq<u8> {
    Seq::new(
        region.len(),
        |i: int|
            if dst <= i < dst + len {
                region[i - dst + src]
            } else {
                region[i]
            },
    )
}

/// Writing `data` at `off` and then reading `data.len()` bytes back from
/// `off` returns exactly `data`, for every in-bounds offset.
pub proof fn lemma_nv_write_then_read(region: Seq<u8>, off: int, data: Seq<u8>)
    requires
        0 <= off,
        nv_in_bounds(region.len() as int, off, data.len() as int),
    ensures
        spec_nv_write(region, off, data).subrange(off, off + data.len()) == data,
{
    assert(spec_nv_write(region, off, data).subrange(off, off + data.len()) =~= data);
}

impl<C: PlatformCallbacks> MsTpm20RefPlatformImpl<C> {
    /// Enable non-volatile memory from a previously committed blob.
    ///
    /// Fails with `AlreadyInitialized` if the region is already enabled, and
    /// with `MismatchedBlobSize` if the blob length is not the fixed region
    /// size; on success the region holds exactly the blob's bytes.
    pub fn nv_enable_from_blob(&mut self, blob: &Vec<u8>) -> (r: Result<(), Error>)
        ensures
            old(self).state.nvmem.is_init ==> r == Err::<(), Error>(
                Error::NvMem(NvError::AlreadyInitialized),
            ) && *final(self) == *old(self),
            !old(self).state.nvmem.is_init && blob@.len() != NV_MEMORY_SIZE ==> r == Err::<
                (),
                Error,
            >(Error::NvMem(NvError::MismatchedBlobSize)) && *final(self) == *old(self),
            !old(self).state.nvmem.is_init && blob@.len() == NV_MEMORY_SIZE ==> {
                &&& r is Ok
                &&& final(self).state.nvmem.is_init
                &&& final(self).state.nvmem.region@ == blob@
                &&& final(self).state.cancel == old(self).state.cancel
                &&& final(self).state.locality == old(self).state.locality
                &&& final(self).state.clock == old(self).state.clock
                &&& final(self).state.power_plat == old(self).state.power_plat
            },
    {
        if self.state.nvmem.is_init {
            return Err(Error::from(NvError::AlreadyInitialized));
        }
        if blob.len() != NV_MEMORY_SIZE {
            return Err(Error::from(NvError::MismatchedBlobSize));
        }
        self.state.nvmem.region = copy_bytes(blob);
        self.state.nvmem.is_init = true;
        Ok(())
    }

    /// Enable non-volatile memory, zero-filling the region if no blob was
    /// ever supplied — a fallback worth a warning at the embedding layer,
    /// since a persistent image is normally loaded first. Never fails.
    pub fn nv_enable(&mut self) -> (r: Result<(), Error>)
        ensures
            r is Ok,
            final(self).state.nvmem.is_init,
            old(self).state.nvmem.is_init ==> *final(self) == *old(self),
            !old(self).state.nvmem.is_init ==> final(self).state.nvmem.region@ == Seq::<u8>::new(
                NV_MEMORY_SIZE as nat,
                |i: int| 0u8,
            ),
            final(self).state.cancel == old(self).state.cancel,
            final(self).state.locality == old(self).state.locality,
            final(self).state.clock == old(self).state.clock,
            final(self).state.power_plat == old(self).state.power_plat,
    {
        if !self.state.nvmem.is_init {
            let mut region: Vec<u8> = Vec::new();
            let mut i: usize = 0;
            while i < NV_MEMORY_SIZE
                invariant
                    i <= NV_MEMORY_SIZE,
                    region@ == Seq::<u8>::new(i as nat, |j: int| 0u8),
                decreases NV_MEMORY_SIZE - i,
            {
                region.push(0);
                assert(region@ =~= Seq::<u8>::new((i + 1) as nat, |j: int| 0u8));
                i = i + 1;
            }
            self.state.nvmem.region = region;
            self.state.nvmem.is_init = true;
        }
        Ok(())
    }

    /// Disable non-volatile memory; the contents stay in place for a later
    /// re-enable. Deleting the backing store is a simulator-only facility and
    /// is not supported here.
    pub fn nv_disable(&mut self, delete: bool)
        requires
            !delete,
        ensures
            !final(self).state.nvmem.is_init,
            final(self).state.nvmem.region@ == old(self).state.nvmem.region@,
            final(self).state.cancel == old(self).state.cancel,
            final(self).state.locality == old(self).state.locality,
            final(self).state.clock == old(self).state.clock,
            final(self).state.power_plat == old(self).state.power_plat,
    {
        self.state.nvmem.is_init = false;
    }

    /// Report whether non-volatile memory can be used; the in-memory region
    /// always can be.
    pub fn is_nv_available(&mut self) -> (r: NvAvailability)
        ensures
            r is Available,
            *final(self) == *old(self),
    {
        NvAvailability::Available
    }

    /// Read `buf.len()` bytes starting at `start_offset` into `buf`.
    ///
    /// Fails with `InvalidAccess` — leaving the platform and `buf` unchanged
    /// — exactly when the range reaches outside the region.
    pub fn nv_memory_read(&mut self, start_offset: usize, buf: &mut Vec<u8>) -> (r: Result<
        (),
        Error,
    >)
        ensures
            *final(self) == *old(self),
            nv_in_bounds(
                old(self).state.nvmem.region@.len() as int,
                start_offset as int,
                old(buf)@.len() as int,
            ) ==> {
                &&& r is Ok
                &&& final(buf)@ == old(self).state.nvmem.region@.subrange(
                    start_offset as int,
                    start_offset + old(buf)@.len(),
                )
            },
            !nv_in_bounds(
                old(self).state.nvmem.region@.len() as int,
                start_offset as int,
                old(buf)@.len() as int,
            ) ==> r == Err::<(), Error>(
                Error::NvMem(
                    NvError::InvalidAccess { start_offset, len: old(buf)@.len() as usize },
                ),
            ) && *final(buf) == *old(buf),
    {
        let region_len = self.state.nvmem.region.len();
        if buf.len() > region_len || start_offset > region_len - buf.len() {
            return Err(Error::from(NvError::InvalidAccess { start_offset, len: buf.len() }));
        }
        let len = buf.len();
        let mut i: usize = 0;
        while i < len
            invariant
                i <= len,
                len == buf@.len(),
                start_offset + len <= self.state.nvmem.region@.len(),
                start_offset + len <= usize::MAX,
                self == old(self),
                forall|j: int|
                    0 <= j < i ==> buf@[j] == self.state.nvmem.region@[start_offset + j],
            decreases len - i,
        {
            let b = self.state.nvmem.region[start_offset + i];
            buf.set(i, b);
            i = i + 1;
        }
        proof {
            assert(buf@ =~= old(self).state.nvmem.region@.subrange(
                start_offset as int,
                start_offset + old(buf)@.len(),
            ));
        }
        Ok(())
    }

    /// Report whether the region at `start_offset` differs from `buf`.
    ///
    /// Fails with `InvalidAccess` exactly when the range reaches outside the
    /// region.
    pub fn nv_is_different(&mut self, start_offset: usize, buf: &Vec<u8>) -> (r: Result<
        bool,
        Error,
    >)
        ensures
            *final(self) == *old(self),
            nv_in_bounds(
                old(self).state.nvmem.region@.len() as int,
                start_offset as int,
                buf@.len() as int,
            ) ==> r == Ok::<bool, Error>(
                old(self).state.nvmem.region@.subrange(
                    start_offset as int,
                    start_offset + buf@.len(),
                ) != buf@,
            ),
            !nv_in_bounds(
                old(self).state.nvmem.region@.len() as int,
                start_offset as int,
                buf@.len() as int,
            ) ==> r == Err::<bool, Error>(
                Error::NvMem(NvError::InvalidAccess { start_offset, len: buf@.len() as usize }),
            ),
    {
        let region_len = self.state.nvmem.region.len();
        if buf.len() > region_len || start_offset > region_len - buf.len() {
            return Err(Error::from(NvError::InvalidAccess { start_offset, len: buf.len() }));
        }
        let len = buf.len();
        let mut same = true;
        let mut i: usize = 0;
        while i < len
            invariant
                i <= len,
                len == buf@.len(),
                start_offset + len <= self.state.nvmem.region@.len(),
                start_offset + len <= usize::MAX,
                self == old(self),
                same == (forall|j: int|
                    0 <= j < i ==> self.state.nvmem.region@[start_offset + j] == buf@[j]),
            decreases len - i,
        {
            if self.state.nvmem.region[start_offset + i] != buf[i] {
                same = false;
            }
            i = i + 1;
        }
        proof {
            let read = old(self).state.nvmem.region@.subrange(
                start_offset as int,
                start_offset + buf@.len(),
            );
            if same {
                assert(read =~= buf@);
            } else {
                assert(read != buf@);
            }
        }
        Ok(!same)
    }

    /// Write `buf` into the region at `start_offset`.
    ///
    /// Fails with `InvalidAccess` — leaving the region untouched — exactly
    /// when the range reaches outside the region; a write is never partially
    /// applied.
    pub fn nv_memory_write(&mut self, start_offset: usize, buf: &Vec<u8>) -> (r: Result<
        (),
        Error,
    >)
        ensures
            final(self).state.cancel == old(self).state.cancel,
            final(self).state.locality == old(self).state.locality,
            final(self).state.clock == old(self).state.clock,
            final(self).state.power_plat == old(self).state.power_plat,
            final(self).state.nvmem.is_init == old(self).state.nvmem.is_init,
            nv_in_bounds(
                old(self).state.nvmem.region@.len() as int,
                start_offset as int,
                buf@.len() as int,
            ) ==> {
                &&& r is Ok
                &&& final(self).state.nvmem.region@ == spec_nv_write(
                    old(self).state.nvmem.region@,
                    start_offset as int,
                    buf@,
                )
            },
            !nv_in_bounds(
                old(self).state.nvmem.region@.len() as int,
                start_offset as int,
                buf@.len() as int,
            ) ==> r == Err::<(), Error>(
                Error::NvMem(NvError::InvalidAccess { start_offset, len: buf@.len() as usize }),
            ) && *final(self) == *old(self),
    {
        let region_len = self.state.nvmem.region.len();
        if buf.len() > region_len || start_offset > region_len - buf.len() {
            return Err(Error::from(NvError::InvalidAccess { start_offset, len: buf.len() }));
        }
        let len = buf.len();
        let mut i: usize = 0;
        while i < len
            invariant
                i <= len,
                len == buf@.len(),
                start_offset + len <= self.state.nvmem.region@.len(),
                start_offset + len <= usize::MAX,
                self.state.cancel == old(self).state.cancel,
                self.state.locality == old(self).state.locality,
                self.state.clock == old(self).state.clock,
                self.state.power_plat == old(self).state.power_plat,
                self.state.nvmem.is_init == old(self).state.nvmem.is_init,
                self.state.nvmem.region@.len() == old(self).state.nvmem.region@.len(),
                forall|j: int|
                    0 <= j < i ==> self.state.nvmem.region@[start_offset + j] == buf@[j],
                forall|j: int|
                    0 <= j < self.state.nvmem.region@.len() && !(start_offset <= j
                        < start_offset + i) ==> self.state.nvmem.region@[j] == old(
                        self,
                    ).state.nvmem.region@[j],
            decreases len - i,
        {
            let b = buf[i];
            self.state.nvmem.region.set(start_offset + i, b);
            i = i + 1;
        }
        proof {
            assert(self.state.nvmem.region@ =~= spec_nv_write(
                old(self).state.nvmem.region@,
                start_offset as int,
                buf@,
            ));
        }
        Ok(())
    }

    /// Clear `size` bytes of the region to zero starting at `start`.
    ///
    /// Fails with `InvalidAccess` — leaving the region untouched — exactly
    /// when the range reaches outside the region.
    pub fn nv_memory_clear(&mut self, start: usize, size: usize) -> (r: Result<(), Error>)
        ensures
            final(self).state.cancel == old(self).state.cancel,
            final(self).state.locality == old(self).state.locality,
            final(self).state.clock == old(self).state.clock,
            final(self).state.power_plat == old(self).state.power_plat,
            final(self).state.nvmem.is_init == old(self).state.nvmem.is_init,
            nv_in_bounds(old(self).state.nvmem.region@.len() as int, start as int, size as int)
                ==> {
                &&& r is Ok
                &&& final(self).state.nvmem.region@ == spec_nv_clear(
                    old(self).state.nvmem.region@,
                    start as int,
                    size as int,
                )
            },
            !nv_in_bounds(old(self).state.nvmem.region@.len() as int, start as int, size as int)
                ==> r == Err::<(), Error>(
                Error::NvMem(NvError::InvalidAccess { start_offset: start, len: size }),
            ) && *final(self) == *old(self),
    {
        let region_len = self.state.nvmem.region.len();
        if size > region_len || start > region_len - size {
            return Err(Error::from(NvError::InvalidAccess { start_offset: start, len: size }));
        }
        let mut i: usize = 0;
        while i < size
            invariant
                i <= size,
                start + size <= self.state.nvmem.region@.len(),
                start + size <= usize::MAX,
                self.state.cancel == old(self).state.cancel,
                self.state.locality == old(self).state.locality,
                self.state.clock == old(self).state.clock,
                self.state.power_plat == old(self).state.power_plat,
                self.state.nvmem.is_init == old(self).state.nvmem.is_init,
                self.state.nvmem.region@.len() == old(self).state.nvmem.region@.len(),
                forall|j: int| start <= j < start + i ==> self.state.nvmem.region@[j] == 0u8,
                forall|j: int|
                    0 <= j < self.state.nvmem.region@.len() && !(start <= j < start + i)
                        ==> self.state.nvmem.region@[j] == old(self).state.nvmem.region@[j],
            decreases size - i,
        {
            self.state.nvmem.region.set(start + i, 0);
            i = i + 1;
        }
        proof {
            assert(self.state.nvmem.region@ =~= spec_nv_clear(
                old(self).state.nvmem.region@,
                start as int,
                size as int,
            ));
        }
        Ok(())
    }

    /// Copy `size` bytes of the region from `source_offset` to
    /// `dest_offset`; the ranges may overlap.
    ///
    /// Fails with `InvalidAccess` — leaving the region untouched — exactly
    /// when either range reaches outside the region; the source range is
    /// validated first.
    pub fn nv_memory_move(
        &mut self,
        source_offset: usize,
        dest_offset: usize,
        size: usize,
    ) -> (r: Result<(), Error>)
        ensures
            final(self).state.cancel == old(self).state.cancel,
            final(self).state.locality == old(self).state.locality,
            final(self).state.clock == old(self).state.clock,
            final(self).state.power_plat == old(self).state.power_plat,
            final(self).state.nvmem.is_init == old(self).state.nvmem.is_init,
            !nv_in_bounds(
                old(self).state.nvmem.region@.len() as int,
                source_offset as int,
                size as int,
            ) ==> r == Err::<(), Error>(
                Error::NvMem(NvError::InvalidAccess { start_offset: source_offset, len: size }),
            ) && *final(self) == *old(self),
            nv_in_bounds(
                old(self).state.nvmem.region@.len() as int,
                source_offset as int,
                size as int,
            ) && !nv_in_bounds(
                old(self).state.nvmem.region@.len() as int,
                dest_offset as int,
                size as int,
            ) ==> r == Err::<(), Error>(
                Error::NvMem(NvError::InvalidAccess { start_offset: dest_offset, len: size }),
            ) && *final(self) == *old(self),
            nv_in_bounds(
                old(self).state.nvmem.region@.len() as int,
                source_offset as int,
                size as int,
            ) && nv_in_bounds(
                old(self).state.nvmem.region@.len() as int,
                dest_offset as int,
                size as int,
            ) ==> {
                &&& r is Ok
                &&& final(self).state.nvmem.region@ == spec_nv_move(
                    old(self).state.nvmem.region@,
                    source_offset as int,
                    dest_offset as int,
                    size as int,
                )
            },
    {
        let region_len = self.state.nvmem.region.len();
        if size > region_len || source_offset > region_len - size {
            return Err(
                Error::from(NvError::InvalidAccess { start_offset: source_offset, len: size }),
            );
        }
        if dest_offset > region_len - size {
            return Err(
                Error::from(NvError::InvalidAccess { start_offset: dest_offset, len: size }),
            );
        }
        // Buffer the source range first so that overlapping ranges copy the
        // original bytes.
        let mut tmp: Vec<u8> = Vec::new();
        let mut i: usize = 0;
        while i < size
            invariant
                i <= size,
                source_offset + size <= self.state.nvmem.region@.len(),
                source_offset + size <= usize::MAX,
                self == old(self),
                tmp@.len() == i,
                forall|j: int|
                    0 <= j < i ==> tmp@[j] == self.state.nvmem.region@[source_offset + j],
            decreases size - i,
        {
            let b = self.state.nvmem.region[source_offset + i];
            tmp.push(b);
            i = i + 1;
        }
        let mut k: usize = 0;
        while k < size
            invariant
                k <= size,
                size == tmp@.len(),
                dest_offset + size <= self.state.nvmem.region@.len(),
                dest_offset + size <= usize::MAX,
                source_offset + size <= old(self).state.nvmem.region@.len(),
                forall|j: int|
                    0 <= j < size ==> tmp@[j] == old(self).state.nvmem.region@[source_offset + j],
                self.state.cancel == old(self).state.cancel,
                self.state.locality == old(self).state.locality,
                self.state.clock == old(self).state.clock,
                self.state.power_plat == old(self).state.power_plat,
                self.state.nvmem.is_init == old(self).state.nvmem.is_init,
                self.state.nvmem.region@.len() == old(self).state.nvmem.region@.len(),
                forall|j: int|
                    dest_offset <= j < dest_offset + k ==> #[trigger] self.state.nvmem.region@[j]
                        == tmp@[j - dest_offset],
                forall|j: int|
                    0 <= j < self.state.nvmem.region@.len() && !(dest_offset <= j
                        < dest_offset + k) ==> self.state.nvmem.region@[j] == old(
                        self,
                    ).state.nvmem.region@[j],
            decreases size - k,
        {
            let b = tmp[k];
            self.state.nvmem.region.set(dest_offset + k, b);
            k = k + 1;
        }
        proof {
            let moved = spec_nv_move(
                old(self).state.nvmem.region@,
                source_offset as int,
                dest_offset as int,
                size as int,
            );
            assert forall|j: int|
                0 <= j < self.state.nvmem.region@.len() implies self.state.nvmem.region@[j]
                == moved[j] by {
                if dest_offset <= j < dest_offset + size {
                    assert(self.state.nvmem.region@[j] == tmp@[j - dest_offset]);
                    assert(tmp@[j - dest_offset] == old(self).state.nvmem.region@[source_offset + (
                    j - dest_offset)]);
                }
            }
            assert(self.state.nvmem.region@ =~= moved);
        }
        Ok(())
    }

    /// Commit the whole region to the host's durable storage callback.
    ///
    /// The in-memory region stays authoritative whatever the outcome: a
    /// callback failure is reported, wrapped as `PlatformCallback`, and
    /// nothing is rolled back.
    pub fn nv_commit(&mut self) -> (r: Result<(), Error>)
        ensures
            final(self).state == old(self).state,
            r matches Err(e) ==> e is PlatformCallback,
    {
        match self.callbacks.commit_nv_state(&self.state.nvmem.region) {
            Ok(()) => Ok(()),
            Err(e) => Err(Error::PlatformCallback(e)),
        }
    }
}

} // verus!

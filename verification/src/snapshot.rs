//! The runtime state snapshot codec: one portable byte artifact holding the
//! whole platform state together with the core's opaque state blob.
//!
//! The layout is fixed and little-endian: the cancellation flag and locality
//! byte, the clock fields, the power-loss flag, the non-volatile region
//! (enabled flag, 8-byte length, bytes), then the core blob (8-byte length,
//! bytes), with nothing following. Decoding validates every flag byte, the
//! clock's well-formedness and both lengths, and rejects anything else as
//! malformed; decoding a snapshot this codec produced returns exactly what
//! was encoded.

use vstd::prelude::*;

use vstd::bytes::lemma_auto_spec_u128_to_from_le_bytes;
use vstd::bytes::lemma_auto_spec_u32_to_from_le_bytes;
use vstd::bytes::lemma_auto_spec_u64_to_from_le_bytes;
use vstd::bytes::spec_u128_to_le_bytes;
use vstd::bytes::spec_u128_from_le_bytes;
use vstd::bytes::spec_u32_to_le_bytes;
use vstd::bytes::spec_u32_from_le_bytes;
use vstd::bytes::spec_u64_to_le_bytes;
use vstd::bytes::spec_u64_from_le_bytes;
use vstd::bytes::u128_from_le_bytes;
use vstd::bytes::u128_to_le_bytes;
use vstd::bytes::u32_from_le_bytes;
use vstd::bytes::u32_to_le_bytes;
use vstd::bytes::u64_from_le_bytes;
use vstd::bytes::u64_to_le_bytes;
use vstd::slice::slice_subrange;
use vstd::slice::slice_to_vec;

use crate::api::cancel::CancelState;
use crate::api::clock::clock_wf;
use crate::api::clock::ClockState;
use crate::api::clock::CLOCK_ADJUST_LIMIT;
use crate::api::clock::CLOCK_NOMINAL;
use crate::api::locality_plat::LocalityState;
use crate::api::nvmem::copy_bytes;
use crate::api::nvmem::NvState;
use crate::api::power_plat::PowerPlatState;
use crate::plat::MsTpm20PlatformState;

verus! {

/// Snapshot length with an empty region and an empty core blob: no valid
/// snapshot is shorter.
pub const SNAPSHOT_MIN_LEN: usize = 90;

/// The byte standing for a flag.
pub open spec fn spec_bool_byte(b: bool) -> u8 {
    if b {
        1u8
    } else {
        0u8
    }
}

/// Only these bytes decode to a flag.
pub open spec fn spec_is_bool_byte(x: u8) -> bool {
    x == 0 || x == 1
}

/// The fixed-size head of the snapshot: every platform state field but the
/// region bytes.
pub open spec fn spec_encode_head(s: &MsTpm20PlatformState) -> Seq<u8> {
    seq![spec_bool_byte(s.cancel.flag), s.locality.locality]
        + spec_u32_to_le_bytes(s.clock.adjust_rate)
        + seq![spec_bool_byte(s.clock.timer_reset), spec_bool_byte(s.clock.timer_stopped)]
        + spec_u128_to_le_bytes(s.clock.last_system_time)
        + spec_u128_to_le_bytes(s.clock.last_reported_time)
        + spec_u128_to_le_bytes(s.clock.last_real_time)
        + spec_u128_to_le_bytes(s.clock.tpm_time)
        + seq![spec_bool_byte(s.power_plat.power_lost), spec_bool_byte(s.nvmem.is_init)]
}

/// The whole snapshot: head, region with its length, core blob with its
/// length.
pub open spec fn spec_encode_snapshot(s: &MsTpm20PlatformState, core: Seq<u8>) -> Seq<u8> {
    spec_encode_head(s) + spec_u64_to_le_bytes(s.nvmem.region@.len() as u64) + s.nvmem.region@
        + spec_u64_to_le_bytes(core.len() as u64) + core
}

/// What a well-formed snapshot holds: the platform state fields, the region
/// bytes, and the core's opaque blob.
pub struct SnapshotParts {
    /// Cancellation flag.
    pub cancel: CancelState,
    /// Locality.
    pub locality: LocalityState,
    /// Clock state; well formed by construction of the decoder.
    pub clock: ClockState,
    /// Power-loss flag.
    pub power_plat: PowerPlatState,
    /// Whether the non-volatile region was enabled.
    pub nv_is_init: bool,
    /// The non-volatile region bytes.
    pub region: Seq<u8>,
    /// The core's opaque state blob.
    pub core: Seq<u8>,
}

/// Decode a snapshot blob; `None` exactly when the blob is malformed: too
/// short, a flag byte that is not zero or one, a clock outside its
/// well-formed ranges, or lengths that do not add up to the blob's own
/// length.
pub open spec fn spec_decode_snapshot(b: Seq<u8>) -> Option<SnapshotParts> {
    if b.len() < SNAPSHOT_MIN_LEN {
        None
    } else if !(spec_is_bool_byte(b[0]) && spec_is_bool_byte(b[6]) && spec_is_bool_byte(b[7])
        && spec_is_bool_byte(b[72]) && spec_is_bool_byte(b[73])) {
        None
    } else {
        let adjust_rate = spec_u32_from_le_bytes(b.subrange(2, 6));
        let last_system_time = spec_u128_from_le_bytes(b.subrange(8, 24));
        let last_reported_time = spec_u128_from_le_bytes(b.subrange(24, 40));
        let last_real_time = spec_u128_from_le_bytes(b.subrange(40, 56));
        let tpm_time = spec_u128_from_le_bytes(b.subrange(56, 72));
        let clock = ClockState {
            adjust_rate,
            timer_reset: b[6] == 1,
            timer_stopped: b[7] == 1,
            last_system_time,
            last_reported_time,
            last_real_time,
            tpm_time,
        };
        if !clock_wf(&clock) {
            None
        } else {
            let region_len = spec_u64_from_le_bytes(b.subrange(74, 82)) as int;
            if region_len > b.len() - SNAPSHOT_MIN_LEN {
                None
            } else {
                let core_len = spec_u64_from_le_bytes(
                    b.subrange(82 + region_len, 90 + region_len),
                ) as int;
                if core_len != b.len() - SNAPSHOT_MIN_LEN - region_len {
                    None
                } else {
                    Some(
                        SnapshotParts {
                            cancel: CancelState { flag: b[0] == 1 },
                            locality: LocalityState { locality: b[1] },
                            clock,
                            power_plat: PowerPlatState { power_lost: b[72] == 1 },
                            nv_is_init: b[73] == 1,
                            region: b.subrange(82, 82 + region_len),
                            core: b.subrange(90 + region_len, b.len() as int),
                        },
                    )
                }
            }
        }
    }
}

/// The flag byte for `b`.
fn bool_byte(b: bool) -> (r: u8)
    ensures
        r == spec_bool_byte(b),
{
    if b {
        1
    } else {
        0
    }
}

/// Encode the platform state and the core's opaque blob into one snapshot
/// artifact.
pub fn encode_snapshot(s: &MsTpm20PlatformState, core: &Vec<u8>) -> (r: Vec<u8>)
    ensures
        r@ == spec_encode_snapshot(s, core@),
{
    let mut out: Vec<u8> = Vec::new();
    out.push(bool_byte(s.cancel.flag));
    out.push(s.locality.locality);
    let mut rate_bytes = u32_to_le_bytes(s.clock.adjust_rate);
    out.append(&mut rate_bytes);
    out.push(bool_byte(s.clock.timer_reset));
    out.push(bool_byte(s.clock.timer_stopped));
    let mut lst_bytes = u128_to_le_bytes(s.clock.last_system_time);
    out.append(&mut lst_bytes);
    let mut lrt_bytes = u128_to_le_bytes(s.clock.last_reported_time);
    out.append(&mut lrt_bytes);
    let mut lrealt_bytes = u128_to_le_bytes(s.clock.last_real_time);
    out.append(&mut lrealt_bytes);
    let mut tpm_bytes = u128_to_le_bytes(s.clock.tpm_time);
    out.append(&mut tpm_bytes);
    out.push(bool_byte(s.power_plat.power_lost));
    out.push(bool_byte(s.nvmem.is_init));
    let mut region_len_bytes = u64_to_le_bytes(s.nvmem.region.len() as u64);
    out.append(&mut region_len_bytes);
    let mut region_bytes = copy_bytes(&s.nvmem.region);
    out.append(&mut region_bytes);
    let mut core_len_bytes = u64_to_le_bytes(core.len() as u64);
    out.append(&mut core_len_bytes);
    let mut core_bytes = copy_bytes(core);
    out.append(&mut core_bytes);
    proof {
        assert(out@ =~= spec_encode_snapshot(s, core@));
    }
    out
}

/// Decode a snapshot artifact into the platform state and the core's opaque
/// blob; `None` exactly when the blob is malformed.
pub fn decode_snapshot(blob: &Vec<u8>) -> (r: Option<(MsTpm20PlatformState, Vec<u8>)>)
    ensures
        r is Some <==> spec_decode_snapshot(blob@) is Some,
        r matches Some(p) ==> {
            let parts = spec_decode_snapshot(blob@)->Some_0;
            &&& p.0.cancel == parts.cancel
            &&& p.0.locality == parts.locality
            &&& p.0.clock == parts.clock
            &&& p.0.power_plat == parts.power_plat
            &&& p.0.nvmem.is_init == parts.nv_is_init
            &&& p.0.nvmem.region@ == parts.region
            &&& p.1@ == parts.core
            &&& crate::plat::state_wf(&p.0)
        },
{
    if blob.len() < SNAPSHOT_MIN_LEN {
        return None;
    }
    let b0 = blob[0];
    let b6 = blob[6];
    let b7 = blob[7];
    let b72 = blob[72];
    let b73 = blob[73];
    if !(b0 <= 1 && b6 <= 1 && b7 <= 1 && b72 <= 1 && b73 <= 1) {
        return None;
    }
    let adjust_rate = u32_from_le_bytes(slice_subrange(blob.as_slice(), 2, 6));
    let last_system_time = u128_from_le_bytes(slice_subrange(blob.as_slice(), 8, 24));
    let last_reported_time = u128_from_le_bytes(slice_subrange(blob.as_slice(), 24, 40));
    let last_real_time = u128_from_le_bytes(slice_subrange(blob.as_slice(), 40, 56));
    let tpm_time = u128_from_le_bytes(slice_subrange(blob.as_slice(), 56, 72));
    if !(CLOCK_NOMINAL - (CLOCK_ADJUST_LIMIT as u32) <= adjust_rate && adjust_rate <= CLOCK_NOMINAL
        + (CLOCK_ADJUST_LIMIT as u32)) {
        return None;
    }
    if !(tpm_time < 0x1_0000_0000_0000_0000u128 && last_real_time
        < 0x1_0000_0000_0000_0000u128) {
        return None;
    }
    let region_len_u64 = u64_from_le_bytes(slice_subrange(blob.as_slice(), 74, 82));
    if region_len_u64 > (blob.len() - SNAPSHOT_MIN_LEN) as u64 {
        return None;
    }
    let region_len = region_len_u64 as usize;
    let core_len_u64 = u64_from_le_bytes(
        slice_subrange(blob.as_slice(), 82 + region_len, 90 + region_len),
    );
    if core_len_u64 != (blob.len() - SNAPSHOT_MIN_LEN - region_len) as u64 {
        return None;
    }
    let region = slice_to_vec(slice_subrange(blob.as_slice(), 82, 82 + region_len));
    let core = slice_to_vec(slice_subrange(blob.as_slice(), 90 + region_len, blob.len()));
    let state = MsTpm20PlatformState {
        cancel: CancelState { flag: b0 == 1 },
        locality: LocalityState { locality: blob[1] },
        clock: ClockState {
            adjust_rate,
            timer_reset: b6 == 1,
            timer_stopped: b7 == 1,
            last_system_time,
            last_reported_time,
            last_real_time,
            tpm_time,
        },
        power_plat: PowerPlatState { power_lost: b72 == 1 },
        nvmem: NvState { region, is_init: b73 == 1 },
    };
    Some((state, core))
}

/// Decoding a snapshot this codec encoded returns exactly the state and the
/// core blob that were encoded: the snapshot is lossless.
pub proof fn lemma_snapshot_round_trip(s: &MsTpm20PlatformState, core: Seq<u8>)
    requires
        crate::plat::state_wf(s),
        s.nvmem.region@.len() < 0x1_0000_0000_0000_0000,
        core.len() < 0x1_0000_0000_0000_0000,
    ensures
        spec_decode_snapshot(spec_encode_snapshot(s, core)) == Some(
            SnapshotParts {
                cancel: s.cancel,
                locality: s.locality,
                clock: s.clock,
                power_plat: s.power_plat,
                nv_is_init: s.nvmem.is_init,
                region: s.nvmem.region@,
                core,
            },
        ),
{
    lemma_auto_spec_u32_to_from_le_bytes();
    lemma_auto_spec_u64_to_from_le_bytes();
    lemma_auto_spec_u128_to_from_le_bytes();
    let enc = spec_encode_snapshot(s, core);
    let head = spec_encode_head(s);
    let rl: int = s.nvmem.region@.len() as int;
    let cl: int = core.len() as int;
    assert(head.len() == 74);
    assert(enc.len() == 90 + rl + cl);
    assert(enc.subrange(2, 6) =~= spec_u32_to_le_bytes(s.clock.adjust_rate));
    assert(enc.subrange(8, 24) =~= spec_u128_to_le_bytes(s.clock.last_system_time));
    assert(enc.subrange(24, 40) =~= spec_u128_to_le_bytes(s.clock.last_reported_time));
    assert(enc.subrange(40, 56) =~= spec_u128_to_le_bytes(s.clock.last_real_time));
    assert(enc.subrange(56, 72) =~= spec_u128_to_le_bytes(s.clock.tpm_time));
    assert(enc.subrange(74, 82) =~= spec_u64_to_le_bytes(rl as u64));
    assert(enc.subrange(82 + rl, 90 + rl) =~= spec_u64_to_le_bytes(cl as u64));
    assert(enc.subrange(82, 82 + rl) =~= s.nvmem.region@);
    assert(enc.subrange(90 + rl, enc.len() as int) =~= core);
    assert(enc[0] == spec_bool_byte(s.cancel.flag));
    assert(enc[1] == s.locality.locality);
    assert(enc[6] == spec_bool_byte(s.clock.timer_reset));
    assert(enc[7] == spec_bool_byte(s.clock.timer_stopped));
    assert(enc[72] == spec_bool_byte(s.power_plat.power_lost));
    assert(enc[73] == spec_bool_byte(s.nvmem.is_init));
}

} // verus!

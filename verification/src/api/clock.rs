//! The clock synthesizer: a monotonically non-decreasing, rate-adjustable
//! virtual timer built from a host-supplied, possibly jittery or even
//! non-monotonic elapsed-time reading.

use vstd::prelude::*;

use crate::plat::MsTpm20PlatformState;
use crate::plat::MsTpm20RefPlatformImpl;
use crate::PlatformCallbacks;

verus! {

/// Nominal clock rate; the neutral value of `adjust_rate`.
pub const CLOCK_NOMINAL: u32 = 30000;

/// How far `adjust_rate` may drift from `CLOCK_NOMINAL` in either direction.
pub const CLOCK_ADJUST_LIMIT: i32 = 5000;

/// Coarse rate adjustment step.
pub const CLOCK_ADJUST_COARSE: i32 = 300;

/// Medium rate adjustment step.
pub const CLOCK_ADJUST_MEDIUM: i32 = 30;

/// Fine rate adjustment step.
pub const CLOCK_ADJUST_FINE: i32 = 1;

/// State of the synthesized clock.
///
/// `last_system_time` and `last_reported_time` track the raw host reading;
/// `last_real_time` and `tpm_time` carry the rate-adjusted track that the
/// core observes. `tpm_time` never decreases.
#[derive(Clone, Copy, PartialEq, Eq, Structural)]
pub struct ClockState {
    /// Current rate; stays within `CLOCK_NOMINAL` plus or minus
    /// `CLOCK_ADJUST_LIMIT`.
    pub adjust_rate: u32,
    /// Consume-once flag: the timer was reset since last observed.
    pub timer_reset: bool,
    /// Consume-once flag: the timer was stopped since last observed.
    pub timer_stopped: bool,
    /// Previous raw host reading, in milliseconds; zero means "not armed".
    pub last_system_time: u128,
    /// Previous delta-accumulated reading, in milliseconds.
    pub last_reported_time: u128,
    /// How much host time the rate-adjusted track has consumed so far.
    pub last_real_time: u128,
    /// The rate-adjusted virtual time reported to the core.
    pub tpm_time: u128,
}

/// The freshly armed clock state.
pub open spec fn spec_fresh_clock() -> ClockState {
    ClockState {
        adjust_rate: CLOCK_NOMINAL,
        timer_reset: true,
        timer_stopped: false,
        last_system_time: 0,
        last_reported_time: 0,
        last_real_time: 0,
        tpm_time: 0,
    }
}

/// Well-formedness of a clock state: the rate is within its clamp range and
/// the rate-adjusted track fits the reporting width.
pub open spec fn clock_wf(c: &ClockState) -> bool {
    &&& CLOCK_NOMINAL - CLOCK_ADJUST_LIMIT <= c.adjust_rate <= CLOCK_NOMINAL + CLOCK_ADJUST_LIMIT
    &&& c.tpm_time < 0x1_0000_0000_0000_0000
    &&& c.last_real_time < 0x1_0000_0000_0000_0000
}

/// Sum of two values in `[0, 2^128)`, wrapped at `2^128`.
pub open spec fn spec_wadd128(a: int, b: int) -> int {
    if a + b < 0x1_0000_0000_0000_0000_0000_0000_0000_0000 {
        a + b
    } else {
        a + b - 0x1_0000_0000_0000_0000_0000_0000_0000_0000
    }
}

/// Difference of two values in `[0, 2^128)`, wrapped at `2^128`.
pub open spec fn spec_wsub128(a: int, b: int) -> int {
    if a - b >= 0 {
        a - b
    } else {
        a + 0x1_0000_0000_0000_0000_0000_0000_0000_0000 - b
    }
}

/// One read of the synthesized clock, given the raw host reading `now`:
/// the clock state afterwards. The raw bookkeeping track wraps at its
/// register width; under [`clock_wf`] the rate-adjusted track itself never
/// wraps.
pub open spec fn spec_clock_read(c: ClockState, now: u64) -> ClockState {
    let armed = if c.last_system_time == 0 {
        ClockState { last_system_time: now as u128, last_reported_time: 0, last_real_time: 0, ..c }
    } else {
        c
    };
    let guarded: int = if (now as u128) < armed.last_reported_time {
        now as int
    } else {
        armed.last_reported_time as int
    };
    let accumulated: int = spec_wsub128(
        spec_wadd128(guarded, now as int),
        armed.last_system_time as int,
    );
    let stepped = ClockState {
        last_reported_time: accumulated as u128,
        last_system_time: now as u128,
        ..armed
    };
    if stepped.last_real_time >= now as u128 {
        stepped
    } else {
        let diff: int = now - stepped.last_real_time;
        let adjusted: int = diff * (CLOCK_NOMINAL as int) / (stepped.adjust_rate as int);
        let readjusted: int = adjusted * (stepped.adjust_rate as int) / (CLOCK_NOMINAL as int);
        ClockState {
            tpm_time: (stepped.tpm_time + adjusted) as u128,
            last_real_time: (stepped.last_real_time + readjusted) as u128,
            ..stepped
        }
    }
}

/// Whether the clock read fits the reporting width: the one condition under
/// which a read can be served. Its failure is a never-expected invariant
/// violation that the embedder treats as fatal.
pub open spec fn spec_clock_read_fits(c: ClockState, now: u64) -> bool {
    let armed_real: int = if c.last_system_time == 0 {
        0
    } else {
        c.last_real_time as int
    };
    armed_real >= now || {
        let diff: int = now - armed_real;
        let adjusted: int = diff * (CLOCK_NOMINAL as int) / (c.adjust_rate as int);
        c.tpm_time + adjusted < 0x1_0000_0000_0000_0000
    }
}

/// Sum of two `u128` values, wrapped at `2^128`.
pub fn wrapping_add_u128(a: u128, b: u128) -> (r: u128)
    ensures
        r == spec_wadd128(a as int, b as int),
{
    if a <= u128::MAX - b {
        a + b
    } else {
        a - (u128::MAX - b) - 1
    }
}

/// Difference of two `u128` values, wrapped at `2^128`.
pub fn wrapping_sub_u128(a: u128, b: u128) -> (r: u128)
    ensures
        r == spec_wsub128(a as int, b as int),
{
    if a >= b {
        a - b
    } else {
        a + (u128::MAX - b) + 1
    }
}

/// Advance the clock by one read at raw host reading `now`.
///
/// Returns the rate-adjusted virtual time, which never decreases, whatever
/// sequence of readings the host supplies. Returns `None` — leaving the
/// clock unchanged — exactly when the advanced time would no longer fit the
/// reporting width; the embedder treats that as a fatal invariant violation,
/// never as a recoverable error.
pub fn clock_tick(c: &mut ClockState, now: u64) -> (r: Option<u64>)
    requires
        clock_wf(old(c)),
    ensures
        r is Some <==> spec_clock_read_fits(*old(c), now),
        r matches Some(t) ==> {
            &&& *final(c) == spec_clock_read(*old(c), now)
            &&& t == final(c).tpm_time
            &&& t >= old(c).tpm_time
            &&& clock_wf(final(c))
        },
        r is None ==> *final(c) == *old(c),
{
    let mut lst: u128 = c.last_system_time;
    let mut lrt: u128 = c.last_reported_time;
    let mut lrealt: u128 = c.last_real_time;
    if lst == 0 {
        lst = now as u128;
        lrt = 0;
        lrealt = 0;
    }
    if (now as u128) < lrt {
        lrt = now as u128;
    }
    lrt = wrapping_sub_u128(wrapping_add_u128(lrt, now as u128), lst);
    lst = now as u128;

    if lrealt >= now as u128 {
        c.last_system_time = lst;
        c.last_reported_time = lrt;
        c.last_real_time = lrealt;
        let t = c.tpm_time as u64;
        return Some(t);
    }
    let diff: u128 = (now as u128) - lrealt;
    let adjusted: u128 = diff * (CLOCK_NOMINAL as u128) / (c.adjust_rate as u128);
    if adjusted >= 0x1_0000_0000_0000_0000u128 - c.tpm_time {
        return None;
    }
    proof {
        let a = adjusted as int;
        let rt = c.adjust_rate as int;
        assert(a * rt <= 0x1_0000_0000_0000_0000 * 35000) by (nonlinear_arith)
            requires
                0 <= a <= 0x1_0000_0000_0000_0000,
                0 <= rt <= 35000,
        ;
    }
    let readjusted: u128 = adjusted * (c.adjust_rate as u128) / (CLOCK_NOMINAL as u128);
    proof {
        lemma_readjusted_le_diff(diff as int, adjusted as int, c.adjust_rate as int);
    }
    c.last_system_time = lst;
    c.last_reported_time = lrt;
    c.last_real_time = lrealt + readjusted;
    c.tpm_time = c.tpm_time + adjusted;
    let t = c.tpm_time as u64;
    Some(t)
}

/// The under-consumption step of the clock algorithm is sound: what the
/// rate adjustment hands back to the raw track never exceeds the time that
/// was taken out.
proof fn lemma_readjusted_le_diff(diff: int, adjusted: int, rate: int)
    requires
        0 <= diff,
        0 < rate,
        adjusted == diff * (CLOCK_NOMINAL as int) / rate,
    ensures
        adjusted * rate / (CLOCK_NOMINAL as int) <= diff,
{
    let nominal = CLOCK_NOMINAL as int;
    vstd::arithmetic::div_mod::lemma_fundamental_div_mod(diff * nominal, rate);
    vstd::arithmetic::div_mod::lemma_mod_division_less_than_divisor(diff * nominal, rate);
    assert(adjusted * rate <= diff * nominal);
    vstd::arithmetic::div_mod::lemma_div_is_ordered(adjusted * rate, diff * nominal, nominal);
    vstd::arithmetic::div_mod::lemma_div_multiples_vanish(diff, nominal);
}

/// Clock reads are non-decreasing: for every well-formed clock state and
/// every raw host reading — monotonic or not — the virtual time after a
/// read is at least the virtual time before it.
pub proof fn lemma_clock_monotonic(c: ClockState, now: u64)
    requires
        clock_wf(&c),
    ensures
        spec_clock_read(c, now).tpm_time >= c.tpm_time,
{
    let stepped = spec_clock_read(c, now);
    if !(if c.last_system_time == 0 {
        0u128
    } else {
        c.last_real_time
    } >= now as u128) {
        let armed_real: int = if c.last_system_time == 0 {
            0
        } else {
            c.last_real_time as int
        };
        let diff: int = now - armed_real;
        vstd::arithmetic::div_mod::lemma_div_pos_is_pos(
            diff * (CLOCK_NOMINAL as int),
            c.adjust_rate as int,
        );
    }
}

/// A served clock read preserves well-formedness: the rate is untouched and
/// the rate-adjusted track still fits the reporting width.
pub proof fn lemma_clock_read_wf(c: ClockState, now: u64)
    requires
        clock_wf(&c),
        spec_clock_read_fits(c, now),
    ensures
        clock_wf(&spec_clock_read(c, now)),
        spec_clock_read(c, now).adjust_rate == c.adjust_rate,
{
    let armed_real: int = if c.last_system_time == 0 {
        0
    } else {
        c.last_real_time as int
    };
    if !(armed_real >= now) {
        let diff: int = now - armed_real;
        let adjusted: int = diff * (CLOCK_NOMINAL as int) / (c.adjust_rate as int);
        vstd::arithmetic::div_mod::lemma_div_pos_is_pos(
            diff * (CLOCK_NOMINAL as int),
            c.adjust_rate as int,
        );
        lemma_readjusted_le_diff(diff, adjusted, c.adjust_rate as int);
        let readjusted: int = adjusted * (c.adjust_rate as int) / (CLOCK_NOMINAL as int);
        vstd::arithmetic::div_mod::lemma_div_pos_is_pos(
            adjusted * (c.adjust_rate as int),
            CLOCK_NOMINAL as int,
        );
        assert(armed_real + readjusted <= now);
    }
}

/// Whether every read of the sequence, applied in order, fits the reporting
/// width — the condition under which each read is served at all.
pub open spec fn spec_clock_reads_fit(c: ClockState, nows: Seq<u64>) -> bool
    decreases nows.len(),
{
    nows.len() == 0 || (spec_clock_read_fits(c, nows[0]) && spec_clock_reads_fit(
        spec_clock_read(c, nows[0]),
        nows.subrange(1, nows.len() as int),
    ))
}

/// The clock state after a whole sequence of reads, applied in order.
pub open spec fn spec_clock_read_seq(c: ClockState, nows: Seq<u64>) -> ClockState
    decreases nows.len(),
{
    if nows.len() == 0 {
        c
    } else {
        spec_clock_read_seq(spec_clock_read(c, nows[0]), nows.subrange(1, nows.len() as int))
    }
}

/// Clock reads are non-decreasing across any sequence of host readings,
/// monotonic or not: as long as each read fits the reporting width, the
/// virtual time at the end is at least the virtual time at the start, and
/// the clock stays well formed.
pub proof fn lemma_clock_monotonic_seq(c: ClockState, nows: Seq<u64>)
    requires
        clock_wf(&c),
        spec_clock_reads_fit(c, nows),
    ensures
        spec_clock_read_seq(c, nows).tpm_time >= c.tpm_time,
        clock_wf(&spec_clock_read_seq(c, nows)),
    decreases nows.len(),
{
    if nows.len() > 0 {
        lemma_clock_monotonic(c, nows[0]);
        lemma_clock_read_wf(c, nows[0]);
        lemma_clock_monotonic_seq(
            spec_clock_read(c, nows[0]),
            nows.subrange(1, nows.len() as int),
        );
    }
}

impl ClockState {
    /// Fresh state: nominal rate, reset pending observation, timers at zero.
    pub fn new() -> (r: ClockState)
        ensures
            r == spec_fresh_clock(),
            clock_wf(&r),
    {
        ClockState {
            adjust_rate: CLOCK_NOMINAL,
            timer_reset: true,
            timer_stopped: false,
            last_system_time: 0,
            last_reported_time: 0,
            last_real_time: 0,
            tpm_time: 0,
        }
    }
}

/// The rate that an adjustment request settles on: steps other than the
/// three fixed sizes (with sign) are ignored, and the result is clamped to
/// `CLOCK_NOMINAL` plus or minus `CLOCK_ADJUST_LIMIT`.
pub open spec fn spec_adjusted_rate(rate: u32, adjust: i32) -> u32 {
    let valid = adjust == CLOCK_ADJUST_FINE || adjust == -CLOCK_ADJUST_FINE || adjust
        == CLOCK_ADJUST_MEDIUM || adjust == -CLOCK_ADJUST_MEDIUM || adjust == CLOCK_ADJUST_COARSE
        || adjust == -CLOCK_ADJUST_COARSE;
    if !valid {
        rate
    } else {
        let raw: int = rate + adjust;
        if raw < CLOCK_NOMINAL - CLOCK_ADJUST_LIMIT {
            (CLOCK_NOMINAL - CLOCK_ADJUST_LIMIT) as u32
        } else if raw > CLOCK_NOMINAL + CLOCK_ADJUST_LIMIT {
            (CLOCK_NOMINAL + CLOCK_ADJUST_LIMIT) as u32
        } else {
            raw as u32
        }
    }
}

/// However the rate is adjusted, it stays within the clamp range; a step
/// not among the three fixed sizes leaves it untouched.
pub proof fn lemma_adjust_rate_bounded(rate: u32, adjust: i32)
    requires
        CLOCK_NOMINAL - CLOCK_ADJUST_LIMIT <= rate <= CLOCK_NOMINAL + CLOCK_ADJUST_LIMIT,
    ensures
        CLOCK_NOMINAL - CLOCK_ADJUST_LIMIT <= spec_adjusted_rate(rate, adjust) <= CLOCK_NOMINAL
            + CLOCK_ADJUST_LIMIT,
        !(adjust == 1 || adjust == -1 || adjust == 30 || adjust == -30 || adjust == 300 || adjust
            == -300) ==> spec_adjusted_rate(rate, adjust) == rate,
{
}

/// The rate after a whole sequence of adjustment requests, applied in order.
pub open spec fn spec_adjusted_rate_seq(rate: u32, adjusts: Seq<i32>) -> u32
    decreases adjusts.len(),
{
    if adjusts.len() == 0 {
        rate
    } else {
        spec_adjusted_rate_seq(
            spec_adjusted_rate(rate, adjusts[0]),
            adjusts.subrange(1, adjusts.len() as int),
        )
    }
}

/// After any sequence of adjustment requests, the rate is still within the
/// clamp range.
pub proof fn lemma_adjust_rate_seq_bounded(rate: u32, adjusts: Seq<i32>)
    requires
        CLOCK_NOMINAL - CLOCK_ADJUST_LIMIT <= rate <= CLOCK_NOMINAL + CLOCK_ADJUST_LIMIT,
    ensures
        CLOCK_NOMINAL - CLOCK_ADJUST_LIMIT <= spec_adjusted_rate_seq(rate, adjusts)
            <= CLOCK_NOMINAL + CLOCK_ADJUST_LIMIT,
    decreases adjusts.len(),
{
    if adjusts.len() > 0 {
        lemma_adjust_rate_bounded(rate, adjusts[0]);
        lemma_adjust_rate_seq_bounded(
            spec_adjusted_rate(rate, adjusts[0]),
            adjusts.subrange(1, adjusts.len() as int),
        );
    }
}

impl<C: PlatformCallbacks> MsTpm20RefPlatformImpl<C> {
    /// Re-arm the clock from scratch; the pending-reset flag is raised for
    /// the core to observe once.
    pub fn timer_reset(&mut self)
        ensures
            final(self).state == (MsTpm20PlatformState {
                clock: spec_fresh_clock(),
                ..old(self).state
            }),
    {
        self.state.clock = ClockState::new();
    }

    /// Read the synthesized clock, taking a fresh raw reading from the host.
    ///
    /// The reported time never decreases, whatever readings the host
    /// supplies. Returns `None` — a fatal, never-expected condition for the
    /// embedder — exactly when the virtual time would overflow the reporting
    /// width; the platform state is then unchanged.
    pub fn timer_read(&mut self) -> (r: Option<u64>)
        requires
            clock_wf(&old(self).state.clock),
        ensures
            final(self).state.cancel == old(self).state.cancel,
            final(self).state.locality == old(self).state.locality,
            final(self).state.power_plat == old(self).state.power_plat,
            final(self).state.nvmem.is_init == old(self).state.nvmem.is_init,
            final(self).state.nvmem.region@ == old(self).state.nvmem.region@,
            r matches Some(t) ==> {
                &&& t >= old(self).state.clock.tpm_time
                &&& t == final(self).state.clock.tpm_time
                &&& clock_wf(&final(self).state.clock)
            },
            r is None ==> final(self).state.clock == old(self).state.clock,
    {
        let now = self.callbacks.monotonic_timer();
        clock_tick(&mut self.state.clock, now)
    }

    /// Report and consume the pending-reset flag: the core observes a timer
    /// reset exactly once.
    pub fn timer_was_reset(&mut self) -> (r: bool)
        ensures
            r == old(self).state.clock.timer_reset,
            final(self).state == (MsTpm20PlatformState {
                clock: ClockState { timer_reset: false, ..old(self).state.clock },
                ..old(self).state
            }),
    {
        let ret = self.state.clock.timer_reset;
        self.state.clock.timer_reset = false;
        ret
    }

    /// Report and consume the pending-stop flag: the core observes a timer
    /// stop exactly once.
    pub fn timer_was_stopped(&mut self) -> (r: bool)
        ensures
            r == old(self).state.clock.timer_stopped,
            final(self).state == (MsTpm20PlatformState {
                clock: ClockState { timer_stopped: false, ..old(self).state.clock },
                ..old(self).state
            }),
    {
        let ret = self.state.clock.timer_stopped;
        self.state.clock.timer_stopped = false;
        ret
    }

    /// Adjust the clock rate by one signed step. Steps other than the three
    /// fixed sizes are ignored; the rate stays clamped within
    /// `CLOCK_NOMINAL` plus or minus `CLOCK_ADJUST_LIMIT`.
    pub fn clock_adjust_rate(&mut self, adjust: i32)
        requires
            clock_wf(&old(self).state.clock),
        ensures
            final(self).state == (MsTpm20PlatformState {
                clock: ClockState {
                    adjust_rate: spec_adjusted_rate(old(self).state.clock.adjust_rate, adjust),
                    ..old(self).state.clock
                },
                ..old(self).state
            }),
            clock_wf(&final(self).state.clock),
    {
        let valid = adjust == CLOCK_ADJUST_FINE || adjust == -CLOCK_ADJUST_FINE || adjust
            == CLOCK_ADJUST_MEDIUM || adjust == -CLOCK_ADJUST_MEDIUM || adjust
            == CLOCK_ADJUST_COARSE || adjust == -CLOCK_ADJUST_COARSE;
        if valid {
            let raw: i64 = self.state.clock.adjust_rate as i64 + adjust as i64;
            let floor: i64 = (CLOCK_NOMINAL as i64) - (CLOCK_ADJUST_LIMIT as i64);
            let ceiling: i64 = (CLOCK_NOMINAL as i64) + (CLOCK_ADJUST_LIMIT as i64);
            let clamped: i64 = if raw < floor {
                floor
            } else if raw > ceiling {
                ceiling
            } else {
                raw
            };
            self.state.clock.adjust_rate = clamped as u32;
        }
    }
}

} // verus!

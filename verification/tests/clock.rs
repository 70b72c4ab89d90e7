use ms_tpm_20_ref::api::clock::clock_tick;
use ms_tpm_20_ref::api::clock::ClockState;
use ms_tpm_20_ref::api::clock::CLOCK_NOMINAL;
use ms_tpm_20_ref::DummyPlatformCallbacks;
use ms_tpm_20_ref::InitKind;
use ms_tpm_20_ref::MsTpm20RefPlatform;
use ms_tpm_20_ref::PlatformSingleton;

fn cold_platform() -> MsTpm20RefPlatform<DummyPlatformCallbacks> {
    let mut slot = PlatformSingleton::new();
    let (platform, _action) =
        MsTpm20RefPlatform::initialize(&mut slot, DummyPlatformCallbacks, InitKind::ColdInit)
            .unwrap();
    platform
}

#[test]
fn clock_reads_are_nondecreasing_under_jitter() {
    let mut clock = ClockState::new();
    let readings: [u64; 8] = [5, 3, 10, 2, 2, 100, 50, 1000];
    let mut last: u64 = 0;
    for now in readings {
        let t = clock_tick(&mut clock, now).unwrap();
        assert!(t >= last, "clock went backwards: {} after {}", t, last);
        last = t;
    }
}

#[test]
fn clock_tick_tracks_elapsed_time_at_nominal_rate() {
    let mut clock = ClockState::new();
    assert_eq!(clock_tick(&mut clock, 5).unwrap(), 5);
    // a reading that goes backwards returns the cached time unchanged
    assert_eq!(clock_tick(&mut clock, 3).unwrap(), 5);
    assert_eq!(clock_tick(&mut clock, 10).unwrap(), 10);
}

#[test]
fn clock_rate_scales_the_reported_time() {
    let mut clock = ClockState::new();
    clock.adjust_rate = 25000;
    // 25 ms of host time at rate 25000 report as 25 * 30000 / 25000 = 30
    assert_eq!(clock_tick(&mut clock, 25).unwrap(), 30);
}

#[test]
fn adjust_rate_stays_clamped() {
    let mut platform = cold_platform();
    for _ in 0..40 {
        platform.imp.clock_adjust_rate(300);
    }
    assert_eq!(platform.imp.state.clock.adjust_rate, CLOCK_NOMINAL + 5000);
    for _ in 0..80 {
        platform.imp.clock_adjust_rate(-300);
    }
    assert_eq!(platform.imp.state.clock.adjust_rate, CLOCK_NOMINAL - 5000);
}

#[test]
fn adjust_rate_ignores_invalid_steps() {
    let mut platform = cold_platform();
    platform.imp.clock_adjust_rate(7);
    platform.imp.clock_adjust_rate(-2);
    platform.imp.clock_adjust_rate(0);
    platform.imp.clock_adjust_rate(i32::MIN);
    assert_eq!(platform.imp.state.clock.adjust_rate, CLOCK_NOMINAL);
    platform.imp.clock_adjust_rate(30);
    assert_eq!(platform.imp.state.clock.adjust_rate, CLOCK_NOMINAL + 30);
    platform.imp.clock_adjust_rate(-1);
    assert_eq!(platform.imp.state.clock.adjust_rate, CLOCK_NOMINAL + 29);
}

#[test]
fn timer_reset_flag_is_consumed_once() {
    let mut platform = cold_platform();
    assert!(platform.imp.timer_was_reset());
    assert!(!platform.imp.timer_was_reset());
    platform.imp.timer_reset();
    assert!(platform.imp.timer_was_reset());
    assert!(!platform.imp.timer_was_reset());
}

#[test]
fn timer_stopped_flag_is_consumed_once() {
    let mut platform = cold_platform();
    assert!(!platform.imp.timer_was_stopped());
    platform.imp.state.clock.timer_stopped = true;
    assert!(platform.imp.timer_was_stopped());
    assert!(!platform.imp.timer_was_stopped());
}

#[test]
fn timer_read_with_dummy_host_time() {
    let mut platform = cold_platform();
    // the dummy host timer always reports zero elapsed milliseconds
    assert_eq!(platform.imp.timer_read().unwrap(), 0);
    assert_eq!(platform.imp.timer_read().unwrap(), 0);
}

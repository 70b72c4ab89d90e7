use ms_tpm_20_ref::tpmlib_state::MsTpm20RefLibraryState;
use ms_tpm_20_ref::DummyPlatformCallbacks;
use ms_tpm_20_ref::Error;
use ms_tpm_20_ref::InitKind;
use ms_tpm_20_ref::MsTpm20RefPlatform;
use ms_tpm_20_ref::PlatformSingleton;

fn cold_platform() -> MsTpm20RefPlatform<DummyPlatformCallbacks> {
    let mut slot = PlatformSingleton::new();
    let (platform, _action) =
        MsTpm20RefPlatform::initialize(&mut slot, DummyPlatformCallbacks, InitKind::ColdInit)
            .unwrap();
    platform
}

#[test]
fn save_then_restore_is_lossless() {
    let mut platform = cold_platform();
    platform.imp.locality_set(3);
    platform.imp.set_cancel();
    platform.imp.clock_adjust_rate(300);
    platform.imp.timer_read().unwrap();
    platform.imp.nv_memory_write(0x200, &vec![1, 2, 3]).unwrap();

    let lib = MsTpm20RefLibraryState::new(vec![0xab, 0xcd]);
    let saved = platform.save_state(&lib);

    // disturb everything the snapshot covers
    platform.imp.locality_set(0);
    platform.imp.clear_cancel();
    platform.imp.clock_adjust_rate(-300);
    platform.imp.nv_memory_clear(0x200, 3).unwrap();

    let lib_back = platform.restore_state(&saved).unwrap();
    assert_eq!(lib_back.opaque, vec![0xab, 0xcd]);
    assert_eq!(platform.imp.locality_get(), 3);
    assert!(platform.imp.is_canceled());
    assert_eq!(platform.imp.state.clock.adjust_rate, 30300);
    let mut back = vec![0u8; 3];
    platform.imp.nv_memory_read(0x200, &mut back).unwrap();
    assert_eq!(back, vec![1, 2, 3]);

    // a second save of the restored platform is byte-identical: nothing was
    // lost in the round trip
    let saved_again = platform.save_state(&lib_back);
    assert_eq!(saved, saved_again);
}

#[test]
fn restore_leaves_subsequent_behavior_identical() {
    let mut platform = cold_platform();
    platform.imp.nv_memory_write(0x40, &vec![9, 8, 7]).unwrap();
    let lib = MsTpm20RefLibraryState::new(Vec::new());
    let saved = platform.save_state(&lib);

    // the behavior a session would have seen without the round trip
    let mut expected = vec![0u8; 3];
    platform.imp.nv_memory_read(0x40, &mut expected).unwrap();
    let expected_locality = platform.imp.locality_get();
    let expected_tick = platform.imp.timer_read().unwrap();

    platform.restore_state(&saved).unwrap();
    let mut after = vec![0u8; 3];
    platform.imp.nv_memory_read(0x40, &mut after).unwrap();
    assert_eq!(after, expected);
    assert_eq!(platform.imp.locality_get(), expected_locality);
    assert_eq!(platform.imp.timer_read().unwrap(), expected_tick);
}

#[test]
fn restore_rejects_malformed_blobs() {
    let mut platform = cold_platform();
    let err = platform.restore_state(&vec![1, 2, 3]).err().unwrap();
    assert!(matches!(err, Error::FailedPlatformRestore));
}

#[test]
fn restore_rejects_trailing_bytes() {
    let mut platform = cold_platform();
    let lib = MsTpm20RefLibraryState::new(vec![1]);
    let mut saved = platform.save_state(&lib);
    saved.push(0);
    let err = platform.restore_state(&saved).err().unwrap();
    assert!(matches!(err, Error::FailedPlatformRestore));
}

#[test]
fn restore_rejects_corrupted_flag_bytes() {
    let mut platform = cold_platform();
    let lib = MsTpm20RefLibraryState::new(Vec::new());
    let mut saved = platform.save_state(&lib);
    saved[0] = 0x2a; // the cancellation flag byte must be zero or one
    let err = platform.restore_state(&saved).err().unwrap();
    assert!(matches!(err, Error::FailedPlatformRestore));
}

#[test]
fn restore_rejects_out_of_range_clock_rate() {
    let mut platform = cold_platform();
    let lib = MsTpm20RefLibraryState::new(Vec::new());
    let mut saved = platform.save_state(&lib);
    saved[2] = 0xff; // adjust_rate far outside its clamp range
    saved[3] = 0xff;
    let err = platform.restore_state(&saved).err().unwrap();
    assert!(matches!(err, Error::FailedPlatformRestore));
}

#[test]
fn restore_failure_leaves_state_untouched() {
    let mut platform = cold_platform();
    platform.imp.locality_set(2);
    platform.restore_state(&vec![0, 1, 2]).err().unwrap();
    assert_eq!(platform.imp.locality_get(), 2);
}

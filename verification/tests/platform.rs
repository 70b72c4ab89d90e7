use ms_tpm_20_ref::api::nvmem::NvError;
use ms_tpm_20_ref::api::nvmem::NV_MEMORY_SIZE;
use ms_tpm_20_ref::tpmlib_state::restore_outcome;
use ms_tpm_20_ref::tpmlib_state::MsTpm20RefLibraryState;
use ms_tpm_20_ref::DummyPlatformCallbacks;
use ms_tpm_20_ref::Error;
use ms_tpm_20_ref::InitKind;
use ms_tpm_20_ref::MsTpm20RefPlatform;
use ms_tpm_20_ref::PlatformSingleton;

fn cold_platform() -> MsTpm20RefPlatform<DummyPlatformCallbacks> {
    let mut slot = PlatformSingleton::new();
    let (platform, _action) =
        MsTpm20RefPlatform::initialize(&mut slot, DummyPlatformCallbacks, InitKind::ColdInit)
            .unwrap();
    platform
}

#[test]
fn initialize_twice_fails_without_shutdown() {
    let mut slot = PlatformSingleton::new();
    let first =
        MsTpm20RefPlatform::initialize(&mut slot, DummyPlatformCallbacks, InitKind::ColdInit);
    assert!(first.is_ok());
    let second =
        MsTpm20RefPlatform::initialize(&mut slot, DummyPlatformCallbacks, InitKind::ColdInit);
    assert!(matches!(second.err(), Some(Error::AlreadyInitialized)));
}

#[test]
fn shutdown_frees_the_singleton_slot() {
    let mut slot = PlatformSingleton::new();
    let (platform, _action) =
        MsTpm20RefPlatform::initialize(&mut slot, DummyPlatformCallbacks, InitKind::ColdInit)
            .unwrap();
    platform.shutdown(&mut slot);
    assert!(
        MsTpm20RefPlatform::initialize(&mut slot, DummyPlatformCallbacks, InitKind::ColdInit)
            .is_ok()
    );
}

#[test]
fn cold_init_asks_for_manufacture() {
    let mut slot = PlatformSingleton::new();
    let (_platform, action) =
        MsTpm20RefPlatform::initialize(&mut slot, DummyPlatformCallbacks, InitKind::ColdInit)
            .unwrap();
    assert!(action.manufacture);
    assert!(action.warm_state.is_none());
}

#[test]
fn locality_out_of_range_is_coerced_to_zero() {
    let mut platform = cold_platform();
    platform.imp.locality_set(10);
    assert_eq!(platform.imp.locality_get(), 0);
}

#[test]
fn locality_keeps_valid_values() {
    let mut platform = cold_platform();
    platform.imp.locality_set(4);
    assert_eq!(platform.imp.locality_get(), 4);
    platform.imp.locality_set(32);
    assert_eq!(platform.imp.locality_get(), 32);
    platform.imp.locality_set(5);
    assert_eq!(platform.imp.locality_get(), 0);
    platform.imp.locality_set(31);
    assert_eq!(platform.imp.locality_get(), 0);
}

#[test]
fn cancel_flag_is_set_and_cleared() {
    let mut platform = cold_platform();
    assert!(!platform.imp.is_canceled());
    platform.set_cancel_flag(true);
    assert!(platform.imp.is_canceled());
    platform.set_cancel_flag(false);
    assert!(!platform.imp.is_canceled());
    platform.imp.set_cancel();
    assert!(platform.imp.is_canceled());
    platform.imp.clear_cancel();
    assert!(!platform.imp.is_canceled());
}

#[test]
fn power_loss_is_observed_exactly_once() {
    let mut platform = cold_platform();
    assert!(platform.imp.was_power_lost());
    assert!(!platform.imp.was_power_lost());
}

#[test]
fn reset_keeps_nvmem_contents() {
    let mut platform = cold_platform();
    let data = vec![0x11, 0x22];
    platform.imp.nv_memory_write(0x80, &data).unwrap();
    platform.imp.was_power_lost();
    platform.reset(None).unwrap();
    assert!(platform.imp.was_power_lost());
    let mut back = vec![0u8; 2];
    platform.imp.nv_memory_read(0x80, &mut back).unwrap();
    assert_eq!(back, data);
}

#[test]
fn reset_with_blob_replaces_nvmem_contents() {
    let mut platform = cold_platform();
    let mut blob = vec![0u8; NV_MEMORY_SIZE];
    blob[0x80] = 0x77;
    platform.reset(Some(&blob)).unwrap();
    let mut back = vec![0u8; 1];
    platform.imp.nv_memory_read(0x80, &mut back).unwrap();
    assert_eq!(back[0], 0x77);
}

#[test]
fn reset_with_wrong_blob_size_fails() {
    let mut platform = cold_platform();
    let err = platform.reset(Some(&vec![0u8; 3])).unwrap_err();
    assert!(matches!(err, Error::NvMem(NvError::MismatchedBlobSize)));
}

#[test]
fn signal_reset_drops_locality_and_cancel() {
    let mut platform = cold_platform();
    platform.imp.locality_set(3);
    platform.imp.set_cancel();
    platform.imp.signal_reset().unwrap();
    assert_eq!(platform.imp.locality_get(), 0);
    assert!(!platform.imp.is_canceled());
}

#[test]
fn entropy_comes_from_the_callback() {
    let mut platform = cold_platform();
    let mut buf = vec![0u8; 4];
    let n = platform.imp.get_entropy(&mut buf).unwrap();
    assert_eq!(n, 4);
    assert_eq!(buf[0], 1);
}

#[test]
fn unique_value_is_copied_up_to_buffer_length() {
    let mut platform = cold_platform();
    let mut buf = vec![0u8; 4];
    let n = platform.imp.get_unique(0, &mut buf);
    assert_eq!(n, 4);
    assert_eq!(buf, vec![0x73, 0x6f, 0x6d, 0x65]);
    let mut big = vec![0u8; 16];
    let n = platform.imp.get_unique(0, &mut big);
    assert_eq!(n, 8);
    assert_eq!(&big[..8], &[0x73, 0x6f, 0x6d, 0x65, 0x62, 0x6f, 0x64, 0x79]);
    assert_eq!(&big[8..], &[0u8; 8]);
}

#[test]
fn act_timers_are_inert_but_implemented() {
    let mut platform = cold_platform();
    assert!(platform.imp.act_get_implemented(0));
    assert_eq!(platform.imp.act_get_remaining(0), 0);
    assert_eq!(platform.imp.act_get_signaled(0), 0);
    assert_eq!(platform.imp.act_get_pending(0), 0);
    assert!(platform.imp.act_update_counter(0, 42));
    assert!(!platform.imp.act_initialize());
    platform.imp.act_set_signaled(0, 1);
    platform.imp.act_enable_ticks(true);
    platform.imp.act_tick();
}

#[test]
fn physical_presence_is_never_asserted() {
    let mut platform = cold_platform();
    platform.imp.signal_physical_presence_on();
    assert!(!platform.imp.physical_presence_asserted());
    platform.imp.signal_physical_presence_off();
    assert!(!platform.imp.physical_presence_asserted());
}

#[test]
fn restore_outcome_maps_core_codes() {
    assert!(restore_outcome(0).is_ok());
    assert!(matches!(
        restore_outcome(2).unwrap_err(),
        Error::InvalidRestoreSize
    ));
    assert!(matches!(
        restore_outcome(3).unwrap_err(),
        Error::InvalidRestoreFormat
    ));
}

#[test]
fn runtime_state_round_trips_through_apply() {
    let mut platform = cold_platform();
    platform.imp.locality_set(3);
    platform.imp.nv_memory_write(0, &vec![0x42]).unwrap();
    let lib = MsTpm20RefLibraryState::new(vec![9, 9, 9]);
    let snapshot = platform.get_runtime_state(lib);

    platform.imp.locality_set(0);
    platform.imp.nv_memory_write(0, &vec![0x00]).unwrap();

    let lib_back = platform.apply_runtime_state(snapshot);
    assert_eq!(lib_back.opaque, vec![9, 9, 9]);
    assert_eq!(platform.imp.locality_get(), 3);
    let mut back = vec![0u8; 1];
    platform.imp.nv_memory_read(0, &mut back).unwrap();
    assert_eq!(back[0], 0x42);
}

#[test]
fn warm_init_hands_the_snapshot_back_for_application() {
    let mut platform = cold_platform();
    platform.imp.locality_set(2);
    let snapshot = platform.get_runtime_state(MsTpm20RefLibraryState::new(vec![5]));

    let mut slot = PlatformSingleton::new();
    let (mut warm, action) = MsTpm20RefPlatform::initialize(
        &mut slot,
        DummyPlatformCallbacks,
        InitKind::WarmInit {
            nvmem_blob: vec![0u8; NV_MEMORY_SIZE],
            runtime_state: snapshot,
        },
    )
    .unwrap();
    assert!(!action.manufacture);
    // after the core's own init entry, the embedder applies the snapshot
    let warm_state = match action.warm_state {
        Some(warm_state) => warm_state,
        None => panic!("warm init must hand the snapshot back"),
    };
    let lib = warm.apply_runtime_state(warm_state);
    assert_eq!(lib.opaque, vec![5]);
    assert_eq!(warm.imp.locality_get(), 2);
}

struct FailingCallbacks;

impl ms_tpm_20_ref::PlatformCallbacks for FailingCallbacks {
    fn commit_nv_state(&mut self, _state: &Vec<u8>) -> ms_tpm_20_ref::DynResult<()> {
        Err("backing store failed".to_string())
    }

    fn get_crypt_random(&mut self, _buf: &mut Vec<u8>) -> ms_tpm_20_ref::DynResult<usize> {
        Err("entropy source failed".to_string())
    }

    fn monotonic_timer(&mut self) -> u64 {
        0
    }

    fn get_unique_value(&self) -> Vec<u8> {
        Vec::new()
    }
}

#[test]
fn callback_failures_are_wrapped_and_surfaced() {
    let mut slot = PlatformSingleton::new();
    let (mut platform, _action) =
        MsTpm20RefPlatform::initialize(&mut slot, FailingCallbacks, InitKind::ColdInit).unwrap();
    let err = platform.imp.nv_commit().unwrap_err();
    assert!(matches!(err, Error::PlatformCallback(_)));
    let mut buf = vec![0u8; 2];
    let err = platform.imp.get_entropy(&mut buf).unwrap_err();
    assert!(matches!(err, Error::PlatformCallback(_)));
}

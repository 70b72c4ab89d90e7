use ms_tpm_20_ref::api::nvmem::NvAvailability;
use ms_tpm_20_ref::api::nvmem::NvError;
use ms_tpm_20_ref::api::nvmem::NV_MEMORY_SIZE;
use ms_tpm_20_ref::DummyPlatformCallbacks;
use ms_tpm_20_ref::Error;
use ms_tpm_20_ref::InitKind;
use ms_tpm_20_ref::MsTpm20RefPlatform;
use ms_tpm_20_ref::PlatformSingleton;

fn cold_platform() -> MsTpm20RefPlatform<DummyPlatformCallbacks> {
    let mut slot = PlatformSingleton::new();
    let (platform, _action) =
        MsTpm20RefPlatform::initialize(&mut slot, DummyPlatformCallbacks, InitKind::ColdInit)
            .unwrap();
    platform
}

#[test]
fn nv_write_then_read_roundtrip() {
    let mut platform = cold_platform();
    let data = vec![0xde, 0xad, 0xbe, 0xef];
    platform.imp.nv_memory_write(0x100, &data).unwrap();
    let mut back = vec![0u8; 4];
    platform.imp.nv_memory_read(0x100, &mut back).unwrap();
    assert_eq!(back, data);

    // the last valid offset/len pair also round-trips
    platform
        .imp
        .nv_memory_write(NV_MEMORY_SIZE - 4, &data)
        .unwrap();
    let mut tail = vec![0u8; 4];
    platform
        .imp
        .nv_memory_read(NV_MEMORY_SIZE - 4, &mut tail)
        .unwrap();
    assert_eq!(tail, data);
}

#[test]
fn nv_read_out_of_range() {
    let mut platform = cold_platform();
    let mut buf = vec![0u8; 2];
    let err = platform
        .imp
        .nv_memory_read(NV_MEMORY_SIZE - 1, &mut buf)
        .unwrap_err();
    assert!(matches!(
        err,
        Error::NvMem(NvError::InvalidAccess { start_offset, len }) if start_offset == NV_MEMORY_SIZE - 1 && len == 2
    ));
    // the buffer is untouched on failure, never partially filled
    assert_eq!(buf, vec![0u8, 0u8]);
}

#[test]
fn nv_write_out_of_range() {
    let mut platform = cold_platform();
    let data = vec![1u8, 2, 3];
    let err = platform
        .imp
        .nv_memory_write(NV_MEMORY_SIZE - 2, &data)
        .unwrap_err();
    assert!(matches!(
        err,
        Error::NvMem(NvError::InvalidAccess { start_offset, len }) if start_offset == NV_MEMORY_SIZE - 2 && len == 3
    ));
}

#[test]
fn nv_clear_zeroes_range() {
    let mut platform = cold_platform();
    let data = vec![7u8; 8];
    platform.imp.nv_memory_write(0x40, &data).unwrap();
    platform.imp.nv_memory_clear(0x42, 4).unwrap();
    let mut back = vec![0u8; 8];
    platform.imp.nv_memory_read(0x40, &mut back).unwrap();
    assert_eq!(back, vec![7, 7, 0, 0, 0, 0, 7, 7]);
}

#[test]
fn nv_clear_out_of_range() {
    let mut platform = cold_platform();
    let err = platform.imp.nv_memory_clear(NV_MEMORY_SIZE, 1).unwrap_err();
    assert!(matches!(
        err,
        Error::NvMem(NvError::InvalidAccess { start_offset, len }) if start_offset == NV_MEMORY_SIZE && len == 1
    ));
}

#[test]
fn nv_move_copies_overlapping_ranges() {
    let mut platform = cold_platform();
    let data = vec![1u8, 2, 3, 4, 5];
    platform.imp.nv_memory_write(10, &data).unwrap();
    platform.imp.nv_memory_move(10, 12, 3).unwrap();
    let mut back = vec![0u8; 5];
    platform.imp.nv_memory_read(10, &mut back).unwrap();
    assert_eq!(back, vec![1, 2, 1, 2, 3]);
}

#[test]
fn nv_move_out_of_range() {
    let mut platform = cold_platform();
    let err = platform
        .imp
        .nv_memory_move(NV_MEMORY_SIZE - 1, 0, 2)
        .unwrap_err();
    assert!(matches!(
        err,
        Error::NvMem(NvError::InvalidAccess { start_offset, len }) if start_offset == NV_MEMORY_SIZE - 1 && len == 2
    ));
    let err = platform
        .imp
        .nv_memory_move(0, NV_MEMORY_SIZE - 1, 2)
        .unwrap_err();
    assert!(matches!(
        err,
        Error::NvMem(NvError::InvalidAccess { start_offset, len }) if start_offset == NV_MEMORY_SIZE - 1 && len == 2
    ));
}

#[test]
fn nv_is_different_reports_changes() {
    let mut platform = cold_platform();
    let data = vec![0xaa, 0xbb];
    platform.imp.nv_memory_write(0x20, &data).unwrap();
    assert!(!platform.imp.nv_is_different(0x20, &data).unwrap());
    let other = vec![0xaa, 0xbc];
    assert!(platform.imp.nv_is_different(0x20, &other).unwrap());
    let err = platform
        .imp
        .nv_is_different(NV_MEMORY_SIZE, &data)
        .unwrap_err();
    assert!(matches!(err, Error::NvMem(NvError::InvalidAccess { .. })));
}

#[test]
fn nv_enable_from_blob_rejects_wrong_size() {
    let mut slot = PlatformSingleton::new();
    let err = MsTpm20RefPlatform::initialize(
        &mut slot,
        DummyPlatformCallbacks,
        InitKind::ColdInitWithPersistentState {
            nvmem_blob: vec![0u8; 100],
        },
    )
    .err()
    .unwrap();
    assert!(matches!(err, Error::NvMem(NvError::MismatchedBlobSize)));
    // the slot stays free, so a later initialization still succeeds
    assert!(
        MsTpm20RefPlatform::initialize(&mut slot, DummyPlatformCallbacks, InitKind::ColdInit)
            .is_ok()
    );
}

#[test]
fn nv_enable_from_blob_rejects_second_enable() {
    let mut platform = cold_platform();
    let err = platform
        .imp
        .nv_enable_from_blob(&vec![0u8; NV_MEMORY_SIZE])
        .unwrap_err();
    assert!(matches!(err, Error::NvMem(NvError::AlreadyInitialized)));
}

#[test]
fn nv_blob_contents_are_loaded_verbatim() {
    let mut slot = PlatformSingleton::new();
    let mut blob = vec![0u8; NV_MEMORY_SIZE];
    blob[0] = 0x55;
    blob[NV_MEMORY_SIZE - 1] = 0x66;
    let (mut platform, action) = MsTpm20RefPlatform::initialize(
        &mut slot,
        DummyPlatformCallbacks,
        InitKind::ColdInitWithPersistentState { nvmem_blob: blob },
    )
    .unwrap();
    assert!(!action.manufacture);
    let mut head = vec![0u8; 1];
    platform.imp.nv_memory_read(0, &mut head).unwrap();
    assert_eq!(head[0], 0x55);
    let mut tail = vec![0u8; 1];
    platform
        .imp
        .nv_memory_read(NV_MEMORY_SIZE - 1, &mut tail)
        .unwrap();
    assert_eq!(tail[0], 0x66);
}

#[test]
fn nv_commit_reaches_the_callback() {
    let mut platform = cold_platform();
    platform.imp.nv_commit().unwrap();
}

#[test]
fn nv_availability_is_reported() {
    let mut platform = cold_platform();
    assert!(matches!(
        platform.imp.is_nv_available(),
        NvAvailability::Available
    ));
}

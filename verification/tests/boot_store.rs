use boot_echo::boot_store::{
    encode_record, startup, BootMode, BootModeStore, StoreError, MARKER_0, MARKER_1, MARKER_2,
    MARKER_3, MODE_BYTE_BOOTED, MODE_BYTE_DFU, RECORD_LEN,
};
use boot_echo::nonvolatile::{NonVolatileRegion, NvmError, ERASED_BYTE, WRITE_UNIT};

fn fresh_store() -> BootModeStore {
    BootModeStore::new(NonVolatileRegion::new(RECORD_LEN))
}

#[test]
fn record_format_is_marker_then_mode_byte() {
    let booted = encode_record(BootMode::Booted);
    assert_eq!(
        booted,
        vec![MARKER_0, MARKER_1, MARKER_2, MARKER_3, MODE_BYTE_BOOTED, 0, 0, 0]
    );
    assert_eq!(booted, vec![0x42, 0x4F, 0x4F, 0x54, 0x01, 0, 0, 0]);
    let dfu = encode_record(BootMode::DfuRequested);
    assert_eq!(dfu, vec![0x42, 0x4F, 0x4F, 0x54, 0x02, 0, 0, 0]);
    assert_eq!(dfu.len(), RECORD_LEN);
}

#[test]
fn erased_region_reads_booted() {
    let store = fresh_store();
    assert_eq!(store.read(), BootMode::Booted);
}

#[test]
fn unrecognized_record_reads_booted() {
    let junk = vec![0xDE, 0xAD, 0xBE, 0xEF, 0x02, 0x00, 0x00, 0x00];
    let store = BootModeStore::new(NonVolatileRegion::from_bytes(junk));
    assert_eq!(store.read(), BootMode::Booted);
}

#[test]
fn mark_booted_then_read_booted_from_any_start() {
    // Even when the surviving record is a valid update request.
    let dfu_record = encode_record(BootMode::DfuRequested);
    let mut store = BootModeStore::new(NonVolatileRegion::from_bytes(dfu_record));
    assert_eq!(store.read(), BootMode::DfuRequested);
    assert!(store.mark_booted().is_ok());
    assert_eq!(store.read(), BootMode::Booted);
}

#[test]
fn startup_reports_surviving_mode_and_marks_booted() {
    let dfu_record = encode_record(BootMode::DfuRequested);
    let mut store = BootModeStore::new(NonVolatileRegion::from_bytes(dfu_record));
    let found = startup(&mut store).unwrap();
    assert_eq!(found, BootMode::DfuRequested);
    assert_eq!(store.read(), BootMode::Booted);
    // A crash-and-reset loop cannot oscillate: the next startup finds Booted.
    let bytes = store.into_region().to_bytes();
    let mut store = BootModeStore::new(NonVolatileRegion::from_bytes(bytes));
    let found = startup(&mut store).unwrap();
    assert_eq!(found, BootMode::Booted);
}

#[test]
fn dfu_request_survives_power_cycle() {
    let mut store = fresh_store();
    assert!(store.write(BootMode::DfuRequested).is_ok());
    let surviving = store.into_region().to_bytes();
    let store = BootModeStore::new(NonVolatileRegion::from_bytes(surviving));
    assert_eq!(store.read(), BootMode::DfuRequested);
}

#[test]
fn torn_record_reads_booted() {
    let mut store = fresh_store();
    assert!(store.write(BootMode::DfuRequested).is_ok());
    let mut surviving = store.into_region().to_bytes();
    // A torn or partial write: one bit flipped in the record.
    surviving[2] ^= 0x10;
    let store = BootModeStore::new(NonVolatileRegion::from_bytes(surviving));
    assert_eq!(store.read(), BootMode::Booted);
}

#[test]
fn every_single_bit_corruption_reads_booted() {
    let reference = encode_record(BootMode::DfuRequested);
    for byte in 0..RECORD_LEN {
        for bit in 0..8 {
            let mut corrupted = reference.clone();
            corrupted[byte] ^= 1u8 << bit;
            let store = BootModeStore::new(NonVolatileRegion::from_bytes(corrupted));
            assert_eq!(store.read(), BootMode::Booted);
        }
    }
}

#[test]
fn write_booted_twice_leaves_same_state_as_once() {
    let mut store = fresh_store();
    assert!(store.write(BootMode::Booted).is_ok());
    let after_once = store.snapshot();
    assert!(store.write(BootMode::Booted).is_ok());
    let after_twice = store.snapshot();
    assert_eq!(after_once, after_twice);
    assert_eq!(store.read(), BootMode::Booted);
}

#[test]
fn write_failed_on_faulty_controller() {
    let junk = vec![0u8; RECORD_LEN];
    let mut store = BootModeStore::new(NonVolatileRegion::faulty_from_bytes(junk));
    assert_eq!(
        store.write(BootMode::DfuRequested),
        Err(StoreError::WriteFailed)
    );
    // The failed write changed nothing; the record still reads fail-safe.
    assert_eq!(store.read(), BootMode::Booted);
}

#[test]
fn redundant_write_succeeds_even_on_faulty_controller() {
    // The canonical record is already in place, so the write is detected as
    // redundant and skipped before the controller is touched.
    let booted_record = encode_record(BootMode::Booted);
    let mut store = BootModeStore::new(NonVolatileRegion::faulty_from_bytes(booted_record));
    assert!(store.write(BootMode::Booted).is_ok());
    assert_eq!(
        store.write(BootMode::DfuRequested),
        Err(StoreError::WriteFailed)
    );
}

#[test]
fn program_on_unerased_unit_is_refused() {
    let mut region = NonVolatileRegion::from_bytes(vec![0u8; WRITE_UNIT]);
    let data = vec![0xABu8; WRITE_UNIT];
    assert_eq!(region.program(0, &data), Err(NvmError::NotErased));
    // The refused program changed nothing.
    assert_eq!(region.to_bytes(), vec![0u8; WRITE_UNIT]);
}

#[test]
fn erase_then_program_writes_the_unit() {
    let mut region = NonVolatileRegion::from_bytes(vec![0u8; WRITE_UNIT]);
    assert!(region.erase().is_ok());
    assert_eq!(region.to_bytes(), vec![ERASED_BYTE; WRITE_UNIT]);
    let data = vec![0xABu8; WRITE_UNIT];
    assert!(region.program(0, &data).is_ok());
    assert_eq!(region.to_bytes(), data);
}

#[test]
fn faulty_controller_refuses_erase_and_program() {
    let mut region = NonVolatileRegion::faulty_from_bytes(vec![ERASED_BYTE; WRITE_UNIT]);
    assert_eq!(region.erase(), Err(NvmError::Fault));
    let data = vec![0x01u8; WRITE_UNIT];
    assert_eq!(region.program(0, &data), Err(NvmError::Fault));
    assert_eq!(region.to_bytes(), vec![ERASED_BYTE; WRITE_UNIT]);
}

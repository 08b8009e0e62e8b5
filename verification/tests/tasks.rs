use boot_echo::boot_store::{encode_record, BootMode, BootModeStore, RECORD_LEN};
use boot_echo::nonvolatile::NonVolatileRegion;
use boot_echo::tasks::{
    IndicatorLevel, StatusIndicator, UpdateTriggerWatcher, STATUS_HIGH_MS, STATUS_LOW_MS,
};

#[test]
fn indicator_follows_the_deployed_rhythm() {
    let mut led = StatusIndicator::new(STATUS_HIGH_MS, STATUS_LOW_MS);
    assert_eq!(led.level, IndicatorLevel::High);
    assert_eq!(led.hold_ms(), 200);
    assert_eq!(led.toggle(), 1000);
    assert_eq!(led.level, IndicatorLevel::Low);
    assert_eq!(led.toggle(), 200);
    assert_eq!(led.level, IndicatorLevel::High);
    assert_eq!(led.toggle(), 1000);
    assert_eq!(led.level, IndicatorLevel::Low);
}

#[test]
fn indicator_never_repeats_a_level() {
    let mut led = StatusIndicator::new(100, 100);
    let mut previous = led.level;
    for _ in 0..16 {
        led.toggle();
        assert_ne!(led.level, previous);
        previous = led.level;
    }
}

#[test]
fn edge_trigger_persists_update_request() {
    let mut store = BootModeStore::new(NonVolatileRegion::new(RECORD_LEN));
    let mut watcher = UpdateTriggerWatcher::new();
    assert!(watcher.on_edge(&mut store));
    assert_eq!(store.read(), BootMode::DfuRequested);
}

#[test]
fn failed_trigger_is_nonfatal_and_retried() {
    let junk = vec![0u8; RECORD_LEN];
    let mut store = BootModeStore::new(NonVolatileRegion::faulty_from_bytes(junk));
    let mut watcher = UpdateTriggerWatcher::new();
    // The trigger is lost for this edge; the device keeps running.
    assert!(!watcher.on_edge(&mut store));
    assert_eq!(store.read(), BootMode::Booted);
    // The next edge retries (and fails again on this controller).
    assert!(!watcher.on_edge(&mut store));
}

#[test]
fn rapid_edges_leave_one_whole_record() {
    // Repeated rapid edges: every completed write leaves the whole canonical
    // record, never an interleaved or partial one.
    let mut store = BootModeStore::new(NonVolatileRegion::new(RECORD_LEN));
    let mut watcher = UpdateTriggerWatcher::new();
    for _ in 0..8 {
        assert!(watcher.on_edge(&mut store));
        assert_eq!(store.snapshot(), encode_record(BootMode::DfuRequested));
        assert_eq!(store.read(), BootMode::DfuRequested);
    }
}

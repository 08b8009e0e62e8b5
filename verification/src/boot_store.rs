//! Persistent boot-mode handoff: how the running application tells the
//! separate bootloader to stay booted or to swap images, across power loss
//! and corruption.
//!
//! The mode is persisted as one program unit at a fixed offset: a validity
//! marker followed by a mode byte. Reading is fail-safe: anything but the
//! exact update-request record counts as `Booted`, so corruption can never
//! silently drop the device into update mode. Writing is idempotent and goes
//! through `SharedResourceGuard`, so no other flash writer can interleave
//! with it, and a record is only ever observed whole.

use vstd::prelude::*;

use crate::guard::SharedResourceGuard;
use crate::nonvolatile::NonVolatileRegion;
use crate::nonvolatile::RegionView;
use crate::nonvolatile::erased_seq;

verus! {

/// Offset of the persisted record inside the region; aligned to a program
/// unit so one program operation writes it whole.
pub const RECORD_OFFSET: usize = 0;

/// Length of the persisted record: exactly one program unit, so the write
/// is atomic.
pub const RECORD_LEN: usize = 8;

/// First marker byte of a valid record.
pub const MARKER_0: u8 = 0x42;

/// Second marker byte of a valid record.
pub const MARKER_1: u8 = 0x4F;

/// Third marker byte of a valid record.
pub const MARKER_2: u8 = 0x4F;

/// Fourth marker byte of a valid record.
pub const MARKER_3: u8 = 0x54;

/// Mode byte persisted for `BootMode::Booted`.
pub const MODE_BYTE_BOOTED: u8 = 0x01;

/// Mode byte persisted for `BootMode::DfuRequested`.
pub const MODE_BYTE_DFU: u8 = 0x02;

/// What the persisted flag tells the bootloader: run the current application,
/// or perform the image swap.
#[derive(Clone, Copy, PartialEq, Eq, Structural, Debug)]
pub enum BootMode {
    Booted,
    DfuRequested,
}

/// Failure of a boot-mode write. Fatal for the device: without a trustworthy
/// record the update mechanism cannot be relied on, so the caller must reset
/// or halt rather than carry on.
#[derive(Clone, Copy, PartialEq, Eq, Structural, Debug)]
pub enum StoreError {
    WriteFailed,
}

/// The mode byte a record carries for each mode.
pub open spec fn mode_byte(m: BootMode) -> u8 {
    match m {
        BootMode::Booted => MODE_BYTE_BOOTED,
        BootMode::DfuRequested => MODE_BYTE_DFU,
    }
}

/// The canonical persisted record for a mode: marker, mode byte, and zero
/// padding up to one program unit.
pub open spec fn record_bytes(m: BootMode) -> Seq<u8> {
    seq![MARKER_0, MARKER_1, MARKER_2, MARKER_3, mode_byte(m), 0u8, 0u8, 0u8]
}

/// Fail-safe decoding: only the exact update-request record reads as
/// `DfuRequested`; every other sequence — erased, torn, corrupted, or a valid
/// booted record — reads as `Booted`.
pub open spec fn decode_record(s: Seq<u8>) -> BootMode {
    if s == record_bytes(BootMode::DfuRequested) {
        BootMode::DfuRequested
    } else {
        BootMode::Booted
    }
}

/// The record slice of a region.
pub open spec fn record_of(v: RegionView) -> Seq<u8> {
    v.bytes.subrange(RECORD_OFFSET as int, RECORD_OFFSET + RECORD_LEN)
}

/// A region large enough to hold the record.
pub open spec fn region_fits_record(v: RegionView) -> bool {
    RECORD_OFFSET + RECORD_LEN <= v.bytes.len()
}

/// The region after a write of mode `m`: unchanged when the canonical record
/// is already in place (the write is detected as redundant and skipped) or
/// when the controller is faulty; otherwise erased and programmed with the
/// canonical record.
pub open spec fn store_write(v: RegionView, m: BootMode) -> RegionView {
    if record_of(v) == record_bytes(m) {
        v
    } else if v.fault {
        v
    } else {
        RegionView {
            bytes: record_bytes(m) + erased_seq((v.bytes.len() - RECORD_LEN) as nat),
            fault: v.fault,
        }
    }
}

/// Whether a write of mode `m` succeeds: always on a healthy controller, and
/// even on a faulty one when the canonical record is already in place, since
/// the redundant write is skipped before touching the controller.
pub open spec fn store_write_ok(v: RegionView, m: BootMode) -> bool {
    record_of(v) == record_bytes(m) || !v.fault
}

/// Builds the canonical record for a mode.
pub fn encode_record(m: BootMode) -> (r: Vec<u8>)
    ensures
        r@ == record_bytes(m),
{
    let mut r: Vec<u8> = Vec::new();
    r.push(MARKER_0);
    r.push(MARKER_1);
    r.push(MARKER_2);
    r.push(MARKER_3);
    match m {
        BootMode::Booted => r.push(MODE_BYTE_BOOTED),
        BootMode::DfuRequested => r.push(MODE_BYTE_DFU),
    }
    r.push(0u8);
    r.push(0u8);
    r.push(0u8);
    proof {
        assert(r@ =~= record_bytes(m));
    }
    r
}

/// True exactly when the two byte vectors hold the same bytes.
fn bytes_equal(a: &Vec<u8>, b: &Vec<u8>) -> (r: bool)
    ensures
        r <==> a@ == b@,
{
    if a.len() != b.len() {
        return false;
    }
    let n = a.len();
    let mut i: usize = 0;
    while i < n
        invariant
            i <= n,
            n == a@.len(),
            n == b@.len(),
            forall|j: int| 0 <= j < i ==> a@[j] == b@[j],
        decreases n - i,
    {
        if a[i] != b[i] {
            return false;
        }
        i = i + 1;
    }
    proof {
        assert(a@ =~= b@);
    }
    true
}

/// Persists one boot-mode value with corruption detection. Logically the
/// exclusive owner of the record, it still reaches the singleton controller
/// only through the guard, so any other flash writer in the same cooperative
/// domain is serialized against it.
pub struct BootModeStore {
    guard: SharedResourceGuard,
}

impl BootModeStore {
    /// The guarded region as the store sees it.
    pub closed spec fn region(&self) -> RegionView {
        self.guard@.region
    }

    /// Well-formed between operations: the controller is released — no
    /// critical section outlives a call — and the region fits the record.
    pub closed spec fn wf(&self) -> bool {
        &&& !self.guard@.held
        &&& region_fits_record(self.region())
    }

    /// Takes ownership of the region read back at power-up.
    pub fn new(region: NonVolatileRegion) -> (r: Self)
        requires
            RECORD_OFFSET + RECORD_LEN <= region@.bytes.len(),
        ensures
            r.wf(),
            r.region() == region@,
    {
        BootModeStore { guard: SharedResourceGuard::new(region) }
    }

    /// Reads the persisted mode. Never fails: an unreadable or unrecognized
    /// record decodes as `Booted`.
    pub fn read(&self) -> (m: BootMode)
        requires
            self.wf(),
        ensures
            m == decode_record(record_of(self.region())),
    {
        let rec = self.guard.read(RECORD_OFFSET, RECORD_LEN);
        let dfu = encode_record(BootMode::DfuRequested);
        if bytes_equal(&rec, &dfu) {
            BootMode::DfuRequested
        } else {
            BootMode::Booted
        }
    }

    /// Persists a mode. Skips the program operation when the canonical
    /// record is already in place, which makes the write idempotent and
    /// cheap; otherwise erases and programs the record inside one critical
    /// section. `Err(WriteFailed)` reports a controller fault: fatal, the
    /// caller must reset or halt rather than run on with an ambiguous record.
    pub fn write(&mut self, m: BootMode) -> (r: Result<(), StoreError>)
        requires
            old(self).wf(),
        ensures
            final(self).wf(),
            final(self).region() == store_write(old(self).region(), m),
            r is Ok <==> store_write_ok(old(self).region(), m),
            r is Err ==> r == Err::<(), StoreError>(StoreError::WriteFailed),
            r is Err ==> final(self).region() == old(self).region(),
    {
        let current = self.guard.read(RECORD_OFFSET, RECORD_LEN);
        let desired = encode_record(m);
        if bytes_equal(&current, &desired) {
            return Ok(());
        }
        self.guard.begin_exclusive();
        match self.guard.erase() {
            Err(_) => {
                self.guard.end_exclusive();
                return Err(StoreError::WriteFailed);
            },
            Ok(()) => {},
        }
        match self.guard.program(RECORD_OFFSET, &desired) {
            Err(_) => {
                self.guard.end_exclusive();
                Err(StoreError::WriteFailed)
            },
            Ok(()) => {
                self.guard.end_exclusive();
                proof {
                    assert(self.region().bytes =~= record_bytes(m) + erased_seq(
                        (old(self).region().bytes.len() - RECORD_LEN) as nat,
                    ));
                }
                Ok(())
            },
        }
    }

    /// Marks the running application as booted; called unconditionally once
    /// per startup, before any task is spawned, so a stale update request
    /// can never replay without a fresh trigger.
    pub fn mark_booted(&mut self) -> (r: Result<(), StoreError>)
        requires
            old(self).wf(),
        ensures
            final(self).wf(),
            final(self).region() == store_write(old(self).region(), BootMode::Booted),
            r is Ok <==> store_write_ok(old(self).region(), BootMode::Booted),
            r is Err ==> r == Err::<(), StoreError>(StoreError::WriteFailed),
    {
        self.write(BootMode::Booted)
    }

    /// The region's bytes as they stand, for persisting them outside the
    /// store without giving the region up.
    pub fn snapshot(&self) -> (r: Vec<u8>)
        requires
            self.wf(),
        ensures
            r@ == self.region().bytes,
    {
        let len = self.guard.region_len();
        let r = self.guard.read(0, len);
        proof {
            assert(r@ =~= self.region().bytes);
        }
        r
    }

    /// Releases the region, modelling what survives a power cycle: the bytes
    /// do, the in-memory store does not.
    pub fn into_region(self) -> (r: NonVolatileRegion)
        requires
            self.wf(),
        ensures
            r@ == self.region(),
    {
        self.guard.into_region()
    }
}

/// The startup sequence: read what survived the power cycle, then
/// unconditionally mark the application booted, so that a stale update
/// request needs a fresh trigger to replay and a crash-and-reset loop cannot
/// oscillate. Runs before any task is spawned. Returns the mode found at
/// power-up; a write failure is fatal to the device — the caller must reset
/// or halt.
pub fn startup(store: &mut BootModeStore) -> (r: Result<BootMode, StoreError>)
    requires
        old(store).wf(),
    ensures
        final(store).wf(),
        final(store).region() == store_write(old(store).region(), BootMode::Booted),
        r is Ok <==> store_write_ok(old(store).region(), BootMode::Booted),
        r matches Ok(m) ==> m == decode_record(record_of(old(store).region())),
        r is Err ==> r == Err::<BootMode, StoreError>(StoreError::WriteFailed),
{
    let found = store.read();
    match store.mark_booted() {
        Ok(()) => Ok(found),
        Err(e) => Err(e),
    }
}

/// A completed write leaves exactly the canonical record, whatever was in
/// the region before: no reader that runs after a write — writes being
/// serialized by the guard and never spanning a suspension point — can
/// observe an interleaved or partial record.
pub proof fn lemma_write_pins_record(v: RegionView, m: BootMode)
    requires
        region_fits_record(v),
        store_write_ok(v, m),
    ensures
        record_of(store_write(v, m)) == record_bytes(m),
{
    if record_of(v) == record_bytes(m) {
    } else {
        assert(record_of(store_write(v, m)) =~= record_bytes(m));
    }
}

/// The canonical record of each mode decodes back to that mode: a record
/// that survives a power cycle is read as what was written.
pub proof fn lemma_decode_encode(m: BootMode)
    ensures
        decode_record(record_bytes(m)) == m,
{
    assert(record_bytes(BootMode::Booted)[4] == MODE_BYTE_BOOTED);
    assert(record_bytes(BootMode::DfuRequested)[4] == MODE_BYTE_DFU);
}

/// Fail-safe invariant: no corrupted or unrecognized record ever decodes to
/// `DfuRequested` — only the exact canonical update-request record does.
pub proof fn lemma_corrupt_reads_booted(s: Seq<u8>)
    ensures
        s != record_bytes(BootMode::DfuRequested) ==> decode_record(s) == BootMode::Booted,
        decode_record(s) == BootMode::DfuRequested ==> s == record_bytes(BootMode::DfuRequested),
{
}

/// After any successful write of mode `m`, a read returns `m`, whatever the
/// region held before. With `m == Booted` this is the startup guarantee:
/// once `mark_booted` completes, `read` returns `Booted` regardless of what
/// the very first boot-time read saw.
pub proof fn lemma_read_after_write(v: RegionView, m: BootMode)
    requires
        region_fits_record(v),
        store_write_ok(v, m),
    ensures
        decode_record(record_of(store_write(v, m))) == m,
{
    lemma_write_pins_record(v, m);
    lemma_decode_encode(m);
}

/// After `mark_booted` completes successfully, `read` returns `Booted`,
/// regardless of the record the very first boot-time read saw.
pub proof fn lemma_mark_booted_reads_booted(v: RegionView)
    requires
        region_fits_record(v),
        store_write_ok(v, BootMode::Booted),
    ensures
        decode_record(record_of(store_write(v, BootMode::Booted))) == BootMode::Booted,
{
    lemma_read_after_write(v, BootMode::Booted);
}

/// Writing a mode twice in a row leaves the same persisted state as writing
/// it once — the second write is detected as redundant and changes nothing —
/// and the second write succeeds whenever the first did.
pub proof fn lemma_write_idempotent(v: RegionView, m: BootMode)
    requires
        region_fits_record(v),
    ensures
        store_write(store_write(v, m), m) == store_write(v, m),
        store_write_ok(store_write(v, m), m) == store_write_ok(v, m),
{
    if store_write_ok(v, m) {
        lemma_write_pins_record(v, m);
    }
}

} // verus!

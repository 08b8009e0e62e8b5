//! Critical-section guard over the singleton non-volatile memory controller.
//!
//! Scheduling is cooperative: a task yields only at explicit suspension
//! points, so mutual exclusion needs no blocking lock — it reduces to the
//! structural rule that no task holds the controller across a suspension
//! point. The guard enforces that rule in its contracts: erase and program
//! demand the guard to be held, and every public operation of the store
//! begins and ends with the guard released, so a whole critical section
//! always completes inside one call, before any caller can suspend.

use vstd::prelude::*;

use crate::nonvolatile::NonVolatileRegion;
use crate::nonvolatile::NvmError;
use crate::nonvolatile::RegionView;
use crate::nonvolatile::WRITE_UNIT;
use crate::nonvolatile::erased_seq;

verus! {

/// Mathematical image of the guard: the guarded region and whether some
/// logical owner currently holds the controller.
pub ghost struct GuardView {
    pub region: RegionView,
    pub held: bool,
}

/// Serializes erase and program operations on the one physical controller
/// among its logical owners within the cooperative scheduling domain.
/// Plain reads are memory-mapped and do not engage the controller, so they
/// need no exclusion in a single-threaded domain.
pub struct SharedResourceGuard {
    region: NonVolatileRegion,
    held: bool,
}

impl View for SharedResourceGuard {
    type V = GuardView;

    closed spec fn view(&self) -> GuardView {
        GuardView { region: self.region@, held: self.held }
    }
}

impl SharedResourceGuard {
    /// Takes ownership of the region at startup; the controller starts out
    /// released.
    pub fn new(region: NonVolatileRegion) -> (r: Self)
        ensures
            r@.region == region@,
            !r@.held,
    {
        SharedResourceGuard { region, held: false }
    }

    /// Opens a critical section. The caller must not suspend until the
    /// matching `end_exclusive`.
    pub fn begin_exclusive(&mut self)
        requires
            !old(self)@.held,
        ensures
            final(self)@.held,
            final(self)@.region == old(self)@.region,
    {
        self.held = true;
    }

    /// Closes the critical section opened by `begin_exclusive`.
    pub fn end_exclusive(&mut self)
        requires
            old(self)@.held,
        ensures
            !final(self)@.held,
            final(self)@.region == old(self)@.region,
    {
        self.held = false;
    }

    /// Length of the guarded range in bytes.
    pub fn region_len(&self) -> (n: usize)
        ensures
            n == self@.region.bytes.len(),
    {
        self.region.len()
    }

    /// Plain memory read; engages no controller state.
    pub fn read(&self, offset: usize, len: usize) -> (r: Vec<u8>)
        requires
            offset + len <= self@.region.bytes.len(),
        ensures
            r@ == self@.region.bytes.subrange(offset as int, offset + len),
    {
        self.region.read(offset, len)
    }

    /// Erases the guarded range; only inside a critical section.
    pub fn erase(&mut self) -> (r: Result<(), NvmError>)
        requires
            old(self)@.held,
        ensures
            final(self)@.held,
            final(self)@.region.fault == old(self)@.region.fault,
            final(self)@.region.bytes.len() == old(self)@.region.bytes.len(),
            r is Ok <==> !old(self)@.region.fault,
            r is Ok ==> final(self)@.region.bytes == erased_seq(old(self)@.region.bytes.len()),
            r is Err ==> final(self)@.region == old(self)@.region,
    {
        self.region.erase()
    }

    /// Programs one aligned unit; only inside a critical section.
    pub fn program(&mut self, offset: usize, data: &Vec<u8>) -> (r: Result<(), NvmError>)
        requires
            old(self)@.held,
            offset % WRITE_UNIT == 0,
            data@.len() == WRITE_UNIT,
            offset + WRITE_UNIT <= old(self)@.region.bytes.len(),
        ensures
            final(self)@.held,
            final(self)@.region.fault == old(self)@.region.fault,
            final(self)@.region.bytes.len() == old(self)@.region.bytes.len(),
            r is Ok <==> !old(self)@.region.fault
                && old(self)@.region.erased_at(offset as int, WRITE_UNIT as int),
            r is Ok ==> final(self)@.region.bytes == old(self)@.region.bytes.subrange(
                0,
                offset as int,
            ) + data@ + old(self)@.region.bytes.subrange(
                offset + WRITE_UNIT,
                old(self)@.region.bytes.len() as int,
            ),
            r is Err ==> final(self)@.region == old(self)@.region,
    {
        self.region.program(offset, data)
    }

    /// Releases the region, for handing it across a power cycle.
    pub fn into_region(self) -> (r: NonVolatileRegion)
        requires
            !self@.held,
        ensures
            r@ == self@.region,
    {
        self.region
    }
}

} // verus!

//! Model of the fixed non-volatile memory region that holds the persisted
//! boot-mode record: raw read / erase / program primitives, atomic at the
//! granularity of one program unit. A region is initialized once at startup
//! from whatever bytes survived the last power cycle and lives for the
//! process lifetime.

use vstd::prelude::*;

verus! {

/// Smallest number of bytes the controller programs atomically.
pub const WRITE_UNIT: usize = 8;

/// Value every byte of an erased region holds.
pub const ERASED_BYTE: u8 = 0xFF;

/// Failure of a raw erase or program operation.
#[derive(Clone, Copy, PartialEq, Eq, Structural, Debug)]
pub enum NvmError {
    /// The controller reported a hardware fault.
    Fault,
    /// The target program unit was not erased.
    NotErased,
}

/// Mathematical image of a region: its byte contents, and whether the
/// controller behind it reports a hardware fault on erase and program.
pub ghost struct RegionView {
    pub bytes: Seq<u8>,
    pub fault: bool,
}

impl RegionView {
    /// Every byte in `[offset, offset + len)` holds the erased value.
    pub open spec fn erased_at(self, offset: int, len: int) -> bool {
        forall|i: int| offset <= i < offset + len ==> self.bytes[i] == ERASED_BYTE
    }
}

/// The erased contents of a region of `n` bytes.
pub open spec fn erased_seq(n: nat) -> Seq<u8> {
    Seq::new(n, |i: int| ERASED_BYTE)
}

/// The raw memory range. Reads are plain memory accesses; erase and program
/// go through the controller and can fail on a hardware fault. A failed
/// operation leaves the contents untouched: the controller is atomic at the
/// granularity of one program unit, and the record never spans more than one.
pub struct NonVolatileRegion {
    bytes: Vec<u8>,
    fault: bool,
}

impl View for NonVolatileRegion {
    type V = RegionView;

    closed spec fn view(&self) -> RegionView {
        RegionView { bytes: self.bytes@, fault: self.fault }
    }
}

impl NonVolatileRegion {
    /// A freshly erased region of `len` bytes on a healthy controller.
    pub fn new(len: usize) -> (r: Self)
        ensures
            !r@.fault,
            r@.bytes == erased_seq(len as nat),
    {
        let mut bytes: Vec<u8> = Vec::new();
        let mut i: usize = 0;
        while i < len
            invariant
                i <= len,
                bytes@.len() == i,
                forall|j: int| 0 <= j < i ==> bytes@[j] == ERASED_BYTE,
            decreases len - i,
        {
            bytes.push(ERASED_BYTE);
            i = i + 1;
        }
        proof {
            assert(bytes@ =~= erased_seq(len as nat));
        }
        NonVolatileRegion { bytes, fault: false }
    }

    /// The region as found at power-up: arbitrary surviving bytes, healthy
    /// controller.
    pub fn from_bytes(bytes: Vec<u8>) -> (r: Self)
        ensures
            !r@.fault,
            r@.bytes == bytes@,
    {
        NonVolatileRegion { bytes, fault: false }
    }

    /// A region whose controller reports a hardware fault on every erase and
    /// program operation. Reads still return the surviving bytes.
    pub fn faulty_from_bytes(bytes: Vec<u8>) -> (r: Self)
        ensures
            r@.fault,
            r@.bytes == bytes@,
    {
        NonVolatileRegion { bytes, fault: true }
    }

    /// Length of the range in bytes.
    pub fn len(&self) -> (n: usize)
        ensures
            n == self@.bytes.len(),
    {
        self.bytes.len()
    }

    /// Plain memory read of `len` bytes starting at `offset`.
    pub fn read(&self, offset: usize, len: usize) -> (r: Vec<u8>)
        requires
            offset + len <= self@.bytes.len(),
        ensures
            r@ == self@.bytes.subrange(offset as int, offset + len),
    {
        let n = self.bytes.len();
        let mut r: Vec<u8> = Vec::new();
        let mut i: usize = 0;
        while i < len
            invariant
                i <= len,
                offset + len <= n,
                n == self@.bytes.len(),
                r@.len() == i,
                forall|j: int| 0 <= j < i ==> r@[j] == self@.bytes[offset + j],
            decreases len - i,
        {
            r.push(self.bytes[offset + i]);
            i = i + 1;
        }
        proof {
            assert(r@ =~= self@.bytes.subrange(offset as int, offset + len));
        }
        r
    }

    /// Erases the whole region (it is the dedicated boot-record range, so a
    /// sector erase covers exactly these bytes). Fails, changing nothing,
    /// when the controller is faulty.
    pub fn erase(&mut self) -> (r: Result<(), NvmError>)
        ensures
            final(self)@.fault == old(self)@.fault,
            final(self)@.bytes.len() == old(self)@.bytes.len(),
            r is Ok <==> !old(self)@.fault,
            r is Ok ==> final(self)@.bytes == erased_seq(old(self)@.bytes.len()),
            r is Err ==> final(self)@ == old(self)@ && r == Err::<(), NvmError>(NvmError::Fault),
    {
        if self.fault {
            return Err(NvmError::Fault);
        }
        let len = self.bytes.len();
        let mut i: usize = 0;
        while i < len
            invariant
                i <= len,
                self@.fault == old(self)@.fault,
                self@.bytes.len() == len,
                forall|j: int| 0 <= j < i ==> self@.bytes[j] == ERASED_BYTE,
            decreases len - i,
        {
            self.bytes.set(i, ERASED_BYTE);
            i = i + 1;
        }
        proof {
            assert(self@.bytes =~= erased_seq(old(self)@.bytes.len()));
        }
        Ok(())
    }

    /// Programs one aligned program unit. Fails, changing nothing, when the
    /// controller is faulty or the target unit is not erased.
    pub fn program(&mut self, offset: usize, data: &Vec<u8>) -> (r: Result<(), NvmError>)
        requires
            offset % WRITE_UNIT == 0,
            data@.len() == WRITE_UNIT,
            offset + WRITE_UNIT <= old(self)@.bytes.len(),
        ensures
            final(self)@.fault == old(self)@.fault,
            final(self)@.bytes.len() == old(self)@.bytes.len(),
            r is Ok <==> !old(self)@.fault && old(self)@.erased_at(offset as int, WRITE_UNIT as int),
            r is Ok ==> final(self)@.bytes == old(self)@.bytes.subrange(0, offset as int) + data@
                + old(self)@.bytes.subrange(offset + WRITE_UNIT, old(self)@.bytes.len() as int),
            r is Err ==> final(self)@ == old(self)@,
            old(self)@.fault ==> r == Err::<(), NvmError>(NvmError::Fault),
            !old(self)@.fault && !old(self)@.erased_at(offset as int, WRITE_UNIT as int)
                ==> r == Err::<(), NvmError>(NvmError::NotErased),
    {
        if self.fault {
            return Err(NvmError::Fault);
        }
        let n = self.bytes.len();
        let mut i: usize = 0;
        while i < WRITE_UNIT
            invariant
                i <= WRITE_UNIT,
                offset + WRITE_UNIT <= n,
                n == self@.bytes.len(),
                *self == *old(self),
                !self@.fault,
                forall|j: int| 0 <= j < i ==> #[trigger] self@.bytes[offset + j] == ERASED_BYTE,
            decreases WRITE_UNIT - i,
        {
            if self.bytes[offset + i] != ERASED_BYTE {
                proof {
                    assert(old(self)@.bytes[offset + i as int] != ERASED_BYTE);
                    assert(!old(self)@.erased_at(offset as int, WRITE_UNIT as int));
                }
                return Err(NvmError::NotErased);
            }
            i = i + 1;
        }
        proof {
            assert forall|j: int| offset <= j < offset + WRITE_UNIT
                implies old(self)@.bytes[j] == ERASED_BYTE by {
                assert(self@.bytes[offset + (j - offset)] == ERASED_BYTE);
            }
            assert(old(self)@.erased_at(offset as int, WRITE_UNIT as int));
        }
        let mut k: usize = 0;
        while k < WRITE_UNIT
            invariant
                k <= WRITE_UNIT,
                self@.fault == old(self)@.fault,
                data@.len() == WRITE_UNIT,
                offset + WRITE_UNIT <= n,
                n == self@.bytes.len(),
                self@.bytes.len() == old(self)@.bytes.len(),
                forall|j: int| 0 <= j < k ==> #[trigger] self@.bytes[offset + j] == data@[j],
                forall|j: int| 0 <= j < self@.bytes.len() && !(offset <= j < offset + k)
                    ==> self@.bytes[j] == old(self)@.bytes[j],
            decreases WRITE_UNIT - k,
        {
            self.bytes.set(offset + k, data[k]);
            k = k + 1;
        }
        proof {
            assert forall|j: int| offset <= j < offset + WRITE_UNIT
                implies self@.bytes[j] == data@[j - offset] by {
                assert(self@.bytes[offset + (j - offset)] == data@[j - offset]);
            }
            assert(self@.bytes =~= old(self)@.bytes.subrange(0, offset as int) + data@
                + old(self)@.bytes.subrange(offset + WRITE_UNIT, old(self)@.bytes.len() as int));
        }
        Ok(())
    }

    /// The surviving bytes, for handing the region across a power cycle.
    pub fn to_bytes(&self) -> (r: Vec<u8>)
        ensures
            r@ == self@.bytes,
    {
        let r = self.read(0, self.bytes.len());
        proof {
            assert(r@ =~= self@.bytes);
        }
        r
    }
}

} // verus!

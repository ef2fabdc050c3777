//! The registry of emulated devices, by the guest physical addresses that
//! each of them claims.

use vstd::prelude::*;

verus! {

/// The addresses `start` up to, not including, `end`.
#[derive(Clone, Copy, Debug, PartialEq, Eq, Structural)]
pub struct MmioRange {
    pub start: u64,
    pub end: u64,
}

impl MmioRange {
    /// Whether `addr` lies in this range.
    pub open spec fn contains(self, addr: u64) -> bool {
        self.start <= addr < self.end
    }

    /// Whether `addr` lies in this range.
    pub fn holds(&self, addr: u64) -> (b: bool)
        ensures
            b == self.contains(addr),
    {
        self.start <= addr && addr < self.end
    }
}

/// Whether some range of `ranges` contains `addr`.
pub open spec fn claimed(ranges: Seq<MmioRange>, addr: u64) -> bool {
    exists|i: int| 0 <= i < ranges.len() && (#[trigger] ranges[i]).contains(addr)
}

/// Whether `i` is the first position of `ranges` whose range contains `addr`.
pub open spec fn first_claim(ranges: Seq<MmioRange>, addr: u64, i: int) -> bool {
    &&& 0 <= i < ranges.len()
    &&& ranges[i].contains(addr)
    &&& forall|j: int| 0 <= j < i ==> !(#[trigger] ranges[j]).contains(addr)
}

/// The emulated devices of a guest, each known by the address range it
/// claims. A device is named by its handle: its position in the order of
/// registration, from zero.
#[derive(Debug)]
pub struct MmioRegistry {
    ranges: Vec<MmioRange>,
}

impl View for MmioRegistry {
    type V = Seq<MmioRange>;

    closed spec fn view(&self) -> Seq<MmioRange> {
        self.ranges@
    }
}

impl MmioRegistry {
    /// A registry without devices.
    pub fn new() -> (registry: Self)
        ensures
            registry@ == Seq::<MmioRange>::empty(),
    {
        MmioRegistry { ranges: Vec::new() }
    }

    /// Number of registered devices.
    pub fn len(&self) -> (n: usize)
        ensures
            n == self@.len(),
    {
        self.ranges.len()
    }

    /// Registers a device that claims `start` up to, not including, `end`,
    /// behind the devices registered before, and gives its handle.
    pub fn register(&mut self, start: u64, end: u64) -> (handle: usize)
        ensures
            final(self)@ == old(self)@.push(MmioRange { start, end }),
            handle == old(self)@.len(),
    {
        let handle = self.ranges.len();
        self.ranges.push(MmioRange { start, end });
        handle
    }

    /// The range that the device with handle `handle` claims.
    pub fn range(&self, handle: usize) -> (range: MmioRange)
        requires
            handle < self@.len(),
        ensures
            range == self@[handle as int],
    {
        self.ranges[handle]
    }

    /// The device that claims `addr`: the first registered one whose range
    /// contains it, or `None` where no range does.
    pub fn find_mmio_device(&self, addr: u64) -> (found: Option<usize>)
        ensures
            match found {
                Some(handle) => first_claim(self@, addr, handle as int),
                None => !claimed(self@, addr),
            },
    {
        let mut i: usize = 0;
        while i < self.ranges.len()
            invariant
                i <= self.ranges.len(),
                forall|j: int| 0 <= j < i ==> !(#[trigger] self.ranges@[j]).contains(addr),
            decreases self.ranges.len() - i,
        {
            if self.ranges[i].holds(addr) {
                return Some(i);
            }
            i += 1;
        }
        None
    }
}

} // verus!

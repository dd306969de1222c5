//! The unit of publication: one bundle of per-core CPU utilisation and memory
//! counters, taken at a single point in time.

use vstd::prelude::*;

verus! {

/// What a [`MemoryData`] holds: the host's memory counters, in bytes.
pub struct MemoryView {
    pub total: u64,
    pub free: u64,
    pub available: u64,
    pub used: u64,
}

/// Memory counters of the host, in bytes, as one measurement reported them.
/// The values are carried as they were measured and never reinterpreted.
#[derive(Clone, Copy, Debug, PartialEq, Eq, Structural)]
pub struct MemoryData {
    total: u64,
    free: u64,
    available: u64,
    used: u64,
}

impl View for MemoryData {
    type V = MemoryView;

    closed spec fn view(&self) -> MemoryView {
        MemoryView { total: self.total, free: self.free, available: self.available, used: self.used }
    }
}

impl MemoryData {
    pub fn new(total: u64, free: u64, available: u64, used: u64) -> (m: Self)
        ensures
            m@ == (MemoryView { total, free, available, used }),
    {
        Self { total, free, available, used }
    }

    pub fn total(&self) -> (bytes: u64)
        ensures
            bytes == self@.total,
    {
        self.total
    }

    pub fn free(&self) -> (bytes: u64)
        ensures
            bytes == self@.free,
    {
        self.free
    }

    pub fn available(&self) -> (bytes: u64)
        ensures
            bytes == self@.available,
    {
        self.available
    }

    pub fn used(&self) -> (bytes: u64)
        ensures
            bytes == self@.used,
    {
        self.used
    }
}

/// What a [`WsData`] holds.
pub struct SnapshotView {
    /// One pair per core, in the order the host enumerated the cores: the
    /// core's index and the bit pattern of its usage percentage.
    pub cores: Seq<(u32, u32)>,
    pub memory: MemoryView,
}

/// One snapshot: the utilisation of every core and the memory counters.
///
/// A core's usage percentage is a single-precision number. It is held as its
/// IEEE 754 bit pattern, which stands for the number one for one, and is never
/// computed on here.
#[derive(Clone, Debug)]
pub struct WsData {
    cpu_data: Vec<(u32, u32)>,
    mem_data: MemoryData,
}

impl View for WsData {
    type V = SnapshotView;

    closed spec fn view(&self) -> SnapshotView {
        SnapshotView { cores: self.cpu_data@, memory: self.mem_data@ }
    }
}

/// The usage readings of the cores, each paired with its place in the
/// enumeration. A place beyond the range of `u32` wraps around.
pub open spec fn indexed(usages: Seq<u32>) -> Seq<(u32, u32)> {
    Seq::new(usages.len(), |i: int| (i as u32, usages[i]))
}

impl WsData {
    pub fn new(cpu_data: Vec<(u32, u32)>, mem_data: MemoryData) -> (s: Self)
        ensures
            s@.cores == cpu_data@,
            s@.memory == mem_data@,
    {
        Self { cpu_data, mem_data }
    }

    /// Packages one measurement pass: the usage of each core, in the order the
    /// host enumerated them, and the memory counters. The order is kept, so
    /// that an index names the same core in successive snapshots.
    pub fn from_readings(usages: &Vec<u32>, mem_data: MemoryData) -> (s: Self)
        ensures
            s@.cores == indexed(usages@),
            s@.memory == mem_data@,
    {
        let mut cpu_data: Vec<(u32, u32)> = Vec::with_capacity(usages.len());
        let mut i: usize = 0;
        while i < usages.len()
            invariant
                i <= usages.len(),
                cpu_data@ == indexed(usages@).take(i as int),
            decreases usages.len() - i,
        {
            cpu_data.push((#[verifier::truncate] (i as u32), usages[i]));
            i += 1;
        }
        Self { cpu_data, mem_data }
    }

    pub fn cores(&self) -> (cores: &Vec<(u32, u32)>)
        ensures
            cores@ == self@.cores,
    {
        &self.cpu_data
    }

    pub fn memory(&self) -> (memory: MemoryData)
        ensures
            memory@ == self@.memory,
    {
        self.mem_data
    }
}

} // verus!

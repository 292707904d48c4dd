//! One sample of the host's CPU and memory state.

use crate::memory::{bytes_to_mib, mib_of};
use crate::provider::{
    available_memory_of,
    core_usage_bits,
    core_usage_bits_of,
    total_memory_of,
    used_memory_of,
};
use crate::reading::{decode, usage_of_bits, usages_of_bits};
use crate::usage::{
    all_in_range,
    lemma_mean_of_in_range,
    levels,
    mean,
    mean_of,
    Usage,
    FULL_SCALE,
};
use vstd::prelude::*;

verus! {

/// The time between two samples, in milliseconds.
pub const REFRESH_INTERVAL_MILLIS: u64 = 1_000;

/// One sample: the utilization of every core with their mean, and the size
/// and use of physical memory. A snapshot is never changed after it is made.
#[derive(Debug, PartialEq, Eq)]
pub struct Snapshot {
    overall: Usage,
    per_core: Vec<Usage>,
    total_memory: u64,
    used_memory: u64,
}

/// What a [`Snapshot`] holds: utilizations in millionths of a percent, in
/// core order, and memory in bytes.
pub struct SnapshotView {
    pub overall: nat,
    pub per_core: Seq<nat>,
    pub total_memory: nat,
    pub used_memory: nat,
}

impl SnapshotView {
    /// The snapshot of cores with the utilizations `per_core` and of a memory
    /// of `total_memory` bytes with `used_memory` bytes in use. The overall
    /// utilization is the mean over the cores.
    pub open spec fn of_usages(
        per_core: Seq<nat>,
        total_memory: nat,
        used_memory: nat,
    ) -> SnapshotView {
        SnapshotView { overall: mean_of(per_core), per_core, total_memory, used_memory }
    }

    /// The snapshot of cores whose utilizations were read as `readings`.
    pub open spec fn of_readings(
        readings: Seq<u32>,
        total_memory: nat,
        used_memory: nat,
    ) -> SnapshotView {
        Self::of_usages(usages_of_bits(readings), total_memory, used_memory)
    }

    /// Whether the parts of the snapshot fit together: every utilization is
    /// at most 100 %, and the overall utilization is the mean over the cores.
    pub open spec fn consistent(self) -> bool {
        &&& all_in_range(self.per_core)
        &&& self.overall == mean_of(self.per_core)
        &&& self.overall <= FULL_SCALE
    }
}

/// The snapshot that the values held by `system` give. Where the available
/// memory is reported above the total, the memory in use counts as zero.
pub open spec fn captured(system: sysinfo::System) -> SnapshotView {
    SnapshotView::of_readings(
        core_usage_bits_of(system),
        total_memory_of(system) as nat,
        if available_memory_of(system) <= total_memory_of(system) {
            used_memory_of(system) as nat
        } else {
            0
        },
    )
}

/// A snapshot is decided by the values that the system holds, and by nothing
/// else: two systems that hold the same core readings and the same three
/// memory values give the same snapshot.
pub proof fn lemma_capture_is_deterministic(first: sysinfo::System, second: sysinfo::System)
    requires
        core_usage_bits_of(first) == core_usage_bits_of(second),
        total_memory_of(first) == total_memory_of(second),
        available_memory_of(first) == available_memory_of(second),
        used_memory_of(first) == used_memory_of(second),
    ensures
        captured(first) == captured(second),
{
}

/// Every snapshot made of core readings is consistent: each core is at most
/// at 100 %, and the overall utilization is the mean over the cores, zero
/// where there is no core.
pub proof fn lemma_of_readings_is_consistent(
    readings: Seq<u32>,
    total_memory: nat,
    used_memory: nat,
)
    ensures
        SnapshotView::of_readings(readings, total_memory, used_memory).consistent(),
        readings.len() == 0 ==> SnapshotView::of_readings(
            readings,
            total_memory,
            used_memory,
        ).overall == 0,
{
    lemma_mean_of_in_range(usages_of_bits(readings));
}

impl View for Snapshot {
    type V = SnapshotView;

    closed spec fn view(&self) -> SnapshotView {
        SnapshotView {
            overall: self.overall@,
            per_core: levels(self.per_core@),
            total_memory: self.total_memory as nat,
            used_memory: self.used_memory as nat,
        }
    }
}

impl Snapshot {
    #[verifier::type_invariant]
    spec fn fits_together(self) -> bool {
        self@.consistent()
    }

    /// The snapshot of cores with the utilizations `per_core` and of a memory
    /// of `total_memory` bytes with `used_memory` bytes in use.
    pub fn from_usages(per_core: Vec<Usage>, total_memory: u64, used_memory: u64) -> (snapshot:
        Snapshot)
        ensures
            snapshot@ == SnapshotView::of_usages(
                levels(per_core@),
                total_memory as nat,
                used_memory as nat,
            ),
            snapshot@.consistent(),
    {
        let overall: Usage = mean(per_core.as_slice());
        Snapshot { overall, per_core, total_memory, used_memory }
    }

    /// The snapshot of cores whose utilizations were read as `readings`, one
    /// bit pattern per core, and of a memory of `total_memory` bytes with
    /// `used_memory` bytes in use.
    pub fn from_readings(readings: &[u32], total_memory: u64, used_memory: u64) -> (snapshot:
        Snapshot)
        ensures
            snapshot@ == SnapshotView::of_readings(
                readings@,
                total_memory as nat,
                used_memory as nat,
            ),
            snapshot@.consistent(),
    {
        let count: usize = readings.len();
        let mut per_core: Vec<Usage> = Vec::new();
        let mut index: usize = 0;
        while index < count
            invariant
                count == readings@.len(),
                index <= count,
                per_core@.len() == index,
                forall|core: int|
                    0 <= core < index ==> (#[trigger] per_core@[core])@ == usage_of_bits(
                        readings@[core],
                    ),
            decreases count - index,
        {
            let usage: Usage = decode(readings[index]);
            per_core.push(usage);
            index = index + 1;
        }
        proof {
            assert(levels(per_core@) =~= usages_of_bits(readings@));
        }
        Snapshot::from_usages(per_core, total_memory, used_memory)
    }

    /// Reads a snapshot out of `system`: the utilization of every core, the
    /// total memory and the memory in use, all as `system` holds them at this
    /// moment. Nothing is read from the host and `system` is left as it is, so
    /// the same `system` gives the same snapshot.
    pub fn capture(system: &sysinfo::System) -> (snapshot: Snapshot)
        ensures
            snapshot@ == captured(*system),
            snapshot@.consistent(),
    {
        let readings: Vec<u32> = core_usage_bits(system);
        let total_memory: u64 = system.total_memory();
        let available_memory: u64 = system.available_memory();
        let used_memory: u64 = if available_memory <= total_memory {
            system.used_memory()
        } else {
            0
        };
        Snapshot::from_readings(readings.as_slice(), total_memory, used_memory)
    }

    /// The mean utilization over all cores; zero where there are none.
    pub fn overall(&self) -> (overall: Usage)
        ensures
            overall@ == self@.overall,
            self@.consistent(),
    {
        proof {
            use_type_invariant(self);
        }
        self.overall
    }

    /// The utilization of each core, in core order.
    pub fn per_core(&self) -> (per_core: &[Usage])
        ensures
            levels(per_core@) == self@.per_core,
            self@.consistent(),
    {
        proof {
            use_type_invariant(self);
        }
        self.per_core.as_slice()
    }

    /// The number of cores.
    pub fn core_count(&self) -> (count: usize)
        ensures
            count == self@.per_core.len(),
    {
        self.per_core.len()
    }

    /// The size of physical memory in bytes.
    pub fn total_memory(&self) -> (bytes: u64)
        ensures
            bytes == self@.total_memory,
    {
        self.total_memory
    }

    /// The physical memory in use, in bytes.
    pub fn used_memory(&self) -> (bytes: u64)
        ensures
            bytes == self@.used_memory,
    {
        self.used_memory
    }

    /// The size of physical memory in whole mebibytes.
    pub fn total_mib(&self) -> (mib: u64)
        ensures
            mib == mib_of(self@.total_memory),
    {
        bytes_to_mib(self.total_memory)
    }

    /// The physical memory in use, in whole mebibytes.
    pub fn used_mib(&self) -> (mib: u64)
        ensures
            mib == mib_of(self@.used_memory),
    {
        bytes_to_mib(self.used_memory)
    }
}

} // verus!

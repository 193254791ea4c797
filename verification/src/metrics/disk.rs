//! Disks: space figures, and the bytes read and written since the last poll.

use crate::metrics::delta::{deltas, Counters, DeltaTracker};
use crate::model::DiskInfo;
use vstd::prelude::*;
use vstd::string::*;

verus! {

/// What one poll reads of one disk; the two byte counters are cumulative.
#[derive(Debug, Clone, PartialEq, Eq)]
pub struct DiskReading {
    pub name: String,
    pub mount_point: String,
    pub file_system: String,
    pub total_space: u64,
    pub available_space: u64,
    pub read_bytes: u64,
    pub write_bytes: u64,
}

impl DiskReading {
    /// The two cumulative counters of the reading.
    pub open spec fn counters(self) -> Counters {
        Counters { first: self.read_bytes, second: self.write_bytes }
    }

    /// The space in use: the total less what is available, and zero where
    /// more is reported available than there is.
    pub open spec fn used_space(self) -> u64 {
        if self.total_space >= self.available_space {
            (self.total_space - self.available_space) as u64
        } else {
            0
        }
    }
}

/// The disk of a snapshot that the reading gives, against the counters
/// `seen` before it.
pub open spec fn disk_info(seen: Map<Seq<char>, Counters>, reading: DiskReading) -> DiskInfo {
    let delta = deltas(seen, reading.name@, reading.counters());
    DiskInfo {
        name: reading.name,
        mount_point: reading.mount_point,
        file_system: reading.file_system,
        total_space: reading.total_space,
        used_space: reading.used_space(),
        available_space: reading.available_space,
        read_bytes: reading.read_bytes,
        write_bytes: reading.write_bytes,
        read_bytes_delta: delta.first,
        write_bytes_delta: delta.second,
    }
}

/// The counters seen after the readings of one poll, taken in order.
pub open spec fn disks_seen(seen: Map<Seq<char>, Counters>, readings: Seq<DiskReading>) -> Map<
    Seq<char>,
    Counters,
>
    decreases readings.len(),
{
    if readings.len() == 0 {
        seen
    } else {
        disks_seen(seen, readings.drop_last()).insert(
            readings.last().name@,
            readings.last().counters(),
        )
    }
}

/// The disks of a snapshot: one per reading, in order, each against the
/// counters seen before it.
pub open spec fn disk_infos(seen: Map<Seq<char>, Counters>, readings: Seq<DiskReading>) -> Seq<
    DiskInfo,
>
    decreases readings.len(),
{
    if readings.len() == 0 {
        Seq::empty()
    } else {
        disk_infos(seen, readings.drop_last()).push(
            disk_info(disks_seen(seen, readings.drop_last()), readings.last()),
        )
    }
}

/// Turns disk readings into the disks of a snapshot.
pub struct DiskCollector {
    pub previous_stats: DeltaTracker,
}

impl View for DiskCollector {
    type V = Map<Seq<char>, Counters>;

    open spec fn view(&self) -> Map<Seq<char>, Counters> {
        self.previous_stats@
    }
}

impl DiskCollector {
    /// A collector that has seen no disk.
    pub fn new() -> (r: Self)
        ensures
            r@ == Map::<Seq<char>, Counters>::empty(),
    {
        DiskCollector { previous_stats: DeltaTracker::new() }
    }

    /// Takes the readings of a first poll as the base of later deltas.
    pub fn init(&mut self, readings: &Vec<DiskReading>)
        ensures
            final(self)@ == disks_seen(old(self)@, readings@),
    {
        let mut i: usize = 0;
        while i < readings.len()
            invariant
                i <= readings.len(),
                self@ == disks_seen(old(self)@, readings@.take(i as int)),
            decreases readings.len() - i,
        {
            proof {
                assert(readings@.take(i + 1).drop_last() =~= readings@.take(i as int));
            }
            let reading = &readings[i];
            self.previous_stats.record(
                reading.name.as_str(),
                Counters { first: reading.read_bytes, second: reading.write_bytes },
            );
            i += 1;
        }
        proof {
            assert(readings@.take(readings.len() as int) =~= readings@);
        }
    }

    /// The disks of the snapshot of one poll.
    pub fn collect(&mut self, readings: &Vec<DiskReading>) -> (disks: Vec<DiskInfo>)
        ensures
            disks@ == disk_infos(old(self)@, readings@),
            final(self)@ == disks_seen(old(self)@, readings@),
    {
        let mut disks: Vec<DiskInfo> = Vec::new();
        let mut i: usize = 0;
        while i < readings.len()
            invariant
                i <= readings.len(),
                self@ == disks_seen(old(self)@, readings@.take(i as int)),
                disks@ == disk_infos(old(self)@, readings@.take(i as int)),
            decreases readings.len() - i,
        {
            proof {
                assert(readings@.take(i + 1).drop_last() =~= readings@.take(i as int));
            }
            let reading = &readings[i];
            let delta = self.previous_stats.update(
                reading.name.as_str(),
                Counters { first: reading.read_bytes, second: reading.write_bytes },
            );
            disks.push(
                DiskInfo {
                    name: reading.name.clone(),
                    mount_point: reading.mount_point.clone(),
                    file_system: reading.file_system.clone(),
                    total_space: reading.total_space,
                    used_space: reading.total_space.saturating_sub(reading.available_space),
                    available_space: reading.available_space,
                    read_bytes: reading.read_bytes,
                    write_bytes: reading.write_bytes,
                    read_bytes_delta: delta.first,
                    write_bytes_delta: delta.second,
                },
            );
            i += 1;
        }
        proof {
            assert(readings@.take(readings.len() as int) =~= readings@);
        }
        disks
    }
}

} // verus!

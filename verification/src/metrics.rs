//! From raw readings to a snapshot: the delta tracker, one collector per
//! kind of reading, and the aggregator that joins them.

pub mod cpu;
pub mod delta;
pub mod disk;
pub mod memory;
pub mod network;
pub mod process;
pub mod system;
pub mod temperature;

pub use cpu::CpuCollector;
pub use delta::DeltaTracker;
pub use disk::DiskCollector;
pub use memory::MemoryCollector;
pub use network::NetworkCollector;
pub use process::ProcessCollector;
pub use system::SystemCollector;
pub use temperature::{TemperatureCollector, TemperatureStatus};

use crate::metrics::cpu::{cpu_cores, CpuReading};
use crate::metrics::delta::Counters;
use crate::metrics::disk::{disk_infos, disks_seen, DiskReading};
use crate::metrics::memory::{memory_info, MemoryReading};
use crate::metrics::network::{network_infos, networks_seen, NetworkReading};
use crate::metrics::process::{process_rows, ProcessReading};
use crate::metrics::system::{is_system_info, SystemReading};
use crate::metrics::temperature::{temperature_infos, SensorReading};
use crate::model::{
    rows, CpuCore, DiskInfo, MemoryInfo, NetworkInfo, ProcessInfo, SystemInfo, SystemSnapshot,
    TemperatureInfo,
};
use crate::numbers::Fixed;
use vstd::prelude::*;
use vstd::string::*;

verus! {

/// What the readers delivered in one poll. A reader that failed delivers
/// nothing for its domain.
#[derive(Debug, PartialEq, Eq)]
pub struct Readings {
    pub system: Option<SystemReading>,
    pub cpus: Option<Vec<CpuReading>>,
    pub memory: Option<MemoryReading>,
    pub disks: Option<Vec<DiskReading>>,
    pub networks: Option<Vec<NetworkReading>>,
    pub temperatures: Option<Vec<SensorReading>>,
    pub processes: Option<Vec<ProcessReading>>,
}

impl Readings {
    /// The disk readings, none where the reader failed.
    pub open spec fn disk_readings(self) -> Seq<DiskReading> {
        match self.disks {
            Some(list) => list@,
            None => Seq::empty(),
        }
    }

    /// The interface readings, none where the reader failed.
    pub open spec fn network_readings(self) -> Seq<NetworkReading> {
        match self.networks {
            Some(list) => list@,
            None => Seq::empty(),
        }
    }

    /// The core readings, none where the reader failed.
    pub open spec fn cpu_readings(self) -> Seq<CpuReading> {
        match self.cpus {
            Some(list) => list@,
            None => Seq::empty(),
        }
    }

    /// The sensor readings, none where the reader failed.
    pub open spec fn sensor_readings(self) -> Seq<SensorReading> {
        match self.temperatures {
            Some(list) => list@,
            None => Seq::empty(),
        }
    }

    /// The process readings, none where the reader failed.
    pub open spec fn process_readings(self) -> Seq<ProcessReading> {
        match self.processes {
            Some(list) => list@,
            None => Seq::empty(),
        }
    }

    /// The memory of the host, zero where the reader failed.
    pub open spec fn total_memory(self) -> u64 {
        match self.memory {
            Some(reading) => reading.total,
            None => 0,
        }
    }
}

/// The memory of a snapshot whose memory reader failed.
pub open spec fn no_memory() -> MemoryInfo {
    MemoryInfo {
        total: 0,
        used: 0,
        available: 0,
        free: 0,
        buffers: 0,
        cached: 0,
        swap_total: 0,
        swap_used: 0,
        swap_free: 0,
    }
}

/// Whether `info` is the host of a snapshot whose host reader failed: no
/// names, and zero for every figure.
pub open spec fn is_no_system(info: SystemInfo) -> bool {
    &&& info.hostname@ == Seq::<char>::empty()
    &&& info.os_name@ == Seq::<char>::empty()
    &&& info.os_version@ == Seq::<char>::empty()
    &&& info.uptime == 0
    &&& info.boot_time == 0
    &&& info.load_avg_1 == (Fixed { thousandths: 0 })
    &&& info.load_avg_5 == (Fixed { thousandths: 0 })
    &&& info.load_avg_15 == (Fixed { thousandths: 0 })
}

/// Whether `snapshot` is the snapshot of the poll at `timestamp` that
/// delivered `readings`, for a collector that had seen the disk counters
/// `disks` and the interface counters `networks` before: every domain as
/// its collector makes it of its readings, and empty or zero where the
/// reader delivered nothing.
pub open spec fn is_snapshot_of(
    snapshot: SystemSnapshot,
    readings: Readings,
    timestamp: u64,
    disks: Map<Seq<char>, Counters>,
    networks: Map<Seq<char>, Counters>,
    estimate_cache: bool,
) -> bool {
    &&& snapshot.timestamp == timestamp
    &&& match readings.system {
        Some(reading) => is_system_info(snapshot.system, reading, timestamp),
        None => is_no_system(snapshot.system),
    }
    &&& snapshot.cpu_cores@ == cpu_cores(readings.cpu_readings())
    &&& snapshot.memory == match readings.memory {
        Some(reading) => memory_info(reading, estimate_cache),
        None => no_memory(),
    }
    &&& snapshot.disks@ == disk_infos(disks, readings.disk_readings())
    &&& snapshot.networks@ == network_infos(networks, readings.network_readings())
    &&& snapshot.temperatures@ == temperature_infos(readings.sensor_readings())
    &&& rows(snapshot.processes@) == process_rows(
        readings.process_readings(),
        readings.total_memory(),
    )
}

/// Main metrics collector that coordinates all sub-collectors.
pub struct MetricsCollector {
    pub system: SystemCollector,
    pub cpu: CpuCollector,
    pub memory: MemoryCollector,
    pub disk: DiskCollector,
    pub network: NetworkCollector,
    pub temperature: TemperatureCollector,
    pub process: ProcessCollector,
}

impl MetricsCollector {
    /// A collector that has seen no poll; `estimate_cache` says whether
    /// buffers and cache are to be estimated, as on Linux.
    pub fn new(estimate_cache: bool) -> (r: Self)
        ensures
            r.disk@ == Map::<Seq<char>, Counters>::empty(),
            r.network@ == Map::<Seq<char>, Counters>::empty(),
            r.memory.estimate_cache == estimate_cache,
    {
        MetricsCollector {
            system: SystemCollector::new(),
            cpu: CpuCollector::new(),
            memory: MemoryCollector::new(estimate_cache),
            disk: DiskCollector::new(),
            network: NetworkCollector::new(),
            temperature: TemperatureCollector::new(),
            process: ProcessCollector::new(),
        }
    }

    /// Takes the readings of a first poll as the base of later deltas.
    pub fn init(&mut self, readings: &Readings)
        ensures
            final(self).disk@ == disks_seen(old(self).disk@, readings.disk_readings()),
            final(self).network@ == networks_seen(
                old(self).network@,
                readings.network_readings(),
            ),
            final(self).memory.estimate_cache == old(self).memory.estimate_cache,
    {
        match &readings.cpus {
            Some(list) => self.cpu.init(list),
            None => {},
        }
        match &readings.disks {
            Some(list) => self.disk.init(list),
            None => {},
        }
        match &readings.networks {
            Some(list) => self.network.init(list),
            None => {},
        }
        match &readings.temperatures {
            Some(list) => self.temperature.init(list),
            None => {},
        }
    }

    /// The snapshot of the poll taken at `timestamp`, in seconds since the
    /// epoch. Every domain is taken from its readings; a domain whose
    /// reader failed is empty or zero, and the others are not touched by
    /// it. All parts carry the one timestamp.
    pub fn collect(&mut self, readings: &Readings, timestamp: u64) -> (snapshot: SystemSnapshot)
        ensures
            is_snapshot_of(
                snapshot,
                *readings,
                timestamp,
                old(self).disk@,
                old(self).network@,
                old(self).memory.estimate_cache,
            ),
            final(self).disk@ == disks_seen(old(self).disk@, readings.disk_readings()),
            final(self).network@ == networks_seen(
                old(self).network@,
                readings.network_readings(),
            ),
            final(self).memory.estimate_cache == old(self).memory.estimate_cache,
    {
        let system = match &readings.system {
            Some(reading) => self.system.collect(reading, timestamp),
            None => SystemInfo {
                hostname: String::new(),
                os_name: String::new(),
                os_version: String::new(),
                uptime: 0,
                boot_time: 0,
                load_avg_1: Fixed { thousandths: 0 },
                load_avg_5: Fixed { thousandths: 0 },
                load_avg_15: Fixed { thousandths: 0 },
            },
        };
        let cpu_cores: Vec<CpuCore> = match &readings.cpus {
            Some(list) => self.cpu.collect(list),
            None => {
                let empty: Vec<CpuCore> = Vec::new();
                proof {
                    assert(empty@ =~= cpu_cores(readings.cpu_readings()));
                }
                empty
            },
        };
        let memory = match &readings.memory {
            Some(reading) => self.memory.collect(reading),
            None => MemoryInfo {
                total: 0,
                used: 0,
                available: 0,
                free: 0,
                buffers: 0,
                cached: 0,
                swap_total: 0,
                swap_used: 0,
                swap_free: 0,
            },
        };
        let disks: Vec<DiskInfo> = match &readings.disks {
            Some(list) => self.disk.collect(list),
            None => Vec::new(),
        };
        let networks: Vec<NetworkInfo> = match &readings.networks {
            Some(list) => self.network.collect(list),
            None => Vec::new(),
        };
        let temperatures: Vec<TemperatureInfo> = match &readings.temperatures {
            Some(list) => self.temperature.collect(list),
            None => Vec::new(),
        };
        let total_memory = match &readings.memory {
            Some(reading) => reading.total,
            None => 0,
        };
        let processes: Vec<ProcessInfo> = match &readings.processes {
            Some(list) => self.process.collect(list, total_memory),
            None => {
                let empty: Vec<ProcessInfo> = Vec::new();
                proof {
                    assert(rows(empty@) =~= process_rows(
                        readings.process_readings(),
                        readings.total_memory(),
                    ));
                }
                empty
            },
        };
        SystemSnapshot {
            timestamp,
            system,
            cpu_cores,
            memory,
            disks,
            networks,
            temperatures,
            processes,
        }
    }
}

} // verus!

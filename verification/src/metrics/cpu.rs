//! Processor cores and their usage.

use crate::model::CpuCore;
use crate::numbers::Fixed;
use crate::widgets::gauges::{mean_usage, overall_usage};
use vstd::prelude::*;
use vstd::string::*;

verus! {

/// What one poll reads of one core; the usage is a percentage.
#[derive(Debug, Clone, PartialEq, Eq)]
pub struct CpuReading {
    pub name: String,
    pub usage_percent: Fixed,
    pub frequency: u64,
}

/// The core of a snapshot that the `id`th reading gives.
pub open spec fn cpu_core(id: int, reading: CpuReading) -> CpuCore {
    CpuCore {
        id: id as usize,
        name: reading.name,
        usage_percent: reading.usage_percent,
        frequency: reading.frequency,
    }
}

/// The cores of a snapshot: one per reading, numbered in order.
pub open spec fn cpu_cores(readings: Seq<CpuReading>) -> Seq<CpuCore> {
    Seq::new(readings.len(), |i: int| cpu_core(i, readings[i]))
}

/// Turns core readings into the cores of a snapshot, and keeps the last.
pub struct CpuCollector {
    pub last_cores: Vec<CpuCore>,
}

impl CpuCollector {
    /// A collector that has seen no poll.
    pub fn new() -> (r: Self)
        ensures
            r.last_cores@ == Seq::<CpuCore>::empty(),
    {
        CpuCollector { last_cores: Vec::new() }
    }

    /// Takes the readings of a first poll.
    pub fn init(&mut self, readings: &Vec<CpuReading>)
        ensures
            final(self).last_cores@ == cpu_cores(readings@),
    {
        self.last_cores = cores_of(readings);
    }

    /// The cores of the snapshot of one poll.
    pub fn collect(&mut self, readings: &Vec<CpuReading>) -> (cores: Vec<CpuCore>)
        ensures
            cores@ == cpu_cores(readings@),
            final(self).last_cores@ == cpu_cores(readings@),
    {
        self.last_cores = cores_of(readings);
        cores_of(readings)
    }

    /// The mean usage of the cores of the last poll, zero without a core.
    pub fn get_overall_usage(&self) -> (r: Fixed)
        ensures
            r == overall_usage(self.last_cores@),
    {
        mean_usage(&self.last_cores)
    }
}

fn cores_of(readings: &Vec<CpuReading>) -> (cores: Vec<CpuCore>)
    ensures
        cores@ == cpu_cores(readings@),
{
    let mut cores: Vec<CpuCore> = Vec::new();
    let mut i: usize = 0;
    while i < readings.len()
        invariant
            i <= readings.len(),
            cores.len() == i,
            forall|k: int| 0 <= k < i ==> cores[k] == cpu_core(k, readings[k]),
        decreases readings.len() - i,
    {
        let reading = &readings[i];
        cores.push(
            CpuCore {
                id: i,
                name: reading.name.clone(),
                usage_percent: reading.usage_percent,
                frequency: reading.frequency,
            },
        );
        i += 1;
    }
    proof {
        assert(cores@ =~= cpu_cores(readings@));
    }
    cores
}

} // verus!

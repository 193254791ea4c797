//! The host: names, uptime and load.

use crate::model::SystemInfo;
use crate::numbers::Fixed;
use vstd::prelude::*;
use vstd::string::*;

verus! {

/// What one poll reads of the host. A name that the host does not tell is
/// missing; the uptime counts seconds.
#[derive(Debug, Clone, PartialEq, Eq)]
pub struct SystemReading {
    pub hostname: Option<String>,
    pub os_name: Option<String>,
    pub os_version: Option<String>,
    pub uptime: u64,
    pub load_avg_1: Fixed,
    pub load_avg_5: Fixed,
    pub load_avg_15: Fixed,
}

/// A name, or `unknown` for a missing one.
pub open spec fn name_or_unknown(name: Option<String>) -> Seq<char> {
    match name {
        Some(text) => text@,
        None => "unknown"@,
    }
}

/// Whether `info` is the host of a snapshot taken at `now` from `reading`:
/// the names as read or `unknown`, and the boot time the uptime before now.
pub open spec fn is_system_info(info: SystemInfo, reading: SystemReading, now: u64) -> bool {
    &&& info.hostname@ == name_or_unknown(reading.hostname)
    &&& info.os_name@ == name_or_unknown(reading.os_name)
    &&& info.os_version@ == name_or_unknown(reading.os_version)
    &&& info.uptime == reading.uptime
    &&& info.boot_time == if now >= reading.uptime {
        (now - reading.uptime) as u64
    } else {
        0
    }
    &&& info.load_avg_1 == reading.load_avg_1
    &&& info.load_avg_5 == reading.load_avg_5
    &&& info.load_avg_15 == reading.load_avg_15
}

/// Turns the host reading into the host of a snapshot.
pub struct SystemCollector;

impl SystemCollector {
    /// A collector of host readings.
    pub fn new() -> Self {
        SystemCollector
    }

    /// The host of the snapshot of the poll at `now`, in seconds since the
    /// epoch.
    pub fn collect(&mut self, reading: &SystemReading, now: u64) -> (r: SystemInfo)
        ensures
            is_system_info(r, *reading, now),
    {
        SystemInfo {
            hostname: text_or_unknown(&reading.hostname),
            os_name: text_or_unknown(&reading.os_name),
            os_version: text_or_unknown(&reading.os_version),
            uptime: reading.uptime,
            boot_time: now.saturating_sub(reading.uptime),
            load_avg_1: reading.load_avg_1,
            load_avg_5: reading.load_avg_5,
            load_avg_15: reading.load_avg_15,
        }
    }
}

fn text_or_unknown(name: &Option<String>) -> (r: String)
    ensures
        r@ == name_or_unknown(*name),
{
    match name {
        Some(text) => text.clone(),
        None => String::from_str("unknown"),
    }
}

} // verus!

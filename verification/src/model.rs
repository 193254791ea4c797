//! The values a snapshot is made of.

use crate::numbers::Fixed;
use vstd::prelude::*;

verus! {

/// Column by which the process table is ordered.
#[derive(Debug, Clone, Copy, PartialEq, Eq, Structural)]
pub enum SortKey {
    Cpu,
    Memory,
    Pid,
    Name,
}

impl Default for SortKey {
    fn default() -> (r: Self)
        ensures
            r == SortKey::Cpu,
    {
        SortKey::Cpu
    }
}

impl SortKey {
    /// The key that follows `self` in the fixed cycle
    /// Cpu, Memory, Pid, Name, Cpu.
    pub open spec fn successor(self) -> SortKey {
        match self {
            SortKey::Cpu => SortKey::Memory,
            SortKey::Memory => SortKey::Pid,
            SortKey::Pid => SortKey::Name,
            SortKey::Name => SortKey::Cpu,
        }
    }

    /// Whether a table ordered by this key starts with the largest value:
    /// so for the two usage keys, where the busiest process comes first.
    pub open spec fn descends_by_default(self) -> bool {
        self == SortKey::Cpu || self == SortKey::Memory
    }

    /// The key that follows in the cycle.
    pub fn next(self) -> (r: Self)
        ensures
            r == self.successor(),
    {
        match self {
            SortKey::Cpu => SortKey::Memory,
            SortKey::Memory => SortKey::Pid,
            SortKey::Pid => SortKey::Name,
            SortKey::Name => SortKey::Cpu,
        }
    }

    /// The direction a table takes when this key is chosen.
    pub fn default_reverse(self) -> (r: bool)
        ensures
            r == self.descends_by_default(),
    {
        match self {
            SortKey::Cpu => true,
            SortKey::Memory => true,
            SortKey::Pid => false,
            SortKey::Name => false,
        }
    }
}

/// The cycle of sort keys closes after four steps, and not before.
pub proof fn lemma_sort_key_cycle(key: SortKey)
    ensures
        key.successor().successor().successor().successor() == key,
        key.successor() != key,
        key.successor().successor() != key,
        key.successor().successor().successor() != key,
{
}

/// Lifecycle state of a process.
#[derive(Debug, Clone, Copy, PartialEq, Eq, Structural)]
pub enum ProcessState {
    Running,
    Sleeping,
    Waiting,
    Zombie,
    Stopped,
    Paging,
    Dead,
    Unknown,
}

impl Default for ProcessState {
    fn default() -> (r: Self)
        ensures
            r == ProcessState::Unknown,
    {
        ProcessState::Unknown
    }
}

impl ProcessState {
    /// The state's name as the table shows it.
    pub open spec fn label(self) -> Seq<char> {
        match self {
            ProcessState::Running => "Running"@,
            ProcessState::Sleeping => "Sleeping"@,
            ProcessState::Waiting => "Waiting"@,
            ProcessState::Zombie => "Zombie"@,
            ProcessState::Stopped => "Stopped"@,
            ProcessState::Paging => "Paging"@,
            ProcessState::Dead => "Dead"@,
            ProcessState::Unknown => "Unknown"@,
        }
    }

    /// The state's name as the table shows it.
    pub fn name(&self) -> (r: &'static str)
        ensures
            r@ == self.label(),
    {
        match self {
            ProcessState::Running => "Running",
            ProcessState::Sleeping => "Sleeping",
            ProcessState::Waiting => "Waiting",
            ProcessState::Zombie => "Zombie",
            ProcessState::Stopped => "Stopped",
            ProcessState::Paging => "Paging",
            ProcessState::Dead => "Dead",
            ProcessState::Unknown => "Unknown",
        }
    }
}

/// One process of a snapshot.
///
/// The two usage shares are percentages; `start_time` counts seconds since
/// the Unix epoch.
#[derive(Debug, PartialEq, Eq)]
pub struct ProcessInfo {
    pub pid: u32,
    pub name: String,
    pub cmd: Vec<String>,
    pub user: String,
    pub cpu_percent: Fixed,
    pub memory_percent: Fixed,
    pub memory_rss: u64,
    pub memory_vsz: u64,
    pub threads: u64,
    pub state: ProcessState,
    pub start_time: u64,
    pub parent_pid: Option<u32>,
    pub cgroup: Option<String>,
}

/// What a `ProcessInfo` holds, as mathematical values.
pub struct ProcessRow {
    pub pid: u32,
    pub name: Seq<char>,
    pub cmd: Seq<Seq<char>>,
    pub user: Seq<char>,
    pub cpu_percent: Fixed,
    pub memory_percent: Fixed,
    pub memory_rss: u64,
    pub memory_vsz: u64,
    pub threads: u64,
    pub state: ProcessState,
    pub start_time: u64,
    pub parent_pid: Option<u32>,
    pub cgroup: Option<Seq<char>>,
}

/// The character sequences of a list of texts.
pub open spec fn texts(list: Seq<String>) -> Seq<Seq<char>> {
    Seq::new(list.len(), |i: int| list[i]@)
}

impl View for ProcessInfo {
    type V = ProcessRow;

    open spec fn view(&self) -> ProcessRow {
        ProcessRow {
            pid: self.pid,
            name: self.name@,
            cmd: texts(self.cmd@),
            user: self.user@,
            cpu_percent: self.cpu_percent,
            memory_percent: self.memory_percent,
            memory_rss: self.memory_rss,
            memory_vsz: self.memory_vsz,
            threads: self.threads,
            state: self.state,
            start_time: self.start_time,
            parent_pid: self.parent_pid,
            cgroup: match self.cgroup {
                Some(path) => Some(path@),
                None => None,
            },
        }
    }
}

/// The rows of a process list.
pub open spec fn rows(list: Seq<ProcessInfo>) -> Seq<ProcessRow> {
    Seq::new(list.len(), |i: int| list[i]@)
}

/// A copy of the texts in `list`.
pub fn copy_texts(list: &Vec<String>) -> (r: Vec<String>)
    ensures
        texts(r@) == texts(list@),
{
    let mut r: Vec<String> = Vec::new();
    let mut i: usize = 0;
    while i < list.len()
        invariant
            i <= list.len(),
            r.len() == i,
            forall|k: int| 0 <= k < i ==> r[k]@ == list[k]@,
        decreases list.len() - i,
    {
        r.push(list[i].clone());
        i += 1;
    }
    proof {
        assert(texts(r@) =~= texts(list@));
    }
    r
}

impl Clone for ProcessInfo {
    fn clone(&self) -> (r: Self)
        ensures
            r@ == self@,
    {
        ProcessInfo {
            pid: self.pid,
            name: self.name.clone(),
            cmd: copy_texts(&self.cmd),
            user: self.user.clone(),
            cpu_percent: self.cpu_percent,
            memory_percent: self.memory_percent,
            memory_rss: self.memory_rss,
            memory_vsz: self.memory_vsz,
            threads: self.threads,
            state: self.state,
            start_time: self.start_time,
            parent_pid: self.parent_pid,
            cgroup: match &self.cgroup {
                Some(path) => Some(path.clone()),
                None => None,
            },
        }
    }
}

/// The host, as one snapshot sees it. Times count seconds; the load
/// averages are those of the last one, five and fifteen minutes.
#[derive(Debug, Clone, PartialEq, Eq)]
pub struct SystemInfo {
    pub hostname: String,
    pub os_name: String,
    pub os_version: String,
    pub uptime: u64,
    pub boot_time: u64,
    pub load_avg_1: Fixed,
    pub load_avg_5: Fixed,
    pub load_avg_15: Fixed,
}

/// One processor core; `usage_percent` is a percentage, `frequency` in MHz.
#[derive(Debug, Clone, PartialEq, Eq)]
pub struct CpuCore {
    pub id: usize,
    pub name: String,
    pub usage_percent: Fixed,
    pub frequency: u64,
}

/// Memory and swap, in bytes.
#[derive(Debug, Clone, Copy, PartialEq, Eq, Structural)]
pub struct MemoryInfo {
    pub total: u64,
    pub used: u64,
    pub available: u64,
    pub free: u64,
    pub buffers: u64,
    pub cached: u64,
    pub swap_total: u64,
    pub swap_used: u64,
    pub swap_free: u64,
}

/// One disk; the two deltas count the bytes since the previous snapshot.
#[derive(Debug, Clone, PartialEq, Eq)]
pub struct DiskInfo {
    pub name: String,
    pub mount_point: String,
    pub file_system: String,
    pub total_space: u64,
    pub used_space: u64,
    pub available_space: u64,
    pub read_bytes: u64,
    pub write_bytes: u64,
    pub read_bytes_delta: u64,
    pub write_bytes_delta: u64,
}

/// One network interface; the two deltas count the bytes since the previous
/// snapshot.
#[derive(Debug, Clone, PartialEq, Eq)]
pub struct NetworkInfo {
    pub interface_name: String,
    pub rx_bytes: u64,
    pub tx_bytes: u64,
    pub rx_bytes_delta: u64,
    pub tx_bytes_delta: u64,
    pub rx_packets: u64,
    pub tx_packets: u64,
    pub rx_errors: u64,
    pub tx_errors: u64,
}

/// One temperature sensor, in degrees Celsius.
#[derive(Debug, Clone, PartialEq, Eq)]
pub struct TemperatureInfo {
    pub label: String,
    pub temperature: Fixed,
    pub critical: Option<Fixed>,
    pub max: Option<Fixed>,
}

/// All readings of one poll. `timestamp` counts seconds since the Unix epoch.
#[derive(Debug, Clone, PartialEq, Eq)]
pub struct SystemSnapshot {
    pub timestamp: u64,
    pub system: SystemInfo,
    pub cpu_cores: Vec<CpuCore>,
    pub memory: MemoryInfo,
    pub disks: Vec<DiskInfo>,
    pub networks: Vec<NetworkInfo>,
    pub temperatures: Vec<TemperatureInfo>,
    pub processes: Vec<ProcessInfo>,
}

/// Colour theme of the screen.
#[derive(Debug, Clone, Copy, PartialEq, Eq, Structural)]
pub enum Theme {
    Dark,
    Light,
}

impl Default for Theme {
    fn default() -> (r: Self)
        ensures
            r == Theme::Dark,
    {
        Theme::Dark
    }
}

/// Which columns the process table shows.
#[derive(Debug, Clone, Copy, PartialEq, Eq, Structural)]
pub struct ProcessColumns {
    pub pid: bool,
    pub name: bool,
    pub user: bool,
    pub cpu_percent: bool,
    pub memory_percent: bool,
    pub memory_rss: bool,
    pub memory_vsz: bool,
    pub threads: bool,
    pub state: bool,
    pub start_time: bool,
}

impl ProcessColumns {
    /// The columns shown unless configured otherwise.
    pub open spec fn standard() -> ProcessColumns {
        ProcessColumns {
            pid: true,
            name: true,
            user: true,
            cpu_percent: true,
            memory_percent: true,
            memory_rss: true,
            memory_vsz: false,
            threads: false,
            state: true,
            start_time: false,
        }
    }
}

impl Default for ProcessColumns {
    fn default() -> (r: Self)
        ensures
            r == ProcessColumns::standard(),
    {
        ProcessColumns {
            pid: true,
            name: true,
            user: true,
            cpu_percent: true,
            memory_percent: true,
            memory_rss: true,
            memory_vsz: false,
            threads: false,
            state: true,
            start_time: false,
        }
    }
}

} // verus!

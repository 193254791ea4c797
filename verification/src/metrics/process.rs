//! Processes: from raw readings to the process list of a snapshot, with
//! filtering and ordering, and the request to end a process.

use crate::error::{CoreError, Failure};
use crate::model::{rows, texts, ProcessInfo, ProcessRow, ProcessState, SortKey};
use crate::numbers::Fixed;
use crate::platform::PlatformKind;
use crate::process_view::{filter_processes, filtered, listed, sort_processes, sorted_rows};
use crate::text::{decimal, push_decimal};
use crate::widgets::gauges::{share, share_of};
use vstd::prelude::*;
use vstd::string::*;

verus! {

/// The state of a process as the operating system names it.
#[derive(Debug, Clone, Copy, PartialEq, Eq, Structural)]
pub enum RawStatus {
    Idle,
    Run,
    Sleep,
    Stop,
    Zombie,
    Tracing,
    Dead,
    Wakekill,
    Waking,
    Parked,
    LockBlocked,
    UninterruptibleDiskSleep,
    Unknown(u32),
}

/// What one poll reads of one process. Memory sizes count kibibytes, the
/// start time seconds since the epoch; the user is named by its id.
#[derive(Debug, PartialEq, Eq)]
pub struct ProcessReading {
    pub pid: u32,
    pub name: String,
    pub cmd: Vec<String>,
    pub cpu_usage: Fixed,
    pub memory: u64,
    pub virtual_memory: u64,
    pub status: RawStatus,
    pub start_time: u64,
    pub parent: Option<u32>,
    pub user_id: Option<String>,
}

/// Bytes in a kibibyte.
pub const KIBIBYTE: u64 = 1024;

/// The lifecycle state that stands for a raw status; a status without a
/// counterpart is unknown.
pub open spec fn state_of(status: RawStatus) -> ProcessState {
    match status {
        RawStatus::Idle => ProcessState::Sleeping,
        RawStatus::Run => ProcessState::Running,
        RawStatus::Sleep => ProcessState::Sleeping,
        RawStatus::Stop => ProcessState::Stopped,
        RawStatus::Zombie => ProcessState::Zombie,
        RawStatus::Tracing => ProcessState::Waiting,
        RawStatus::Dead => ProcessState::Dead,
        RawStatus::Wakekill => ProcessState::Sleeping,
        RawStatus::Waking => ProcessState::Waiting,
        RawStatus::Parked => ProcessState::Waiting,
        RawStatus::LockBlocked => ProcessState::Waiting,
        RawStatus::UninterruptibleDiskSleep => ProcessState::Waiting,
        RawStatus::Unknown(_) => ProcessState::Unknown,
    }
}

/// `kibibytes` in bytes, held at the largest 64-bit value.
pub open spec fn in_bytes(kibibytes: u64) -> u64 {
    if kibibytes * KIBIBYTE > u64::MAX {
        u64::MAX
    } else {
        (kibibytes * KIBIBYTE) as u64
    }
}

/// The process of a snapshot that the reading gives on a host with
/// `total_memory` of memory: its share of the memory as a percentage, its
/// sizes in bytes, one thread, and `unknown` for a user without an id.
pub open spec fn process_row(reading: ProcessReading, total_memory: u64) -> ProcessRow {
    ProcessRow {
        pid: reading.pid,
        name: reading.name@,
        cmd: texts(reading.cmd@),
        user: match reading.user_id {
            Some(id) => id@,
            None => "unknown"@,
        },
        cpu_percent: reading.cpu_usage,
        memory_percent: share_of(reading.memory, total_memory),
        memory_rss: in_bytes(reading.memory),
        memory_vsz: in_bytes(reading.virtual_memory),
        threads: 1,
        state: state_of(reading.status),
        start_time: reading.start_time,
        parent_pid: reading.parent,
        cgroup: None,
    }
}

/// The processes of a snapshot: one per reading, in order.
pub open spec fn process_rows(readings: Seq<ProcessReading>, total_memory: u64) -> Seq<
    ProcessRow,
> {
    Seq::new(readings.len(), |i: int| process_row(readings[i], total_memory))
}

/// Whether `pid` names one process: it is above zero and fits the
/// operating system's type for process ids.
pub open spec fn is_process_id(pid: u32) -> bool {
    0 < pid <= i32::MAX
}

/// The message of a failed request to end the process `pid`.
pub open spec fn kill_failure(pid: u32, reason: Seq<char>) -> Failure {
    Failure::Platform("Failed to kill process "@ + decimal(pid as nat) + ": "@ + reason)
}

/// The reason given for a number that names no process.
pub open spec fn not_a_process() -> Seq<char> {
    "not a process id"@
}

/// Turns process readings into the processes of a snapshot.
pub struct ProcessCollector;

impl ProcessCollector {
    /// A collector of processes.
    pub fn new() -> Self {
        ProcessCollector
    }

    /// The processes of the snapshot of one poll.
    pub fn collect(&mut self, readings: &Vec<ProcessReading>, total_memory: u64) -> (processes:
        Vec<ProcessInfo>)
        ensures
            rows(processes@) == process_rows(readings@, total_memory),
    {
        let mut processes: Vec<ProcessInfo> = Vec::new();
        let mut i: usize = 0;
        while i < readings.len()
            invariant
                i <= readings.len(),
                processes.len() == i,
                forall|k: int|
                    0 <= k < i ==> (#[trigger] processes[k])@ == process_row(
                        readings[k],
                        total_memory,
                    ),
            decreases readings.len() - i,
        {
            processes.push(self.process_to_info(&readings[i], total_memory));
            i += 1;
        }
        proof {
            assert(rows(processes@) =~= process_rows(readings@, total_memory));
        }
        processes
    }

    /// The processes of one poll that pass the filter text.
    pub fn collect_filtered(
        &mut self,
        readings: &Vec<ProcessReading>,
        total_memory: u64,
        filter: &str,
    ) -> (processes: Vec<ProcessInfo>)
        ensures
            rows(processes@) == filtered(process_rows(readings@, total_memory), filter@),
    {
        let processes = self.collect(readings, total_memory);
        filter_processes(&processes, filter)
    }

    /// The processes of one poll in the order of `sort_key`.
    pub fn collect_sorted(
        &mut self,
        readings: &Vec<ProcessReading>,
        total_memory: u64,
        sort_key: SortKey,
        reverse: bool,
    ) -> (processes: Vec<ProcessInfo>)
        ensures
            rows(processes@) == sorted_rows(
                process_rows(readings@, total_memory),
                sort_key,
                reverse,
            ),
    {
        let mut processes = self.collect(readings, total_memory);
        self.sort_processes(&mut processes, sort_key, reverse);
        processes
    }

    /// The processes of one poll that pass the filter text, in the order of
    /// `sort_key`.
    pub fn collect_sorted_filtered(
        &mut self,
        readings: &Vec<ProcessReading>,
        total_memory: u64,
        sort_key: SortKey,
        reverse: bool,
        filter: &str,
    ) -> (processes: Vec<ProcessInfo>)
        ensures
            rows(processes@) == listed(
                process_rows(readings@, total_memory),
                filter@,
                sort_key,
                reverse,
            ),
    {
        let mut processes = self.collect_filtered(readings, total_memory, filter);
        self.sort_processes(&mut processes, sort_key, reverse);
        processes
    }

    /// Orders `processes` by `sort_key`; equal processes keep their order.
    pub fn sort_processes(&self, processes: &mut Vec<ProcessInfo>, sort_key: SortKey, reverse: bool)
        ensures
            rows(final(processes)@) == sorted_rows(rows(old(processes)@), sort_key, reverse),
    {
        sort_processes(processes, sort_key, reverse);
    }

    /// The process of a snapshot that one reading gives.
    pub fn process_to_info(&self, reading: &ProcessReading, total_memory: u64) -> (info:
        ProcessInfo)
        ensures
            info@ == process_row(*reading, total_memory),
    {
        ProcessInfo {
            pid: reading.pid,
            name: reading.name.clone(),
            cmd: crate::model::copy_texts(&reading.cmd),
            user: self.get_process_user(reading),
            cpu_percent: reading.cpu_usage,
            memory_percent: share(reading.memory, total_memory),
            memory_rss: to_bytes(reading.memory),
            memory_vsz: to_bytes(reading.virtual_memory),
            threads: 1,
            state: self.convert_process_status(reading.status),
            start_time: reading.start_time,
            parent_pid: reading.parent,
            cgroup: None,
        }
    }

    /// The lifecycle state that stands for a raw status.
    pub fn convert_process_status(&self, status: RawStatus) -> (state: ProcessState)
        ensures
            state == state_of(status),
    {
        match status {
            RawStatus::Idle => ProcessState::Sleeping,
            RawStatus::Run => ProcessState::Running,
            RawStatus::Sleep => ProcessState::Sleeping,
            RawStatus::Stop => ProcessState::Stopped,
            RawStatus::Zombie => ProcessState::Zombie,
            RawStatus::Tracing => ProcessState::Waiting,
            RawStatus::Dead => ProcessState::Dead,
            RawStatus::Wakekill => ProcessState::Sleeping,
            RawStatus::Waking => ProcessState::Waiting,
            RawStatus::Parked => ProcessState::Waiting,
            RawStatus::LockBlocked => ProcessState::Waiting,
            RawStatus::UninterruptibleDiskSleep => ProcessState::Waiting,
            RawStatus::Unknown(_) => ProcessState::Unknown,
        }
    }

    /// The user of a process: its id, or `unknown`.
    fn get_process_user(&self, reading: &ProcessReading) -> (user: String)
        ensures
            user@ == match reading.user_id {
                Some(id) => id@,
                None => "unknown"@,
            },
    {
        match &reading.user_id {
            Some(id) => id.clone(),
            None => String::from_str("unknown"),
        }
    }

    /// Asks to end the process `pid` on the platform `platform`. On a
    /// platform that cannot end a process, nothing is sent and the request
    /// fails as unsupported; elsewhere it goes the way of `kill_process`.
    pub fn kill_process_on(&self, platform: PlatformKind, pid: u32) -> (r: Result<(), CoreError>)
        ensures
            !platform.can_kill() ==> r is Err && r->Err_0@ == kill_unsupported(),
            platform.can_kill() && !is_process_id(pid) ==> r is Err && r->Err_0@ == kill_failure(
                pid,
                not_a_process(),
            ),
            platform.can_kill() && r is Err ==> exists|reason: Seq<char>|
                r->Err_0@ == kill_failure(pid, reason),
    {
        match platform {
            PlatformKind::Linux => self.kill_process(pid),
            PlatformKind::Macos => self.kill_process(pid),
            _ => Err(
                CoreError::unsupported_platform(
                    String::from_str("Process termination not supported on this platform"),
                ),
            ),
        }
    }

    /// Asks the operating system to end the process `pid`. A number that
    /// names no process is refused before anything is sent; a request that
    /// the operating system turns down fails with the reason it gives.
    pub fn kill_process(&self, pid: u32) -> (r: Result<(), CoreError>)
        ensures
            !is_process_id(pid) ==> r is Err && r->Err_0@ == kill_failure(pid, not_a_process()),
            r is Err ==> exists|reason: Seq<char>| r->Err_0@ == kill_failure(pid, reason),
    {
        if pid == 0 || pid > i32::MAX as u32 {
            return kill_outcome(pid, Err(String::from_str("not a process id")));
        }
        kill_outcome(pid, send_terminate(pid as i32))
    }
}

/// The message for a platform on which no process can be asked to end.
pub open spec fn kill_unsupported() -> Failure {
    Failure::UnsupportedPlatform("Process termination not supported on this platform"@)
}

/// What a request to end the process `pid` comes to, given what sending
/// the signal returned: success, or a platform failure that names the
/// process and the reason.
pub fn kill_outcome(pid: u32, sent: Result<(), String>) -> (r: Result<(), CoreError>)
    ensures
        match sent {
            Ok(_) => r is Ok,
            Err(reason) => r is Err && r->Err_0@ == kill_failure(pid, reason@),
        },
{
    match sent {
        Ok(()) => Ok(()),
        Err(reason) => {
            let mut message = String::from_str("Failed to kill process ");
            push_decimal(&mut message, pid as u64);
            message.append(": ");
            message.append(reason.as_str());
            Err(CoreError::platform(message))
        },
    }
}

/// Sends the termination signal to the process `pid`: nix's `kill` with
/// `SIGTERM`. Nothing is claimed of the outcome, which the operating
/// system decides; a failure comes back as the error's own words.
#[verifier::external_body]
fn send_terminate(pid: i32) -> (r: Result<(), String>)
    requires
        pid > 0,
{
    nix::sys::signal::kill(nix::unistd::Pid::from_raw(pid), nix::sys::signal::Signal::SIGTERM)
        .map_err(|e| e.to_string())
}

fn to_bytes(kibibytes: u64) -> (r: u64)
    ensures
        r == in_bytes(kibibytes),
{
    match kibibytes.checked_mul(KIBIBYTE) {
        Some(bytes) => bytes,
        None => u64::MAX,
    }
}

} // verus!

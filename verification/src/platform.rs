//! What differs between operating systems, behind one interface.

use crate::error::CoreError;
use crate::model::texts;
use crate::text::{chars_of, contains, contains_text, join, joined, push_char};
use vstd::prelude::*;
use vstd::string::*;

verus! {

/// Platform-specific process details.
#[derive(Debug, PartialEq, Eq)]
pub struct PlatformProcessDetails {
    pub cmdline: Option<String>,
    pub cwd: Option<String>,
    pub environment: Option<Vec<(String, String)>>,
    pub open_files: Option<Vec<String>>,
    pub cgroup: Option<String>,
    pub container_id: Option<String>,
}

impl PlatformProcessDetails {
    /// Whether nothing is known of the process.
    pub open spec fn is_empty(self) -> bool {
        &&& self.cmdline is None
        &&& self.cwd is None
        &&& self.environment is None
        &&& self.open_files is None
        &&& self.cgroup is None
        &&& self.container_id is None
    }
}

impl Default for PlatformProcessDetails {
    fn default() -> (r: Self)
        ensures
            r.is_empty(),
    {
        PlatformProcessDetails {
            cmdline: None,
            cwd: None,
            environment: None,
            open_files: None,
            cgroup: None,
            container_id: None,
        }
    }
}

/// Platform-specific system metrics.
#[derive(Debug, Clone, Copy, PartialEq, Eq, Structural)]
pub struct PlatformSystemMetrics {
    pub context_switches: Option<u64>,
    pub interrupts: Option<u64>,
    pub processes_created: Option<u64>,
    pub processes_running: Option<u64>,
    pub processes_blocked: Option<u64>,
}

impl PlatformSystemMetrics {
    /// The metrics of a platform that tells none.
    pub open spec fn none() -> PlatformSystemMetrics {
        PlatformSystemMetrics {
            context_switches: None,
            interrupts: None,
            processes_created: None,
            processes_running: None,
            processes_blocked: None,
        }
    }
}

impl Default for PlatformSystemMetrics {
    fn default() -> (r: Self)
        ensures
            r == PlatformSystemMetrics::none(),
    {
        PlatformSystemMetrics {
            context_switches: None,
            interrupts: None,
            processes_created: None,
            processes_running: None,
            processes_blocked: None,
        }
    }
}

/// The operating systems that have a provider of their own.
#[derive(Debug, Clone, Copy, PartialEq, Eq, Structural)]
pub enum PlatformKind {
    Linux,
    Macos,
    Windows,
    Generic,
}

impl PlatformKind {
    /// The name of the platform.
    pub open spec fn name(self) -> Seq<char> {
        match self {
            PlatformKind::Linux => "linux"@,
            PlatformKind::Macos => "macos"@,
            PlatformKind::Windows => "windows"@,
            PlatformKind::Generic => "generic"@,
        }
    }

    /// Whether a process can be asked to end on the platform.
    pub open spec fn can_kill(self) -> bool {
        self == PlatformKind::Linux || self == PlatformKind::Macos
    }
}

/// Platform-specific functionality. Callers ask what a platform supports
/// before they act.
pub trait PlatformProvider {
    /// The platform that the provider stands for.
    spec fn kind(&self) -> PlatformKind;

    /// Enhanced process information specific to this platform.
    fn get_process_details(&self, pid: u32) -> (r: Result<PlatformProcessDetails, CoreError>);

    /// System-specific performance metrics.
    fn get_system_metrics(&self) -> (r: Result<PlatformSystemMetrics, CoreError>);

    /// Whether process termination is supported.
    fn supports_process_kill(&self) -> (r: bool)
        ensures
            r == self.kind().can_kill(),
    ;

    /// The platform's name.
    fn platform_name(&self) -> (r: &'static str)
        ensures
            r@ == self.kind().name(),
    ;
}

/// The provider for Linux.
pub struct LinuxProvider;

/// The provider for macOS.
pub struct MacosProvider;

/// The provider for Windows.
pub struct WindowsProvider;

/// Generic provider for platforms without one of their own.
pub struct GenericProvider;

impl LinuxProvider {
    pub fn new() -> Self {
        LinuxProvider
    }
}

impl MacosProvider {
    pub fn new() -> Self {
        MacosProvider
    }
}

impl WindowsProvider {
    pub fn new() -> Self {
        WindowsProvider
    }
}

impl GenericProvider {
    pub fn new() -> Self {
        GenericProvider
    }
}

impl PlatformProvider for LinuxProvider {
    open spec fn kind(&self) -> PlatformKind {
        PlatformKind::Linux
    }

    fn get_process_details(&self, pid: u32) -> (r: Result<PlatformProcessDetails, CoreError>)
        ensures
            r is Ok,
            r->Ok_0.is_empty(),
    {
        Ok(PlatformProcessDetails::default())
    }

    fn get_system_metrics(&self) -> (r: Result<PlatformSystemMetrics, CoreError>)
        ensures
            r == Ok::<PlatformSystemMetrics, CoreError>(PlatformSystemMetrics::none()),
    {
        Ok(PlatformSystemMetrics::default())
    }

    fn supports_process_kill(&self) -> (r: bool) {
        true
    }

    fn platform_name(&self) -> (r: &'static str) {
        "linux"
    }
}

impl PlatformProvider for MacosProvider {
    open spec fn kind(&self) -> PlatformKind {
        PlatformKind::Macos
    }

    fn get_process_details(&self, pid: u32) -> (r: Result<PlatformProcessDetails, CoreError>)
        ensures
            r is Ok,
            r->Ok_0.is_empty(),
    {
        Ok(PlatformProcessDetails::default())
    }

    fn get_system_metrics(&self) -> (r: Result<PlatformSystemMetrics, CoreError>)
        ensures
            r == Ok::<PlatformSystemMetrics, CoreError>(PlatformSystemMetrics::none()),
    {
        Ok(PlatformSystemMetrics::default())
    }

    fn supports_process_kill(&self) -> (r: bool) {
        true
    }

    fn platform_name(&self) -> (r: &'static str) {
        "macos"
    }
}

impl PlatformProvider for WindowsProvider {
    open spec fn kind(&self) -> PlatformKind {
        PlatformKind::Windows
    }

    fn get_process_details(&self, pid: u32) -> (r: Result<PlatformProcessDetails, CoreError>)
        ensures
            r is Ok,
            r->Ok_0.is_empty(),
    {
        Ok(PlatformProcessDetails::default())
    }

    fn get_system_metrics(&self) -> (r: Result<PlatformSystemMetrics, CoreError>)
        ensures
            r == Ok::<PlatformSystemMetrics, CoreError>(PlatformSystemMetrics::none()),
    {
        Ok(PlatformSystemMetrics::default())
    }

    fn supports_process_kill(&self) -> (r: bool) {
        false
    }

    fn platform_name(&self) -> (r: &'static str) {
        "windows"
    }
}

impl PlatformProvider for GenericProvider {
    open spec fn kind(&self) -> PlatformKind {
        PlatformKind::Generic
    }

    fn get_process_details(&self, pid: u32) -> (r: Result<PlatformProcessDetails, CoreError>)
        ensures
            r is Ok,
            r->Ok_0.is_empty(),
    {
        Ok(PlatformProcessDetails::default())
    }

    fn get_system_metrics(&self) -> (r: Result<PlatformSystemMetrics, CoreError>)
        ensures
            r == Ok::<PlatformSystemMetrics, CoreError>(PlatformSystemMetrics::none()),
    {
        Ok(PlatformSystemMetrics::default())
    }

    fn supports_process_kill(&self) -> (r: bool) {
        false
    }

    fn platform_name(&self) -> (r: &'static str) {
        "generic"
    }
}

/// The provider of any one platform.
pub enum Provider {
    Linux(LinuxProvider),
    Macos(MacosProvider),
    Windows(WindowsProvider),
    Generic(GenericProvider),
}

impl PlatformProvider for Provider {
    open spec fn kind(&self) -> PlatformKind {
        match self {
            Provider::Linux(_) => PlatformKind::Linux,
            Provider::Macos(_) => PlatformKind::Macos,
            Provider::Windows(_) => PlatformKind::Windows,
            Provider::Generic(_) => PlatformKind::Generic,
        }
    }

    fn get_process_details(&self, pid: u32) -> (r: Result<PlatformProcessDetails, CoreError>)
        ensures
            r is Ok,
            r->Ok_0.is_empty(),
    {
        match self {
            Provider::Linux(p) => p.get_process_details(pid),
            Provider::Macos(p) => p.get_process_details(pid),
            Provider::Windows(p) => p.get_process_details(pid),
            Provider::Generic(p) => p.get_process_details(pid),
        }
    }

    fn get_system_metrics(&self) -> (r: Result<PlatformSystemMetrics, CoreError>)
        ensures
            r == Ok::<PlatformSystemMetrics, CoreError>(PlatformSystemMetrics::none()),
    {
        match self {
            Provider::Linux(p) => p.get_system_metrics(),
            Provider::Macos(p) => p.get_system_metrics(),
            Provider::Windows(p) => p.get_system_metrics(),
            Provider::Generic(p) => p.get_system_metrics(),
        }
    }

    fn supports_process_kill(&self) -> (r: bool) {
        match self {
            Provider::Linux(p) => p.supports_process_kill(),
            Provider::Macos(p) => p.supports_process_kill(),
            Provider::Windows(p) => p.supports_process_kill(),
            Provider::Generic(p) => p.supports_process_kill(),
        }
    }

    fn platform_name(&self) -> (r: &'static str) {
        match self {
            Provider::Linux(p) => p.platform_name(),
            Provider::Macos(p) => p.platform_name(),
            Provider::Windows(p) => p.platform_name(),
            Provider::Generic(p) => p.platform_name(),
        }
    }
}

/// The provider for the platform `kind`.
pub fn get_platform_provider(kind: PlatformKind) -> (r: Provider)
    ensures
        r.kind() == kind,
{
    match kind {
        PlatformKind::Linux => Provider::Linux(LinuxProvider::new()),
        PlatformKind::Macos => Provider::Macos(MacosProvider::new()),
        PlatformKind::Windows => Provider::Windows(WindowsProvider::new()),
        PlatformKind::Generic => Provider::Generic(GenericProvider::new()),
    }
}

/// What is read of a process on Linux, as far as it could be read.
#[derive(Debug, PartialEq, Eq)]
pub struct RawProcessDetails {
    pub cmdline: Option<Vec<String>>,
    pub cwd: Option<String>,
    pub environment: Option<Vec<(String, String)>>,
    pub open_files: Option<Vec<String>>,
    pub cgroups: Option<Vec<String>>,
}

/// Characters of a container id that are kept.
pub const CONTAINER_ID_LENGTH: usize = 12;

/// Position behind the last slash among the first `upto` characters of
/// `path`, zero where there is none.
pub open spec fn segment_start(path: Seq<char>, upto: int) -> int
    decreases upto,
{
    if upto <= 0 {
        0
    } else if path[upto - 1] == '/' {
        upto
    } else {
        segment_start(path, upto - 1)
    }
}

/// What follows the last slash of `path`; the whole path without a slash.
pub open spec fn last_segment(path: Seq<char>) -> Seq<char> {
    path.skip(segment_start(path, path.len() as int))
}

/// The container id that a control group path names: for a path that
/// mentions `docker` or `kubepods`, the first twelve characters of its
/// last segment.
pub open spec fn container_id_of(cgroup: Seq<char>) -> Option<Seq<char>> {
    if contains_text(cgroup, "docker"@) || contains_text(cgroup, "kubepods"@) {
        let id = last_segment(cgroup);
        Some(
            if id.len() >= CONTAINER_ID_LENGTH {
                id.take(CONTAINER_ID_LENGTH as int)
            } else {
                id
            },
        )
    } else {
        None
    }
}

/// The texts of an optional text.
pub open spec fn optional_text(text: Option<String>) -> Option<Seq<char>> {
    match text {
        Some(t) => Some(t@),
        None => None,
    }
}

/// Whether `details` are the details that the raw reading `raw` gives: the
/// command line joined by blanks, the first control group, and the
/// container id that it names; the rest as read.
pub open spec fn are_details_of(details: PlatformProcessDetails, raw: RawProcessDetails) -> bool {
    &&& optional_text(details.cmdline) == match raw.cmdline {
        Some(parts) => Some(joined(texts(parts@), " "@)),
        None => None,
    }
    &&& details.cwd == raw.cwd
    &&& details.environment == raw.environment
    &&& details.open_files == raw.open_files
    &&& optional_text(details.cgroup) == match raw.cgroups {
        Some(list) => if list@.len() > 0 {
            Some(list@[0]@)
        } else {
            None
        },
        None => None,
    }
    &&& optional_text(details.container_id) == match optional_text(details.cgroup) {
        Some(path) => container_id_of(path),
        None => None,
    }
}

/// The container id that a control group path names.
pub fn container_id(cgroup: &str) -> (r: Option<String>)
    ensures
        optional_text(r) == container_id_of(cgroup@),
{
    if contains(cgroup, "docker") || contains(cgroup, "kubepods") {
        let path = chars_of(cgroup);
        let mut start: usize = path.len();
        while start > 0 && path[start - 1] != '/'
            invariant
                start <= path.len(),
                segment_start(path@, path.len() as int) == segment_start(path@, start as int),
            decreases start,
        {
            start -= 1;
        }
        let mut id = String::new();
        let mut i: usize = start;
        while i < path.len() && i - start < CONTAINER_ID_LENGTH
            invariant
                start <= i <= path.len(),
                i - start <= CONTAINER_ID_LENGTH,
                id@ == path@.subrange(start as int, i as int),
            decreases path.len() - i,
        {
            push_char(&mut id, path[i]);
            i += 1;
            proof {
                assert(id@ =~= path@.subrange(start as int, i as int));
            }
        }
        proof {
            let whole = last_segment(cgroup@);
            assert(whole =~= path@.subrange(start as int, path.len() as int));
            if whole.len() >= CONTAINER_ID_LENGTH {
                assert(id@ =~= whole.take(CONTAINER_ID_LENGTH as int));
            } else {
                assert(id@ =~= whole);
            }
        }
        Some(id)
    } else {
        None
    }
}

impl LinuxProvider {
    /// The details of a process from what was read of it.
    pub fn process_details(&self, raw: RawProcessDetails) -> (details: PlatformProcessDetails)
        ensures
            are_details_of(details, raw),
    {
        let cmdline = match &raw.cmdline {
            Some(parts) => Some(join(parts, " ")),
            None => None,
        };
        let cgroup = match &raw.cgroups {
            Some(list) => if list.len() > 0 {
                Some(list[0].clone())
            } else {
                None
            },
            None => None,
        };
        let container = match &cgroup {
            Some(path) => container_id(path.as_str()),
            None => None,
        };
        PlatformProcessDetails {
            cmdline,
            cwd: raw.cwd,
            environment: raw.environment,
            open_files: raw.open_files,
            cgroup,
            container_id: container,
        }
    }

    /// The metrics of the system from the kernel's counters; the
    /// interrupts are summed up over all sources and held at the largest
    /// 64-bit value.
    pub fn system_metrics(
        &self,
        context_switches: u64,
        interrupts: &Vec<u64>,
        processes_created: u64,
        processes_running: u32,
        processes_blocked: u32,
    ) -> (metrics: PlatformSystemMetrics)
        ensures
            metrics == (PlatformSystemMetrics {
                context_switches: Some(context_switches),
                interrupts: Some(held_sum(interrupts@)),
                processes_created: Some(processes_created),
                processes_running: Some(processes_running as u64),
                processes_blocked: Some(processes_blocked as u64),
            }),
    {
        let mut total: u64 = 0;
        let mut i: usize = 0;
        while i < interrupts.len()
            invariant
                i <= interrupts.len(),
                total == held_sum(interrupts@.take(i as int)),
            decreases interrupts.len() - i,
        {
            proof {
                assert(interrupts@.take(i + 1).drop_last() =~= interrupts@.take(i as int));
            }
            total = total.saturating_add(interrupts[i]);
            i += 1;
        }
        proof {
            assert(interrupts@.take(interrupts.len() as int) =~= interrupts@);
        }
        PlatformSystemMetrics {
            context_switches: Some(context_switches),
            interrupts: Some(total),
            processes_created: Some(processes_created),
            processes_running: Some(processes_running as u64),
            processes_blocked: Some(processes_blocked as u64),
        }
    }
}

/// The sum of `counts`, held at the largest 64-bit value.
pub open spec fn held_sum(counts: Seq<u64>) -> u64
    decreases counts.len(),
{
    if counts.len() == 0 {
        0
    } else if held_sum(counts.drop_last()) + counts.last() > u64::MAX {
        u64::MAX
    } else {
        (held_sum(counts.drop_last()) + counts.last()) as u64
    }
}

} // verus!

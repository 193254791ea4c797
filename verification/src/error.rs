//! The failures of the monitor.

use vstd::prelude::*;
use vstd::string::*;

verus! {

/// Core errors for the system monitor; each carries its message.
#[derive(Debug, PartialEq, Eq)]
pub enum CoreError {
    SystemInfo(String),
    ProcessInfo(String),
    Config(String),
    Platform(String),
    Io(String),
    Json(String),
    PermissionDenied(String),
    UnsupportedPlatform(String),
}

/// What a `CoreError` says, as a mathematical value.
pub enum Failure {
    SystemInfo(Seq<char>),
    ProcessInfo(Seq<char>),
    Config(Seq<char>),
    Platform(Seq<char>),
    Io(Seq<char>),
    Json(Seq<char>),
    PermissionDenied(Seq<char>),
    UnsupportedPlatform(Seq<char>),
}

impl Failure {
    /// The words that introduce the kind of failure.
    pub open spec fn heading(self) -> Seq<char> {
        match self {
            Failure::SystemInfo(_) => "System information error: "@,
            Failure::ProcessInfo(_) => "Process information error: "@,
            Failure::Config(_) => "Configuration error: "@,
            Failure::Platform(_) => "Platform-specific error: "@,
            Failure::Io(_) => "IO error: "@,
            Failure::Json(_) => "JSON serialization error: "@,
            Failure::PermissionDenied(_) => "Permission denied: "@,
            Failure::UnsupportedPlatform(_) => "Feature not supported on this platform: "@,
        }
    }

    /// The message that the failure carries.
    pub open spec fn message(self) -> Seq<char> {
        match self {
            Failure::SystemInfo(m) => m,
            Failure::ProcessInfo(m) => m,
            Failure::Config(m) => m,
            Failure::Platform(m) => m,
            Failure::Io(m) => m,
            Failure::Json(m) => m,
            Failure::PermissionDenied(m) => m,
            Failure::UnsupportedPlatform(m) => m,
        }
    }

    /// The failure in words: its heading, then its message.
    pub open spec fn text(self) -> Seq<char> {
        self.heading() + self.message()
    }
}

impl View for CoreError {
    type V = Failure;

    open spec fn view(&self) -> Failure {
        match self {
            CoreError::SystemInfo(m) => Failure::SystemInfo(m@),
            CoreError::ProcessInfo(m) => Failure::ProcessInfo(m@),
            CoreError::Config(m) => Failure::Config(m@),
            CoreError::Platform(m) => Failure::Platform(m@),
            CoreError::Io(m) => Failure::Io(m@),
            CoreError::Json(m) => Failure::Json(m@),
            CoreError::PermissionDenied(m) => Failure::PermissionDenied(m@),
            CoreError::UnsupportedPlatform(m) => Failure::UnsupportedPlatform(m@),
        }
    }
}

impl CoreError {
    /// A failure to read the system.
    pub fn system_info(msg: String) -> (r: Self)
        ensures
            r@ == Failure::SystemInfo(msg@),
    {
        CoreError::SystemInfo(msg)
    }

    /// A failure to read a process.
    pub fn process_info(msg: String) -> (r: Self)
        ensures
            r@ == Failure::ProcessInfo(msg@),
    {
        CoreError::ProcessInfo(msg)
    }

    /// A failure of the configuration.
    pub fn config(msg: String) -> (r: Self)
        ensures
            r@ == Failure::Config(msg@),
    {
        CoreError::Config(msg)
    }

    /// A failure of a call into the platform.
    pub fn platform(msg: String) -> (r: Self)
        ensures
            r@ == Failure::Platform(msg@),
    {
        CoreError::Platform(msg)
    }

    /// A refusal for want of permission.
    pub fn permission_denied(msg: String) -> (r: Self)
        ensures
            r@ == Failure::PermissionDenied(msg@),
    {
        CoreError::PermissionDenied(msg)
    }

    /// A feature that the platform does not have.
    pub fn unsupported_platform(msg: String) -> (r: Self)
        ensures
            r@ == Failure::UnsupportedPlatform(msg@),
    {
        CoreError::UnsupportedPlatform(msg)
    }

    /// The failure in words, as it is shown to the user.
    pub fn describe(&self) -> (r: String)
        ensures
            r@ == self@.text(),
    {
        let (heading, message): (&str, &String) = match self {
            CoreError::SystemInfo(m) => ("System information error: ", m),
            CoreError::ProcessInfo(m) => ("Process information error: ", m),
            CoreError::Config(m) => ("Configuration error: ", m),
            CoreError::Platform(m) => ("Platform-specific error: ", m),
            CoreError::Io(m) => ("IO error: ", m),
            CoreError::Json(m) => ("JSON serialization error: ", m),
            CoreError::PermissionDenied(m) => ("Permission denied: ", m),
            CoreError::UnsupportedPlatform(m) => ("Feature not supported on this platform: ", m),
        };
        let mut r = String::from_str(heading);
        r.append(message.as_str());
        r
    }
}

} // verus!

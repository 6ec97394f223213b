//! The errors of each component, and the message that goes with each.

use vstd::prelude::*;
use vstd::string::StringExecFns;
use crate::text::decimal;
use crate::text::decimal_string;
use crate::text::join;
use crate::text::signed_decimal;
use crate::text::signed_decimal_string;

verus! {

/// `std::io::Error`, carried as an opaque value.
#[verifier::external_type_specification]
#[verifier::external_body]
pub struct ExIoError(std::io::Error);

/// `serde_json::Error`, carried as an opaque value.
#[verifier::external_type_specification]
#[verifier::external_body]
pub struct ExJsonError(serde_json::Error);

/// Calls the `Display` form of `std::io::Error` through `to_string`; the text comes
/// from the operating system, so nothing is claimed of it.
#[verifier::external_body]
pub(crate) fn io_error_text(e: &std::io::Error) -> (s: String) {
    e.to_string()
}

/// Calls the `Display` form of `serde_json::Error` through `to_string`: the cause
/// and, where known, the line and column. The error is opaque here, so nothing is
/// claimed of the text.
#[verifier::external_body]
pub(crate) fn json_error_text(e: &serde_json::Error) -> (s: String) {
    e.to_string()
}

/// What can go wrong with the shared-memory segment that carries the frame rate.
#[derive(Debug)]
pub enum ShmError {
    /// The segment could not be opened.
    OpenFailed { name: String, source: std::io::Error },
    /// The segment could not be mapped.
    MmapFailed(std::io::Error),
    /// The segment held something that is no record.
    InvalidData(String),
    /// There is no segment: the overlay may not be running.
    NotAvailable,
}

/// What can go wrong with the store of profiles.
#[derive(Debug)]
pub enum ProfileError {
    /// The profiles could not be read.
    LoadFailed(String),
    /// The profiles could not be written.
    SaveFailed(String),
    /// There is no profile for the application.
    NotFound(String),
}

/// What can go wrong when the refresh rate is set.
#[derive(Debug)]
pub enum DisplayError {
    /// The helper that sets the rate is not installed.
    CommandNotFound,
    /// The helper ran and reported failure.
    CommandFailed { exit_code: Option<i32>, stderr: String },
    /// The rate asked for lies outside the range.
    RateOutOfRange { requested: u32, min: u32, max: u32 },
    /// The helper could not be run.
    ExecutionFailed(std::io::Error),
}

/// What can go wrong on the control socket.
#[derive(Debug)]
pub enum IpcError {
    /// The socket could not be bound.
    SocketBindFailed { path: String, source: std::io::Error },
    /// The client went away.
    ConnectionDropped,
    /// The request was not understood.
    InvalidCommand(String),
    /// The response could not be written as JSON.
    SerializationFailed(serde_json::Error),
    /// Reading or writing failed.
    IoError(std::io::Error),
}

/// What can go wrong with the configuration.
#[derive(Debug)]
pub enum ConfigError {
    /// There is no configuration file.
    FileNotFound(String),
    /// The configuration file could not be read as a configuration.
    ParseError(String),
    /// The configuration holds a value that is not admitted.
    ValidationError(String),
    /// The configuration file could not be written.
    WriteError(std::io::Error),
}

/// Any error of the daemon.
#[derive(Debug)]
pub enum DaemonError {
    /// From the shared-memory segment.
    Shm(ShmError),
    /// From setting the refresh rate.
    Display(DisplayError),
    /// From the control socket.
    Ipc(IpcError),
    /// From the configuration.
    Config(ConfigError),
    /// From anywhere else.
    Runtime(String),
}

/// The way `Option<i32>` is written out for a reader: `None`, or `Some(..)` round
/// the decimal numeral.
pub open spec fn exit_code_text(code: Option<i32>) -> Seq<char> {
    match code {
        Some(n) => "Some("@ + signed_decimal(n as int) + ")"@,
        None => "None"@,
    }
}

/// Writes an exit code out for a reader.
pub fn exit_code_string(code: Option<i32>) -> (s: String)
    ensures
        s@ == exit_code_text(code),
{
    match code {
        Some(n) => {
            let digits: String = signed_decimal_string(n as i64);
            let mut s: String = join("Some(", digits.as_str());
            s.append(")");
            s
        },
        None => String::from_str("None"),
    }
}

impl ShmError {
    /// The part of the message that does not come from the operating system: the
    /// whole message, or what stands before the system's own words.
    pub open spec fn text(self) -> Seq<char> {
        match self {
            ShmError::OpenFailed { name, source } => "Failed to open shared memory segment '"@
                + name@ + "': "@,
            ShmError::MmapFailed(_) => "Failed to map shared memory: "@,
            ShmError::InvalidData(detail) => "Invalid data read from shared memory: "@ + detail@,
            ShmError::NotAvailable =>
                "Shared memory segment not available, MangoHud may not be running"@,
        }
    }

    /// Whether the message ends with words of the operating system.
    pub open spec fn has_system_detail(self) -> bool {
        self is OpenFailed || self is MmapFailed
    }

    /// The message for a reader.
    pub fn message(&self) -> (s: String)
        ensures
            self.has_system_detail() ==> self.text().is_prefix_of(s@),
            !self.has_system_detail() ==> s@ == self.text(),
    {
        match self {
            ShmError::OpenFailed { name, source } => {
                let mut s: String = join("Failed to open shared memory segment '", name.as_str());
                s.append("': ");
                let ghost head = s@;
                let detail: String = io_error_text(source);
                s.append(detail.as_str());
                assert(head.is_prefix_of(s@)) by {
                    assert(s@.subrange(0, head.len() as int) =~= head);
                }
                s
            },
            ShmError::MmapFailed(source) => {
                let detail: String = io_error_text(source);
                let s: String = join("Failed to map shared memory: ", detail.as_str());
                assert("Failed to map shared memory: "@.is_prefix_of(s@)) by {
                    assert(s@.subrange(0, "Failed to map shared memory: "@.len() as int)
                        =~= "Failed to map shared memory: "@);
                }
                s
            },
            ShmError::InvalidData(detail) => join(
                "Invalid data read from shared memory: ",
                detail.as_str(),
            ),
            ShmError::NotAvailable => String::from_str(
                "Shared memory segment not available, MangoHud may not be running",
            ),
        }
    }
}

impl ProfileError {
    /// The message.
    pub open spec fn text(self) -> Seq<char> {
        match self {
            ProfileError::LoadFailed(detail) => "Failed to load profiles: "@ + detail@,
            ProfileError::SaveFailed(detail) => "Failed to save profiles: "@ + detail@,
            ProfileError::NotFound(app_id) => "Profile not found for app_id: "@ + app_id@,
        }
    }

    /// The message for a reader.
    pub fn message(&self) -> (s: String)
        ensures
            s@ == self.text(),
    {
        match self {
            ProfileError::LoadFailed(detail) => join("Failed to load profiles: ", detail.as_str()),
            ProfileError::SaveFailed(detail) => join("Failed to save profiles: ", detail.as_str()),
            ProfileError::NotFound(app_id) => join(
                "Profile not found for app_id: ",
                app_id.as_str(),
            ),
        }
    }
}

impl DisplayError {
    /// The part of the message that does not come from the operating system: the
    /// whole message, or what stands before the system's own words.
    pub open spec fn text(self) -> Seq<char> {
        match self {
            DisplayError::CommandNotFound => "gamescope-cmd not found in PATH"@,
            DisplayError::CommandFailed { exit_code, stderr } =>
                "gamescope-cmd failed with exit code "@ + exit_code_text(exit_code) + ": "@
                    + stderr@,
            DisplayError::RateOutOfRange { requested, min, max } => "Requested refresh rate "@
                + decimal(requested as nat) + "Hz is outside valid range ["@ + decimal(min as nat)
                + "-"@ + decimal(max as nat) + "Hz]"@,
            DisplayError::ExecutionFailed(_) => "Failed to execute command: "@,
        }
    }

    /// The message for a reader.
    pub fn message(&self) -> (s: String)
        ensures
            self is ExecutionFailed ==> self.text().is_prefix_of(s@),
            !(self is ExecutionFailed) ==> s@ == self.text(),
    {
        match self {
            DisplayError::CommandNotFound => String::from_str("gamescope-cmd not found in PATH"),
            DisplayError::CommandFailed { exit_code, stderr } => {
                let code: String = exit_code_string(*exit_code);
                let mut s: String = join("gamescope-cmd failed with exit code ", code.as_str());
                s.append(": ");
                s.append(stderr.as_str());
                s
            },
            DisplayError::RateOutOfRange { requested, min, max } => {
                let asked: String = decimal_string(*requested as u64);
                let low: String = decimal_string(*min as u64);
                let high: String = decimal_string(*max as u64);
                let mut s: String = join("Requested refresh rate ", asked.as_str());
                s.append("Hz is outside valid range [");
                s.append(low.as_str());
                s.append("-");
                s.append(high.as_str());
                s.append("Hz]");
                s
            },
            DisplayError::ExecutionFailed(source) => {
                let detail: String = io_error_text(source);
                let s: String = join("Failed to execute command: ", detail.as_str());
                assert("Failed to execute command: "@.is_prefix_of(s@)) by {
                    assert(s@.subrange(0, "Failed to execute command: "@.len() as int)
                        =~= "Failed to execute command: "@);
                }
                s
            },
        }
    }
}

impl IpcError {
    /// The part of the message that the error itself fixes: the whole message, or
    /// what stands before the words of the system or of the JSON reader.
    pub open spec fn text(self) -> Seq<char> {
        match self {
            IpcError::SocketBindFailed { path, source } => "Failed to bind socket at '"@ + path@
                + "': "@,
            IpcError::ConnectionDropped => "Client connection dropped unexpectedly"@,
            IpcError::InvalidCommand(detail) => "Invalid command received: "@ + detail@,
            IpcError::SerializationFailed(_) => "Failed to serialize response: "@,
            IpcError::IoError(_) => "IO error: "@,
        }
    }

    /// Whether the message is fixed by the error alone.
    pub open spec fn is_exact(self) -> bool {
        self is ConnectionDropped || self is InvalidCommand
    }

    /// The message for a reader.
    pub fn message(&self) -> (s: String)
        ensures
            self.is_exact() ==> s@ == self.text(),
            !self.is_exact() ==> self.text().is_prefix_of(s@),
    {
        match self {
            IpcError::SocketBindFailed { path, source } => {
                let mut s: String = join("Failed to bind socket at '", path.as_str());
                s.append("': ");
                let ghost head = s@;
                let detail: String = io_error_text(source);
                s.append(detail.as_str());
                assert(head.is_prefix_of(s@)) by {
                    assert(s@.subrange(0, head.len() as int) =~= head);
                }
                s
            },
            IpcError::ConnectionDropped => String::from_str(
                "Client connection dropped unexpectedly",
            ),
            IpcError::InvalidCommand(detail) => join("Invalid command received: ", detail.as_str()),
            IpcError::SerializationFailed(source) => {
                let detail: String = json_error_text(source);
                let s: String = join("Failed to serialize response: ", detail.as_str());
                assert("Failed to serialize response: "@.is_prefix_of(s@)) by {
                    assert(s@.subrange(0, "Failed to serialize response: "@.len() as int)
                        =~= "Failed to serialize response: "@);
                }
                s
            },
            IpcError::IoError(source) => {
                let detail: String = io_error_text(source);
                let s: String = join("IO error: ", detail.as_str());
                assert("IO error: "@.is_prefix_of(s@)) by {
                    assert(s@.subrange(0, "IO error: "@.len() as int) =~= "IO error: "@);
                }
                s
            },
        }
    }
}

impl ConfigError {
    /// The part of the message that does not come from the operating system: the
    /// whole message, or what stands before the system's own words.
    pub open spec fn text(self) -> Seq<char> {
        match self {
            ConfigError::FileNotFound(path) => "Configuration file not found at '"@ + path@
                + "'"@,
            ConfigError::ParseError(detail) => "Failed to parse configuration: "@ + detail@,
            ConfigError::ValidationError(detail) => "Configuration validation failed: "@
                + detail@,
            ConfigError::WriteError(_) => "Failed to write configuration: "@,
        }
    }

    /// The message for a reader.
    pub fn message(&self) -> (s: String)
        ensures
            self is WriteError ==> self.text().is_prefix_of(s@),
            !(self is WriteError) ==> s@ == self.text(),
    {
        match self {
            ConfigError::FileNotFound(path) => {
                let mut s: String = join("Configuration file not found at '", path.as_str());
                s.append("'");
                s
            },
            ConfigError::ParseError(detail) => join(
                "Failed to parse configuration: ",
                detail.as_str(),
            ),
            ConfigError::ValidationError(detail) => join(
                "Configuration validation failed: ",
                detail.as_str(),
            ),
            ConfigError::WriteError(source) => {
                let detail: String = io_error_text(source);
                let s: String = join("Failed to write configuration: ", detail.as_str());
                assert("Failed to write configuration: "@.is_prefix_of(s@)) by {
                    assert(s@.subrange(0, "Failed to write configuration: "@.len() as int)
                        =~= "Failed to write configuration: "@);
                }
                s
            },
        }
    }
}

impl DaemonError {
    /// What stands before the message of the component's own error.
    pub open spec fn heading(self) -> Seq<char> {
        match self {
            DaemonError::Shm(_) => "Shared memory error: "@,
            DaemonError::Display(_) => "Display control error: "@,
            DaemonError::Ipc(_) => "IPC error: "@,
            DaemonError::Config(_) => "Configuration error: "@,
            DaemonError::Runtime(_) => "Runtime error: "@,
        }
    }

    /// The message for a reader: the heading, then the message of the error within.
    pub fn message(&self) -> (s: String)
        ensures
            self.heading().is_prefix_of(s@),
            self matches DaemonError::Runtime(detail) ==> s@ == self.heading() + detail@,
    {
        let s: String = match self {
            DaemonError::Shm(inner) => {
                let detail: String = inner.message();
                join("Shared memory error: ", detail.as_str())
            },
            DaemonError::Display(inner) => {
                let detail: String = inner.message();
                join("Display control error: ", detail.as_str())
            },
            DaemonError::Ipc(inner) => {
                let detail: String = inner.message();
                join("IPC error: ", detail.as_str())
            },
            DaemonError::Config(inner) => {
                let detail: String = inner.message();
                join("Configuration error: ", detail.as_str())
            },
            DaemonError::Runtime(detail) => join("Runtime error: ", detail.as_str()),
        };
        assert(self.heading().is_prefix_of(s@)) by {
            assert(s@.subrange(0, self.heading().len() as int) =~= self.heading());
        }
        s
    }
}

} // verus!

//! What the supervisor's operations report: success messages and error kinds.

use vstd::prelude::*;
use crate::decimal::{dec_chars, push_decimal};

verus! {

/// A successful outcome of a supervisor operation.
#[derive(Debug, Clone, Copy, PartialEq, Eq, Structural)]
pub enum Message {
    /// `start` found a worker already running and left it alone.
    AlreadyRunning,
    /// `start` launched a worker bound to the given port.
    Started(u16),
    /// `stop` terminated the running worker.
    Stopped,
    /// `stop` found no worker to terminate.
    NotRunning,
}

/// Why launching the worker failed.
#[derive(Debug, Clone, PartialEq, Eq)]
pub enum LaunchError {
    /// The worker binary could not be resolved; the detail comes from the launcher.
    Unresolved(String),
    /// The operating system could not create the process.
    Spawn(String),
}

/// The error kinds of the supervisor and of the port allocator.
#[derive(Debug, Clone, PartialEq, Eq)]
pub enum SidecarError {
    /// No unused local port could be found.
    NoPortAvailable,
    /// The worker could not be launched; the supervisor stays stopped.
    Launch(LaunchError),
    /// The termination signal could not be delivered to the worker.
    Stop(String),
    /// A restart stopped the worker but cannot launch it again.
    RestartUnsupported,
}

/// The text of a success message.
pub open spec fn message_text(m: Message) -> Seq<char> {
    match m {
        Message::AlreadyRunning => "API server is already running"@,
        Message::Started(port) => "API server started on port "@ + dec_chars(port as nat),
        Message::Stopped => "API server stopped"@,
        Message::NotRunning => "API server is not running"@,
    }
}

/// The text of a launch error.
pub open spec fn launch_error_text(e: LaunchError) -> Seq<char> {
    match e {
        LaunchError::Unresolved(d) => "Failed to create sidecar command: "@ + d@,
        LaunchError::Spawn(d) => "Failed to spawn API server: "@ + d@,
    }
}

/// The text of an error.
pub open spec fn error_text(e: SidecarError) -> Seq<char> {
    match e {
        SidecarError::NoPortAvailable => "No available port"@,
        SidecarError::Launch(l) => launch_error_text(l),
        SidecarError::Stop(d) => "Failed to stop API server: "@ + d@,
        SidecarError::RestartUnsupported => "Restart requires app handle - use Tauri commands"@,
    }
}

impl Message {
    /// The message as a line of text.
    pub fn text(&self) -> (r: String)
        ensures
            r@ == message_text(*self),
    {
        match self {
            Message::AlreadyRunning => String::from_str("API server is already running"),
            Message::Started(port) => {
                let mut s = String::from_str("API server started on port ");
                push_decimal(&mut s, *port as u64);
                s
            },
            Message::Stopped => String::from_str("API server stopped"),
            Message::NotRunning => String::from_str("API server is not running"),
        }
    }
}

impl LaunchError {
    /// The error as a line of text.
    pub fn text(&self) -> (r: String)
        ensures
            r@ == launch_error_text(*self),
    {
        match self {
            LaunchError::Unresolved(d) => String::from_str("Failed to create sidecar command: ").concat(d.as_str()),
            LaunchError::Spawn(d) => String::from_str("Failed to spawn API server: ").concat(d.as_str()),
        }
    }
}

impl SidecarError {
    /// The error as a line of text.
    pub fn text(&self) -> (r: String)
        ensures
            r@ == error_text(*self),
    {
        match self {
            SidecarError::NoPortAvailable => String::from_str("No available port"),
            SidecarError::Launch(l) => l.text(),
            SidecarError::Stop(d) => String::from_str("Failed to stop API server: ").concat(d.as_str()),
            SidecarError::RestartUnsupported => String::from_str("Restart requires app handle - use Tauri commands"),
        }
    }
}

} // verus!

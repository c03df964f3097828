//! Error types of the library.
//!
//! Every failure carries the underlying description as plain text; each type
//! renders itself as a human-readable message through `message`, which is
//! what the host's error-reporting convention receives.

use vstd::prelude::*;

verus! {

/// Errors from building or installing the application menu.
pub enum MenuError {
    /// A menu item could not be created.
    ItemCreation(String),
    /// The menu itself could not be created.
    Creation(String),
    /// The menu could not be installed on the application.
    SetMenu(String),
}

impl MenuError {
    /// The human-readable description of the error.
    pub open spec fn spec_message(&self) -> Seq<char> {
        match self {
            MenuError::ItemCreation(m) => "Failed to create menu item: "@ + m@,
            MenuError::Creation(m) => "Failed to create menu: "@ + m@,
            MenuError::SetMenu(m) => "Failed to set menu: "@ + m@,
        }
    }

    /// Renders the error for the host's error reporting.
    pub fn message(&self) -> (r: String)
        ensures
            r@ == self.spec_message(),
    {
        match self {
            MenuError::ItemCreation(m) => String::from_str("Failed to create menu item: ").concat(
                m.as_str(),
            ),
            MenuError::Creation(m) => String::from_str("Failed to create menu: ").concat(
                m.as_str(),
            ),
            MenuError::SetMenu(m) => String::from_str("Failed to set menu: ").concat(m.as_str()),
        }
    }
}

/// Errors from handling window events of the host shell.
pub enum WindowError {
    /// A window event could not be handled.
    EventHandling(String),
    /// The window named by an event no longer exists.
    NotFound(String),
}

impl WindowError {
    /// The human-readable description of the error.
    pub open spec fn spec_message(&self) -> Seq<char> {
        match self {
            WindowError::EventHandling(m) => "Failed to handle window event: "@ + m@,
            WindowError::NotFound(m) => "Window not found: "@ + m@,
        }
    }

    /// Renders the error for the host's error reporting.
    pub fn message(&self) -> (r: String)
        ensures
            r@ == self.spec_message(),
    {
        match self {
            WindowError::EventHandling(m) => String::from_str(
                "Failed to handle window event: ",
            ).concat(m.as_str()),
            WindowError::NotFound(m) => String::from_str("Window not found: ").concat(m.as_str()),
        }
    }
}

/// Errors from supervising the recording process.
pub enum FFmpegError {
    /// The recording process could not be started.
    StartProcess(String),
    /// The recording process could not be stopped.
    StopProcess(String),
    /// The recording status could not be read.
    Status(String),
}

impl FFmpegError {
    /// The human-readable description of the error.
    pub open spec fn spec_message(&self) -> Seq<char> {
        match self {
            FFmpegError::StartProcess(m) => "Failed to start FFmpeg process: "@ + m@,
            FFmpegError::StopProcess(m) => "Failed to stop FFmpeg process: "@ + m@,
            FFmpegError::Status(m) => "Failed to get FFmpeg status: "@ + m@,
        }
    }

    /// Renders the error for the host's error reporting.
    pub fn message(&self) -> (r: String)
        ensures
            r@ == self.spec_message(),
    {
        match self {
            FFmpegError::StartProcess(m) => String::from_str(
                "Failed to start FFmpeg process: ",
            ).concat(m.as_str()),
            FFmpegError::StopProcess(m) => String::from_str(
                "Failed to stop FFmpeg process: ",
            ).concat(m.as_str()),
            FFmpegError::Status(m) => String::from_str("Failed to get FFmpeg status: ").concat(
                m.as_str(),
            ),
        }
    }
}

} // verus!

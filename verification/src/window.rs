//! Window and exit policy of the host shell.
//!
//! The host keeps running in the tray when its windows close: a close request
//! is intercepted and the window hidden instead of destroyed, and an exit
//! request keeps the process alive unless an explicit exit code was set. The
//! decisions live here; the host's event loop performs them (preventing the
//! exit, hiding the window) and reports a vanished window back as the event's
//! distinct, non-fatal error.

use crate::errors::WindowError;
use vstd::prelude::*;

verus! {

/// A host-loop event the window policy decides on.
pub enum HostEvent {
    /// The shell asked to end the event loop; `exit_code_set` says whether an
    /// explicit exit was requested (rather than the last window closing).
    ExitRequested { exit_code_set: bool },
    /// The window called `label` was asked to close; `window_found` says
    /// whether the shell can still reach it.
    CloseRequested { label: String, window_found: bool },
    /// Any other event.
    Other,
}

/// What the host must do in response to an event.
#[derive(Clone, Copy, PartialEq, Eq, Structural, Debug)]
pub enum WindowAction {
    /// Keep the event loop alive so tray interaction goes on windowless.
    PreventExit,
    /// Cancel the close and hide the window instead of destroying it.
    PreventCloseAndHide,
    /// Let the event pass through untouched.
    Ignore,
}

/// Decides how the host handles a window event: an implicit exit (no code
/// set) is prevented, an explicit one goes through; a close request hides the
/// window instead, and names the window in an error if it vanished.
pub fn handle_window_events(event: &HostEvent) -> (r: Result<WindowAction, WindowError>)
    ensures
        event matches HostEvent::ExitRequested { exit_code_set } ==> r == (if *exit_code_set {
            Ok::<WindowAction, WindowError>(WindowAction::Ignore)
        } else {
            Ok::<WindowAction, WindowError>(WindowAction::PreventExit)
        }),
        event matches HostEvent::CloseRequested { window_found: true, .. } ==> r == Ok::<
            WindowAction,
            WindowError,
        >(WindowAction::PreventCloseAndHide),
        event matches HostEvent::CloseRequested { ref label, window_found: false } ==> (r matches
            Err(e) && e matches WindowError::NotFound(l) && l@ == label@),
        event is Other ==> r == Ok::<WindowAction, WindowError>(WindowAction::Ignore),
{
    match event {
        HostEvent::ExitRequested { exit_code_set } => {
            if *exit_code_set {
                Ok(WindowAction::Ignore)
            } else {
                Ok(WindowAction::PreventExit)
            }
        },
        HostEvent::CloseRequested { label, window_found } => {
            if *window_found {
                Ok(WindowAction::PreventCloseAndHide)
            } else {
                Err(WindowError::NotFound(label.clone()))
            }
        },
        HostEvent::Other => Ok(WindowAction::Ignore),
    }
}

} // verus!

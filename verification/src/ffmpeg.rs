//! The single-slot supervisor for the external recording process.
//!
//! [`FFmpegManager`] holds at most one live recording process — "the slot" —
//! and guarantees that starting is a no-op while a recording is active, that
//! status is a plain read of the slot, and that stopping always leaves the
//! slot empty, whatever the operating system answers. The supervisor is
//! generic over the [`Process`] capability: a host application plugs in a
//! real OS-backed process, tests substitute a double. Exclusive access
//! (`&mut self`, behind the host's lock) serializes every check-then-act
//! sequence, so no two concurrent callers can both see an empty slot.

use crate::command::{build_command, spec_capture_args, CaptureCommand, Platform};
use crate::filename::{recording_filename, spec_recording_filename};
use vstd::prelude::*;

verus! {

/// One external process: the capability to launch it and to terminate it.
///
/// The host application implements it with a real child process (launching
/// the capture command, terminating gracefully then forcefully as
/// [`crate::termination`] decides); tests substitute a double. Nothing is
/// promised of either operation — the operating system decides both — so the
/// supervisor's own guarantees hold for every implementation.
pub trait Process: Sized {
    /// Launches the external process described by `command`, or reports the
    /// underlying failure (executable missing, spawn rejected) as plain text.
    fn launch(command: &CaptureCommand) -> (r: Result<Self, String>);

    /// Terminates the process: cooperatively first, unconditionally after
    /// the grace period, succeeding at once if it already exited.
    fn kill(&mut self) -> (r: Result<(), String>);
}

/// The supervisor capability: spawn, status and kill over a single slot.
///
/// The contracts pin the two-state machine down: Idle (no process, `running`
/// false) and Recording (`running` true). Spawning while Recording is an
/// already-satisfied no-op, not an error; killing while Idle is an idempotent
/// success — the one policy this crate commits to; and a kill never leaves
/// the slot occupied, since a supervisor must not keep believing in a process
/// it cannot control.
pub trait ProcessManager: Sized {
    /// Whether the slot is occupied: occupancy is what the supervisor
    /// reports as "recording", even if the child died silently — the
    /// staleness window is accepted and corrected by the next kill.
    spec fn running(&self) -> bool;

    /// Starts a recording, writing to `output_filename` or to a generated
    /// timestamp-based file name, unless one is already active.
    fn spawn_process(&mut self, output_filename: Option<String>) -> (r: Result<(), String>)
        ensures
            old(self).running() ==> r is Ok && *final(self) == *old(self),
            !old(self).running() ==> (r is Ok <==> final(self).running()),
    ;

    /// Reports whether a recording is in progress: a non-blocking read of
    /// the slot, no OS-level liveness poll.
    fn is_process_running(&self) -> (r: bool)
        ensures
            r == self.running(),
    ;

    /// Stops the recording. Always leaves the slot empty and always
    /// succeeds: stopping an idle supervisor is an already-satisfied no-op,
    /// and a refused termination still clears the slot.
    fn kill_process(&mut self) -> (r: Result<(), String>)
        ensures
            r is Ok,
            !final(self).running(),
    ;
}

/// The single-slot supervisor of one FFmpeg recording process.
pub struct FFmpegManager<P: Process> {
    platform: Platform,
    process: Option<P>,
    launches: Ghost<nat>,
    last_launch: Ghost<Option<CaptureCommand>>,
}

impl<P: Process> FFmpegManager<P> {
    /// The platform whose capture backend spawned commands use.
    pub closed spec fn spec_platform(&self) -> Platform {
        self.platform
    }

    /// Ghost bookkeeping for the at-most-one guarantee: how many times this
    /// supervisor has handed a launch to the operating system.
    pub closed spec fn spec_launches(&self) -> nat {
        self.launches@
    }

    /// Ghost record of the command handed to the most recent launch.
    pub closed spec fn spec_last_launch(&self) -> Option<CaptureCommand> {
        self.last_launch@
    }

    /// A fresh supervisor for `platform`. It starts Idle: it reports
    /// not-running, and a stop request is a documented no-op success.
    pub fn new(platform: Platform) -> (m: Self)
        ensures
            !m.running(),
            m.spec_platform() == platform,
            m.spec_launches() == 0,
    {
        FFmpegManager { platform, process: None, launches: Ghost(0), last_launch: Ghost(None) }
    }

    /// A timestamp-based file name for a recording started now: the fixed
    /// prefix, the current whole seconds since the Unix epoch, and the fixed
    /// container extension.
    pub fn generate_filename() -> (r: String)
        ensures
            exists|ts: u64| r@ == spec_recording_filename(ts),
    {
        let ts = now_unix_secs();
        let r = recording_filename(ts);
        proof {
            assert(r@ == spec_recording_filename(ts));
        }
        r
    }
}

impl<P: Process> ProcessManager for FFmpegManager<P> {
    /// The slot holds a handle exactly when a recording is considered active.
    closed spec fn running(&self) -> bool {
        self.process is Some
    }

    // Beyond the trait's promise. At-most-one: a spawn while Recording hands
    // no launch to the operating system at all, and a spawn while Idle hands
    // it exactly one, whether or not that launch succeeds. And that one
    // launch runs exactly the platform's capture command, writing to the
    // given path or to a generated timestamp-based file name.
    fn spawn_process(&mut self, output_filename: Option<String>) -> (r: Result<(), String>)
        ensures
            final(self).spec_platform() == old(self).spec_platform(),
            old(self).running() ==> final(self).spec_launches() == old(self).spec_launches(),
            !old(self).running() ==> final(self).spec_launches() == old(self).spec_launches()
                + 1,
            !old(self).running() ==> (final(self).spec_last_launch() matches Some(c) && {
                &&& c.program@ == "ffmpeg"@
                &&& (output_filename matches Some(f) ==> c.args.deep_view()
                    == spec_capture_args(old(self).spec_platform(), f@))
                &&& (output_filename is None ==> exists|ts: u64|
                    c.args.deep_view() == spec_capture_args(
                        old(self).spec_platform(),
                        spec_recording_filename(ts),
                    ))
            }),
    {
        if self.process.is_some() {
            // Already recording: starting is already satisfied, not a conflict.
            return Ok(());
        }
        let ghost requested = output_filename;
        let filename: String = match output_filename {
            Some(f) => f,
            None => Self::generate_filename(),
        };
        proof {
            if requested is None {
                assert(exists|ts: u64| filename@ == spec_recording_filename(ts));
            }
        }
        let command = build_command(self.platform, filename.as_str());
        self.launches = Ghost(self.launches@ + 1);
        self.last_launch = Ghost(Some(command));
        match P::launch(&command) {
            Ok(p) => {
                self.process = Some(p);
                Ok(())
            },
            Err(e) => Err(e),
        }
    }

    fn is_process_running(&self) -> (r: bool) {
        self.process.is_some()
    }

    // Stopping never launches anything and keeps the platform.
    fn kill_process(&mut self) -> (r: Result<(), String>)
        ensures
            final(self).spec_platform() == old(self).spec_platform(),
            final(self).spec_launches() == old(self).spec_launches(),
            final(self).spec_last_launch() == old(self).spec_last_launch(),
    {
        let mut slot: Option<P> = None;
        core::mem::swap(&mut self.process, &mut slot);
        match slot {
            Some(mut p) => {
                // The slot is already cleared: a refused termination must not
                // leave the supervisor believing in a process it cannot
                // control, so the kill's result is deliberately dropped.
                let _ = p.kill();
                Ok(())
            },
            // Nothing to stop: already satisfied, reported as success.
            None => Ok(()),
        }
    }
}

/// Relies on `std::time::SystemTime::now` and `duration_since(UNIX_EPOCH)`:
/// the current wall-clock time as whole seconds since the Unix epoch (zero if
/// the clock reads before the epoch). The result depends on the clock, so
/// nothing is promised of it.
#[verifier::external_body]
fn now_unix_secs() -> u64 {
    std::time::SystemTime::now()
        .duration_since(std::time::UNIX_EPOCH)
        .unwrap_or_default()
        .as_secs()
}

} // verus!

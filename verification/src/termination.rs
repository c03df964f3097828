//! Graceful-then-forceful termination of one external process.
//!
//! Terminating a recording process is a short protocol: poll whether the
//! process already exited (termination is idempotent, never a double-kill);
//! if not, send a cooperative termination request and wait a fixed grace
//! period; poll again, and only then kill unconditionally. The decisions of
//! that protocol live here; the host drives them against the real operating
//! system (polling, signalling, sleeping) and feeds each poll result back in.

use vstd::prelude::*;

verus! {

/// The grace period, in milliseconds, between the cooperative termination
/// request and the unconditional kill.
pub const GRACE_PERIOD_MS: u64 = 500;

/// Where a termination run stands.
#[derive(Clone, Copy, PartialEq, Eq, Structural, Debug)]
pub enum TermPhase {
    /// Before the first liveness poll: nothing has been sent yet.
    Initial,
    /// The cooperative request was sent and the grace period has elapsed.
    Graced,
}

/// What the driver must do next.
#[derive(Clone, Copy, PartialEq, Eq, Structural, Debug)]
pub enum TermAction {
    /// The process has exited on its own; the run is over and succeeds.
    Finish,
    /// Send the cooperative termination request, wait the grace period, and
    /// poll again in phase [`TermPhase::Graced`].
    GracefulWait,
    /// The process survived the grace period: kill it unconditionally.
    ForceKill,
}

/// The decision taken in `phase` when a poll reports `exited`.
pub open spec fn spec_termination_step(phase: TermPhase, exited: bool) -> TermAction {
    if exited {
        TermAction::Finish
    } else if phase is Initial {
        TermAction::GracefulWait
    } else {
        TermAction::ForceKill
    }
}

/// Decides the next step of a termination run: an exited process is left
/// alone, a live one is first asked to stop, and only one that ignored the
/// request is killed outright.
pub fn termination_step(phase: TermPhase, exited: bool) -> (action: TermAction)
    ensures
        action == spec_termination_step(phase, exited),
{
    if exited {
        TermAction::Finish
    } else {
        match phase {
            TermPhase::Initial => TermAction::GracefulWait,
            TermPhase::Graced => TermAction::ForceKill,
        }
    }
}

/// The message reported when the unconditional kill itself fails.
pub open spec fn spec_force_kill_error(os_error: Seq<char>) -> Seq<char> {
    "Failed to stop process: "@ + os_error
}

/// Folds the operating system's answer to the unconditional kill into the
/// result of the whole termination run: success stands, and a refusal is
/// reported with the underlying description. Failures of the earlier
/// cooperative request never reach this point — they are best-effort and
/// swallowed by the driver.
pub fn force_outcome(kill_result: Result<(), String>) -> (r: Result<(), String>)
    ensures
        kill_result is Ok ==> r is Ok,
        kill_result matches Err(e) ==> r matches Err(m) && m@ == spec_force_kill_error(e@),
{
    match kill_result {
        Ok(()) => Ok(()),
        Err(e) => {
            let m = String::from_str("Failed to stop process: ").concat(e.as_str());
            Err(m)
        },
    }
}

/// Forceful-termination fallback: a termination run polls at most twice,
/// so it is over within one grace period plus the kill latency. A process
/// seen exited finishes the run at once; one that ignores the cooperative
/// request — still running at both polls — is force-killed right after the
/// single grace period.
pub proof fn lemma_forceful_fallback(first_exited: bool, second_exited: bool)
    ensures
        first_exited ==> spec_termination_step(TermPhase::Initial, first_exited)
            == TermAction::Finish,
        !first_exited ==> spec_termination_step(TermPhase::Initial, first_exited)
            == TermAction::GracefulWait,
        !first_exited && second_exited ==> spec_termination_step(TermPhase::Graced, second_exited)
            == TermAction::Finish,
        !first_exited && !second_exited ==> spec_termination_step(TermPhase::Graced, second_exited)
            == TermAction::ForceKill,
{
}

} // verus!

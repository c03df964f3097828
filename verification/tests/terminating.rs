use screen_recorder::termination::{
    force_outcome, termination_step, TermAction, TermPhase, GRACE_PERIOD_MS,
};

// A simulated process that ignores the cooperative termination request and
// exits only when killed unconditionally.
struct StubbornProcess {
    alive: bool,
    graceful_requests: u32,
    force_kills: u32,
}

impl StubbornProcess {
    fn new() -> Self {
        StubbornProcess {
            alive: true,
            graceful_requests: 0,
            force_kills: 0,
        }
    }

    fn poll_exited(&self) -> bool {
        !self.alive
    }

    fn send_graceful(&mut self) {
        self.graceful_requests += 1;
        // Ignored: the process stays alive.
    }

    fn force_kill(&mut self) -> Result<(), String> {
        self.force_kills += 1;
        self.alive = false;
        Ok(())
    }
}

#[test]
fn grace_period_is_half_a_second() {
    assert_eq!(GRACE_PERIOD_MS, 500);
}

#[test]
fn exited_process_finishes_immediately() {
    assert_eq!(termination_step(TermPhase::Initial, true), TermAction::Finish);
    assert_eq!(termination_step(TermPhase::Graced, true), TermAction::Finish);
}

#[test]
fn live_process_is_asked_first() {
    assert_eq!(
        termination_step(TermPhase::Initial, false),
        TermAction::GracefulWait
    );
}

#[test]
fn surviving_process_is_force_killed() {
    assert_eq!(
        termination_step(TermPhase::Graced, false),
        TermAction::ForceKill
    );
}

#[test]
fn force_outcome_keeps_success() {
    assert_eq!(force_outcome(Ok(())), Ok(()));
}

#[test]
fn force_outcome_reports_os_failure() {
    let r = force_outcome(Err("Operation not permitted".to_string()));
    assert_eq!(
        r,
        Err("Failed to stop process: Operation not permitted".to_string())
    );
}

#[test]
fn forceful_fallback_within_two_polls() {
    // Drive a full termination run against a process that ignores the
    // cooperative request: it must end in success after a single grace
    // period, with exactly one graceful attempt and one unconditional kill.
    let mut process = StubbornProcess::new();
    let mut phase = TermPhase::Initial;
    let mut polls = 0;
    let result = loop {
        polls += 1;
        match termination_step(phase, process.poll_exited()) {
            TermAction::Finish => break Ok(()),
            TermAction::GracefulWait => {
                process.send_graceful();
                // The driver would sleep GRACE_PERIOD_MS here.
                phase = TermPhase::Graced;
            }
            TermAction::ForceKill => break force_outcome(process.force_kill()),
        }
    };
    assert_eq!(result, Ok(()));
    assert!(!process.alive);
    assert_eq!(polls, 2);
    assert_eq!(process.graceful_requests, 1);
    assert_eq!(process.force_kills, 1);
}

#[test]
fn already_exited_process_is_never_signalled() {
    let mut process = StubbornProcess::new();
    process.alive = false;
    let mut phase = TermPhase::Initial;
    let result = loop {
        match termination_step(phase, process.poll_exited()) {
            TermAction::Finish => break Ok(()),
            TermAction::GracefulWait => {
                process.send_graceful();
                phase = TermPhase::Graced;
            }
            TermAction::ForceKill => break force_outcome(process.force_kill()),
        }
    };
    assert_eq!(result, Ok::<(), String>(()));
    assert_eq!(process.graceful_requests, 0);
    assert_eq!(process.force_kills, 0);
}

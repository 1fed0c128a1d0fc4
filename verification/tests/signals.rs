use nix::sys::signal::{kill, killpg, Signal as OsSignal};
use nix::unistd::{getpgid, Pid};
use oom_guard::killer::signals::{Signal, Stage};
use oom_guard::killer::{KillAction, KillEvent, KillInfo, KillOperation, KillResult, KillStrategy};

#[test]
fn test_kill_strategy_equality() {
    assert_eq!(KillStrategy::Graceful, KillStrategy::Graceful);
    assert_eq!(KillStrategy::Forceful, KillStrategy::Forceful);
    assert_ne!(KillStrategy::Graceful, KillStrategy::Forceful);
}

#[test]
fn test_kill_result_is_success() {
    assert!(KillResult::Success.is_success());
    assert!(KillResult::AlreadyDead.is_success());
    assert!(!KillResult::PermissionDenied.is_success());
    assert!(!KillResult::NotFound.is_success());
}

#[test]
fn test_kill_result_description() {
    assert_eq!(KillResult::Success.description(), "successfully terminated");
    assert_eq!(KillResult::AlreadyDead.description(), "already dead");
    assert_eq!(
        KillResult::PermissionDenied.description(),
        "permission denied"
    );
    assert_eq!(KillResult::NotFound.description(), "not found");
}

fn os_signal(signal: Signal) -> OsSignal {
    match signal {
        Signal::Term => OsSignal::SIGTERM,
        Signal::Kill => OsSignal::SIGKILL,
    }
}

fn sent(outcome: Result<(), nix::errno::Errno>, to_group: bool) -> KillEvent {
    KillEvent::Sent(match outcome {
        Ok(()) => KillResult::delivered(),
        Err(e) => KillResult::from_delivery_error(e as i32, &format!("{e}"), to_group),
    })
}

/// Carries a kill out against the running system, without the waits.
fn kill_process(pid: i32, strategy: KillStrategy, kill_group: bool) -> KillResult {
    let (mut op, mut action) = KillOperation::start(pid, strategy, kill_group);
    loop {
        let event = match action {
            KillAction::OpenPidfd { .. } => KillEvent::PidfdOpened(None),
            KillAction::Probe { pid, .. } => {
                KillEvent::Probed(kill(Pid::from_raw(pid), None).is_ok())
            }
            KillAction::ResolveGroup { pid } => {
                KillEvent::GroupResolved(getpgid(Some(Pid::from_raw(pid))).ok().map(|g| g.as_raw()))
            }
            KillAction::SignalProcess { pid, signal } => {
                sent(kill(Pid::from_raw(pid), os_signal(signal)), false)
            }
            KillAction::SignalGroup { pgid, signal } => {
                sent(killpg(Pid::from_raw(pgid), os_signal(signal)), true)
            }
            KillAction::Finish { result, .. } => return result,
        };
        action = op.step(event);
    }
}

#[test]
fn test_kill_nonexistent_process() {
    let kill_result = kill_process(999999, KillStrategy::Forceful, false);
    assert!(matches!(
        kill_result,
        KillResult::NotFound | KillResult::AlreadyDead
    ));
}

#[test]
fn error_description_is_its_message() {
    assert_eq!(KillResult::Error("boom".to_string()).description(), "boom");
    assert!(!KillResult::Error("boom".to_string()).is_success());
}

#[test]
fn delivery_errors_are_mapped() {
    assert!(matches!(KillResult::delivered(), KillResult::Success));
    assert!(matches!(
        KillResult::from_delivery_error(3, "ESRCH: No such process", false),
        KillResult::NotFound
    ));
    assert!(matches!(
        KillResult::from_delivery_error(1, "EPERM: Operation not permitted", true),
        KillResult::PermissionDenied
    ));
    assert_eq!(
        KillResult::from_delivery_error(22, "EINVAL: Invalid argument", false).description(),
        "signal error: EINVAL: Invalid argument"
    );
    assert_eq!(
        KillResult::from_delivery_error(22, "EINVAL: Invalid argument", true).description(),
        "killpg error: EINVAL: Invalid argument"
    );
}

#[test]
fn delivery_error_numbers_are_those_of_the_system() {
    assert_eq!(nix::errno::Errno::ESRCH as i32, oom_guard::killer::signals::ESRCH);
    assert_eq!(nix::errno::Errno::EPERM as i32, oom_guard::killer::signals::EPERM);
}

fn probe(action: &KillAction) -> (i32, u64) {
    match action {
        KillAction::Probe { pid, delay_millis } => (*pid, *delay_millis),
        other => panic!("expected a probe, got {other:?}"),
    }
}

fn finish(action: KillAction) -> (KillResult, Option<i32>, bool) {
    match action {
        KillAction::Finish { result, pidfd, release_memory } => (result, pidfd, release_memory),
        other => panic!("expected the end, got {other:?}"),
    }
}

#[test]
fn kill_starts_by_opening_a_handle_then_probes() {
    let (mut op, action) = KillOperation::start(42, KillStrategy::Graceful, false);
    assert!(matches!(action, KillAction::OpenPidfd { pid: 42 }));
    assert_eq!(op.stage, Stage::Opening);
    let action = op.step(KillEvent::PidfdOpened(Some(7)));
    assert_eq!(probe(&action), (42, 0));
    assert_eq!(op.pidfd, Some(7));
}

#[test]
fn dead_target_is_already_dead_and_nothing_is_released() {
    let (mut op, _) = KillOperation::start(42, KillStrategy::Graceful, false);
    op.step(KillEvent::PidfdOpened(Some(7)));
    let (result, pidfd, release) = finish(op.step(KillEvent::Probed(false)));
    assert!(matches!(result, KillResult::AlreadyDead));
    assert_eq!(pidfd, Some(7));
    assert!(!release);
    assert!(op.is_done());
}

#[test]
fn graceful_kill_that_works_polls_every_100_ms() {
    let (mut op, _) = KillOperation::start(42, KillStrategy::Graceful, false);
    op.step(KillEvent::PidfdOpened(Some(7)));
    let action = op.step(KillEvent::Probed(true));
    assert!(matches!(
        action,
        KillAction::SignalProcess { pid: 42, signal: Signal::Term }
    ));
    let action = op.step(KillEvent::Sent(KillResult::Success));
    assert_eq!(probe(&action), (42, 100));
    let action = op.step(KillEvent::Probed(true));
    assert_eq!(probe(&action), (42, 100));
    let (result, pidfd, release) = finish(op.step(KillEvent::Probed(false)));
    assert!(matches!(result, KillResult::Success));
    assert_eq!(pidfd, Some(7));
    assert!(release);
}

#[test]
fn graceful_kill_escalates_after_ten_probes() {
    let (mut op, _) = KillOperation::start(42, KillStrategy::Graceful, false);
    op.step(KillEvent::PidfdOpened(None));
    op.step(KillEvent::Probed(true));
    let mut action = op.step(KillEvent::Sent(KillResult::Success));
    let mut probes = 0;
    while let KillAction::Probe { delay_millis, .. } = action {
        assert_eq!(delay_millis, 100);
        probes += 1;
        action = op.step(KillEvent::Probed(true));
    }
    assert_eq!(probes, 10);
    assert!(matches!(
        action,
        KillAction::SignalProcess { pid: 42, signal: Signal::Kill }
    ));
    let mut action = op.step(KillEvent::Sent(KillResult::Success));
    let mut probes = 0;
    while let KillAction::Probe { delay_millis, .. } = action {
        probes += 1;
        if probes <= 5 {
            assert_eq!(delay_millis, 50);
        } else {
            assert_eq!(delay_millis, 0);
        }
        action = op.step(KillEvent::Probed(true));
    }
    assert_eq!(probes, 6);
    let (result, pidfd, release) = finish(action);
    assert_eq!(result.description(), "process survived SIGKILL");
    assert!(!result.is_success());
    assert_eq!(pidfd, None);
    assert!(!release);
}

#[test]
fn forceful_kill_sends_the_kill_signal_at_once() {
    let (mut op, _) = KillOperation::start(42, KillStrategy::Forceful, false);
    op.step(KillEvent::PidfdOpened(None));
    let action = op.step(KillEvent::Probed(true));
    assert!(matches!(
        action,
        KillAction::SignalProcess { pid: 42, signal: Signal::Kill }
    ));
    let action = op.step(KillEvent::Sent(KillResult::Success));
    assert_eq!(probe(&action), (42, 50));
    let (result, _, release) = finish(op.step(KillEvent::Probed(false)));
    assert!(matches!(result, KillResult::Success));
    assert!(!release);
}

#[test]
fn forceful_kill_succeeds_on_the_last_check() {
    let (mut op, _) = KillOperation::start(42, KillStrategy::Forceful, false);
    op.step(KillEvent::PidfdOpened(None));
    op.step(KillEvent::Probed(true));
    op.step(KillEvent::Sent(KillResult::Success));
    for _ in 0..4 {
        let action = op.step(KillEvent::Probed(true));
        assert_eq!(probe(&action), (42, 50));
    }
    let action = op.step(KillEvent::Probed(true));
    assert_eq!(probe(&action), (42, 0));
    assert_eq!(op.stage, Stage::FinalCheck);
    let (result, _, _) = finish(op.step(KillEvent::Probed(false)));
    assert!(matches!(result, KillResult::Success));
}

#[test]
fn failed_delivery_ends_the_kill_with_the_failure() {
    let (mut op, _) = KillOperation::start(42, KillStrategy::Graceful, false);
    op.step(KillEvent::PidfdOpened(Some(3)));
    op.step(KillEvent::Probed(true));
    let (result, pidfd, release) = finish(op.step(KillEvent::Sent(KillResult::PermissionDenied)));
    assert!(matches!(result, KillResult::PermissionDenied));
    assert_eq!(pidfd, Some(3));
    assert!(!release);

    let (mut op, _) = KillOperation::start(42, KillStrategy::Forceful, false);
    op.step(KillEvent::PidfdOpened(None));
    op.step(KillEvent::Probed(true));
    let (result, _, _) = finish(op.step(KillEvent::Sent(KillResult::NotFound)));
    assert!(matches!(result, KillResult::NotFound));
}

#[test]
fn group_mode_resolves_the_group_first() {
    let (mut op, _) = KillOperation::start(42, KillStrategy::Graceful, true);
    op.step(KillEvent::PidfdOpened(None));
    let action = op.step(KillEvent::Probed(true));
    assert!(matches!(action, KillAction::ResolveGroup { pid: 42 }));
    let action = op.step(KillEvent::GroupResolved(Some(40)));
    assert!(matches!(
        action,
        KillAction::SignalGroup { pgid: 40, signal: Signal::Term }
    ));
}

#[test]
fn group_mode_falls_back_to_the_process() {
    let (mut op, _) = KillOperation::start(42, KillStrategy::Forceful, true);
    op.step(KillEvent::PidfdOpened(None));
    op.step(KillEvent::Probed(true));
    let action = op.step(KillEvent::GroupResolved(None));
    assert!(matches!(
        action,
        KillAction::SignalProcess { pid: 42, signal: Signal::Kill }
    ));
}

#[test]
fn event_out_of_turn_ends_the_kill_with_an_error() {
    let (mut op, _) = KillOperation::start(42, KillStrategy::Forceful, false);
    let (result, _, _) = finish(op.step(KillEvent::Probed(true)));
    assert_eq!(result.description(), "unexpected event");
    assert!(op.is_done());
    let (result, _, _) = finish(op.step(KillEvent::PidfdOpened(None)));
    assert_eq!(result.description(), "unexpected event");
}

#[test]
fn kill_info_keeps_the_outcome_in_words() {
    let info = KillInfo::new(
        7,
        "victim".to_string(),
        "/usr/bin/victim --flag".to_string(),
        1000,
        2048,
        300,
        KillStrategy::Graceful,
        &KillResult::Success,
    );
    assert_eq!(info.pid, 7);
    assert_eq!(info.name, "victim");
    assert_eq!(info.cmdline, "/usr/bin/victim --flag");
    assert_eq!(info.uid, 1000);
    assert_eq!(info.rss_kb, 2048);
    assert_eq!(info.oom_score, 300);
    assert_eq!(info.strategy, KillStrategy::Graceful);
    assert_eq!(info.result, "successfully terminated");
    let failed = KillInfo::new(
        7,
        String::new(),
        String::new(),
        0,
        0,
        0,
        KillStrategy::Forceful,
        &KillResult::Error("no".to_string()),
    );
    assert_eq!(failed.result, "no");
}

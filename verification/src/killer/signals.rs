//! Termination: the outcome of a kill, the mapping of delivery errors, and
//! the step-by-step policy that decides which signal or probe comes next.

use vstd::prelude::*;
use vstd::string::StringExecFns;
use crate::text::owned;

verus! {

/// How a victim is asked to go.
#[derive(Debug, Clone, Copy, PartialEq, Eq, Structural)]
pub enum KillStrategy {
    /// The catchable termination signal first, the uncatchable one if the
    /// process outlives the grace period.
    Graceful,
    /// The uncatchable kill signal at once.
    Forceful,
}

/// How a kill ended.
#[derive(Debug, Clone)]
pub enum KillResult {
    /// The process is gone after the signal.
    Success,
    /// The process was gone before any signal was sent.
    AlreadyDead,
    /// The kernel refused the signal.
    PermissionDenied,
    /// The process vanished before the signal reached it.
    NotFound,
    /// Anything else, with a description.
    Error(String),
}

/// A kill outcome as a plain value.
pub enum KillResultView {
    Success,
    AlreadyDead,
    PermissionDenied,
    NotFound,
    Error(Seq<char>),
}

impl View for KillResult {
    type V = KillResultView;

    open spec fn view(&self) -> KillResultView {
        match *self {
            KillResult::Success => KillResultView::Success,
            KillResult::AlreadyDead => KillResultView::AlreadyDead,
            KillResult::PermissionDenied => KillResultView::PermissionDenied,
            KillResult::NotFound => KillResultView::NotFound,
            KillResult::Error(msg) => KillResultView::Error(msg@),
        }
    }
}

impl KillResultView {
    /// `Success` and `AlreadyDead` both count as a completed kill.
    pub open spec fn is_success(self) -> bool {
        self is Success || self is AlreadyDead
    }

    /// The words that describe the outcome.
    pub open spec fn description(self) -> Seq<char> {
        match self {
            KillResultView::Success => "successfully terminated"@,
            KillResultView::AlreadyDead => "already dead"@,
            KillResultView::PermissionDenied => "permission denied"@,
            KillResultView::NotFound => "not found"@,
            KillResultView::Error(msg) => msg,
        }
    }
}

/// The error number for "no such process".
pub const ESRCH: i32 = 3;

/// The error number for "operation not permitted".
pub const EPERM: i32 = 1;

/// What a failed signal delivery means: "no such process" is `NotFound`,
/// "operation not permitted" is `PermissionDenied`, and any other error is
/// `Error` with the system's description behind `signal error: `, or behind
/// `killpg error: ` where a process group was signalled.
pub open spec fn spec_delivery_error(errno: i32, detail: Seq<char>, to_group: bool) -> KillResultView {
    if errno == ESRCH {
        KillResultView::NotFound
    } else if errno == EPERM {
        KillResultView::PermissionDenied
    } else if to_group {
        KillResultView::Error("killpg error: "@ + detail)
    } else {
        KillResultView::Error("signal error: "@ + detail)
    }
}

impl KillResult {
    /// Whether the kill counts as completed: `Success` or `AlreadyDead`.
    pub fn is_success(&self) -> (b: bool)
        ensures
            b == self@.is_success(),
    {
        match self {
            KillResult::Success => true,
            KillResult::AlreadyDead => true,
            _ => false,
        }
    }

    /// The words that describe the outcome; for `Error`, its message.
    pub fn description(&self) -> (d: &str)
        ensures
            d@ == self@.description(),
    {
        match self {
            KillResult::Success => "successfully terminated",
            KillResult::AlreadyDead => "already dead",
            KillResult::PermissionDenied => "permission denied",
            KillResult::NotFound => "not found",
            KillResult::Error(msg) => msg.as_str(),
        }
    }

    /// The outcome of a signal delivery that the kernel accepted.
    pub fn delivered() -> (r: KillResult)
        ensures
            r@ == KillResultView::Success,
    {
        KillResult::Success
    }

    /// The outcome of a signal delivery that failed with error number
    /// `errno`, described by the system as `detail`; `to_group` tells
    /// whether a process group was signalled.
    pub fn from_delivery_error(errno: i32, detail: &str, to_group: bool) -> (r: KillResult)
        ensures
            r@ == spec_delivery_error(errno, detail@, to_group),
    {
        if errno == ESRCH {
            KillResult::NotFound
        } else if errno == EPERM {
            KillResult::PermissionDenied
        } else {
            let mut msg = if to_group {
                owned("killpg error: ")
            } else {
                owned("signal error: ")
            };
            msg.append(detail);
            KillResult::Error(msg)
        }
    }
}

/// The two signals that the terminator sends.
#[derive(Debug, Clone, Copy, PartialEq, Eq, Structural)]
pub enum Signal {
    /// The catchable termination signal, `SIGTERM`.
    Term,
    /// The uncatchable kill signal, `SIGKILL`.
    Kill,
}

/// Where a kill stands: what the terminator waits to hear.
#[derive(Debug, Clone, Copy, PartialEq, Eq, Structural)]
pub enum Stage {
    /// Whether a process handle could be opened.
    Opening,
    /// Whether the target is alive at all.
    Checking,
    /// The target's process group, before the signal is sent.
    Resolving(Signal),
    /// How the delivery of the signal went.
    Sending(Signal),
    /// Whether the target is still alive, after the given number of
    /// earlier probes since the signal.
    Polling(Signal, u32),
    /// Whether the target is alive after the kill signal's poll budget.
    FinalCheck,
    /// Nothing: the kill has ended.
    Done,
}

/// What the caller is asked to do next.
#[derive(Debug, Clone)]
pub enum KillAction {
    /// Try to open a process handle for `pid` and report it.
    OpenPidfd { pid: i32 },
    /// Wait `delay_millis`, then probe `pid` with the null signal and
    /// report whether it is alive.
    Probe { pid: i32, delay_millis: u64 },
    /// Look up the process group of `pid` and report it.
    ResolveGroup { pid: i32 },
    /// Send `signal` to the process `pid` and report the outcome.
    SignalProcess { pid: i32, signal: Signal },
    /// Send `signal` to the process group `pgid` and report the outcome.
    SignalGroup { pgid: i32, signal: Signal },
    /// The kill has ended with `result`. Ask the kernel to release the
    /// target's memory through `pidfd` where `release_memory` is set, and
    /// close `pidfd` where there is one.
    Finish { result: KillResult, pidfd: Option<i32>, release_memory: bool },
}

/// An action as a plain value.
pub enum KillActionView {
    OpenPidfd { pid: i32 },
    Probe { pid: i32, delay_millis: u64 },
    ResolveGroup { pid: i32 },
    SignalProcess { pid: i32, signal: Signal },
    SignalGroup { pgid: i32, signal: Signal },
    Finish { result: KillResultView, pidfd: Option<i32>, release_memory: bool },
}

impl View for KillAction {
    type V = KillActionView;

    open spec fn view(&self) -> KillActionView {
        match *self {
            KillAction::OpenPidfd { pid } => KillActionView::OpenPidfd { pid },
            KillAction::Probe { pid, delay_millis } => KillActionView::Probe { pid, delay_millis },
            KillAction::ResolveGroup { pid } => KillActionView::ResolveGroup { pid },
            KillAction::SignalProcess { pid, signal } => KillActionView::SignalProcess {
                pid,
                signal,
            },
            KillAction::SignalGroup { pgid, signal } => KillActionView::SignalGroup { pgid, signal },
            KillAction::Finish { result, pidfd, release_memory } => KillActionView::Finish {
                result: result@,
                pidfd,
                release_memory,
            },
        }
    }
}

/// What the caller reports back.
#[derive(Debug, Clone)]
pub enum KillEvent {
    /// The process handle, or `None` where the kernel offers none.
    PidfdOpened(Option<i32>),
    /// Whether the null-signal probe found the target alive.
    Probed(bool),
    /// The target's process group, or `None` where it could not be found.
    GroupResolved(Option<i32>),
    /// How the delivery of the signal went.
    Sent(KillResult),
}

/// An event as a plain value.
pub enum KillEventView {
    PidfdOpened(Option<i32>),
    Probed(bool),
    GroupResolved(Option<i32>),
    Sent(KillResultView),
}

impl View for KillEvent {
    type V = KillEventView;

    open spec fn view(&self) -> KillEventView {
        match *self {
            KillEvent::PidfdOpened(fd) => KillEventView::PidfdOpened(fd),
            KillEvent::Probed(alive) => KillEventView::Probed(alive),
            KillEvent::GroupResolved(pgid) => KillEventView::GroupResolved(pgid),
            KillEvent::Sent(result) => KillEventView::Sent(result@),
        }
    }
}

/// How many probes follow a signal before the terminator moves on: ten
/// after the termination signal, five after the kill signal.
pub open spec fn poll_budget(signal: Signal) -> u32 {
    match signal {
        Signal::Term => 10,
        Signal::Kill => 5,
    }
}

/// How long the terminator waits before each probe that follows a signal:
/// 100 ms after the termination signal, 50 ms after the kill signal.
pub open spec fn poll_interval_millis(signal: Signal) -> u64 {
    match signal {
        Signal::Term => 100,
        Signal::Kill => 50,
    }
}

/// The signal that a strategy starts with.
pub open spec fn first_signal(strategy: KillStrategy) -> Signal {
    match strategy {
        KillStrategy::Graceful => Signal::Term,
        KillStrategy::Forceful => Signal::Kill,
    }
}

/// One kill in progress: the target, the strategy, and where it stands.
#[derive(Debug, Clone, Copy, PartialEq, Eq, Structural)]
pub struct KillOperation {
    /// The target.
    pub pid: i32,
    /// How the target is asked to go.
    pub strategy: KillStrategy,
    /// Whether the target's whole process group is signalled.
    pub kill_group: bool,
    /// The process handle, once one was opened.
    pub pidfd: Option<i32>,
    /// What the terminator waits to hear.
    pub stage: Stage,
}

impl KillOperation {
    /// The operation once it has ended.
    pub open spec fn ended(self) -> KillOperation {
        KillOperation { stage: Stage::Done, ..self }
    }

    /// The end of the operation with `result`. The kernel is asked to
    /// release the target's memory only after a `Success`, and only where
    /// a process handle is held.
    pub open spec fn finish(self, result: KillResultView) -> (KillOperation, KillActionView) {
        (
            self.ended(),
            KillActionView::Finish {
                result,
                pidfd: self.pidfd,
                release_memory: result is Success && self.pidfd is Some,
            },
        )
    }

    /// The start of the delivery of `signal`: to the process itself, or,
    /// in group mode, first the lookup of its process group.
    pub open spec fn begin_send(self, signal: Signal) -> (KillOperation, KillActionView) {
        if self.kill_group {
            (
                KillOperation { stage: Stage::Resolving(signal), ..self },
                KillActionView::ResolveGroup { pid: self.pid },
            )
        } else {
            (
                KillOperation { stage: Stage::Sending(signal), ..self },
                KillActionView::SignalProcess { pid: self.pid, signal },
            )
        }
    }

    /// The terminator's policy: the state and the action that follow when
    /// `event` is reported in state `self`.
    ///
    /// * After the handle was tried, the target is probed at once.
    /// * A target found dead before any signal ends the kill as
    ///   `AlreadyDead`; one found alive gets the strategy's first signal.
    /// * In group mode the process group is looked up first; where the
    ///   lookup fails, the process alone is signalled.
    /// * A delivery that fails ends the kill with that failure. One that
    ///   succeeds is followed by probes, each after a wait.
    /// * A probe that finds the target dead ends the kill as `Success`.
    ///   When the probes after the termination signal run out, the kill
    ///   signal is sent; when those after the kill signal run out, one last
    ///   probe decides between `Success` and an error.
    /// * An event that the state does not wait for ends the kill with an
    ///   error.
    pub open spec fn next(self, event: KillEventView) -> (KillOperation, KillActionView) {
        match (self.stage, event) {
            (Stage::Opening, KillEventView::PidfdOpened(fd)) => (
                KillOperation { stage: Stage::Checking, pidfd: fd, ..self },
                KillActionView::Probe { pid: self.pid, delay_millis: 0 },
            ),
            (Stage::Checking, KillEventView::Probed(alive)) => if alive {
                self.begin_send(first_signal(self.strategy))
            } else {
                (
                    self.ended(),
                    KillActionView::Finish {
                        result: KillResultView::AlreadyDead,
                        pidfd: self.pidfd,
                        release_memory: false,
                    },
                )
            },
            (Stage::Resolving(signal), KillEventView::GroupResolved(group)) => (
                KillOperation { stage: Stage::Sending(signal), ..self },
                match group {
                    Some(pgid) => KillActionView::SignalGroup { pgid, signal },
                    None => KillActionView::SignalProcess { pid: self.pid, signal },
                },
            ),
            (Stage::Sending(signal), KillEventView::Sent(result)) => if result.is_success() {
                (
                    KillOperation { stage: Stage::Polling(signal, 0), ..self },
                    KillActionView::Probe {
                        pid: self.pid,
                        delay_millis: poll_interval_millis(signal),
                    },
                )
            } else {
                (
                    self.ended(),
                    KillActionView::Finish { result, pidfd: self.pidfd, release_memory: false },
                )
            },
            (Stage::Polling(signal, done), KillEventView::Probed(alive)) => if !alive {
                self.finish(KillResultView::Success)
            } else if done + 1 < poll_budget(signal) {
                (
                    KillOperation { stage: Stage::Polling(signal, (done + 1) as u32), ..self },
                    KillActionView::Probe {
                        pid: self.pid,
                        delay_millis: poll_interval_millis(signal),
                    },
                )
            } else if signal == Signal::Term {
                self.begin_send(Signal::Kill)
            } else {
                (
                    KillOperation { stage: Stage::FinalCheck, ..self },
                    KillActionView::Probe { pid: self.pid, delay_millis: 0 },
                )
            },
            (Stage::FinalCheck, KillEventView::Probed(alive)) => if alive {
                self.finish(KillResultView::Error("process survived SIGKILL"@))
            } else {
                self.finish(KillResultView::Success)
            },
            _ => self.finish(KillResultView::Error("unexpected event"@)),
        }
    }

    /// Starts a kill of `pid`. The first thing asked of the caller is to
    /// try to open a process handle.
    pub fn start(pid: i32, strategy: KillStrategy, kill_group: bool) -> (r: (
        KillOperation,
        KillAction,
    ))
        ensures
            r.0 == (KillOperation { pid, strategy, kill_group, pidfd: None, stage: Stage::Opening }),
            r.1@ == (KillActionView::OpenPidfd { pid }),
    {
        (
            KillOperation { pid, strategy, kill_group, pidfd: None, stage: Stage::Opening },
            KillAction::OpenPidfd { pid },
        )
    }

    /// Whether the kill has ended.
    pub fn is_done(&self) -> (b: bool)
        ensures
            b == (self.stage == Stage::Done),
    {
        match self.stage {
            Stage::Done => true,
            _ => false,
        }
    }

    fn end_with(&mut self, result: KillResult) -> (action: KillAction)
        ensures
            (*final(self), action@) == old(self).finish(result@),
    {
        let release_memory = match result {
            KillResult::Success => self.pidfd.is_some(),
            _ => false,
        };
        self.stage = Stage::Done;
        KillAction::Finish { result, pidfd: self.pidfd, release_memory }
    }

    fn send(&mut self, signal: Signal) -> (action: KillAction)
        ensures
            (*final(self), action@) == old(self).begin_send(signal),
    {
        if self.kill_group {
            self.stage = Stage::Resolving(signal);
            KillAction::ResolveGroup { pid: self.pid }
        } else {
            self.stage = Stage::Sending(signal);
            KillAction::SignalProcess { pid: self.pid, signal }
        }
    }

    /// Takes what the caller reports and says what to do next, by the
    /// policy [`KillOperation::next`].
    pub fn step(&mut self, event: KillEvent) -> (action: KillAction)
        ensures
            (*final(self), action@) == old(self).next(event@),
    {
        let stage = self.stage;
        match (stage, event) {
            (Stage::Opening, KillEvent::PidfdOpened(fd)) => {
                self.stage = Stage::Checking;
                self.pidfd = fd;
                KillAction::Probe { pid: self.pid, delay_millis: 0 }
            },
            (Stage::Checking, KillEvent::Probed(alive)) => {
                if alive {
                    let signal = match self.strategy {
                        KillStrategy::Graceful => Signal::Term,
                        KillStrategy::Forceful => Signal::Kill,
                    };
                    self.send(signal)
                } else {
                    self.stage = Stage::Done;
                    KillAction::Finish {
                        result: KillResult::AlreadyDead,
                        pidfd: self.pidfd,
                        release_memory: false,
                    }
                }
            },
            (Stage::Resolving(signal), KillEvent::GroupResolved(group)) => {
                self.stage = Stage::Sending(signal);
                match group {
                    Some(pgid) => KillAction::SignalGroup { pgid, signal },
                    None => KillAction::SignalProcess { pid: self.pid, signal },
                }
            },
            (Stage::Sending(signal), KillEvent::Sent(result)) => {
                if result.is_success() {
                    self.stage = Stage::Polling(signal, 0);
                    KillAction::Probe { pid: self.pid, delay_millis: interval_of(signal) }
                } else {
                    self.stage = Stage::Done;
                    KillAction::Finish { result, pidfd: self.pidfd, release_memory: false }
                }
            },
            (Stage::Polling(signal, done), KillEvent::Probed(alive)) => {
                if !alive {
                    self.end_with(KillResult::Success)
                } else if done < budget_of(signal) - 1 {
                    self.stage = Stage::Polling(signal, done + 1);
                    KillAction::Probe { pid: self.pid, delay_millis: interval_of(signal) }
                } else {
                    match signal {
                        Signal::Term => self.send(Signal::Kill),
                        Signal::Kill => {
                            self.stage = Stage::FinalCheck;
                            KillAction::Probe { pid: self.pid, delay_millis: 0 }
                        },
                    }
                }
            },
            (Stage::FinalCheck, KillEvent::Probed(alive)) => {
                if alive {
                    self.end_with(KillResult::Error(owned("process survived SIGKILL")))
                } else {
                    self.end_with(KillResult::Success)
                }
            },
            _ => self.end_with(KillResult::Error(owned("unexpected event"))),
        }
    }
}

/// Executable form of [`poll_budget`].
pub fn budget_of(signal: Signal) -> (n: u32)
    ensures
        n == poll_budget(signal),
{
    match signal {
        Signal::Term => 10,
        Signal::Kill => 5,
    }
}

/// Executable form of [`poll_interval_millis`].
pub fn interval_of(signal: Signal) -> (n: u64)
    ensures
        n == poll_interval_millis(signal),
{
    match signal {
        Signal::Term => 100,
        Signal::Kill => 50,
    }
}

} // verus!

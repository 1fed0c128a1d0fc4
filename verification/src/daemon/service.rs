//! The control loop's decisions. The loop itself (sampling, listing
//! processes, sending signals, sleeping) is the caller's; after each piece
//! of outside work the caller reports what came of it and is told what to
//! do next.

use vstd::prelude::*;
use crate::config::{Config, ConfigView};
use crate::killer::selector::{
    is_avoided, is_protected, is_protected_process, is_victim, lemma_best_is_unique,
    matches_any, matches_patterns, none_eligible, standings_of, ProcessSelector,
};
use crate::killer::signals::{KillResult, KillResultView, KillStrategy};
use crate::monitor::meminfo::{MemInfo, SamplerError};
use crate::monitor::process::{table_view, ProcessInfo, ProcessView};
use crate::notify::{
    hook_call, invocation_view, post_kill_plan, prepare_hook_call, prepare_post_kill,
    HookInvocation, HookInvocationView, PostKillPlan, PostKillPlanView,
};
use crate::percent::Percent;

verus! {

/// Least time between a completed kill and the next decision to kill.
pub const COOLDOWN_MILLIS: u64 = 10_000;

/// Shortest adaptive sleep.
pub const MIN_SLEEP_MILLIS: u64 = 100;

/// Longest adaptive sleep.
pub const MAX_SLEEP_MILLIS: u64 = 1000;

/// The headroom, in thousandths of a percent, from which on the adaptive
/// sleep is the longest: twenty percent.
pub const MAX_HEADROOM_MILLIS: i128 = 20_000;

/// Whether memory is low at one level: below the size threshold where one
/// is set, else below the percentage.
pub open spec fn mem_low(size: Option<u64>, threshold: Percent, m: MemInfo) -> bool {
    match size {
        Some(kb) => m.mem_available < kb,
        None => m.spec_mem_below(threshold),
    }
}

/// Whether the swap condition holds at one level: free swap is below the
/// size threshold where one is set, else below the percentage. A system
/// without any swap always meets the condition, so that memory alone
/// decides there.
pub open spec fn swap_low(size: Option<u64>, threshold: Percent, m: MemInfo) -> bool {
    m.swap_total == 0 || match size {
        Some(kb) => m.swap_free < kb,
        None => m.spec_swap_below(threshold),
    }
}

/// Memory and swap are both low at the kill level.
pub open spec fn kill_level_reached(c: ConfigView, m: MemInfo) -> bool {
    mem_low(c.mem_size_kill, c.mem_threshold_kill, m) && swap_low(
        c.swap_size_kill,
        c.swap_threshold_kill,
        m,
    )
}

/// Memory and swap are both low at the warn level.
pub open spec fn warn_level_reached(c: ConfigView, m: MemInfo) -> bool {
    mem_low(c.mem_size_warn, c.mem_threshold_warn, m) && swap_low(
        c.swap_size_warn,
        c.swap_threshold_warn,
        m,
    )
}

/// The kill decision for a snapshot: forceful where the kill level is
/// reached, else graceful where the warn level is reached, else none.
pub open spec fn decide(c: ConfigView, m: MemInfo) -> Option<KillStrategy> {
    if kill_level_reached(c, m) {
        Some(KillStrategy::Forceful)
    } else if warn_level_reached(c, m) {
        Some(KillStrategy::Graceful)
    } else {
        None
    }
}

/// The adaptive sleep for a headroom given in thousandths of a percent:
/// 100 ms at no headroom, 1000 ms from twenty percent on, and in between
/// 100 ms plus 900 ms times the headroom's share of twenty percent,
/// rounded down.
pub open spec fn sleep_for_headroom(headroom: int) -> int {
    if headroom <= 0 {
        100
    } else if headroom >= MAX_HEADROOM_MILLIS {
        1000
    } else {
        100 + headroom * 900 / 20_000
    }
}

/// The headroom of a snapshot, in thousandths of a percent: the smaller
/// of the distances of available memory and of free swap from their warn
/// percentages.
pub open spec fn headroom_of(c: ConfigView, m: MemInfo) -> int {
    let mem = m.spec_mem_available_percent().millis - c.mem_threshold_warn.millis;
    let swap = m.spec_swap_free_percent().millis - c.swap_threshold_warn.millis;
    if mem <= swap {
        mem
    } else {
        swap
    }
}

/// A number of seconds in milliseconds, or `u64::MAX` where that is more
/// than a `u64` holds.
pub open spec fn interval_millis(secs: u64) -> u64 {
    if secs * 1000 > u64::MAX {
        u64::MAX
    } else {
        (secs * 1000) as u64
    }
}

/// The sleep at the end of a tick: adaptive where that is enabled, else
/// the check interval.
pub open spec fn sleep_millis(c: ConfigView, m: MemInfo) -> u64 {
    if c.adaptive_sleep {
        sleep_for_headroom(headroom_of(c, m)) as u64
    } else {
        interval_millis(c.check_interval)
    }
}

/// The later of the time known so far and a newly reported time.
pub open spec fn later(clock: u64, now: u64) -> u64 {
    if now > clock {
        now
    } else {
        clock
    }
}

/// Whether a kill was completed less than the cooldown ago.
pub open spec fn in_cooldown(last_kill: Option<u64>, now: u64) -> bool {
    last_kill matches Some(t) && now - t < COOLDOWN_MILLIS
}

/// The victim that the selector picks from a table, if any.
pub open spec fn victim_of(c: ConfigView, self_pid: i32, table: Seq<ProcessView>) -> Option<
    ProcessView,
> {
    if exists|k: int| is_victim(c, self_pid, table, k) {
        Some(table[choose|k: int| is_victim(c, self_pid, table, k)])
    } else {
        None
    }
}

/// What the loop waits to hear within a tick.
#[derive(Debug, Clone, Copy, PartialEq, Eq, Structural)]
pub enum Phase {
    /// The next tick's memory sample.
    Idle,
    /// The process table, to pick a victim for the given strategy.
    AwaitingTable(KillStrategy),
    /// A fresh memory sample, to see whether the kill is still called for.
    AwaitingRecheck(KillStrategy),
    /// The outcome of the kill.
    AwaitingKill,
}

/// How a tick ended.
#[derive(Debug, Clone, Copy, PartialEq, Eq, Structural)]
pub enum TickOutcome {
    /// Memory could not be sampled.
    SampleFailed,
    /// A kill was completed less than the cooldown ago.
    Cooldown,
    /// No threshold is crossed.
    Calm,
    /// The process table could not be listed.
    TableUnreadable,
    /// Every process was rejected.
    NoVictim,
    /// Memory could not be sampled again before the kill.
    RecheckFailed,
    /// The thresholds were no longer crossed before the kill.
    Improved,
    /// Dry run: the kill was only reported.
    DryRun,
    /// The victim is gone.
    Killed,
    /// The victim vanished before the signal reached it; taken as a
    /// kill.
    VictimGone,
    /// The kernel refused the signal.
    KillRefused,
    /// The kill failed otherwise.
    KillFailed,
    /// A report came that the loop did not wait for.
    OutOfTurn,
}

/// What the loop remembers from one report to the next.
#[derive(Debug, Clone, Copy, PartialEq, Eq, Structural)]
pub struct LoopState {
    /// Whether the loop goes on; cleared by a shutdown request.
    pub running: bool,
    /// The latest time reported, in milliseconds of a monotonic clock.
    pub clock: u64,
    /// When the last status report was due.
    pub last_report: u64,
    /// When the last kill was completed.
    pub last_kill: Option<u64>,
    /// What the loop waits to hear.
    pub phase: Phase,
    /// The memory sample of the current tick.
    pub sample: MemInfo,
}

/// What the caller is asked to do next.
#[derive(Debug, Clone)]
pub enum LoopAction {
    /// List the processes and report the table.
    ListProcesses { strategy: KillStrategy },
    /// Sample memory again and report it.
    Resample { pid: i32 },
    /// Call the pre-kill script where one is given, whatever comes of it;
    /// then terminate `pid` and report the outcome.
    Kill { pid: i32, strategy: KillStrategy, kill_group: bool, pre_kill: Option<HookInvocation> },
    /// The tick is over: carry out `post_kill` where it is given, emit a
    /// status report where `report` is set, sleep `millis`, then sample
    /// memory for the next tick.
    Sleep { millis: u64, report: bool, outcome: TickOutcome, post_kill: Option<PostKillPlan> },
    /// The loop has been stopped.
    Stop,
}

/// An action as a plain value.
pub enum LoopActionView {
    ListProcesses { strategy: KillStrategy },
    Resample { pid: i32 },
    Kill {
        pid: i32,
        strategy: KillStrategy,
        kill_group: bool,
        pre_kill: Option<HookInvocationView>,
    },
    Sleep { millis: u64, report: bool, outcome: TickOutcome, post_kill: Option<PostKillPlanView> },
    Stop,
}

impl View for LoopAction {
    type V = LoopActionView;

    open spec fn view(&self) -> LoopActionView {
        match *self {
            LoopAction::ListProcesses { strategy } => LoopActionView::ListProcesses { strategy },
            LoopAction::Resample { pid } => LoopActionView::Resample { pid },
            LoopAction::Kill { pid, strategy, kill_group, pre_kill } => LoopActionView::Kill {
                pid,
                strategy,
                kill_group,
                pre_kill: invocation_view(pre_kill),
            },
            LoopAction::Sleep { millis, report, outcome, post_kill } => LoopActionView::Sleep {
                millis,
                report,
                outcome,
                post_kill: match post_kill {
                    Some(p) => Some(p@),
                    None => None,
                },
            },
            LoopAction::Stop => LoopActionView::Stop,
        }
    }
}

/// The daemon as a plain value: its settings, its own process id, what the
/// loop remembers, and the victim picked in the current tick.
pub struct ServiceView {
    pub config: ConfigView,
    pub self_pid: i32,
    pub state: LoopState,
    pub victim: Option<ProcessView>,
}

/// Whether the loop takes a kill as completed: the victim is gone, be it
/// by the signal, before it, or between the selection and the signal.
pub open spec fn counts_as_kill(result: KillResultView) -> bool {
    result.is_success() || result is NotFound
}

/// How the tick ends for each outcome of the kill.
pub open spec fn outcome_of(result: KillResultView) -> TickOutcome {
    match result {
        KillResultView::Success => TickOutcome::Killed,
        KillResultView::AlreadyDead => TickOutcome::Killed,
        KillResultView::NotFound => TickOutcome::VictimGone,
        KillResultView::PermissionDenied => TickOutcome::KillRefused,
        KillResultView::Error(_) => TickOutcome::KillFailed,
    }
}

impl ServiceView {
    /// The daemon as it starts at time `now`: running, idle, no kill on
    /// record, the first status report counted from `now`.
    pub open spec fn initial(config: ConfigView, self_pid: i32, now: u64) -> ServiceView {
        ServiceView {
            config,
            self_pid,
            state: LoopState {
                running: true,
                clock: now,
                last_report: now,
                last_kill: None,
                phase: Phase::Idle,
                sample: MemInfo::zero(),
            },
            victim: None,
        }
    }

    /// What always holds of the daemon: no kill on record lies in the
    /// future, and while a tick is past the cooldown gate the cooldown has
    /// run out; in a dry run no kill is ever awaited.
    pub open spec fn inv(self) -> bool {
        &&& self.state.last_kill matches Some(t) ==> t <= self.state.clock
        &&& self.state.phase != Phase::Idle ==> !in_cooldown(
            self.state.last_kill,
            self.state.clock,
        )
        &&& self.config.dry_run ==> self.state.phase != Phase::AwaitingKill
    }

    /// The daemon with the clock moved on to `now`, unless `now` is
    /// earlier.
    pub open spec fn at(self, now: u64) -> ServiceView {
        ServiceView { state: LoopState { clock: later(self.state.clock, now), ..self.state }, ..self }
    }

    /// The end of a tick: the status report is due when the report
    /// interval has passed since the last one; the sleep follows from the
    /// tick's memory sample; the loop is idle again.
    pub open spec fn end_tick(self, outcome: TickOutcome, post_kill: Option<PostKillPlanView>) -> (
        ServiceView,
        LoopActionView,
    ) {
        let report = self.state.clock - self.state.last_report >= interval_millis(
            self.config.report_interval,
        );
        (
            ServiceView {
                state: LoopState {
                    phase: Phase::Idle,
                    last_report: if report {
                        self.state.clock
                    } else {
                        self.state.last_report
                    },
                    ..self.state
                },
                victim: None,
                ..self
            },
            LoopActionView::Sleep {
                millis: sleep_millis(self.config, self.state.sample),
                report,
                outcome,
                post_kill,
            },
        )
    }

    /// A tick begins with the memory sample taken at time `now`.
    ///
    /// A failed sample ends the tick at once: the loop sleeps the check
    /// interval, without a status report. Otherwise, while the cooldown
    /// runs, or where no threshold is crossed, the tick ends; where one is
    /// crossed, the process table is asked for.
    pub open spec fn on_tick(self, now: u64, sample: Result<MemInfo, SamplerError>) -> (
        ServiceView,
        LoopActionView,
    ) {
        if !self.state.running {
            (self, LoopActionView::Stop)
        } else {
            let s = self.at(now);
            match sample {
                Err(_) => (
                    ServiceView { state: LoopState { phase: Phase::Idle, ..s.state }, victim: None, ..s },
                    LoopActionView::Sleep {
                        millis: interval_millis(s.config.check_interval),
                        report: false,
                        outcome: TickOutcome::SampleFailed,
                        post_kill: None,
                    },
                ),
                Ok(m) => {
                    let t = ServiceView { state: LoopState { sample: m, ..s.state }, victim: None, ..s };
                    if in_cooldown(t.state.last_kill, t.state.clock) {
                        t.end_tick(TickOutcome::Cooldown, None)
                    } else {
                        match decide(t.config, m) {
                            None => t.end_tick(TickOutcome::Calm, None),
                            Some(strategy) => (
                                ServiceView {
                                    state: LoopState {
                                        phase: Phase::AwaitingTable(strategy),
                                        ..t.state
                                    },
                                    ..t
                                },
                                LoopActionView::ListProcesses { strategy },
                            ),
                        }
                    }
                },
            }
        }
    }

    /// The process table is reported; `None` stands for a table that
    /// could not be listed.
    ///
    /// Where a victim is picked, a fresh memory sample is asked for;
    /// without a table or a victim the tick ends.
    pub open spec fn on_process_table(self, now: u64, table: Option<Seq<ProcessView>>) -> (
        ServiceView,
        LoopActionView,
    ) {
        if !self.state.running {
            (self, LoopActionView::Stop)
        } else {
            let s = self.at(now);
            match (s.state.phase, table) {
                (Phase::AwaitingTable(strategy), Some(t)) => match victim_of(
                    s.config,
                    s.self_pid,
                    t,
                ) {
                    Some(v) => (
                        ServiceView {
                            state: LoopState { phase: Phase::AwaitingRecheck(strategy), ..s.state },
                            victim: Some(v),
                            ..s
                        },
                        LoopActionView::Resample { pid: v.pid },
                    ),
                    None => s.end_tick(TickOutcome::NoVictim, None),
                },
                (Phase::AwaitingTable(_), None) => s.end_tick(TickOutcome::TableUnreadable, None),
                _ => s.end_tick(TickOutcome::OutOfTurn, None),
            }
        }
    }

    /// The fresh memory sample is reported.
    ///
    /// The kill is called off where the sample failed or no threshold is
    /// crossed any more. In a dry run the tick ends with the kill only
    /// reported. Otherwise the kill is ordered, with the strategy decided
    /// at the start of the tick and the pre-kill script's call.
    pub open spec fn on_resample(self, now: u64, sample: Result<MemInfo, SamplerError>) -> (
        ServiceView,
        LoopActionView,
    ) {
        if !self.state.running {
            (self, LoopActionView::Stop)
        } else {
            let s = self.at(now);
            match (s.state.phase, s.victim, sample) {
                (Phase::AwaitingRecheck(strategy), Some(v), Ok(m)) => if decide(s.config, m)
                    is None {
                    s.end_tick(TickOutcome::Improved, None)
                } else if s.config.dry_run {
                    s.end_tick(TickOutcome::DryRun, None)
                } else {
                    (
                        ServiceView {
                            state: LoopState { phase: Phase::AwaitingKill, ..s.state },
                            ..s
                        },
                        LoopActionView::Kill {
                            pid: v.pid,
                            strategy,
                            kill_group: s.config.kill_group,
                            pre_kill: hook_call(
                                s.config.pre_kill_script,
                                v.pid,
                                v.name,
                                v.cmdline,
                                v.uid,
                                v.rss_kb,
                                v.oom_score,
                            ),
                        },
                    )
                },
                (Phase::AwaitingRecheck(_), Some(_), Err(_)) => s.end_tick(
                    TickOutcome::RecheckFailed,
                    None,
                ),
                _ => s.end_tick(TickOutcome::OutOfTurn, None),
            }
        }
    }

    /// The outcome of the kill is reported.
    ///
    /// A completed kill is put on record with the time of the report, and
    /// where notifications are enabled the post-kill plan is handed out; a
    /// victim that vanished before the signal reached it counts as such a
    /// kill. Any other outcome leaves the record as it is. The tick ends.
    pub open spec fn on_kill_result(self, now: u64, result: KillResultView) -> (
        ServiceView,
        LoopActionView,
    ) {
        if !self.state.running {
            (self, LoopActionView::Stop)
        } else {
            let s = self.at(now);
            match (s.state.phase, s.victim) {
                (Phase::AwaitingKill, Some(v)) => if counts_as_kill(result) {
                    (ServiceView {
                        state: LoopState { last_kill: Some(s.state.clock), ..s.state },
                        ..s
                    }).end_tick(
                        outcome_of(result),
                        if s.config.notify {
                            Some(
                                post_kill_plan(
                                    s.config.post_kill_script,
                                    s.config.notify_dbus,
                                    v.pid,
                                    v.name,
                                    v.cmdline,
                                    v.uid,
                                    v.rss_kb,
                                    v.oom_score,
                                ),
                            )
                        } else {
                            None
                        },
                    )
                } else {
                    s.end_tick(outcome_of(result), None)
                },
                _ => s.end_tick(TickOutcome::OutOfTurn, None),
            }
        }
    }

    /// A shutdown request stops the loop for good.
    pub open spec fn stopped(self) -> ServiceView {
        ServiceView { state: LoopState { running: false, ..self.state }, ..self }
    }
}

/// Whether memory is low at one level.
pub fn is_mem_low(size: Option<u64>, threshold: Percent, m: &MemInfo) -> (b: bool)
    ensures
        b == mem_low(size, threshold, *m),
{
    match size {
        Some(kb) => m.is_mem_below_threshold_kb(kb),
        None => m.is_mem_below_threshold(threshold),
    }
}

/// Whether the swap condition holds at one level.
pub fn is_swap_low(size: Option<u64>, threshold: Percent, m: &MemInfo) -> (b: bool)
    ensures
        b == swap_low(size, threshold, *m),
{
    if m.swap_total == 0 {
        return true;
    }
    match size {
        Some(kb) => m.is_swap_below_threshold_kb(kb),
        None => m.is_swap_below_threshold(threshold),
    }
}

/// The kill decision for a snapshot under a configuration.
pub fn decide_strategy(config: &Config, m: &MemInfo) -> (r: Option<KillStrategy>)
    ensures
        r == decide(config@, *m),
{
    if is_mem_low(config.mem_size_kill, config.mem_threshold_kill, m) && is_swap_low(
        config.swap_size_kill,
        config.swap_threshold_kill,
        m,
    ) {
        return Some(KillStrategy::Forceful);
    }
    if is_mem_low(config.mem_size_warn, config.mem_threshold_warn, m) && is_swap_low(
        config.swap_size_warn,
        config.swap_threshold_warn,
        m,
    ) {
        return Some(KillStrategy::Graceful);
    }
    None
}

/// The distance of a measured percentage from a threshold, cut to the
/// range from nothing to twenty percent.
fn clamped_headroom(measured: Percent, threshold: Percent) -> (h: i128)
    requires
        measured.millis >= 0,
    ensures
        0 <= h <= MAX_HEADROOM_MILLIS,
        h == if measured.millis - threshold.millis <= 0 {
            0
        } else if measured.millis - threshold.millis >= MAX_HEADROOM_MILLIS {
            MAX_HEADROOM_MILLIS as int
        } else {
            measured.millis - threshold.millis
        },
{
    match measured.millis.checked_sub(threshold.millis) {
        Some(d) => {
            if d <= 0 {
                0
            } else if d >= MAX_HEADROOM_MILLIS {
                MAX_HEADROOM_MILLIS
            } else {
                d
            }
        },
        None => MAX_HEADROOM_MILLIS,
    }
}

/// The adaptive sleep, in milliseconds, for a snapshot under a
/// configuration: between 100 and 1000, by the headroom.
pub fn adaptive_sleep(config: &Config, m: &MemInfo) -> (millis: u64)
    ensures
        millis == sleep_for_headroom(headroom_of(config@, *m)),
        MIN_SLEEP_MILLIS <= millis <= MAX_SLEEP_MILLIS,
{
    let mem = clamped_headroom(m.mem_available_percent(), config.mem_threshold_warn);
    let swap = clamped_headroom(m.swap_free_percent(), config.swap_threshold_warn);
    let h: i128 = if mem <= swap {
        mem
    } else {
        swap
    };
    (100 + h * 900 / 20_000) as u64
}

/// Seconds as milliseconds, saturating.
pub fn millis_of_secs(secs: u64) -> (millis: u64)
    ensures
        millis == interval_millis(secs),
{
    match secs.checked_mul(1000) {
        Some(m) => m,
        None => u64::MAX,
    }
}

/// The daemon's control loop, as far as it decides.
pub struct DaemonService {
    config: Config,
    self_pid: i32,
    state: LoopState,
    victim: Option<ProcessInfo>,
}

impl View for DaemonService {
    type V = ServiceView;

    closed spec fn view(&self) -> ServiceView {
        ServiceView {
            config: self.config@,
            self_pid: self.self_pid,
            state: self.state,
            victim: match self.victim {
                Some(v) => Some(v@),
                None => None,
            },
        }
    }
}

impl DaemonService {
    /// The daemon for the given settings, started at time `now`
    /// (milliseconds of a monotonic clock); `self_pid` is its own process
    /// id.
    pub fn new(config: Config, self_pid: i32, now: u64) -> (s: DaemonService)
        ensures
            s@ == ServiceView::initial(config@, self_pid, now),
            s@.inv(),
    {
        DaemonService {
            config,
            self_pid,
            state: LoopState {
                running: true,
                clock: now,
                last_report: now,
                last_kill: None,
                phase: Phase::Idle,
                sample: MemInfo { mem_total: 0, mem_available: 0, swap_total: 0, swap_free: 0 },
            },
            victim: None,
        }
    }

    /// The settings.
    pub fn config(&self) -> (c: &Config)
        ensures
            c@ == self@.config,
    {
        &self.config
    }

    /// What the loop remembers.
    pub fn state(&self) -> (s: LoopState)
        ensures
            s == self@.state,
    {
        self.state
    }

    /// Whether the loop goes on.
    pub fn is_running(&self) -> (b: bool)
        ensures
            b == self@.state.running,
    {
        self.state.running
    }

    /// Takes a shutdown request: from now on every report is answered
    /// with `Stop`.
    pub fn stop(&mut self)
        ensures
            final(self)@ == old(self)@.stopped(),
            old(self)@.inv() ==> final(self)@.inv(),
    {
        self.state.running = false;
    }

    /// The kill decision for a snapshot: forceful where memory and swap
    /// are both low at the kill level, else graceful where both are low at
    /// the warn level, else none. Without any swap, memory alone decides.
    pub fn determine_kill_strategy(&self, meminfo: &MemInfo) -> (r: Option<KillStrategy>)
        ensures
            r == decide(self@.config, *meminfo),
    {
        decide_strategy(&self.config, meminfo)
    }

    /// The adaptive sleep for a snapshot, in milliseconds.
    pub fn calculate_adaptive_sleep(&self, meminfo: &MemInfo) -> (millis: u64)
        ensures
            millis == sleep_for_headroom(headroom_of(self@.config, *meminfo)),
            MIN_SLEEP_MILLIS <= millis <= MAX_SLEEP_MILLIS,
    {
        adaptive_sleep(&self.config, meminfo)
    }

    /// Whether a process is out of the question: protected by the
    /// unconditional rules, or matched by an `ignore` pattern.
    pub fn should_ignore(&self, process: &ProcessInfo) -> (b: bool)
        ensures
            b == (is_protected(self@.self_pid, process@) || matches_any(
                self@.config.ignore,
                process@,
            )),
    {
        is_protected_process(self.self_pid, process) || matches_patterns(
            &self.config.ignore,
            process,
        )
    }

    /// Whether a process is to be killed only as a last resort.
    pub fn should_avoid(&self, process: &ProcessInfo) -> (b: bool)
        ensures
            b == is_avoided(self@.config, process@),
    {
        matches_patterns(&self.config.avoid, process)
    }

    /// Whether a process matches a `prefer` pattern.
    pub fn should_prefer(&self, process: &ProcessInfo) -> (b: bool)
        ensures
            b == matches_any(self@.config.prefer, process@),
    {
        matches_patterns(&self.config.prefer, process)
    }

    fn finish_tick(&mut self, outcome: TickOutcome, post_kill: Option<PostKillPlan>) -> (action:
        LoopAction)
        ensures
            (final(self)@, action@) == old(self)@.end_tick(
                outcome,
                match post_kill {
                    Some(p) => Some(p@),
                    None => None,
                },
            ),
    {
        let elapsed: u64 = if self.state.clock >= self.state.last_report {
            self.state.clock - self.state.last_report
        } else {
            0
        };
        let report = self.state.clock >= self.state.last_report && elapsed >= millis_of_secs(
            self.config.report_interval,
        );
        let millis = if self.config.adaptive_sleep {
            adaptive_sleep(&self.config, &self.state.sample)
        } else {
            millis_of_secs(self.config.check_interval)
        };
        if report {
            self.state.last_report = self.state.clock;
        }
        self.state.phase = Phase::Idle;
        self.victim = None;
        LoopAction::Sleep { millis, report, outcome, post_kill }
    }

    fn advance(&mut self, now: u64)
        ensures
            final(self)@ == old(self)@.at(now),
    {
        if now > self.state.clock {
            self.state.clock = now;
        }
    }

    /// Begins a tick with the memory sample taken at time `now`; see
    /// [`ServiceView::on_tick`].
    pub fn on_tick(&mut self, now: u64, sample: Result<MemInfo, SamplerError>) -> (action:
        LoopAction)
        ensures
            (final(self)@, action@) == old(self)@.on_tick(now, sample),
            old(self)@.inv() ==> final(self)@.inv(),
    {
        if !self.state.running {
            return LoopAction::Stop;
        }
        self.advance(now);
        self.victim = None;
        match sample {
            Err(_) => {
                self.state.phase = Phase::Idle;
                LoopAction::Sleep {
                    millis: millis_of_secs(self.config.check_interval),
                    report: false,
                    outcome: TickOutcome::SampleFailed,
                    post_kill: None,
                }
            },
            Ok(m) => {
                self.state.sample = m;
                let cooling = match self.state.last_kill {
                    Some(t) => self.state.clock < t || self.state.clock - t < COOLDOWN_MILLIS,
                    None => false,
                };
                if cooling {
                    self.finish_tick(TickOutcome::Cooldown, None)
                } else {
                    match decide_strategy(&self.config, &m) {
                        None => self.finish_tick(TickOutcome::Calm, None),
                        Some(strategy) => {
                            self.state.phase = Phase::AwaitingTable(strategy);
                            LoopAction::ListProcesses { strategy }
                        },
                    }
                }
            },
        }
    }

    /// Picks the victim from a process table; see
    /// [`ProcessSelector::select_victim`].
    pub fn select_victim(&self, table: Vec<ProcessInfo>) -> (r: Option<ProcessInfo>)
        ensures
            match r {
                Some(v) => victim_of(self@.config, self@.self_pid, table_view(table@)) == Some(v@),
                None => victim_of(self@.config, self@.self_pid, table_view(table@)) is None,
            },
    {
        let mut table = table;
        let ghost views = table_view(table@);
        match crate::killer::selector::choose_index(&self.config, self.self_pid, &table, true) {
            Some(k) => {
                let v = table.swap_remove(k);
                proof {
                    assert(is_victim(self@.config, self@.self_pid, views, k as int));
                    let c = choose|j: int| is_victim(self@.config, self@.self_pid, views, j);
                    lemma_best_is_unique(
                        standings_of(self@.config, self@.self_pid, views, true),
                        k as int,
                        c,
                    );
                    assert(v@ == views[k as int]);
                }
                Some(v)
            },
            None => {
                proof {
                    let s = standings_of(self@.config, self@.self_pid, views, true);
                    assert(none_eligible(s));
                    assert forall|j: int| !is_victim(self@.config, self@.self_pid, views, j) by {
                        if 0 <= j < s.len() {
                            assert(!s[j].eligible);
                        }
                    }
                }
                None
            },
        }
    }

    /// Takes the process table, or `None` where it could not be listed;
    /// see [`ServiceView::on_process_table`].
    pub fn on_process_table(&mut self, now: u64, table: Option<Vec<ProcessInfo>>) -> (action:
        LoopAction)
        ensures
            (final(self)@, action@) == old(self)@.on_process_table(
                now,
                match table {
                    Some(t) => Some(table_view(t@)),
                    None => None,
                },
            ),
            old(self)@.inv() ==> final(self)@.inv(),
    {
        if !self.state.running {
            return LoopAction::Stop;
        }
        self.advance(now);
        match (self.state.phase, table) {
            (Phase::AwaitingTable(strategy), Some(t)) => {
                match self.select_victim(t) {
                    Some(v) => {
                        let pid = v.pid;
                        self.state.phase = Phase::AwaitingRecheck(strategy);
                        self.victim = Some(v);
                        LoopAction::Resample { pid }
                    },
                    None => self.finish_tick(TickOutcome::NoVictim, None),
                }
            },
            (Phase::AwaitingTable(_), None) => self.finish_tick(
                TickOutcome::TableUnreadable,
                None,
            ),
            _ => self.finish_tick(TickOutcome::OutOfTurn, None),
        }
    }

    /// Takes the fresh memory sample; see [`ServiceView::on_resample`].
    pub fn on_resample(&mut self, now: u64, sample: Result<MemInfo, SamplerError>) -> (action:
        LoopAction)
        ensures
            (final(self)@, action@) == old(self)@.on_resample(now, sample),
            old(self)@.inv() ==> final(self)@.inv(),
    {
        if !self.state.running {
            return LoopAction::Stop;
        }
        self.advance(now);
        let phase = self.state.phase;
        match (phase, &self.victim, sample) {
            (Phase::AwaitingRecheck(strategy), Some(v), Ok(m)) => {
                if decide_strategy(&self.config, &m).is_none() {
                    self.finish_tick(TickOutcome::Improved, None)
                } else if self.config.dry_run {
                    self.finish_tick(TickOutcome::DryRun, None)
                } else {
                    let pre_kill = prepare_hook_call(
                        &self.config.pre_kill_script,
                        v.pid,
                        v.name.as_str(),
                        v.cmdline.as_str(),
                        v.uid,
                        v.rss_kb,
                        v.oom_score,
                    );
                    let pid = v.pid;
                    self.state.phase = Phase::AwaitingKill;
                    LoopAction::Kill { pid, strategy, kill_group: self.config.kill_group, pre_kill }
                }
            },
            (Phase::AwaitingRecheck(_), Some(_), Err(_)) => self.finish_tick(
                TickOutcome::RecheckFailed,
                None,
            ),
            _ => self.finish_tick(TickOutcome::OutOfTurn, None),
        }
    }

    /// Takes the outcome of the kill; see [`ServiceView::on_kill_result`].
    pub fn on_kill_result(&mut self, now: u64, result: &KillResult) -> (action: LoopAction)
        ensures
            (final(self)@, action@) == old(self)@.on_kill_result(now, result@),
            old(self)@.inv() ==> final(self)@.inv(),
    {
        if !self.state.running {
            return LoopAction::Stop;
        }
        self.advance(now);
        let phase = self.state.phase;
        match (phase, &self.victim) {
            (Phase::AwaitingKill, Some(v)) => {
                let outcome = match result {
                    KillResult::Success => TickOutcome::Killed,
                    KillResult::AlreadyDead => TickOutcome::Killed,
                    KillResult::NotFound => TickOutcome::VictimGone,
                    KillResult::PermissionDenied => TickOutcome::KillRefused,
                    KillResult::Error(_) => TickOutcome::KillFailed,
                };
                let completed = match result {
                    KillResult::Success => true,
                    KillResult::AlreadyDead => true,
                    KillResult::NotFound => true,
                    _ => false,
                };
                if completed {
                    let post_kill = if self.config.notify {
                        Some(
                            prepare_post_kill(
                                &self.config.post_kill_script,
                                self.config.notify_dbus,
                                v.pid,
                                v.name.as_str(),
                                v.cmdline.as_str(),
                                v.uid,
                                v.rss_kb,
                                v.oom_score,
                            ),
                        )
                    } else {
                        None
                    };
                    self.state.last_kill = Some(self.state.clock);
                    self.finish_tick(outcome, post_kill)
                } else {
                    self.finish_tick(outcome, None)
                }
            },
            _ => self.finish_tick(TickOutcome::OutOfTurn, None),
        }
    }
}

} // verus!

//! What holds of the library as a whole, stated over the models that the
//! contracts use and proved from them.

use vstd::prelude::*;
use crate::config::{
    pair_kill_text, pair_warn_text, size_pair_text, spec_parse_size_pair,
    spec_parse_threshold_pair, threshold_pair_text, trimmed_part, ConfigError, ConfigView,
};
use crate::daemon::service::{
    counts_as_kill, decide, in_cooldown, later, sleep_for_headroom, victim_of, LoopActionView,
    ServiceView, COOLDOWN_MILLIS,
};
use crate::killer::selector::{
    is_best, is_kernel_thread_line, is_killable_process, is_victim, outranks, standings_of,
    Standing, OOM_SCORE_ADJ_PROTECTED,
};
use crate::killer::signals::{
    KillActionView, KillEventView, KillOperation, KillResultView, KillStrategy, Signal, Stage,
};
use crate::monitor::meminfo::{MemInfo, SamplerError};
use crate::monitor::process::ProcessView;
use crate::percent::{
    dropped_fraction, fraction_scale, kept_fraction, percent_text, spec_parse_magnitude,
    spec_parse_percent, three_digits, Percent,
};
use crate::text::{
    all_digits, digit_char, digit_value, digits_of, drop_blanks_back, find_char, is_blank,
    is_digit, lemma_digits_of, skip_blanks, spec_parse_digits, spec_parse_u64, value_of,
};

verus! {

/// Every snapshot has exactly one decision under every configuration:
/// none, graceful or forceful.
pub proof fn law_decision_is_total(c: ConfigView, m: MemInfo)
    ensures
        decide(c, m) is None || decide(c, m) == Some(KillStrategy::Graceful) || decide(c, m)
            == Some(KillStrategy::Forceful),
{
}

/// Only percentages decide: no size threshold is set.
pub open spec fn percent_only(c: ConfigView) -> bool {
    c.mem_size_warn is None && c.mem_size_kill is None && c.swap_size_warn is None
        && c.swap_size_kill is None
}

/// No kill above the warn level. Where only percentages decide and no
/// kill threshold is above its warn threshold, a snapshot whose available
/// memory is at or above the memory warn percentage gets no kill; and so
/// does, on a system with swap, one whose free swap is at or above the
/// swap warn percentage.
pub proof fn law_no_kill_above_warn(c: ConfigView, m: MemInfo)
    requires
        percent_only(c),
        c.kill_within_warn(),
        m.spec_mem_available_percent().millis >= c.mem_threshold_warn.millis || (m.swap_total > 0
            && m.spec_swap_free_percent().millis >= c.swap_threshold_warn.millis),
    ensures
        decide(c, m) is None,
{
}

/// The same for size thresholds: where sizes decide at both levels and no
/// kill size is above its warn size, a snapshot with at least the warn
/// size of memory available gets no kill; and so does, on a system with
/// swap, one with at least the warn size of swap free.
pub proof fn law_no_kill_above_warn_size(c: ConfigView, m: MemInfo)
    requires
        c.mem_size_warn matches Some(mw) && c.mem_size_kill matches Some(mk) && mk <= mw,
        c.swap_size_warn matches Some(sw) && c.swap_size_kill matches Some(sk) && sk <= sw,
        m.mem_available >= c.mem_size_warn->Some_0 || (m.swap_total > 0 && m.swap_free
            >= c.swap_size_warn->Some_0),
    ensures
        decide(c, m) is None,
{
}

/// Below both kill percentages the decision is forceful. Where
/// percentages decide at the kill level, a snapshot whose available
/// memory and free swap are both below their kill percentages is killed
/// forcefully.
pub proof fn law_forceful_below_kill(c: ConfigView, m: MemInfo)
    requires
        c.mem_size_kill is None,
        c.swap_size_kill is None,
        m.spec_mem_available_percent().millis < c.mem_threshold_kill.millis,
        m.spec_swap_free_percent().millis < c.swap_threshold_kill.millis,
    ensures
        decide(c, m) == Some(KillStrategy::Forceful),
{
}

/// Without swap, free swap counts as one hundred percent, and no
/// percentage threshold of at most one hundred percent finds it low.
pub proof fn law_swapless_is_never_below(m: MemInfo, threshold: Percent)
    requires
        m.swap_total == 0,
        threshold.millis <= 100_000,
    ensures
        m.spec_swap_free_percent().millis == 100_000,
        !m.spec_swap_below(threshold),
{
}

/// The comparison with a percentage threshold is exact: the rounded-down
/// percentage of available memory is below a threshold of `t` thousandths
/// exactly when `100000 * available < t * total`.
pub proof fn law_mem_below_is_exact(m: MemInfo, threshold: Percent)
    requires
        m.mem_total > 0,
    ensures
        m.spec_mem_below(threshold) <==> 100_000 * m.mem_available < threshold.millis
            * m.mem_total,
{
    let a = 100_000 * (m.mem_available as int);
    let t = m.mem_total as int;
    let k = threshold.millis as int;
    assert((a / t < k) <==> (a < k * t)) by (nonlinear_arith)
        requires
            t > 0,
    ;
}

/// The victim is never a protected process: not the init process, not
/// the daemon itself, not one exempt by its adjustment, not a zombie, not
/// a kernel thread; and it is one that may be killed.
pub proof fn law_victim_is_never_protected(c: ConfigView, self_pid: i32, table: Seq<ProcessView>)
    ensures
        victim_of(c, self_pid, table) matches Some(v) ==> {
            &&& v.pid != 1
            &&& v.pid != self_pid
            &&& v.oom_score_adj != OOM_SCORE_ADJ_PROTECTED
            &&& !v.is_zombie
            &&& !is_kernel_thread_line(v.cmdline)
            &&& is_killable_process(c, self_pid, v)
        },
{
    if exists|k: int| is_victim(c, self_pid, table, k) {
        let k = choose|k: int| is_victim(c, self_pid, table, k);
        let s = standings_of(c, self_pid, table, true);
        assert(is_best(s, k));
        assert(s[k].eligible);
        assert(is_killable_process(c, self_pid, table[k]));
    }
}

/// A victim is found exactly when some process of the table may be
/// killed.
pub proof fn law_victim_exists_iff_killable(c: ConfigView, self_pid: i32, table: Seq<ProcessView>)
    ensures
        victim_of(c, self_pid, table) is Some <==> exists|j: int|
            0 <= j < table.len() && is_killable_process(c, self_pid, #[trigger] table[j]),
{
    let s = standings_of(c, self_pid, table, true);
    if exists|j: int| 0 <= j < table.len() && is_killable_process(c, self_pid, #[trigger] table[j]) {
        let j = choose|j: int|
            0 <= j < table.len() && is_killable_process(c, self_pid, #[trigger] table[j]);
        assert(s[j].eligible);
        lemma_some_entry_is_best(s, s.len() as int);
        let k = choose|k: int| is_best(s.take(s.len() as int), k);
        assert(s.take(s.len() as int) == s);
        assert(is_victim(c, self_pid, table, k));
    }
    if victim_of(c, self_pid, table) is Some {
        let k = choose|k: int| is_victim(c, self_pid, table, k);
        assert(is_best(s, k));
        assert(s[k].eligible);
        assert(is_killable_process(c, self_pid, table[k]));
    }
}

/// Among the first `n` standings, if any is eligible, one outranks all.
proof fn lemma_some_entry_is_best(s: Seq<Standing>, n: int)
    requires
        0 <= n <= s.len(),
    ensures
        (exists|j: int| 0 <= j < n && (#[trigger] s[j]).eligible) ==> exists|k: int|
            is_best(s.take(n), k),
    decreases n,
{
    if n > 0 {
        lemma_some_entry_is_best(s, n - 1);
        let p = s.take(n - 1);
        let q = s.take(n);
        assert forall|j: int| 0 <= j < n - 1 implies p[j] == q[j] by {}
        if exists|j: int| 0 <= j < n - 1 && (#[trigger] s[j]).eligible {
            let k = choose|k: int| is_best(p, k);
            let last = s[n - 1];
            if last.eligible && (last.tier < p[k].tier || (last.tier == p[k].tier && last.key
                > p[k].key)) {
                assert forall|j: int| 0 <= j < q.len() && q[j].eligible implies outranks(
                    q[n - 1],
                    n - 1,
                    #[trigger] q[j],
                    j,
                ) by {
                    if j < n - 1 {
                        assert(p[j].eligible);
                        assert(outranks(p[k], k, p[j], j));
                    }
                }
                assert(is_best(q, n - 1));
            } else {
                assert forall|j: int| 0 <= j < q.len() && q[j].eligible implies outranks(
                    q[k],
                    k,
                    #[trigger] q[j],
                    j,
                ) by {
                    if j < n - 1 {
                        assert(p[j].eligible);
                        assert(outranks(p[k], k, p[j], j));
                    }
                }
                assert(is_best(q, k));
            }
        } else if s[n - 1].eligible {
            assert forall|j: int| 0 <= j < q.len() && q[j].eligible implies outranks(
                q[n - 1],
                n - 1,
                #[trigger] q[j],
                j,
            ) by {
                if j < n - 1 {
                    assert(s[j] == q[j]);
                }
            }
            assert(is_best(q, n - 1));
        }
    }
}

/// The terminator reports `Success` only on a probe that found the target
/// dead, and only while it was polling after a signal.
pub proof fn law_success_needs_dead_probe(op: KillOperation, event: KillEventView)
    ensures
        op.next(event).1 matches KillActionView::Finish { result, .. } && result is Success ==> {
            &&& event == KillEventView::Probed(false)
            &&& (op.stage is Polling || op.stage is FinalCheck)
        },
{
}

/// An upper bound on the reports that a kill still takes in a stage.
pub open spec fn reports_left(stage: Stage) -> nat {
    match stage {
        Stage::Opening => 24,
        Stage::Checking => 23,
        Stage::Resolving(Signal::Term) => 22,
        Stage::Sending(Signal::Term) => 21,
        Stage::Polling(Signal::Term, done) => if done < 10 {
            (20 - done) as nat
        } else {
            11
        },
        Stage::Resolving(Signal::Kill) => 9,
        Stage::Sending(Signal::Kill) => 8,
        Stage::Polling(Signal::Kill, done) => if done < 5 {
            (7 - done) as nat
        } else {
            3
        },
        Stage::FinalCheck => 1,
        Stage::Done => 0,
    }
}

/// Every kill ends: each report either ends it or brings it closer to its
/// end, so that no kill takes more than 24 reports; and what ends it
/// leaves it ended.
pub proof fn law_kill_ends(op: KillOperation, event: KillEventView)
    ensures
        op.next(event).1 is Finish ==> op.next(event).0.stage == Stage::Done,
        !(op.next(event).1 is Finish) ==> reports_left(op.next(event).0.stage) < reports_left(
            op.stage,
        ),
{
}

/// Signals only escalate: the termination signal is sent only at the
/// start of a graceful kill, never once the kill signal is under way.
pub proof fn law_signals_only_escalate(op: KillOperation, event: KillEventView)
    ensures
        op.next(event).1 matches KillActionView::SignalProcess { signal, .. } && signal
            == Signal::Term ==> (op.stage is Checking && op.strategy == KillStrategy::Graceful)
            || op.stage == Stage::Resolving(Signal::Term),
        op.next(event).1 matches KillActionView::SignalGroup { signal, .. } && signal
            == Signal::Term ==> op.stage == Stage::Resolving(Signal::Term),
        op.next(event).0.stage == Stage::Resolving(Signal::Term) ==> op.stage is Checking
            && op.strategy == KillStrategy::Graceful,
{
}

/// The daemon starts in a state of which its invariant holds.
pub proof fn law_invariant_holds_at_start(c: ConfigView, self_pid: i32, now: u64)
    ensures
        ServiceView::initial(c, self_pid, now).inv(),
{
}

/// Every report keeps the daemon's invariant.
pub proof fn law_invariant_is_kept(
    s: ServiceView,
    now: u64,
    sample: Result<MemInfo, SamplerError>,
    table: Option<Seq<ProcessView>>,
    result: KillResultView,
)
    requires
        s.inv(),
    ensures
        s.on_tick(now, sample).0.inv(),
        s.on_process_table(now, table).0.inv(),
        s.on_resample(now, sample).0.inv(),
        s.on_kill_result(now, result).0.inv(),
        s.stopped().inv(),
{
}

/// The cooldown. Only the report of a completed kill (the victim gone by
/// the signal, before it, or on its own in between) changes the record of
/// the last kill, and the new record lies at least ten seconds after the
/// old one.
pub proof fn law_cooldown_between_kills(
    s: ServiceView,
    now: u64,
    sample: Result<MemInfo, SamplerError>,
    table: Option<Seq<ProcessView>>,
    result: KillResultView,
)
    requires
        s.inv(),
    ensures
        s.on_tick(now, sample).0.state.last_kill == s.state.last_kill,
        s.on_process_table(now, table).0.state.last_kill == s.state.last_kill,
        s.on_resample(now, sample).0.state.last_kill == s.state.last_kill,
        s.on_kill_result(now, result).0.state.last_kill != s.state.last_kill ==> {
            &&& counts_as_kill(result)
            &&& s.on_kill_result(now, result).0.state.last_kill matches Some(t2)
            &&& s.state.last_kill matches Some(t1) ==> t2 - t1 >= COOLDOWN_MILLIS
        },
{
}

/// A kill is ordered only when the cooldown has run out: whenever the
/// daemon orders a kill, no kill on record is less than ten seconds old.
pub proof fn law_kill_only_after_cooldown(
    s: ServiceView,
    now: u64,
    sample: Result<MemInfo, SamplerError>,
)
    requires
        s.inv(),
    ensures
        s.on_resample(now, sample).1 is Kill ==> !in_cooldown(
            s.state.last_kill,
            later(s.state.clock, now),
        ),
        !(s.on_tick(now, sample).1 is Kill),
{
}

/// A dry run kills nothing: under a dry-run configuration no report is
/// answered with a kill order or a post-kill plan, and the record of the
/// last kill never changes.
pub proof fn law_dry_run_kills_nothing(
    s: ServiceView,
    now: u64,
    sample: Result<MemInfo, SamplerError>,
    table: Option<Seq<ProcessView>>,
    result: KillResultView,
)
    requires
        s.inv(),
        s.config.dry_run,
    ensures
        !(s.on_tick(now, sample).1 is Kill),
        !(s.on_process_table(now, table).1 is Kill),
        !(s.on_resample(now, sample).1 is Kill),
        !(s.on_kill_result(now, result).1 is Kill),
        s.on_kill_result(now, result).0.state.last_kill == s.state.last_kill,
        s.on_kill_result(now, result).1 matches LoopActionView::Sleep { post_kill, .. }
            ==> post_kill is None,
{
}

/// Once stopped, the daemon answers every report with `Stop` and changes
/// nothing.
pub proof fn law_stopped_stays_stopped(
    s: ServiceView,
    now: u64,
    sample: Result<MemInfo, SamplerError>,
    table: Option<Seq<ProcessView>>,
    result: KillResultView,
)
    requires
        !s.state.running,
    ensures
        s.on_tick(now, sample) == (s, LoopActionView::Stop),
        s.on_process_table(now, table) == (s, LoopActionView::Stop),
        s.on_resample(now, sample) == (s, LoopActionView::Stop),
        s.on_kill_result(now, result) == (s, LoopActionView::Stop),
{
}

/// The adaptive sleep lies between 100 ms and 1000 ms and never shrinks
/// as the headroom grows.
pub proof fn law_adaptive_sleep_range(h1: int, h2: int)
    requires
        h1 <= h2,
    ensures
        100 <= sleep_for_headroom(h1) <= 1000,
        sleep_for_headroom(h1) <= sleep_for_headroom(h2),
        h1 <= 0 ==> sleep_for_headroom(h1) == 100,
        h2 >= 20_000 ==> sleep_for_headroom(h2) == 1000,
        sleep_for_headroom(10_000) == 550,
{
}

/// A tick runs in order. While the daemon runs, the sample comes before
/// the process table, the table before the fresh sample, the fresh sample
/// before the kill; each report either ends the tick or moves it on by
/// exactly one step, and a kill is ordered only for the victim picked
/// from this tick's table.
pub proof fn law_tick_runs_in_order(
    s: ServiceView,
    now: u64,
    sample: Result<MemInfo, SamplerError>,
    table: Option<Seq<ProcessView>>,
    result: KillResultView,
)
    requires
        s.state.running,
    ensures
        s.on_tick(now, sample).0.state.phase is Idle || (s.on_tick(now, sample).0.state.phase
            is AwaitingTable && s.on_tick(now, sample).1 is ListProcesses),
        s.on_process_table(now, table).0.state.phase is Idle || (s.state.phase is AwaitingTable
            && s.on_process_table(now, table).0.state.phase is AwaitingRecheck),
        s.on_resample(now, sample).0.state.phase is Idle || (s.state.phase is AwaitingRecheck
            && s.on_resample(now, sample).0.state.phase is AwaitingKill),
        s.on_kill_result(now, result).0.state.phase is Idle,
        s.on_tick(now, sample).1 is Sleep <==> s.on_tick(now, sample).0.state.phase is Idle,
        s.on_resample(now, sample).1 matches LoopActionView::Kill { pid, .. } ==> s.victim
            matches Some(v) && v.pid == pid,
        s.on_process_table(now, table).0.victim matches Some(v) ==> table matches Some(t)
            && victim_of(s.config, s.self_pid, t) == Some(v),
{
}

/// A text that holds neither a comma nor a blank.
pub open spec fn is_plain(s: Seq<char>) -> bool {
    forall|i: int| 0 <= i < s.len() ==> (#[trigger] s[i]) != ',' && !is_blank(s[i])
}

/// Where `c` first stands at `stop`, the search from `from` ends there.
proof fn lemma_find_char_at(s: Seq<char>, from: int, stop: int, c: char)
    requires
        0 <= from <= stop <= s.len(),
        forall|j: int| from <= j < stop ==> s[j] != c,
        stop < s.len() ==> s[stop] == c,
    ensures
        find_char(s, from, c) == stop,
    decreases stop - from,
{
    if from < stop {
        lemma_find_char_at(s, from + 1, stop, c);
    }
}

/// A part without blanks at its ends is its own trimmed form.
proof fn lemma_trimmed_part_is_whole(s: Seq<char>, from: int, end: int)
    requires
        0 <= from < end <= s.len(),
        !is_blank(s[from]),
        !is_blank(s[end - 1]),
    ensures
        trimmed_part(s, from, end) == s.subrange(from, end),
{
    assert(skip_blanks(s, from, end) == from);
    assert(drop_blanks_back(s, from, end) == end);
}

/// The digit that writes `d` is a digit of value `d`.
proof fn lemma_digit_char(d: nat)
    requires
        d < 10,
    ensures
        is_digit(digit_char(d)),
        digit_value(digit_char(d)) == d,
        digit_char(d) != ',',
        digit_char(d) != '.',
        digit_char(d) != '-',
        digit_char(d) != '+',
        !is_blank(digit_char(d)),
{
}

/// A digit is neither a comma, a point, a sign nor a blank.
proof fn lemma_digits_are_plain(s: Seq<char>)
    requires
        all_digits(s),
    ensures
        is_plain(s),
        forall|i: int| 0 <= i < s.len() ==> (#[trigger] s[i]) != '.' && s[i] != '-' && s[i] != '+',
{
    assert forall|i: int| 0 <= i < s.len() implies (#[trigger] s[i]) != ',' && !is_blank(s[i])
        && s[i] != '.' && s[i] != '-' && s[i] != '+' by {
        assert(is_digit(s[i]));
    }
}

/// Three digits write the number below one thousand that they were made
/// from.
proof fn lemma_three_digits(f: nat)
    requires
        f < 1000,
    ensures
        three_digits(f).len() == 3,
        all_digits(three_digits(f)),
        value_of(three_digits(f)) == f,
{
    let s = three_digits(f);
    lemma_digit_char(f / 100);
    lemma_digit_char((f / 10) % 10);
    lemma_digit_char(f % 10);
    let s2 = s.drop_last();
    let s1 = s2.drop_last();
    let s0 = s1.drop_last();
    assert(s0.len() == 0);
    assert(value_of(s0) == 0);
    assert(s1.last() == digit_char(f / 100));
    assert(value_of(s1) == f / 100);
    assert(s2.last() == digit_char((f / 10) % 10));
    assert(value_of(s2) == 10 * (f / 100) + (f / 10) % 10);
    assert(s.last() == digit_char(f % 10));
    assert(value_of(s) == 10 * value_of(s2) + f % 10);
}

/// The unsigned part of a percentage's canonical text reads as the
/// thousandths it was written from.
proof fn lemma_magnitude_round_trip(m: nat)
    ensures
        spec_parse_magnitude(digits_of(m / 1000) + seq!['.'] + three_digits(m % 1000)) == Some(
            (m, false),
        ),
        is_plain(digits_of(m / 1000) + seq!['.'] + three_digits(m % 1000)),
        (digits_of(m / 1000) + seq!['.'] + three_digits(m % 1000)).len() >= 5,
        is_digit((digits_of(m / 1000) + seq!['.'] + three_digits(m % 1000))[0]),
        is_digit((digits_of(m / 1000) + seq!['.'] + three_digits(m % 1000)).last()),
{
    let whole = digits_of(m / 1000);
    let frac = three_digits(m % 1000);
    let s = whole + seq!['.'] + frac;
    lemma_digits_of(m / 1000);
    lemma_three_digits(m % 1000);
    lemma_digits_are_plain(whole);
    lemma_digits_are_plain(frac);
    let dot = whole.len() as int;
    assert(s.len() == dot + 4);
    assert forall|j: int| 0 <= j < dot implies s[j] != '.' by {
        assert(s[j] == whole[j]);
    }
    assert(s[dot] == '.');
    lemma_find_char_at(s, 0, dot, '.');
    assert(s.take(dot) == whole);
    assert(s.skip(dot + 1) == frac);
    assert(kept_fraction(frac) == frac);
    assert(dropped_fraction(frac).len() == 0);
    assert(value_of(dropped_fraction(frac)) == 0);
    assert(fraction_scale(3) == 1);
    assert(value_of(whole) * 1000 + value_of(frac) * 1 == m) by {
        assert(value_of(whole) == m / 1000);
        assert(value_of(frac) == m % 1000);
    }
    assert forall|i: int| 0 <= i < s.len() implies (#[trigger] s[i]) != ',' && !is_blank(s[i]) by {
        if i < dot {
            assert(s[i] == whole[i]);
        } else if i > dot {
            assert(s[i] == frac[i - dot - 1]);
        }
    }
    assert(s[0] == whole[0]);
    assert(s.last() == frac[2]);
}

/// Reading the canonical text of a percentage gives the percentage back,
/// for every percentage.
pub proof fn law_percent_round_trip(p: Percent)
    ensures
        spec_parse_percent(percent_text(p)) == Some(p),
        is_plain(percent_text(p)),
        percent_text(p).len() >= 5,
{
    let m: nat = if p.millis < 0 {
        (-p.millis) as nat
    } else {
        p.millis as nat
    };
    let body = digits_of(m / 1000) + seq!['.'] + three_digits(m % 1000);
    lemma_magnitude_round_trip(m);
    let t = percent_text(p);
    if p.millis < 0 {
        assert(t == seq!['-'] + body) by {
            assert(seq!['-'] + digits_of(m / 1000) + seq!['.'] + three_digits(m % 1000)
                =~= seq!['-'] + body);
        }
        assert(t[0] == '-');
        assert(t.skip(1) == body);
        assert forall|i: int| 0 <= i < t.len() implies (#[trigger] t[i]) != ',' && !is_blank(
            t[i],
        ) by {
            if i > 0 {
                assert(t[i] == body[i - 1]);
            }
        }
    } else {
        assert(t == body) by {
            assert(Seq::<char>::empty() + digits_of(m / 1000) + seq!['.'] + three_digits(m % 1000)
                =~= body);
        }
        assert(is_digit(t[0]));
    }
}

/// Writing a percentage pair and reading it again gives the same pair,
/// for every two percentages: the kill part is read as written, never
/// taken as half the warn part.
pub proof fn law_threshold_pair_round_trip(warn: Percent, kill: Percent)
    ensures
        spec_parse_threshold_pair(threshold_pair_text(warn, kill)) == Ok::<
            (Percent, Percent),
            ConfigError,
        >((warn, kill)),
{
    let tw = percent_text(warn);
    let tk = percent_text(kill);
    law_percent_round_trip(warn);
    law_percent_round_trip(kill);
    lemma_pair_parts(tw, tk);
}

/// Writing a size pair and reading it again gives the same pair.
pub proof fn law_size_pair_round_trip(warn: u64, kill: u64)
    ensures
        spec_parse_size_pair(size_pair_text(warn, kill)) == Ok::<(u64, u64), ConfigError>(
            (warn, kill),
        ),
{
    let tw = digits_of(warn as nat);
    let tk = digits_of(kill as nat);
    lemma_digits_of(warn as nat);
    lemma_digits_of(kill as nat);
    lemma_digits_are_plain(tw);
    lemma_digits_are_plain(tk);
    lemma_pair_parts(tw, tk);
    assert(tw[0] != '+');
    assert(tk[0] != '+');
    assert(spec_parse_digits(tw) == Some(warn));
    assert(spec_parse_digits(tk) == Some(kill));
    assert(spec_parse_u64(tw) == Some(warn));
    assert(spec_parse_u64(tk) == Some(kill));
}

/// Two plain, non-empty texts joined by a comma are the warn part and the
/// kill part of the pair.
proof fn lemma_pair_parts(tw: Seq<char>, tk: Seq<char>)
    requires
        is_plain(tw),
        is_plain(tk),
        tw.len() > 0,
        tk.len() > 0,
    ensures
        pair_warn_text(tw + seq![','] + tk) == tw,
        pair_kill_text(tw + seq![','] + tk) == Some(tk),
{
    let s = tw + seq![','] + tk;
    let comma = tw.len() as int;
    assert(s.len() == comma + 1 + tk.len());
    assert forall|j: int| 0 <= j < comma implies s[j] != ',' by {
        assert(s[j] == tw[j]);
    }
    assert(s[comma] == ',');
    lemma_find_char_at(s, 0, comma, ',');
    assert(s[0] == tw[0]);
    assert(s[comma - 1] == tw[comma - 1]);
    lemma_trimmed_part_is_whole(s, 0, comma);
    assert(s.subrange(0, comma) == tw);
    let end = s.len() as int;
    assert forall|j: int| comma + 1 <= j < end implies s[j] != ',' by {
        assert(s[j] == tk[j - comma - 1]);
    }
    lemma_find_char_at(s, comma + 1, end, ',');
    assert(s[comma + 1] == tk[0]);
    assert(s[end - 1] == tk[tk.len() - 1]);
    lemma_trimmed_part_is_whole(s, comma + 1, end);
    assert(s.subrange(comma + 1, end) == tk);
}

} // verus!

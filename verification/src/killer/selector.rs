//! Victim selection: protection rules, pattern policy and ranking.

use vstd::prelude::*;
use vstd::string::StringExecFns;
use crate::config::pattern::regex_matches;
use crate::config::{pattern_texts, Config, ConfigView, Pattern};
use crate::monitor::process::{table_view, ProcessInfo, ProcessView};
use crate::text::{chars_of, digits_of, owned, push_decimal};

verus! {

/// The adjustment with which a process is exempt from every kill.
pub const OOM_SCORE_ADJ_PROTECTED: i32 = -1000;

/// What a preferred process gains, and an avoided one loses, in the
/// ranking.
pub const PREFER_BOOST: i128 = 1000;

/// A kernel thread is written with its name in square brackets: the
/// command line starts with `[` and ends with `]`.
pub open spec fn is_kernel_thread_line(cmdline: Seq<char>) -> bool {
    cmdline.len() > 0 && cmdline.first() == '[' && cmdline.last() == ']'
}

/// Whether one pattern finds a match in the process's name or in its
/// command line.
pub open spec fn pattern_hits(pattern: Seq<char>, p: ProcessView) -> bool {
    regex_matches(pattern, p.name) || regex_matches(pattern, p.cmdline)
}

/// Whether any pattern of the list finds a match in the process's name or
/// command line.
pub open spec fn matches_any(patterns: Seq<Seq<char>>, p: ProcessView) -> bool {
    exists|i: int| 0 <= i < patterns.len() && pattern_hits(#[trigger] patterns[i], p)
}

/// Protected whatever the configuration says: the init process, the daemon
/// itself, a process exempt by its adjustment, a zombie, a kernel thread.
pub open spec fn is_protected(self_pid: i32, p: ProcessView) -> bool {
    p.pid == 1 || p.pid == self_pid || p.oom_score_adj == OOM_SCORE_ADJ_PROTECTED || p.is_zombie
        || is_kernel_thread_line(p.cmdline)
}

/// A process may be killed when it is not protected, matches no `ignore`
/// pattern and, where root's processes are spared, does not belong to
/// root.
pub open spec fn is_killable_process(c: ConfigView, self_pid: i32, p: ProcessView) -> bool {
    !is_protected(self_pid, p) && !matches_any(c.ignore, p) && !(c.ignore_root_user && p.uid == 0)
}

/// A process that matches an `avoid` pattern.
pub open spec fn is_avoided(c: ConfigView, p: ProcessView) -> bool {
    matches_any(c.avoid, p)
}

/// The score before any boost: the resident size, or the kernel's score.
pub open spec fn base_score(c: ConfigView, p: ProcessView) -> int {
    if c.sort_by_rss {
        p.rss_kb as int
    } else {
        p.oom_score as int
    }
}

/// The tier of a process: preferred ones come first, then those that are
/// not avoided, then the avoided ones as a last resort.
pub open spec fn tier_of(preferred: bool, avoided: bool) -> u8 {
    if avoided {
        2
    } else if preferred {
        0
    } else {
        1
    }
}

/// A number cut to the range of the ranking key.
pub open spec fn saturated(x: int) -> i128 {
    if x > i128::MAX {
        i128::MAX
    } else if x < i128::MIN {
        i128::MIN
    } else {
        x as i128
    }
}

/// The ranking key: the base score, plus the boost for a preferred
/// process, less the same amount for an avoided one, each saturating.
pub open spec fn key_of(base: int, preferred: bool, avoided: bool) -> i128 {
    if avoided {
        saturated(base - PREFER_BOOST)
    } else if preferred {
        saturated(base + PREFER_BOOST)
    } else {
        saturated(base)
    }
}

/// How one process stands in the selection.
#[derive(Debug, Clone, Copy, PartialEq, Eq, Structural)]
pub struct Standing {
    /// Whether the process may be chosen at all.
    pub eligible: bool,
    /// `0` preferred, `1` ordinary, `2` avoided.
    pub tier: u8,
    /// The ranking key; higher is chosen first within a tier.
    pub key: i128,
}

/// The standing of a process given what the patterns say of it.
pub open spec fn standing_from(
    eligible: bool,
    base: int,
    prefer_match: bool,
    avoid_match: bool,
) -> Standing {
    let preferred = prefer_match && !avoid_match;
    Standing {
        eligible,
        tier: tier_of(preferred, avoid_match),
        key: key_of(base, preferred, avoid_match),
    }
}

/// The standing of a process under a configuration. With `filter` off
/// every process is eligible.
pub open spec fn standing_of(c: ConfigView, self_pid: i32, p: ProcessView, filter: bool) -> Standing {
    standing_from(
        !filter || is_killable_process(c, self_pid, p),
        base_score(c, p),
        matches_any(c.prefer, p),
        matches_any(c.avoid, p),
    )
}

/// The standings of a whole table, in the table's order.
pub open spec fn standings_of(
    c: ConfigView,
    self_pid: i32,
    table: Seq<ProcessView>,
    filter: bool,
) -> Seq<Standing> {
    table.map_values(|p: ProcessView| standing_of(c, self_pid, p, filter))
}

/// Whether entry `i` is chosen before entry `j`: by the lower tier, then by
/// the higher key, then by the earlier place in the table.
pub open spec fn outranks(a: Standing, i: int, b: Standing, j: int) -> bool {
    a.tier < b.tier || (a.tier == b.tier && (a.key > b.key || (a.key == b.key && i <= j)))
}

/// Entry `k` is the one to choose: it is eligible and is chosen before
/// every other eligible entry.
pub open spec fn is_best(s: Seq<Standing>, k: int) -> bool {
    &&& 0 <= k < s.len()
    &&& s[k].eligible
    &&& forall|j: int| 0 <= j < s.len() && s[j].eligible ==> outranks(s[k], k, #[trigger] s[j], j)
}

/// No entry is eligible.
pub open spec fn none_eligible(s: Seq<Standing>) -> bool {
    forall|j: int| 0 <= j < s.len() ==> !(#[trigger] s[j]).eligible
}

/// Entry `k` of the table is the victim: it may be killed and is chosen
/// before every other process that may be killed.
pub open spec fn is_victim(c: ConfigView, self_pid: i32, table: Seq<ProcessView>, k: int) -> bool {
    is_best(standings_of(c, self_pid, table, true), k)
}

/// There is at most one entry to choose.
pub proof fn lemma_best_is_unique(s: Seq<Standing>, a: int, b: int)
    requires
        is_best(s, a),
        is_best(s, b),
    ensures
        a == b,
{
    assert(outranks(s[a], a, s[b], b));
    assert(outranks(s[b], b, s[a], a));
}

/// Chooses among standings: the index of the eligible entry that outranks
/// all others, or `None` where no entry is eligible.
pub fn pick_best(standings: &Vec<Standing>) -> (r: Option<usize>)
    ensures
        match r {
            Some(k) => is_best(standings@, k as int),
            None => none_eligible(standings@),
        },
{
    let mut best: Option<usize> = None;
    let mut i: usize = 0;
    while i < standings.len()
        invariant
            i <= standings.len(),
            match best {
                Some(k) => {
                    &&& k < i
                    &&& standings@[k as int].eligible
                    &&& forall|j: int|
                        0 <= j < i && standings@[j].eligible ==> outranks(
                            standings@[k as int],
                            k as int,
                            #[trigger] standings@[j],
                            j,
                        )
                },
                None => forall|j: int| 0 <= j < i ==> !(#[trigger] standings@[j]).eligible,
            },
        decreases standings.len() - i,
    {
        let s = standings[i];
        if s.eligible {
            match best {
                None => {
                    best = Some(i);
                },
                Some(k) => {
                    let b = standings[k];
                    if s.tier < b.tier || (s.tier == b.tier && s.key > b.key) {
                        best = Some(i);
                    }
                },
            }
        }
        i = i + 1;
    }
    best
}

/// Works out how a process stands from what the rules and the patterns
/// say of it: `protected` by the unconditional rules, matched by an
/// `ignore`, `prefer` or `avoid` pattern, owned by root while root is
/// spared. With `filter` off the process is eligible whatever the rules
/// say.
pub fn classify(
    filter: bool,
    protected: bool,
    ignore_match: bool,
    spared_root: bool,
    base: i128,
    prefer_match: bool,
    avoid_match: bool,
) -> (s: Standing)
    ensures
        s == standing_from(
            !filter || (!protected && !ignore_match && !spared_root),
            base as int,
            prefer_match,
            avoid_match,
        ),
{
    let eligible = !filter || (!protected && !ignore_match && !spared_root);
    if avoid_match {
        let key = match base.checked_sub(PREFER_BOOST) {
            Some(k) => k,
            None => i128::MIN,
        };
        Standing { eligible, tier: 2, key }
    } else if prefer_match {
        let key = match base.checked_add(PREFER_BOOST) {
            Some(k) => k,
            None => i128::MAX,
        };
        Standing { eligible, tier: 0, key }
    } else {
        Standing { eligible, tier: 1, key: base }
    }
}

/// Counts of a process table under a configuration.
#[derive(Debug, Clone, Copy, PartialEq, Eq, Structural)]
pub struct ProcessStatistics {
    /// All processes of the table.
    pub total: usize,
    /// Those that may be killed.
    pub killable: usize,
    /// Those that match a `prefer` pattern.
    pub preferred: usize,
    /// Those that match an `avoid` pattern.
    pub avoided: usize,
    /// Those that match an `ignore` pattern.
    pub ignored: usize,
}

/// The text that [`ProcessStatistics::summary`] gives.
pub open spec fn statistics_text(s: ProcessStatistics) -> Seq<char> {
    "Processes: "@ + digits_of(s.total as nat) + " total, "@ + digits_of(s.killable as nat)
        + " killable, "@ + digits_of(s.preferred as nat) + " preferred, "@ + digits_of(
        s.avoided as nat,
    ) + " avoided, "@ + digits_of(s.ignored as nat) + " ignored"@
}

impl ProcessStatistics {
    /// The counts in one line.
    pub fn summary(&self) -> (text: String)
        ensures
            text@ == statistics_text(*self),
    {
        let mut out = owned("Processes: ");
        push_decimal(&mut out, self.total as u128);
        out.append(" total, ");
        push_decimal(&mut out, self.killable as u128);
        out.append(" killable, ");
        push_decimal(&mut out, self.preferred as u128);
        out.append(" preferred, ");
        push_decimal(&mut out, self.avoided as u128);
        out.append(" avoided, ");
        push_decimal(&mut out, self.ignored as u128);
        out.append(" ignored");
        out
    }
}

/// Whether a command line is that of a kernel thread.
pub fn is_kernel_thread_cmdline(cmdline: &str) -> (b: bool)
    ensures
        b == is_kernel_thread_line(cmdline@),
{
    let v = chars_of(cmdline);
    v.len() > 0 && v[0] == '[' && v[v.len() - 1] == ']'
}

/// Whether any pattern of the list finds a match in the process's name or
/// command line.
pub fn matches_patterns(patterns: &Vec<Pattern>, process: &ProcessInfo) -> (b: bool)
    ensures
        b == matches_any(pattern_texts(patterns@), process@),
{
    let ghost texts = pattern_texts(patterns@);
    let mut i: usize = 0;
    while i < patterns.len()
        invariant
            i <= patterns.len(),
            texts == pattern_texts(patterns@),
            forall|j: int| 0 <= j < i ==> !pattern_hits(#[trigger] texts[j], process@),
        decreases patterns.len() - i,
    {
        assert(texts[i as int] == patterns@[i as int]@);
        if patterns[i].is_match(process.name.as_str()) || patterns[i].is_match(
            process.cmdline.as_str(),
        ) {
            assert(pattern_hits(texts[i as int], process@));
            return true;
        }
        i = i + 1;
    }
    false
}

/// Whether the unconditional rules protect a process.
pub fn is_protected_process(self_pid: i32, process: &ProcessInfo) -> (b: bool)
    ensures
        b == is_protected(self_pid, process@),
{
    process.pid == 1 || process.pid == self_pid || process.oom_score_adj
        == OOM_SCORE_ADJ_PROTECTED || process.is_zombie || is_kernel_thread_cmdline(
        process.cmdline.as_str(),
    )
}

/// Whether a process may be killed under a configuration.
pub fn is_killable_under(config: &Config, self_pid: i32, process: &ProcessInfo) -> (b: bool)
    ensures
        b == is_killable_process(config@, self_pid, process@),
{
    if is_protected_process(self_pid, process) {
        return false;
    }
    if matches_patterns(&config.ignore, process) {
        return false;
    }
    if config.ignore_root_user && process.uid == 0 {
        return false;
    }
    true
}

/// How a process stands under a configuration.
pub fn standing_under(config: &Config, self_pid: i32, process: &ProcessInfo, filter: bool) -> (s:
    Standing)
    ensures
        s == standing_of(config@, self_pid, process@, filter),
{
    let protected = is_protected_process(self_pid, process);
    let ignore_match = matches_patterns(&config.ignore, process);
    let spared_root = config.ignore_root_user && process.uid == 0;
    let base: i128 = if config.sort_by_rss {
        process.rss_kb as i128
    } else {
        process.oom_score as i128
    };
    let prefer_match = matches_patterns(&config.prefer, process);
    let avoid_match = matches_patterns(&config.avoid, process);
    classify(filter, protected, ignore_match, spared_root, base, prefer_match, avoid_match)
}

/// The index of the process to choose from a table: among the processes
/// that may be killed (all of them with `filter` off), the one that
/// outranks the others.
pub fn choose_index(config: &Config, self_pid: i32, table: &Vec<ProcessInfo>, filter: bool) -> (r:
    Option<usize>)
    ensures
        match r {
            Some(k) => is_best(standings_of(config@, self_pid, table_view(table@), filter), k as int),
            None => none_eligible(standings_of(config@, self_pid, table_view(table@), filter)),
        },
{
    let ghost want = standings_of(config@, self_pid, table_view(table@), filter);
    let mut standings: Vec<Standing> = Vec::new();
    let mut i: usize = 0;
    while i < table.len()
        invariant
            i <= table.len(),
            want == standings_of(config@, self_pid, table_view(table@), filter),
            standings@ == want.take(i as int),
        decreases table.len() - i,
    {
        let s = standing_under(config, self_pid, &table[i], filter);
        standings.push(s);
        assert(want.take(i + 1) == want.take(i as int).push(want[i as int]));
        i = i + 1;
    }
    assert(want.take(table.len() as int) == want);
    pick_best(&standings)
}

/// Applies the protection rules and the pattern policy to a process table
/// and picks the victim.
pub struct ProcessSelector {
    config: Config,
    self_pid: i32,
}

impl ProcessSelector {
    /// The configuration that the selector works under.
    pub closed spec fn config(&self) -> ConfigView {
        self.config@
    }

    /// The daemon's own process id, which is never chosen.
    pub closed spec fn self_pid(&self) -> i32 {
        self.self_pid
    }

    /// A selector for the given configuration; `self_pid` is the daemon's
    /// own process id.
    pub fn new(config: Config, self_pid: i32) -> (s: ProcessSelector)
        ensures
            s.config() == config@,
            s.self_pid() == self_pid,
    {
        ProcessSelector { config, self_pid }
    }

    /// Whether a process is a kernel thread, going by its command line.
    pub fn is_kernel_thread(&self, process: &ProcessInfo) -> (b: bool)
        ensures
            b == is_kernel_thread_line(process@.cmdline),
    {
        is_kernel_thread_cmdline(process.cmdline.as_str())
    }

    /// Whether any of `patterns` matches the process's name or command
    /// line.
    pub fn matches_patterns(&self, patterns: &Vec<Pattern>, process: &ProcessInfo) -> (b: bool)
        ensures
            b == matches_any(pattern_texts(patterns@), process@),
    {
        matches_patterns(patterns, process)
    }

    /// Whether a process may be killed.
    pub fn is_killable(&self, process: &ProcessInfo) -> (b: bool)
        ensures
            b == is_killable_process(self.config(), self.self_pid(), process@),
    {
        is_killable_under(&self.config, self.self_pid, process)
    }

    /// The processes of a table that may be killed, in the table's order.
    pub fn filter_processes(&self, processes: Vec<ProcessInfo>) -> (kept: Vec<ProcessInfo>)
        ensures
            table_view(kept@) == table_view(processes@).filter(
                |p: ProcessView| is_killable_process(self.config(), self.self_pid(), p),
            ),
    {
        let ghost all = table_view(processes@);
        let ghost keep = |p: ProcessView| is_killable_process(self.config(), self.self_pid(), p);
        let mut rest = processes;
        let mut reversed: Vec<ProcessInfo> = Vec::new();
        // take the records from the back, keeping the killable ones
        while rest.len() > 0
            invariant
                all == table_view(processes@),
                keep == |p: ProcessView| is_killable_process(self.config(), self.self_pid(), p),
                table_view(rest@) == all.take(rest@.len() as int),
                rest@.len() <= all.len(),
                table_view(reversed@).reverse() == all.skip(rest@.len() as int).filter(keep),
            decreases rest.len(),
        {
            let ghost n = rest@.len() as int;
            let ghost before = table_view(reversed@);
            let p = rest.pop().unwrap();
            assert(p@ == all[n - 1]) by {
                assert(all.take(n)[n - 1] == all[n - 1]);
            }
            assert(table_view(rest@) =~= all.take(n - 1));
            let killable = self.is_killable(&p);
            proof {
                let tail = all.skip(n - 1);
                assert(tail =~= seq![all[n - 1]] + all.skip(n));
                Seq::filter_distributes_over_add(seq![all[n - 1]], all.skip(n), keep);
                reveal(Seq::filter);
                let one = seq![all[n - 1]];
                assert(one.drop_last() =~= Seq::<ProcessView>::empty());
                assert(one.drop_last().filter(keep) =~= Seq::<ProcessView>::empty());
                assert(one.last() == all[n - 1]);
                if keep(all[n - 1]) {
                    assert(one.filter(keep) =~= one);
                } else {
                    assert(one.filter(keep) =~= Seq::<ProcessView>::empty());
                }
            }
            if killable {
                reversed.push(p);
                assert(table_view(reversed@) =~= before.push(all[n - 1]));
                assert(before.push(all[n - 1]).reverse() =~= seq![all[n - 1]] + before.reverse());
            }
        }
        assert(all.skip(0) =~= all);
        let mut kept: Vec<ProcessInfo> = Vec::new();
        let ghost rev = table_view(reversed@);
        while reversed.len() > 0
            invariant
                rev.len() >= reversed@.len(),
                table_view(reversed@) == rev.take(reversed@.len() as int),
                table_view(kept@) == rev.skip(reversed@.len() as int).reverse(),
            decreases reversed.len(),
        {
            let ghost n = reversed@.len() as int;
            let ghost before = table_view(kept@);
            let p = reversed.pop().unwrap();
            assert(p@ == rev[n - 1]) by {
                assert(rev.take(n)[n - 1] == rev[n - 1]);
            }
            assert(table_view(reversed@) =~= rev.take(n - 1));
            kept.push(p);
            assert(table_view(kept@) =~= before.push(rev[n - 1]));
            assert(rev.skip(n - 1).reverse() =~= rev.skip(n).reverse().push(rev[n - 1]));
        }
        assert(rev.skip(0) =~= rev);
        kept
    }

    /// Picks the victim from a process table.
    ///
    /// A record is rejected when it is the init process, the daemon
    /// itself, exempt by its adjustment, a zombie or a kernel thread; when
    /// an `ignore` pattern matches it; or when it belongs to root while
    /// root is spared. Among the rest, the preferred records come first,
    /// then those not avoided, then the avoided ones; within a tier the
    /// highest ranking key wins, and among equal keys the earliest record.
    /// The result is `None` exactly when every record was rejected.
    pub fn select_victim(&self, processes: Vec<ProcessInfo>) -> (r: Option<ProcessInfo>)
        ensures
            match r {
                Some(v) => exists|k: int|
                    #![trigger table_view(processes@)[k]]
                    is_victim(self.config(), self.self_pid(), table_view(processes@), k) && v@
                        == table_view(processes@)[k],
                None => none_eligible(
                    standings_of(self.config(), self.self_pid(), table_view(processes@), true),
                ),
            },
            r matches Some(v) ==> is_killable_process(self.config(), self.self_pid(), v@),
            r matches Some(v) ==> v.pid != 1 && v.pid != self.self_pid() && v.oom_score_adj
                != OOM_SCORE_ADJ_PROTECTED && !v.is_zombie,
    {
        let mut table = processes;
        match choose_index(&self.config, self.self_pid, &table, true) {
            Some(k) => {
                let ghost views = table_view(processes@);
                let v = table.swap_remove(k);
                assert(v@ == views[k as int]);
                assert(is_victim(self.config(), self.self_pid(), views, k as int));
                assert(standings_of(self.config(), self.self_pid(), views, true)[k as int].eligible);
                Some(v)
            },
            None => None,
        }
    }

    /// Picks the best victim from candidates that already passed the
    /// filter: every candidate can be chosen, and the ranking decides as in
    /// [`ProcessSelector::select_victim`]. `None` only for an empty list.
    pub fn select_best_victim(&self, candidates: Vec<ProcessInfo>) -> (r: Option<ProcessInfo>)
        ensures
            match r {
                Some(v) => exists|k: int|
                    #![trigger table_view(candidates@)[k]]
                    is_best(
                        standings_of(self.config(), self.self_pid(), table_view(candidates@), false),
                        k,
                    ) && v@ == table_view(candidates@)[k],
                None => candidates@.len() == 0,
            },
    {
        let mut table = candidates;
        match choose_index(&self.config, self.self_pid, &table, false) {
            Some(k) => {
                let ghost views = table_view(candidates@);
                let v = table.swap_remove(k);
                assert(v@ == views[k as int]);
                Some(v)
            },
            None => {
                proof {
                    let s = standings_of(
                        self.config(),
                        self.self_pid(),
                        table_view(candidates@),
                        false,
                    );
                    if candidates@.len() > 0 {
                        assert(s[0].eligible);
                    }
                }
                None
            },
        }
    }

    /// Counts the table: all records, those that may be killed, and those
    /// that match a `prefer`, an `avoid` and an `ignore` pattern.
    pub fn get_statistics(&self, processes: &Vec<ProcessInfo>) -> (s: ProcessStatistics)
        ensures
            s.total == processes@.len(),
            s.killable == table_view(processes@).filter(
                |p: ProcessView| is_killable_process(self.config(), self.self_pid(), p),
            ).len(),
            s.preferred == table_view(processes@).filter(
                |p: ProcessView| matches_any(self.config().prefer, p),
            ).len(),
            s.avoided == table_view(processes@).filter(
                |p: ProcessView| matches_any(self.config().avoid, p),
            ).len(),
            s.ignored == table_view(processes@).filter(
                |p: ProcessView| matches_any(self.config().ignore, p),
            ).len(),
    {
        let ghost all = table_view(processes@);
        let ghost killable_p = |p: ProcessView|
            is_killable_process(self.config(), self.self_pid(), p);
        let ghost prefer_p = |p: ProcessView| matches_any(self.config().prefer, p);
        let ghost avoid_p = |p: ProcessView| matches_any(self.config().avoid, p);
        let ghost ignore_p = |p: ProcessView| matches_any(self.config().ignore, p);
        let mut killable: usize = 0;
        let mut preferred: usize = 0;
        let mut avoided: usize = 0;
        let mut ignored: usize = 0;
        let mut i: usize = 0;
        while i < processes.len()
            invariant
                i <= processes.len(),
                all == table_view(processes@),
                killable_p == |p: ProcessView|
                    is_killable_process(self.config(), self.self_pid(), p),
                prefer_p == |p: ProcessView| matches_any(self.config().prefer, p),
                avoid_p == |p: ProcessView| matches_any(self.config().avoid, p),
                ignore_p == |p: ProcessView| matches_any(self.config().ignore, p),
                killable == all.take(i as int).filter(killable_p).len(),
                preferred == all.take(i as int).filter(prefer_p).len(),
                avoided == all.take(i as int).filter(avoid_p).len(),
                ignored == all.take(i as int).filter(ignore_p).len(),
                killable <= i,
                preferred <= i,
                avoided <= i,
                ignored <= i,
            decreases processes.len() - i,
        {
            let p = &processes[i];
            proof {
                reveal(Seq::filter);
                assert(all.take(i + 1).drop_last() == all.take(i as int));
                assert(all.take(i + 1).last() == p@);
            }
            if self.is_killable(p) {
                killable = killable + 1;
            }
            if matches_patterns(&self.config.prefer, p) {
                preferred = preferred + 1;
            }
            if matches_patterns(&self.config.avoid, p) {
                avoided = avoided + 1;
            }
            if matches_patterns(&self.config.ignore, p) {
                ignored = ignored + 1;
            }
            i = i + 1;
        }
        assert(all.take(processes.len() as int) == all);
        ProcessStatistics { total: processes.len(), killable, preferred, avoided, ignored }
    }
}

} // verus!

//! Configuration: thresholds, cadence, selection policy and flags.

pub mod args;
pub mod env;
pub mod pattern;

pub use args::Args;
pub use env::{apply_env_overrides, parse_bool, EnvOverrides};
pub use pattern::{all_under_ceiling, compile_safe_regex, within_length_guard, Pattern};

use vstd::prelude::*;
use crate::percent::{percent_text, spec_parse_percent, Percent};
use crate::text::{
    chars_of, digits_of, drop_blanks_back, drop_blanks_back_in, find_char, find_char_in,
    optional_text, owned, parse_u64_in, push_decimal, skip_blanks, skip_blanks_in, spec_parse_u64,
};

verus! {

/// Which of the four percentage thresholds a report speaks of.
#[derive(Debug, Clone, Copy, PartialEq, Eq, Structural)]
pub enum ThresholdField {
    MemWarn,
    MemKill,
    SwapWarn,
    SwapKill,
}

/// Which environment variable a report speaks of.
#[derive(Debug, Clone, Copy, PartialEq, Eq, Structural)]
pub enum EnvVar {
    MemWarn,
    SwapWarn,
    MemKill,
    SwapKill,
    MemSizeWarn,
    SwapSizeWarn,
    MemSizeKill,
    SwapSizeKill,
    Interval,
    Report,
    SortByRss,
    DryRun,
    Debug,
    Notify,
    IgnoreRootUser,
    KillGroup,
    Priority,
}

/// Why a configuration was refused.
#[derive(Debug, Clone, Copy, PartialEq, Eq, Structural)]
pub enum ConfigError {
    /// A pattern has more than 256 characters.
    PatternTooLong,
    /// A pattern did not compile under the size ceiling.
    InvalidPattern,
    /// The warn part of a percentage pair is no decimal number: digits
    /// with at most one point among them, a sign allowed in front.
    InvalidThreshold,
    /// The kill part of a percentage pair is no decimal number of that
    /// form.
    InvalidKillThreshold,
    /// The warn part of a size pair is no number.
    InvalidSize,
    /// The kill part of a size pair is no number.
    InvalidKillSize,
    /// A text is none of the words that stand for true or false.
    InvalidBoolean,
    /// An environment variable holds no value of its kind.
    InvalidEnvValue(EnvVar),
    /// A percentage threshold lies outside `0..=100`.
    ThresholdOutOfRange(ThresholdField),
    /// The priority lies outside `-20..=19`.
    PriorityOutOfRange,
}

/// What a valid configuration may still be told about.
#[derive(Debug, Clone, Copy, PartialEq, Eq, Structural)]
pub enum ConfigWarning {
    /// The memory kill threshold is above the memory warn threshold.
    MemKillAboveWarn,
    /// The swap kill threshold is above the swap warn threshold.
    SwapKillAboveWarn,
    /// Memory has both a percentage and a size threshold; the size is used.
    MemSizeOverridesPercent,
    /// Swap has both a percentage and a size threshold; the size is used.
    SwapSizeOverridesPercent,
}

/// The daemon's settings, fixed at startup.
#[derive(Debug, Clone)]
pub struct Config {
    /// Memory warn threshold, percent of total.
    pub mem_threshold_warn: Percent,
    /// Memory kill threshold, percent of total.
    pub mem_threshold_kill: Percent,
    /// Swap warn threshold, percent of total.
    pub swap_threshold_warn: Percent,
    /// Swap kill threshold, percent of total.
    pub swap_threshold_kill: Percent,
    /// Memory warn threshold in KiB; overrides the percentage.
    pub mem_size_warn: Option<u64>,
    /// Memory kill threshold in KiB; overrides the percentage.
    pub mem_size_kill: Option<u64>,
    /// Swap warn threshold in KiB; overrides the percentage.
    pub swap_size_warn: Option<u64>,
    /// Swap kill threshold in KiB; overrides the percentage.
    pub swap_size_kill: Option<u64>,
    /// Seconds between two memory checks when the pace is fixed.
    pub check_interval: u64,
    /// Seconds between two status reports.
    pub report_interval: u64,
    /// Pace the checks by the distance from the warn thresholds.
    pub adaptive_sleep: bool,
    /// Rank by resident set size instead of the kernel's score.
    pub sort_by_rss: bool,
    /// Processes to kill first.
    pub prefer: Vec<Pattern>,
    /// Processes to kill last.
    pub avoid: Vec<Pattern>,
    /// Processes never to kill.
    pub ignore: Vec<Pattern>,
    /// Report what would be killed, kill nothing.
    pub dry_run: bool,
    /// Debug logging.
    pub debug: bool,
    /// Send notifications when a process is killed.
    pub notify: bool,
    /// Never kill a process of the root user.
    pub ignore_root_user: bool,
    /// Send desktop notifications.
    pub notify_dbus: bool,
    /// Script to run before a kill.
    pub pre_kill_script: Option<String>,
    /// Script to run after a kill.
    pub post_kill_script: Option<String>,
    /// Kill the whole process group.
    pub kill_group: bool,
    /// Scheduling priority of the daemon.
    pub priority: Option<i32>,
}

/// The settings as plain values: patterns by their text, paths by their
/// characters.
#[verifier::ext_equal]
pub struct ConfigView {
    pub mem_threshold_warn: Percent,
    pub mem_threshold_kill: Percent,
    pub swap_threshold_warn: Percent,
    pub swap_threshold_kill: Percent,
    pub mem_size_warn: Option<u64>,
    pub mem_size_kill: Option<u64>,
    pub swap_size_warn: Option<u64>,
    pub swap_size_kill: Option<u64>,
    pub check_interval: u64,
    pub report_interval: u64,
    pub adaptive_sleep: bool,
    pub sort_by_rss: bool,
    pub prefer: Seq<Seq<char>>,
    pub avoid: Seq<Seq<char>>,
    pub ignore: Seq<Seq<char>>,
    pub dry_run: bool,
    pub debug: bool,
    pub notify: bool,
    pub ignore_root_user: bool,
    pub notify_dbus: bool,
    pub pre_kill_script: Option<Seq<char>>,
    pub post_kill_script: Option<Seq<char>>,
    pub kill_group: bool,
    pub priority: Option<i32>,
}

/// The texts of a list of patterns.
pub open spec fn pattern_texts(patterns: Seq<Pattern>) -> Seq<Seq<char>> {
    patterns.map_values(|p: Pattern| p@)
}

impl View for Config {
    type V = ConfigView;

    open spec fn view(&self) -> ConfigView {
        ConfigView {
            mem_threshold_warn: self.mem_threshold_warn,
            mem_threshold_kill: self.mem_threshold_kill,
            swap_threshold_warn: self.swap_threshold_warn,
            swap_threshold_kill: self.swap_threshold_kill,
            mem_size_warn: self.mem_size_warn,
            mem_size_kill: self.mem_size_kill,
            swap_size_warn: self.swap_size_warn,
            swap_size_kill: self.swap_size_kill,
            check_interval: self.check_interval,
            report_interval: self.report_interval,
            adaptive_sleep: self.adaptive_sleep,
            sort_by_rss: self.sort_by_rss,
            prefer: pattern_texts(self.prefer@),
            avoid: pattern_texts(self.avoid@),
            ignore: pattern_texts(self.ignore@),
            dry_run: self.dry_run,
            debug: self.debug,
            notify: self.notify,
            ignore_root_user: self.ignore_root_user,
            notify_dbus: self.notify_dbus,
            pre_kill_script: optional_text(self.pre_kill_script),
            post_kill_script: optional_text(self.post_kill_script),
            kill_group: self.kill_group,
            priority: self.priority,
        }
    }
}

impl ConfigView {
    /// The settings that hold where nothing is configured: warn at 10% and
    /// kill at 5% for memory and swap, a check every second at most, a
    /// report every minute, adaptive pacing, and every list and flag empty.
    pub open spec fn defaults() -> ConfigView {
        ConfigView {
            mem_threshold_warn: Percent { millis: 10_000 },
            mem_threshold_kill: Percent { millis: 5_000 },
            swap_threshold_warn: Percent { millis: 10_000 },
            swap_threshold_kill: Percent { millis: 5_000 },
            mem_size_warn: None,
            mem_size_kill: None,
            swap_size_warn: None,
            swap_size_kill: None,
            check_interval: 1,
            report_interval: 60,
            adaptive_sleep: true,
            sort_by_rss: false,
            prefer: Seq::empty(),
            avoid: Seq::empty(),
            ignore: Seq::empty(),
            dry_run: false,
            debug: false,
            notify: false,
            ignore_root_user: false,
            notify_dbus: false,
            pre_kill_script: None,
            post_kill_script: None,
            kill_group: false,
            priority: None,
        }
    }

    /// The first rule that the settings break, in the order in which the
    /// rules are checked: the four percentages lie in `0..=100`, then the
    /// priority lies in `-20..=19`.
    pub open spec fn first_violation(self) -> Option<ConfigError> {
        if !self.mem_threshold_warn.in_range() {
            Some(ConfigError::ThresholdOutOfRange(ThresholdField::MemWarn))
        } else if !self.mem_threshold_kill.in_range() {
            Some(ConfigError::ThresholdOutOfRange(ThresholdField::MemKill))
        } else if !self.swap_threshold_warn.in_range() {
            Some(ConfigError::ThresholdOutOfRange(ThresholdField::SwapWarn))
        } else if !self.swap_threshold_kill.in_range() {
            Some(ConfigError::ThresholdOutOfRange(ThresholdField::SwapKill))
        } else if self.priority matches Some(p) && !(-20 <= p <= 19) {
            Some(ConfigError::PriorityOutOfRange)
        } else {
            None
        }
    }

    /// The settings pass validation.
    pub open spec fn valid(self) -> bool {
        self.first_violation() is None
    }

    /// Neither kill threshold is above its warn threshold.
    pub open spec fn kill_within_warn(self) -> bool {
        &&& self.mem_threshold_kill.millis <= self.mem_threshold_warn.millis
        &&& self.swap_threshold_kill.millis <= self.swap_threshold_warn.millis
    }

    /// The warnings that the settings earn, in the order in which they are
    /// raised.
    pub open spec fn warnings(self) -> Seq<ConfigWarning> {
        let a = if self.mem_threshold_kill.millis > self.mem_threshold_warn.millis {
            seq![ConfigWarning::MemKillAboveWarn]
        } else {
            Seq::empty()
        };
        let b = if self.swap_threshold_kill.millis > self.swap_threshold_warn.millis {
            seq![ConfigWarning::SwapKillAboveWarn]
        } else {
            Seq::empty()
        };
        let c = if self.mem_size_warn is Some && self.mem_threshold_warn.millis != 10_000 {
            seq![ConfigWarning::MemSizeOverridesPercent]
        } else {
            Seq::empty()
        };
        let d = if self.swap_size_warn is Some && self.swap_threshold_warn.millis != 10_000 {
            seq![ConfigWarning::SwapSizeOverridesPercent]
        } else {
            Seq::empty()
        };
        a + b + c + d
    }
}

/// The texts of a list of strings.
pub open spec fn texts(v: Seq<String>) -> Seq<Seq<char>> {
    v.map_values(|s: String| s@)
}

/// Every pattern of the list is within the length guard.
pub open spec fn all_within_guard(v: Seq<String>) -> bool {
    forall|i: int| 0 <= i < v.len() ==> within_length_guard(#[trigger] v[i]@)
}

/// The percentage pair that results: the one written, where one is
/// written, else the current one.
pub open spec fn percent_pair_or(v: Option<String>, current: (Percent, Percent)) -> Result<
    (Percent, Percent),
    ConfigError,
> {
    match v {
        Some(t) => spec_parse_threshold_pair(t@),
        None => Ok(current),
    }
}

/// The size pair that results: the one written, where one is written, else
/// none.
pub open spec fn size_pair_or(v: Option<String>) -> Result<(Option<u64>, Option<u64>), ConfigError> {
    match v {
        Some(t) => match spec_parse_size_pair(t@) {
            Ok((w, k)) => Ok((Some(w), Some(k))),
            Err(e) => Err(e),
        },
        None => Ok((None, None)),
    }
}

/// The default settings with the thresholds that the command line writes:
/// the memory percentages, the swap percentages, the memory sizes and the
/// swap sizes, read in this order; the first that cannot be read is the
/// error.
#[verifier::opaque]
pub open spec fn spec_thresholds(args: Args) -> Result<ConfigView, ConfigError> {
    let d = ConfigView::defaults();
    match percent_pair_or(args.mem_threshold, (d.mem_threshold_warn, d.mem_threshold_kill)) {
        Err(e) => Err(e),
        Ok(mem) => match percent_pair_or(
            args.swap_threshold,
            (d.swap_threshold_warn, d.swap_threshold_kill),
        ) {
            Err(e) => Err(e),
            Ok(swap) => match size_pair_or(args.mem_size_kb) {
                Err(e) => Err(e),
                Ok(mem_size) => match size_pair_or(args.swap_size_kb) {
                    Err(e) => Err(e),
                    Ok(swap_size) => Ok(
                        ConfigView {
                            mem_threshold_warn: mem.0,
                            mem_threshold_kill: mem.1,
                            swap_threshold_warn: swap.0,
                            swap_threshold_kill: swap.1,
                            mem_size_warn: mem_size.0,
                            mem_size_kill: mem_size.1,
                            swap_size_warn: swap_size.0,
                            swap_size_kill: swap_size.1,
                            ..d
                        },
                    ),
                },
            },
        },
    }
}

/// The settings `base` with the cadence, the flags, the scripts and the
/// priority of the command line, and with the given pattern texts.
#[verifier::opaque]
pub open spec fn spec_settings(
    base: ConfigView,
    args: Args,
    prefer: Seq<Seq<char>>,
    avoid: Seq<Seq<char>>,
    ignore: Seq<Seq<char>>,
) -> ConfigView {
    ConfigView {
        check_interval: match args.interval {
            Some(n) => n,
            None => base.check_interval,
        },
        report_interval: match args.report {
            Some(n) => n,
            None => base.report_interval,
        },
        sort_by_rss: args.sort_by_rss,
        prefer,
        avoid,
        ignore,
        dry_run: args.dry_run,
        debug: args.debug,
        notify: args.notify,
        ignore_root_user: args.ignore_root_user,
        pre_kill_script: optional_text(args.pre_kill_script),
        post_kill_script: optional_text(args.post_kill_script),
        kill_group: args.kill_group,
        priority: args.priority,
        ..base
    }
}

/// The settings `c` after the environment's overrides and validation: the
/// first unreadable variable is the error, else the first rule that the
/// overridden settings break, else the overridden settings.
#[verifier::opaque]
pub open spec fn spec_finish(c: ConfigView, env: EnvOverrides) -> Result<ConfigView, ConfigError> {
    match env.first_bad() {
        Some(var) => Err(ConfigError::InvalidEnvValue(var)),
        None => match env.applied_to(c).first_violation() {
            Some(e) => Err(e),
            None => Ok(env.applied_to(c)),
        },
    }
}

/// An error that only a pattern can cause.
pub open spec fn is_pattern_error(e: ConfigError) -> bool {
    e == ConfigError::PatternTooLong || e == ConfigError::InvalidPattern
}

/// The blank-trimmed part of `s` that lies in `from..end`.
pub open spec fn trimmed_part(s: Seq<char>, from: int, end: int) -> Seq<char> {
    let a = skip_blanks(s, from, end);
    let b = drop_blanks_back(s, a, end);
    s.subrange(a, b)
}

/// The warn text of a pair `WARN[,KILL]`: what stands before the first
/// comma, trimmed.
pub open spec fn pair_warn_text(s: Seq<char>) -> Seq<char> {
    trimmed_part(s, 0, find_char(s, 0, ','))
}

/// The kill text of a pair `WARN,KILL`: what stands between the first comma
/// and the second (or the end), trimmed. `None` where there is no comma.
pub open spec fn pair_kill_text(s: Seq<char>) -> Option<Seq<char>> {
    let comma = find_char(s, 0, ',');
    if comma < s.len() {
        Some(trimmed_part(s, comma + 1, find_char(s, comma + 1, ',')))
    } else {
        None
    }
}

/// What a percentage pair `WARN[,KILL]` holds. Without a kill part the
/// kill threshold is half the warn threshold.
pub open spec fn spec_parse_threshold_pair(s: Seq<char>) -> Result<(Percent, Percent), ConfigError> {
    match spec_parse_percent(pair_warn_text(s)) {
        None => Err(ConfigError::InvalidThreshold),
        Some(warn) => match pair_kill_text(s) {
            None => Ok((warn, warn.spec_half())),
            Some(text) => match spec_parse_percent(text) {
                None => Err(ConfigError::InvalidKillThreshold),
                Some(kill) => Ok((warn, kill)),
            },
        },
    }
}

/// What a size pair `SIZE[,KILL_SIZE]` holds, in KiB. Without a kill part
/// the kill size is half the warn size, rounded down.
pub open spec fn spec_parse_size_pair(s: Seq<char>) -> Result<(u64, u64), ConfigError> {
    match spec_parse_u64(pair_warn_text(s)) {
        None => Err(ConfigError::InvalidSize),
        Some(warn) => match pair_kill_text(s) {
            None => Ok((warn, (warn / 2) as u64)),
            Some(text) => match spec_parse_u64(text) {
                None => Err(ConfigError::InvalidKillSize),
                Some(kill) => Ok((warn, kill)),
            },
        },
    }
}

/// The bounds of the trimmed warn part and, where there is a comma, of the
/// trimmed kill part of the pair held in `v`.
fn pair_bounds(v: &Vec<char>) -> (r: (usize, usize, Option<(usize, usize)>))
    ensures
        r.0 <= r.1 <= v.len(),
        v@.subrange(r.0 as int, r.1 as int) == pair_warn_text(v@),
        match r.2 {
            Some((a, b)) => a <= b <= v.len() && pair_kill_text(v@) == Some(
                v@.subrange(a as int, b as int),
            ),
            None => pair_kill_text(v@) is None,
        },
{
    let comma = find_char_in(v, 0, ',');
    let a = skip_blanks_in(v, 0, comma);
    let b = drop_blanks_back_in(v, a, comma);
    if comma < v.len() {
        let second = find_char_in(v, comma + 1, ',');
        let c = skip_blanks_in(v, comma + 1, second);
        let d = drop_blanks_back_in(v, c, second);
        (a, b, Some((c, d)))
    } else {
        (a, b, None)
    }
}

/// Reads a percentage pair `WARN` or `WARN,KILL`.
///
/// Each part is trimmed of blanks and read as a decimal number such as
/// `10`, `7.5` or `.5`, rounded down to a thousandth of a percent; an
/// exponent is not read. What follows a second comma is ignored. Without
/// a kill part the kill threshold is half the warn threshold.
pub fn parse_threshold_pair(s: &str) -> (r: Result<(Percent, Percent), ConfigError>)
    ensures
        r == spec_parse_threshold_pair(s@),
{
    let v = chars_of(s);
    let (a, b, kill_part) = pair_bounds(&v);
    match Percent::parse_in(&v, a, b) {
        None => Err(ConfigError::InvalidThreshold),
        Some(warn) => match kill_part {
            None => Ok((warn, warn.half())),
            Some((c, d)) => match Percent::parse_in(&v, c, d) {
                None => Err(ConfigError::InvalidKillThreshold),
                Some(kill) => Ok((warn, kill)),
            },
        },
    }
}

/// Reads a size pair `SIZE` or `SIZE,KILL_SIZE`, in KiB.
///
/// Each part is trimmed of blanks and read as a `u64`; what follows a
/// second comma is ignored. Without a kill part the kill size is half the
/// warn size, rounded down.
pub fn parse_size_pair(s: &str) -> (r: Result<(u64, u64), ConfigError>)
    ensures
        r == spec_parse_size_pair(s@),
{
    let v = chars_of(s);
    let (a, b, kill_part) = pair_bounds(&v);
    match parse_u64_in(&v, a, b) {
        None => Err(ConfigError::InvalidSize),
        Some(warn) => match kill_part {
            None => Ok((warn, warn / 2)),
            Some((c, d)) => match parse_u64_in(&v, c, d) {
                None => Err(ConfigError::InvalidKillSize),
                Some(kill) => Ok((warn, kill)),
            },
        },
    }
}

/// Compiles every pattern of a list, in order, under the safety limits.
///
/// `Ok` holds one compiled expression per pattern, for exactly its text
/// and compiled under the 10 MiB ceiling, and comes only where every
/// pattern is within the length guard. An
/// empty list always gives `Ok`. `Err(PatternTooLong)` comes only where
/// some pattern is over the guard, and always where the first one is; the
/// other error is `InvalidPattern`.
pub fn compile_patterns(patterns: &Vec<String>) -> (r: Result<Vec<Pattern>, ConfigError>)
    ensures
        match r {
            Ok(ps) => all_within_guard(patterns@) && pattern_texts(ps@) == texts(patterns@)
                && all_under_ceiling(ps@),
            Err(e) => patterns@.len() > 0 && is_pattern_error(e) && (e
                == ConfigError::PatternTooLong ==> !all_within_guard(patterns@)),
        },
        patterns@.len() > 0 && !within_length_guard(patterns@[0]@) ==> r == Err::<
            Vec<Pattern>,
            ConfigError,
        >(ConfigError::PatternTooLong),
{
    let mut out: Vec<Pattern> = Vec::new();
    let mut i: usize = 0;
    while i < patterns.len()
        invariant
            i <= patterns.len(),
            out@.len() == i,
            forall|j: int| 0 <= j < i ==> within_length_guard(#[trigger] patterns@[j]@),
            forall|j: int| 0 <= j < i ==> (#[trigger] out@[j])@ == patterns@[j]@,
            all_under_ceiling(out@),
        decreases patterns.len() - i,
    {
        match compile_safe_regex(patterns[i].as_str()) {
            Ok(p) => {
                out.push(p);
            },
            Err(e) => {
                return Err(e);
            },
        }
        i = i + 1;
    }
    assert(pattern_texts(out@) =~= texts(patterns@));
    Ok(out)
}

fn percent_pair_from(v: &Option<String>, current: (Percent, Percent)) -> (r: Result<
    (Percent, Percent),
    ConfigError,
>)
    ensures
        r == percent_pair_or(*v, current),
{
    match v {
        Some(t) => parse_threshold_pair(t.as_str()),
        None => Ok(current),
    }
}

fn size_pair_from(v: &Option<String>) -> (r: Result<(Option<u64>, Option<u64>), ConfigError>)
    ensures
        r == size_pair_or(*v),
{
    match v {
        Some(t) => match parse_size_pair(t.as_str()) {
            Ok((w, k)) => Ok((Some(w), Some(k))),
            Err(e) => Err(e),
        },
        None => Ok((None, None)),
    }
}

/// The text of a percentage pair: the warn percentage, a comma, the kill
/// percentage, each in its canonical form.
pub open spec fn threshold_pair_text(warn: Percent, kill: Percent) -> Seq<char> {
    percent_text(warn) + seq![','] + percent_text(kill)
}

/// The text of a size pair: the warn size, a comma, the kill size, each
/// in decimal.
pub open spec fn size_pair_text(warn: u64, kill: u64) -> Seq<char> {
    digits_of(warn as nat) + seq![','] + digits_of(kill as nat)
}

/// Writes a percentage pair as `WARN,KILL`.
pub fn format_threshold_pair(warn: Percent, kill: Percent) -> (text: String)
    ensures
        text@ == threshold_pair_text(warn, kill),
{
    let mut text = String::new();
    warn.push_to(&mut text);
    text.push(',');
    kill.push_to(&mut text);
    assert(text@ == threshold_pair_text(warn, kill)) by {
        assert(Seq::<char>::empty() + percent_text(warn) == percent_text(warn));
        assert(percent_text(warn).push(',') == percent_text(warn) + seq![',']);
    }
    text
}

/// Writes a size pair as `SIZE,KILL_SIZE`.
pub fn format_size_pair(warn: u64, kill: u64) -> (text: String)
    ensures
        text@ == size_pair_text(warn, kill),
{
    let mut text = String::new();
    push_decimal(&mut text, warn as u128);
    text.push(',');
    push_decimal(&mut text, kill as u128);
    assert(text@ == size_pair_text(warn, kill)) by {
        assert(Seq::<char>::empty() + digits_of(warn as nat) == digits_of(warn as nat));
        assert(digits_of(warn as nat).push(',') == digits_of(warn as nat) + seq![',']);
    }
    text
}

impl ConfigError {
    /// A one-line description of the error.
    pub fn message(&self) -> (text: String)
        ensures
            text@ == self.spec_message(),
    {
        match self {
            ConfigError::PatternTooLong => owned("Regex pattern too long (max 256 chars)"),
            ConfigError::InvalidPattern => owned("Invalid regex pattern"),
            ConfigError::InvalidThreshold => owned(
                "Invalid threshold value: expected a decimal number such as 10 or 7.5, without an exponent",
            ),
            ConfigError::InvalidKillThreshold => owned(
                "Invalid kill threshold: expected a decimal number such as 5 or 2.5, without an exponent",
            ),
            ConfigError::InvalidSize => owned("Invalid size value"),
            ConfigError::InvalidKillSize => owned("Invalid kill size"),
            ConfigError::InvalidBoolean => owned("Invalid boolean value"),
            ConfigError::InvalidEnvValue(_) => owned("Invalid value in environment variable"),
            ConfigError::ThresholdOutOfRange(field) => match field {
                ThresholdField::MemWarn => owned("mem_threshold_warn must be between 0 and 100"),
                ThresholdField::MemKill => owned("mem_threshold_kill must be between 0 and 100"),
                ThresholdField::SwapWarn => owned(
                    "swap_threshold_warn must be between 0 and 100",
                ),
                ThresholdField::SwapKill => owned(
                    "swap_threshold_kill must be between 0 and 100",
                ),
            },
            ConfigError::PriorityOutOfRange => owned("priority must be between -20 and 19"),
        }
    }

    /// The text that [`ConfigError::message`] gives.
    pub open spec fn spec_message(self) -> Seq<char> {
        match self {
            ConfigError::PatternTooLong => "Regex pattern too long (max 256 chars)"@,
            ConfigError::InvalidPattern => "Invalid regex pattern"@,
            ConfigError::InvalidThreshold => "Invalid threshold value: expected a decimal number such as 10 or 7.5, without an exponent"@,
            ConfigError::InvalidKillThreshold => "Invalid kill threshold: expected a decimal number such as 5 or 2.5, without an exponent"@,
            ConfigError::InvalidSize => "Invalid size value"@,
            ConfigError::InvalidKillSize => "Invalid kill size"@,
            ConfigError::InvalidBoolean => "Invalid boolean value"@,
            ConfigError::InvalidEnvValue(_) => "Invalid value in environment variable"@,
            ConfigError::ThresholdOutOfRange(field) => match field {
                ThresholdField::MemWarn => "mem_threshold_warn must be between 0 and 100"@,
                ThresholdField::MemKill => "mem_threshold_kill must be between 0 and 100"@,
                ThresholdField::SwapWarn => "swap_threshold_warn must be between 0 and 100"@,
                ThresholdField::SwapKill => "swap_threshold_kill must be between 0 and 100"@,
            },
            ConfigError::PriorityOutOfRange => "priority must be between -20 and 19"@,
        }
    }
}

impl Config {
    /// Builds the configuration from the command line and the environment.
    ///
    /// The steps, in order: the threshold pairs are read over the defaults
    /// ([`spec_thresholds`]); the `prefer`, `avoid` and `ignore` patterns
    /// are compiled; cadence, flags, scripts and priority are taken
    /// ([`spec_settings`]); the environment overrides what it names and the
    /// result is validated ([`spec_finish`]). The first step that fails
    /// gives the error.
    ///
    /// Whether a pattern within the length guard compiles is the
    /// compiler's answer. So the result is fixed where there is no pattern
    /// at all; a pattern over the guard always gives an error; and any
    /// result that is `Ok`, or an error that no pattern can cause, is the
    /// one that [`spec_finish`] gives for the patterns as written. Every
    /// pattern of an `Ok` result was compiled under the 10 MiB ceiling.
    pub fn from_args(args: Args, env: &EnvOverrides) -> (r: Result<Config, ConfigError>)
        ensures
            match spec_thresholds(args) {
                Err(e) => r == Err::<Config, ConfigError>(e),
                Ok(base) => {
                    let want = spec_settings(
                        base,
                        args,
                        texts(args.prefer@),
                        texts(args.avoid@),
                        texts(args.ignore@),
                    );
                    let guarded = all_within_guard(args.prefer@) && all_within_guard(
                        args.avoid@,
                    ) && all_within_guard(args.ignore@);
                    let unpatterned = args.prefer@.len() == 0 && args.avoid@.len() == 0
                        && args.ignore@.len() == 0;
                    match r {
                        Ok(c) => guarded && spec_finish(want, *env) == Ok::<
                            ConfigView,
                            ConfigError,
                        >(c@) && all_under_ceiling(c.prefer@) && all_under_ceiling(c.avoid@)
                            && all_under_ceiling(c.ignore@),
                        Err(e) => if is_pattern_error(e) {
                            !unpatterned && (e == ConfigError::PatternTooLong ==> !guarded)
                        } else {
                            guarded && spec_finish(want, *env) == Err::<ConfigView, ConfigError>(e)
                        },
                    }
                },
            },
    {
        let base = Config::with_thresholds(&args)?;
        let prefer = compile_patterns(&args.prefer)?;
        let avoid = compile_patterns(&args.avoid)?;
        let ignore = compile_patterns(&args.ignore)?;
        Config::assemble(base, args, prefer, avoid, ignore, env)
    }

    /// The configuration once the patterns are compiled: `base` with the
    /// cadence, flags, scripts and priority of the command line and with
    /// the compiled patterns, then overridden by the environment and
    /// validated. The error is the first unreadable variable, else the
    /// first rule broken. The compiled patterns are kept as they are
    /// given.
    pub fn assemble(
        base: Config,
        args: Args,
        prefer: Vec<Pattern>,
        avoid: Vec<Pattern>,
        ignore: Vec<Pattern>,
        env: &EnvOverrides,
    ) -> (r: Result<Config, ConfigError>)
        ensures
            match spec_finish(
                spec_settings(
                    base@,
                    args,
                    pattern_texts(prefer@),
                    pattern_texts(avoid@),
                    pattern_texts(ignore@),
                ),
                *env,
            ) {
                Err(e) => r == Err::<Config, ConfigError>(e),
                Ok(want) => r matches Ok(c) && c@ == want,
            },
            r matches Err(e) ==> !is_pattern_error(e),
            r matches Ok(c) ==> c.prefer@ == prefer@ && c.avoid@ == avoid@ && c.ignore@
                == ignore@,
    {
        let config = Config::with_settings(base, args, prefer, avoid, ignore);
        Config::finish(config, env)
    }

    /// The default settings with the thresholds that the command line
    /// writes; the error is that of the first pair that cannot be read.
    pub fn with_thresholds(args: &Args) -> (r: Result<Config, ConfigError>)
        ensures
            match spec_thresholds(*args) {
                Err(e) => r == Err::<Config, ConfigError>(e),
                Ok(base) => r matches Ok(c) && c@ == base,
            },
    {
        proof {
            reveal(spec_thresholds);
        }
        let d = Config::default();
        let mem = percent_pair_from(
            &args.mem_threshold,
            (d.mem_threshold_warn, d.mem_threshold_kill),
        )?;
        let swap = percent_pair_from(
            &args.swap_threshold,
            (d.swap_threshold_warn, d.swap_threshold_kill),
        )?;
        let mem_size = size_pair_from(&args.mem_size_kb)?;
        let swap_size = size_pair_from(&args.swap_size_kb)?;
        let c = Config {
            mem_threshold_warn: mem.0,
            mem_threshold_kill: mem.1,
            swap_threshold_warn: swap.0,
            swap_threshold_kill: swap.1,
            mem_size_warn: mem_size.0,
            mem_size_kill: mem_size.1,
            swap_size_warn: swap_size.0,
            swap_size_kill: swap_size.1,
            ..d
        };
        assert(c@ =~= spec_thresholds(*args)->Ok_0);
        Ok(c)
    }

    /// The settings `base` with the cadence, flags, scripts and priority of
    /// the command line and with the compiled patterns.
    fn with_settings(
        base: Config,
        args: Args,
        prefer: Vec<Pattern>,
        avoid: Vec<Pattern>,
        ignore: Vec<Pattern>,
    ) -> (c: Config)
        ensures
            c@ == spec_settings(
                base@,
                args,
                pattern_texts(prefer@),
                pattern_texts(avoid@),
                pattern_texts(ignore@),
            ),
            c.prefer@ == prefer@,
            c.avoid@ == avoid@,
            c.ignore@ == ignore@,
    {
        proof {
            reveal(spec_settings);
        }
        let c = Config {
            check_interval: match args.interval {
                Some(n) => n,
                None => base.check_interval,
            },
            report_interval: match args.report {
                Some(n) => n,
                None => base.report_interval,
            },
            sort_by_rss: args.sort_by_rss,
            prefer,
            avoid,
            ignore,
            dry_run: args.dry_run,
            debug: args.debug,
            notify: args.notify,
            ignore_root_user: args.ignore_root_user,
            pre_kill_script: args.pre_kill_script,
            post_kill_script: args.post_kill_script,
            kill_group: args.kill_group,
            priority: args.priority,
            ..base
        };
        assert(c@ =~= spec_settings(
            base@,
            args,
            pattern_texts(prefer@),
            pattern_texts(avoid@),
            pattern_texts(ignore@),
        ));
        c
    }

    /// The environment's overrides, then validation.
    fn finish(config: Config, env: &EnvOverrides) -> (r: Result<Config, ConfigError>)
        ensures
            match spec_finish(config@, *env) {
                Err(e) => r == Err::<Config, ConfigError>(e),
                Ok(want) => r matches Ok(c) && c@ == want,
            },
            r matches Err(e) ==> !is_pattern_error(e),
            r matches Ok(c) ==> c.prefer@ == config.prefer@ && c.avoid@ == config.avoid@
                && c.ignore@ == config.ignore@,
    {
        proof {
            reveal(spec_finish);
        }
        let config = apply_env_overrides(config, env)?;
        match config.validate() {
            Ok(()) => Ok(config),
            Err(e) => Err(e),
        }
    }

    /// Checks the settings: the four percentages lie in `0..=100` and the
    /// priority, where one is set, in `-20..=19`. The error is the first
    /// rule broken, in that order. A kill threshold above its warn threshold
    /// is no error: see [`Config::warnings`].
    pub fn validate(&self) -> (r: Result<(), ConfigError>)
        ensures
            match self@.first_violation() {
                Some(e) => r == Err::<(), ConfigError>(e),
                None => r == Ok::<(), ConfigError>(()),
            },
    {
        if !self.mem_threshold_warn.is_in_range() {
            return Err(ConfigError::ThresholdOutOfRange(ThresholdField::MemWarn));
        }
        if !self.mem_threshold_kill.is_in_range() {
            return Err(ConfigError::ThresholdOutOfRange(ThresholdField::MemKill));
        }
        if !self.swap_threshold_warn.is_in_range() {
            return Err(ConfigError::ThresholdOutOfRange(ThresholdField::SwapWarn));
        }
        if !self.swap_threshold_kill.is_in_range() {
            return Err(ConfigError::ThresholdOutOfRange(ThresholdField::SwapKill));
        }
        match self.priority {
            Some(p) => {
                if p < -20 || p > 19 {
                    return Err(ConfigError::PriorityOutOfRange);
                }
            },
            None => {},
        }
        Ok(())
    }

    /// What a valid configuration is still warned about: a kill threshold
    /// above its warn threshold, and a size threshold that overrides a
    /// percentage other than the default.
    pub fn warnings(&self) -> (w: Vec<ConfigWarning>)
        ensures
            w@ == self@.warnings(),
    {
        let mut w: Vec<ConfigWarning> = Vec::new();
        if self.mem_threshold_kill.millis > self.mem_threshold_warn.millis {
            w.push(ConfigWarning::MemKillAboveWarn);
        }
        if self.swap_threshold_kill.millis > self.swap_threshold_warn.millis {
            w.push(ConfigWarning::SwapKillAboveWarn);
        }
        if self.mem_size_warn.is_some() && self.mem_threshold_warn.millis != 10_000 {
            w.push(ConfigWarning::MemSizeOverridesPercent);
        }
        if self.swap_size_warn.is_some() && self.swap_threshold_warn.millis != 10_000 {
            w.push(ConfigWarning::SwapSizeOverridesPercent);
        }
        w
    }
}

impl Default for Config {
    fn default() -> (c: Config)
        ensures
            c@ == ConfigView::defaults(),
    {
        let c = Config {
            mem_threshold_warn: Percent { millis: 10_000 },
            mem_threshold_kill: Percent { millis: 5_000 },
            swap_threshold_warn: Percent { millis: 10_000 },
            swap_threshold_kill: Percent { millis: 5_000 },
            mem_size_warn: None,
            mem_size_kill: None,
            swap_size_warn: None,
            swap_size_kill: None,
            check_interval: 1,
            report_interval: 60,
            adaptive_sleep: true,
            sort_by_rss: false,
            prefer: Vec::new(),
            avoid: Vec::new(),
            ignore: Vec::new(),
            dry_run: false,
            debug: false,
            notify: false,
            ignore_root_user: false,
            notify_dbus: false,
            pre_kill_script: None,
            post_kill_script: None,
            kill_group: false,
            priority: None,
        };
        assert(c@ =~= ConfigView::defaults());
        c
    }
}

} // verus!

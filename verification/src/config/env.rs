//! Overrides from the environment.

use vstd::prelude::*;
use crate::config::{Config, ConfigError, ConfigView, EnvVar};
use crate::percent::{spec_parse_percent, Percent};
use crate::text::{chars_of, parse_i32, parse_u64, spec_parse_i32, spec_parse_u64, spells};

verus! {

/// The values of the daemon's environment variables, each as it was found;
/// `None` for a variable that is not set.
#[derive(Debug, Clone)]
pub struct EnvOverrides {
    /// `OOM_GUARD_MEM_WARN`
    pub mem_warn: Option<String>,
    /// `OOM_GUARD_SWAP_WARN`
    pub swap_warn: Option<String>,
    /// `OOM_GUARD_MEM_KILL`
    pub mem_kill: Option<String>,
    /// `OOM_GUARD_SWAP_KILL`
    pub swap_kill: Option<String>,
    /// `OOM_GUARD_MEM_SIZE_WARN`
    pub mem_size_warn: Option<String>,
    /// `OOM_GUARD_SWAP_SIZE_WARN`
    pub swap_size_warn: Option<String>,
    /// `OOM_GUARD_MEM_SIZE_KILL`
    pub mem_size_kill: Option<String>,
    /// `OOM_GUARD_SWAP_SIZE_KILL`
    pub swap_size_kill: Option<String>,
    /// `OOM_GUARD_INTERVAL`
    pub interval: Option<String>,
    /// `OOM_GUARD_REPORT`
    pub report: Option<String>,
    /// `OOM_GUARD_SORT_BY_RSS`
    pub sort_by_rss: Option<String>,
    /// `OOM_GUARD_DRY_RUN`
    pub dry_run: Option<String>,
    /// `OOM_GUARD_DEBUG`
    pub debug: Option<String>,
    /// `OOM_GUARD_NOTIFY`
    pub notify: Option<String>,
    /// `OOM_GUARD_IGNORE_ROOT_USER`
    pub ignore_root_user: Option<String>,
    /// `OOM_GUARD_KILL_GROUP`
    pub kill_group: Option<String>,
    /// `OOM_GUARD_PRIORITY`
    pub priority: Option<String>,
}

/// The lower-case form of an ASCII capital; any other character itself.
pub open spec fn ascii_lower(c: char) -> char {
    if 0x41 <= (c as u32) && (c as u32) <= 0x5a {
        (((c as u32) + 0x20) as u8) as char
    } else {
        c
    }
}

/// `s` with every ASCII capital in lower case.
pub open spec fn lowered(s: Seq<char>) -> Seq<char> {
    s.map_values(|c: char| ascii_lower(c))
}

/// What a text says as a boolean: `true`, `1`, `yes` and `on` are true,
/// `false`, `0`, `no` and `off` are false, in any mix of upper and lower
/// case; every other text says nothing.
pub open spec fn spec_parse_bool(s: Seq<char>) -> Option<bool> {
    let l = lowered(s);
    if l == "true"@ || l == "1"@ || l == "yes"@ || l == "on"@ {
        Some(true)
    } else if l == "false"@ || l == "0"@ || l == "no"@ || l == "off"@ {
        Some(false)
    } else {
        None
    }
}

/// Reads a boolean: `true`, `1`, `yes`, `on`, `false`, `0`, `no` or `off`,
/// in any mix of upper and lower case. Any other text is
/// `Err(InvalidBoolean)`.
pub fn parse_bool(s: &str) -> (r: Result<bool, ConfigError>)
    ensures
        match spec_parse_bool(s@) {
            Some(b) => r == Ok::<bool, ConfigError>(b),
            None => r == Err::<bool, ConfigError>(ConfigError::InvalidBoolean),
        },
{
    let v = chars_of(s);
    let mut l: Vec<char> = Vec::new();
    let mut i: usize = 0;
    while i < v.len()
        invariant
            i <= v.len(),
            v@ == s@,
            l@ == lowered(s@.take(i as int)),
        decreases v.len() - i,
    {
        let c = v[i];
        let code: u32 = c as u32;
        let lower = if 0x41 <= code && code <= 0x5a {
            ((code + 0x20) as u8) as char
        } else {
            c
        };
        l.push(lower);
        assert(s@.take(i + 1) == s@.take(i as int).push(c));
        i = i + 1;
    }
    assert(s@.take(v.len() as int) == s@);
    assert(l@.subrange(0, l@.len() as int) == l@);
    let n = l.len();
    if spells(&l, 0, n, "true") || spells(&l, 0, n, "1") || spells(&l, 0, n, "yes") || spells(
        &l,
        0,
        n,
        "on",
    ) {
        Ok(true)
    } else if spells(&l, 0, n, "false") || spells(&l, 0, n, "0") || spells(&l, 0, n, "no")
        || spells(&l, 0, n, "off") {
        Ok(false)
    } else {
        Err(ConfigError::InvalidBoolean)
    }
}

/// Whether a variable that is set holds a percentage.
#[verifier::opaque]
pub open spec fn bad_percent(v: Option<String>) -> bool {
    v matches Some(t) && spec_parse_percent(t@) is None
}

/// Whether a variable that is set holds a `u64`.
#[verifier::opaque]
pub open spec fn bad_u64(v: Option<String>) -> bool {
    v matches Some(t) && spec_parse_u64(t@) is None
}

/// Whether a variable that is set holds a boolean.
#[verifier::opaque]
pub open spec fn bad_bool(v: Option<String>) -> bool {
    v matches Some(t) && spec_parse_bool(t@) is None
}

/// Whether a variable that is set holds an `i32`.
#[verifier::opaque]
pub open spec fn bad_i32(v: Option<String>) -> bool {
    v matches Some(t) && spec_parse_i32(t@) is None
}

/// The percentage that results: the variable's, where it is set and holds
/// one, else the current one.
#[verifier::opaque]
pub open spec fn percent_or(v: Option<String>, current: Percent) -> Percent {
    match v {
        Some(t) => match spec_parse_percent(t@) {
            Some(p) => p,
            None => current,
        },
        None => current,
    }
}

/// The size that results: the variable's, where it is set and holds one,
/// else the current one.
#[verifier::opaque]
pub open spec fn size_or(v: Option<String>, current: Option<u64>) -> Option<u64> {
    match v {
        Some(t) => match spec_parse_u64(t@) {
            Some(n) => Some(n),
            None => current,
        },
        None => current,
    }
}

/// The number that results: the variable's, where it is set and holds one,
/// else the current one.
#[verifier::opaque]
pub open spec fn u64_or(v: Option<String>, current: u64) -> u64 {
    match v {
        Some(t) => match spec_parse_u64(t@) {
            Some(n) => n,
            None => current,
        },
        None => current,
    }
}

/// The flag that results: the variable's, where it is set and holds one,
/// else the current one.
#[verifier::opaque]
pub open spec fn bool_or(v: Option<String>, current: bool) -> bool {
    match v {
        Some(t) => match spec_parse_bool(t@) {
            Some(b) => b,
            None => current,
        },
        None => current,
    }
}

/// The priority that results: the variable's, where it is set and holds
/// one, else the current one.
#[verifier::opaque]
pub open spec fn priority_or(v: Option<String>, current: Option<i32>) -> Option<i32> {
    match v {
        Some(t) => match spec_parse_i32(t@) {
            Some(n) => Some(n),
            None => current,
        },
        None => current,
    }
}

impl EnvOverrides {
    /// The first variable, in the order of the fields, that is set to a
    /// text which is no value of its kind.
    pub open spec fn first_bad(self) -> Option<EnvVar> {
        if bad_percent(self.mem_warn) {
            Some(EnvVar::MemWarn)
        } else if bad_percent(self.swap_warn) {
            Some(EnvVar::SwapWarn)
        } else if bad_percent(self.mem_kill) {
            Some(EnvVar::MemKill)
        } else if bad_percent(self.swap_kill) {
            Some(EnvVar::SwapKill)
        } else if bad_u64(self.mem_size_warn) {
            Some(EnvVar::MemSizeWarn)
        } else if bad_u64(self.swap_size_warn) {
            Some(EnvVar::SwapSizeWarn)
        } else if bad_u64(self.mem_size_kill) {
            Some(EnvVar::MemSizeKill)
        } else if bad_u64(self.swap_size_kill) {
            Some(EnvVar::SwapSizeKill)
        } else if bad_u64(self.interval) {
            Some(EnvVar::Interval)
        } else if bad_u64(self.report) {
            Some(EnvVar::Report)
        } else if bad_bool(self.sort_by_rss) {
            Some(EnvVar::SortByRss)
        } else if bad_bool(self.dry_run) {
            Some(EnvVar::DryRun)
        } else if bad_bool(self.debug) {
            Some(EnvVar::Debug)
        } else if bad_bool(self.notify) {
            Some(EnvVar::Notify)
        } else if bad_bool(self.ignore_root_user) {
            Some(EnvVar::IgnoreRootUser)
        } else if bad_bool(self.kill_group) {
            Some(EnvVar::KillGroup)
        } else if bad_i32(self.priority) {
            Some(EnvVar::Priority)
        } else {
            None
        }
    }

    /// The settings `c` with every variable that is set put in place of
    /// the setting it names.
    pub open spec fn applied_to(self, c: ConfigView) -> ConfigView {
        ConfigView {
            mem_threshold_warn: percent_or(self.mem_warn, c.mem_threshold_warn),
            swap_threshold_warn: percent_or(self.swap_warn, c.swap_threshold_warn),
            mem_threshold_kill: percent_or(self.mem_kill, c.mem_threshold_kill),
            swap_threshold_kill: percent_or(self.swap_kill, c.swap_threshold_kill),
            mem_size_warn: size_or(self.mem_size_warn, c.mem_size_warn),
            swap_size_warn: size_or(self.swap_size_warn, c.swap_size_warn),
            mem_size_kill: size_or(self.mem_size_kill, c.mem_size_kill),
            swap_size_kill: size_or(self.swap_size_kill, c.swap_size_kill),
            check_interval: u64_or(self.interval, c.check_interval),
            report_interval: u64_or(self.report, c.report_interval),
            sort_by_rss: bool_or(self.sort_by_rss, c.sort_by_rss),
            dry_run: bool_or(self.dry_run, c.dry_run),
            debug: bool_or(self.debug, c.debug),
            notify: bool_or(self.notify, c.notify),
            ignore_root_user: bool_or(self.ignore_root_user, c.ignore_root_user),
            kill_group: bool_or(self.kill_group, c.kill_group),
            priority: priority_or(self.priority, c.priority),
            ..c
        }
    }

    /// No variable is set.
    pub fn none() -> (e: EnvOverrides)
        ensures
            e.first_bad() is None,
            forall|c: ConfigView| #[trigger] e.applied_to(c) == c,
    {
        proof {
            reveal(bad_percent);
            reveal(bad_u64);
            reveal(bad_bool);
            reveal(bad_i32);
            reveal(percent_or);
            reveal(size_or);
            reveal(u64_or);
            reveal(bool_or);
            reveal(priority_or);
        }
        EnvOverrides {
            mem_warn: None,
            swap_warn: None,
            mem_kill: None,
            swap_kill: None,
            mem_size_warn: None,
            swap_size_warn: None,
            mem_size_kill: None,
            swap_size_kill: None,
            interval: None,
            report: None,
            sort_by_rss: None,
            dry_run: None,
            debug: None,
            notify: None,
            ignore_root_user: None,
            kill_group: None,
            priority: None,
        }
    }
}

fn percent_override(v: &Option<String>, current: Percent, var: EnvVar) -> (r: Result<
    Percent,
    ConfigError,
>)
    ensures
        bad_percent(*v) ==> r == Err::<Percent, ConfigError>(ConfigError::InvalidEnvValue(var)),
        !bad_percent(*v) ==> r == Ok::<Percent, ConfigError>(percent_or(*v, current)),
{
    proof {
        reveal(bad_percent);
        reveal(percent_or);
    }
    match v {
        Some(t) => match Percent::parse(t.as_str()) {
            Some(p) => Ok(p),
            None => Err(ConfigError::InvalidEnvValue(var)),
        },
        None => Ok(current),
    }
}

fn size_override(v: &Option<String>, current: Option<u64>, var: EnvVar) -> (r: Result<
    Option<u64>,
    ConfigError,
>)
    ensures
        bad_u64(*v) ==> r == Err::<Option<u64>, ConfigError>(ConfigError::InvalidEnvValue(var)),
        !bad_u64(*v) ==> r == Ok::<Option<u64>, ConfigError>(size_or(*v, current)),
{
    proof {
        reveal(bad_u64);
        reveal(size_or);
    }
    match v {
        Some(t) => match parse_u64(t.as_str()) {
            Some(n) => Ok(Some(n)),
            None => Err(ConfigError::InvalidEnvValue(var)),
        },
        None => Ok(current),
    }
}

fn u64_override(v: &Option<String>, current: u64, var: EnvVar) -> (r: Result<u64, ConfigError>)
    ensures
        bad_u64(*v) ==> r == Err::<u64, ConfigError>(ConfigError::InvalidEnvValue(var)),
        !bad_u64(*v) ==> r == Ok::<u64, ConfigError>(u64_or(*v, current)),
{
    proof {
        reveal(bad_u64);
        reveal(u64_or);
    }
    match v {
        Some(t) => match parse_u64(t.as_str()) {
            Some(n) => Ok(n),
            None => Err(ConfigError::InvalidEnvValue(var)),
        },
        None => Ok(current),
    }
}

fn bool_override(v: &Option<String>, current: bool, var: EnvVar) -> (r: Result<
    bool,
    ConfigError,
>)
    ensures
        bad_bool(*v) ==> r == Err::<bool, ConfigError>(ConfigError::InvalidEnvValue(var)),
        !bad_bool(*v) ==> r == Ok::<bool, ConfigError>(bool_or(*v, current)),
{
    proof {
        reveal(bad_bool);
        reveal(bool_or);
    }
    match v {
        Some(t) => match parse_bool(t.as_str()) {
            Ok(b) => Ok(b),
            Err(_) => Err(ConfigError::InvalidEnvValue(var)),
        },
        None => Ok(current),
    }
}

fn priority_override(v: &Option<String>, current: Option<i32>, var: EnvVar) -> (r: Result<
    Option<i32>,
    ConfigError,
>)
    ensures
        bad_i32(*v) ==> r == Err::<Option<i32>, ConfigError>(ConfigError::InvalidEnvValue(var)),
        !bad_i32(*v) ==> r == Ok::<Option<i32>, ConfigError>(priority_or(*v, current)),
{
    proof {
        reveal(bad_i32);
        reveal(priority_or);
    }
    match v {
        Some(t) => match parse_i32(t.as_str()) {
            Some(n) => Ok(Some(n)),
            None => Err(ConfigError::InvalidEnvValue(var)),
        },
        None => Ok(current),
    }
}

/// Puts the environment's values in place of the settings they name.
///
/// The variables are read in the order of the fields of [`EnvOverrides`].
/// The first that is set to a text which is no value of its kind gives
/// `Err(InvalidEnvValue(..))` naming it; otherwise every variable that is
/// set replaces its setting and all other settings stay; the compiled
/// patterns are kept as they are.
pub fn apply_env_overrides(config: Config, env: &EnvOverrides) -> (r: Result<Config, ConfigError>)
    ensures
        match env.first_bad() {
            Some(var) => r == Err::<Config, ConfigError>(ConfigError::InvalidEnvValue(var)),
            None => r matches Ok(c) && c@ == env.applied_to(config@) && c.prefer@
                == config.prefer@ && c.avoid@ == config.avoid@ && c.ignore@ == config.ignore@,
        },
{
    let mem_warn = percent_override(&env.mem_warn, config.mem_threshold_warn, EnvVar::MemWarn)?;
    let swap_warn = percent_override(&env.swap_warn, config.swap_threshold_warn, EnvVar::SwapWarn)?;
    let mem_kill = percent_override(&env.mem_kill, config.mem_threshold_kill, EnvVar::MemKill)?;
    let swap_kill = percent_override(&env.swap_kill, config.swap_threshold_kill, EnvVar::SwapKill)?;
    let mem_size_warn = size_override(&env.mem_size_warn, config.mem_size_warn, EnvVar::MemSizeWarn)?;
    let swap_size_warn = size_override(
        &env.swap_size_warn,
        config.swap_size_warn,
        EnvVar::SwapSizeWarn,
    )?;
    let mem_size_kill = size_override(&env.mem_size_kill, config.mem_size_kill, EnvVar::MemSizeKill)?;
    let swap_size_kill = size_override(
        &env.swap_size_kill,
        config.swap_size_kill,
        EnvVar::SwapSizeKill,
    )?;
    let check_interval = u64_override(&env.interval, config.check_interval, EnvVar::Interval)?;
    let report_interval = u64_override(&env.report, config.report_interval, EnvVar::Report)?;
    let sort_by_rss = bool_override(&env.sort_by_rss, config.sort_by_rss, EnvVar::SortByRss)?;
    let dry_run = bool_override(&env.dry_run, config.dry_run, EnvVar::DryRun)?;
    let debug = bool_override(&env.debug, config.debug, EnvVar::Debug)?;
    let notify = bool_override(&env.notify, config.notify, EnvVar::Notify)?;
    let ignore_root_user = bool_override(
        &env.ignore_root_user,
        config.ignore_root_user,
        EnvVar::IgnoreRootUser,
    )?;
    let kill_group = bool_override(&env.kill_group, config.kill_group, EnvVar::KillGroup)?;
    let priority = priority_override(&env.priority, config.priority, EnvVar::Priority)?;
    let c = Config {
        mem_threshold_warn: mem_warn,
        swap_threshold_warn: swap_warn,
        mem_threshold_kill: mem_kill,
        swap_threshold_kill: swap_kill,
        mem_size_warn,
        swap_size_warn,
        mem_size_kill,
        swap_size_kill,
        check_interval,
        report_interval,
        sort_by_rss,
        dry_run,
        debug,
        notify,
        ignore_root_user,
        kill_group,
        priority,
        adaptive_sleep: config.adaptive_sleep,
        prefer: config.prefer,
        avoid: config.avoid,
        ignore: config.ignore,
        notify_dbus: config.notify_dbus,
        pre_kill_script: config.pre_kill_script,
        post_kill_script: config.post_kill_script,
    };
    assert(c@ =~= env.applied_to(config@));
    Ok(c)
}

} // verus!

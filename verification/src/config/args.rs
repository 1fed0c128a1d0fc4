//! The settings as the command line gives them, before any is interpreted.

use vstd::prelude::*;

verus! {

/// Command-line settings, each as it was written.
#[derive(Debug, Clone)]
pub struct Args {
    /// Memory threshold `PERCENT[,KILL_PERCENT]`.
    pub mem_threshold: Option<String>,
    /// Swap threshold `PERCENT[,KILL_PERCENT]`.
    pub swap_threshold: Option<String>,
    /// Memory threshold `SIZE[,KILL_SIZE]` in KiB.
    pub mem_size_kb: Option<String>,
    /// Swap threshold `SIZE[,KILL_SIZE]` in KiB.
    pub swap_size_kb: Option<String>,
    /// Memory check interval in seconds.
    pub interval: Option<u64>,
    /// Status report interval in seconds.
    pub report: Option<u64>,
    /// Send notifications when a process is killed.
    pub notify: bool,
    /// Script to run after a kill.
    pub post_kill_script: Option<String>,
    /// Script to run before a kill.
    pub pre_kill_script: Option<String>,
    /// Kill the whole process group.
    pub kill_group: bool,
    /// Scheduling priority of the daemon, `-20..=19`.
    pub priority: Option<i32>,
    /// Debug logging.
    pub debug: bool,
    /// Rank by resident set size instead of the kernel's score.
    pub sort_by_rss: bool,
    /// Patterns of processes to kill first.
    pub prefer: Vec<String>,
    /// Patterns of processes to kill last.
    pub avoid: Vec<String>,
    /// Patterns of processes never to kill.
    pub ignore: Vec<String>,
    /// Report what would be killed, kill nothing.
    pub dry_run: bool,
    /// Never kill a process of the root user.
    pub ignore_root_user: bool,
    /// Log to syslog.
    pub syslog: bool,
}

} // verus!

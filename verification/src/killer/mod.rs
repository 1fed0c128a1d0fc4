//! Killing: who is chosen and how the chosen one is terminated.

pub mod selector;
pub mod signals;

pub use selector::{ProcessSelector, ProcessStatistics};
pub use signals::{KillAction, KillEvent, KillOperation, KillResult, KillStrategy};

use vstd::prelude::*;
use crate::text::owned;

verus! {

/// A record of one kill: who was killed, how, and how it ended.
#[derive(Debug, Clone)]
pub struct KillInfo {
    pub pid: i32,
    pub name: String,
    pub cmdline: String,
    pub uid: u32,
    pub rss_kb: u64,
    pub oom_score: i32,
    pub strategy: KillStrategy,
    /// The outcome in words.
    pub result: String,
}

impl KillInfo {
    /// The record of a kill; the outcome is kept as its description.
    pub fn new(
        pid: i32,
        name: String,
        cmdline: String,
        uid: u32,
        rss_kb: u64,
        oom_score: i32,
        strategy: KillStrategy,
        result: &KillResult,
    ) -> (info: KillInfo)
        ensures
            info.pid == pid,
            info.name == name,
            info.cmdline == cmdline,
            info.uid == uid,
            info.rss_kb == rss_kb,
            info.oom_score == oom_score,
            info.strategy == strategy,
            info.result@ == result@.description(),
    {
        KillInfo {
            pid,
            name,
            cmdline,
            uid,
            rss_kb,
            oom_score,
            strategy,
            result: owned(result.description()),
        }
    }
}

} // verus!

//! The per-process record.

use vstd::prelude::*;
use vstd::string::{StrSliceExecFns, StringExecFns};
use crate::text::{
    all_digits, chars_of, digits_of, owned, parse_digits, push_decimal, push_signed_decimal,
    signed_digits_of, value_of,
};

verus! {

/// One process as the inspector saw it.
#[derive(Debug, Clone)]
pub struct ProcessInfo {
    /// Process id.
    pub pid: i32,
    /// Short command name.
    pub name: String,
    /// Full command line; `[name]` for a process without one.
    pub cmdline: String,
    /// Resident set size in KiB.
    pub rss_kb: u64,
    /// The kernel's badness score.
    pub oom_score: i32,
    /// The adjustment that biases the score; `-1000` forbids the kill.
    pub oom_score_adj: i32,
    /// Real user id.
    pub uid: u32,
    /// Whether the process has exited and waits to be reaped.
    pub is_zombie: bool,
}

/// A process record as a plain value.
pub struct ProcessView {
    pub pid: i32,
    pub name: Seq<char>,
    pub cmdline: Seq<char>,
    pub rss_kb: u64,
    pub oom_score: i32,
    pub oom_score_adj: i32,
    pub uid: u32,
    pub is_zombie: bool,
}

impl View for ProcessInfo {
    type V = ProcessView;

    open spec fn view(&self) -> ProcessView {
        ProcessView {
            pid: self.pid,
            name: self.name@,
            cmdline: self.cmdline@,
            rss_kb: self.rss_kb,
            oom_score: self.oom_score,
            oom_score_adj: self.oom_score_adj,
            uid: self.uid,
            is_zombie: self.is_zombie,
        }
    }
}

/// The records of a process table as plain values.
pub open spec fn table_view(table: Seq<ProcessInfo>) -> Seq<ProcessView> {
    table.map_values(|p: ProcessInfo| p@)
}

/// The arguments of a command line, joined by single spaces.
pub open spec fn joined(args: Seq<Seq<char>>) -> Seq<char>
    decreases args.len(),
{
    if args.len() == 0 {
        Seq::empty()
    } else if args.len() == 1 {
        args[0]
    } else {
        joined(args.drop_last()) + seq![' '] + args.last()
    }
}

/// The command line of a record: the arguments joined by spaces, or, where
/// that is empty, the command name in square brackets, as kernel threads
/// are written.
pub open spec fn command_line(comm: Seq<char>, args: Seq<Seq<char>>) -> Seq<char> {
    if joined(args).len() == 0 {
        seq!['['] + comm + seq![']']
    } else {
        joined(args)
    }
}

/// Resident pages as KiB: `pages * page_size / 1024`, or `u64::MAX` where
/// that is more than a `u64` holds.
pub open spec fn resident_kb(pages: u64, page_size: u64) -> u64 {
    let kb = pages * page_size / 1024;
    if kb > u64::MAX {
        u64::MAX
    } else {
        kb as u64
    }
}

/// The state letter that the kernel gives a process which has exited and
/// waits to be reaped.
pub const ZOMBIE_STATE: char = 'Z';

/// The process id that the name of an entry of the process directory
/// stands for: the name is a run of decimal digits that writes a positive
/// number within the range of process ids. Any other name is no process.
pub open spec fn entry_pid(name: Seq<char>) -> Option<i32> {
    if name.len() >= 1 && all_digits(name) && 1 <= value_of(name) <= i32::MAX {
        Some(value_of(name) as i32)
    } else {
        None
    }
}

/// The text that [`ProcessInfo::describe`] gives.
pub open spec fn description_of(p: ProcessView) -> Seq<char> {
    "PID "@ + signed_digits_of(p.pid as int) + " ("@ + p.name + "): "@ + digits_of(p.rss_kb as nat)
        + " KiB, OOM score "@ + signed_digits_of(p.oom_score as int)
}

impl ProcessInfo {
    /// The process id that an entry of the process directory stands for,
    /// or `None` where the entry's name is no positive decimal number.
    pub fn pid_of_entry(name: &str) -> (pid: Option<i32>)
        ensures
            pid == entry_pid(name@),
    {
        let v = chars_of(name);
        assert(v@.subrange(0, v@.len() as int) == v@);
        match parse_digits(&v, 0, v.len()) {
            Some(n) => {
                if 1 <= n && n <= 0x7fff_ffff {
                    Some(n as i32)
                } else {
                    None
                }
            },
            None => None,
        }
    }

    /// Builds the record of process `pid` from what its status files give:
    /// the command name, the state letter, the resident pages with the
    /// page size in bytes, the real user id, the argument vector, and the
    /// two scores.
    pub fn from_parts(
        pid: i32,
        comm: String,
        state: char,
        rss_pages: u64,
        page_size: u64,
        uid: u32,
        args: &Vec<String>,
        oom_score: i32,
        oom_score_adj: i32,
    ) -> (p: ProcessInfo)
        ensures
            p@ == (ProcessView {
                pid,
                name: comm@,
                cmdline: command_line(comm@, args@.map_values(|a: String| a@)),
                rss_kb: resident_kb(rss_pages, page_size),
                oom_score,
                oom_score_adj,
                uid,
                is_zombie: state == ZOMBIE_STATE,
            }),
    {
        let ghost texts = args@.map_values(|a: String| a@);
        let mut line = String::new();
        let mut i: usize = 0;
        while i < args.len()
            invariant
                i <= args.len(),
                texts == args@.map_values(|a: String| a@),
                line@ == joined(texts.take(i as int)),
            decreases args.len() - i,
        {
            let ghost before = line@;
            if i > 0 {
                line.push(' ');
            }
            line.append(args[i].as_str());
            proof {
                let t = texts.take(i + 1);
                assert(t.drop_last() == texts.take(i as int));
                assert(t.last() == args@[i as int]@);
                if i == 0 {
                    assert(before.len() == 0);
                    assert(line@ == t[0]);
                }
            }
            i = i + 1;
        }
        assert(texts.take(args.len() as int) == texts);
        if line.as_str().unicode_len() == 0 {
            line = owned("[");
            line.append(comm.as_str());
            line.push(']');
            assert(line@ == seq!['['] + comm@ + seq![']']) by {
                reveal_strlit("[");
                assert("["@ == seq!['[']);
            }
        }
        assert((rss_pages as u128) * (page_size as u128) <= 0xffff_ffff_ffff_ffff
            * 0xffff_ffff_ffff_ffff) by (nonlinear_arith)
            requires
                rss_pages <= 0xffff_ffff_ffff_ffff,
                page_size <= 0xffff_ffff_ffff_ffff,
        ;
        let wide: u128 = (rss_pages as u128) * (page_size as u128) / 1024;
        let rss_kb: u64 = if wide > 0xffff_ffff_ffff_ffff {
            u64::MAX
        } else {
            wide as u64
        };
        ProcessInfo {
            pid,
            name: comm,
            cmdline: line,
            rss_kb,
            oom_score,
            oom_score_adj,
            uid,
            is_zombie: state == ZOMBIE_STATE,
        }
    }

    /// One line that names the process: its id, name, resident size and
    /// score.
    pub fn describe(&self) -> (text: String)
        ensures
            text@ == description_of(self@),
    {
        let mut out = owned("PID ");
        push_signed_decimal(&mut out, self.pid as i64);
        out.append(" (");
        out.append(self.name.as_str());
        out.append("): ");
        push_decimal(&mut out, self.rss_kb as u128);
        out.append(" KiB, OOM score ");
        push_signed_decimal(&mut out, self.oom_score as i64);
        out
    }
}

} // verus!

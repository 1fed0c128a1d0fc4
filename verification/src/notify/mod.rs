//! What is handed to the outside after or before a kill: the payload of
//! the hook scripts and the desktop notice.

pub mod hooks;

use vstd::prelude::*;
use vstd::string::StringExecFns;
use crate::text::{
    digits_of, optional_text, owned, push_decimal, push_signed_decimal, signed_digits_of,
};

verus! {

/// Whether a character is a letter or a number in the sense of Unicode,
/// as `char::is_alphanumeric` reports it.
pub uninterp spec fn is_alphanumeric_char(c: char) -> bool;

/// `char::is_alphanumeric`. Claimed of it: the answer depends on the
/// character alone; it is named [`is_alphanumeric_char`].
pub assume_specification[ char::is_alphanumeric ](c: char) -> (b: bool)
    ensures
        b == is_alphanumeric_char(c),
;

/// Longest sanitized value, in bytes of UTF-8.
pub const MAX_ENV_VALUE_BYTES: usize = 256;

/// The punctuation that a sanitized value may hold.
pub open spec fn is_env_punctuation(c: char) -> bool {
    c == '.' || c == '-' || c == '_' || c == '/'
}

/// What one character becomes in a sanitized value: a letter, a number or
/// one of `. - _ /` stays, anything else becomes `_`. `alphanumeric` says
/// whether the character is a letter or a number.
pub open spec fn env_safe_char_given(c: char, alphanumeric: bool) -> char {
    if alphanumeric || is_env_punctuation(c) {
        c
    } else {
        '_'
    }
}

/// What one character becomes in a sanitized value.
pub open spec fn env_safe_char(c: char) -> char {
    env_safe_char_given(c, is_alphanumeric_char(c))
}

/// The number of bytes that a character takes in UTF-8.
pub open spec fn utf8_width(c: char) -> nat {
    if (c as u32) < 0x80 {
        1
    } else if (c as u32) < 0x800 {
        2
    } else if (c as u32) < 0x1_0000 {
        3
    } else {
        4
    }
}

/// How many characters of `s`, counted from position `from` with `used`
/// bytes already taken, fit into `limit` bytes of UTF-8: the end of the
/// longest run that fits.
pub open spec fn fitting_end(s: Seq<char>, from: int, used: nat, limit: nat) -> int
    decreases s.len() - from,
{
    if from >= s.len() || used + utf8_width(s[from]) > limit {
        from
    } else {
        fitting_end(s, from + 1, used + utf8_width(s[from]), limit)
    }
}

/// The longest prefix of `s` whose UTF-8 form has at most `limit` bytes.
pub open spec fn truncated_to_bytes(s: Seq<char>, limit: nat) -> Seq<char> {
    s.take(fitting_end(s, 0, 0, limit))
}

/// The sanitized form of a text: every character made safe, then the
/// whole cut to at most 256 bytes, at a character boundary.
pub open spec fn env_safe_text(s: Seq<char>) -> Seq<char> {
    truncated_to_bytes(s.map_values(|c: char| env_safe_char(c)), MAX_ENV_VALUE_BYTES as nat)
}

/// Makes one character safe, given whether it is a letter or a number.
pub fn sanitize_env_char(c: char, alphanumeric: bool) -> (r: char)
    ensures
        r == env_safe_char_given(c, alphanumeric),
{
    if alphanumeric || c == '.' || c == '-' || c == '_' || c == '/' {
        c
    } else {
        '_'
    }
}

/// The number of bytes that a character takes in UTF-8.
pub fn utf8_width_of(c: char) -> (w: usize)
    ensures
        w == utf8_width(c),
        1 <= w <= 4,
{
    let code: u32 = c as u32;
    if code < 0x80 {
        1
    } else if code < 0x800 {
        2
    } else if code < 0x1_0000 {
        3
    } else {
        4
    }
}

/// Makes a text safe to hand to a script's environment: letters, numbers
/// and `. - _ /` stay, every other character becomes `_`, and the result
/// is cut to at most 256 bytes.
pub fn sanitize_env_value(s: &str) -> (out: String)
    ensures
        out@ == env_safe_text(s@),
{
    let ghost safe = s@.map_values(|c: char| env_safe_char(c));
    let mut out = String::new();
    let mut used: usize = 0;
    let mut full = false;
    for c in it: s.chars()
        invariant
            it.seq() == s@,
            safe == s@.map_values(|c: char| env_safe_char(c)),
            used <= MAX_ENV_VALUE_BYTES,
            !full ==> out@ == safe.take(it.index()) && fitting_end(
                safe,
                0,
                0,
                MAX_ENV_VALUE_BYTES as nat,
            ) == fitting_end(safe, it.index(), used as nat, MAX_ENV_VALUE_BYTES as nat),
            full ==> out@ == env_safe_text(s@),
    {
        if !full {
            let r = sanitize_env_char(c, c.is_alphanumeric());
            assert(r == safe[it.index()]);
            let w = utf8_width_of(r);
            if used + w > MAX_ENV_VALUE_BYTES {
                full = true;
            } else {
                assert(safe.take(it.index() + 1) == safe.take(it.index()).push(r));
                out.push(r);
                used = used + w;
            }
        }
    }
    out
}

/// What a hook script is called with.
#[derive(Debug, Clone)]
pub struct HookInvocation {
    /// The script to run.
    pub script: String,
    /// The victim's process id.
    pub pid: i32,
    /// The victim's name, sanitized.
    pub name: String,
    /// The victim's command line, sanitized.
    pub cmdline: String,
    /// The victim's real user id.
    pub uid: u32,
    /// The victim's resident set size in KiB.
    pub rss_kb: u64,
    /// The victim's score.
    pub oom_score: i32,
}

/// A hook invocation as a plain value.
pub struct HookInvocationView {
    pub script: Seq<char>,
    pub pid: i32,
    pub name: Seq<char>,
    pub cmdline: Seq<char>,
    pub uid: u32,
    pub rss_kb: u64,
    pub oom_score: i32,
}

impl View for HookInvocation {
    type V = HookInvocationView;

    open spec fn view(&self) -> HookInvocationView {
        HookInvocationView {
            script: self.script@,
            pid: self.pid,
            name: self.name@,
            cmdline: self.cmdline@,
            uid: self.uid,
            rss_kb: self.rss_kb,
            oom_score: self.oom_score,
        }
    }
}

/// The call of `script` for a victim: the numbers as they are, the name
/// and the command line sanitized.
pub open spec fn invocation_of(
    script: Seq<char>,
    pid: i32,
    name: Seq<char>,
    cmdline: Seq<char>,
    uid: u32,
    rss_kb: u64,
    oom_score: i32,
) -> HookInvocationView {
    HookInvocationView {
        script,
        pid,
        name: env_safe_text(name),
        cmdline: env_safe_text(cmdline),
        uid,
        rss_kb,
        oom_score,
    }
}

/// A desktop notice about a kill.
#[derive(Debug, Clone)]
pub struct DesktopNotice {
    /// The headline.
    pub summary: String,
    /// The text below it.
    pub body: String,
}

/// A desktop notice as a plain value.
pub struct DesktopNoticeView {
    pub summary: Seq<char>,
    pub body: Seq<char>,
}

impl View for DesktopNotice {
    type V = DesktopNoticeView;

    open spec fn view(&self) -> DesktopNoticeView {
        DesktopNoticeView { summary: self.summary@, body: self.body@ }
    }
}

/// The headline of every desktop notice.
pub open spec fn notice_summary() -> Seq<char> {
    "OOM Guard: Process Killed"@
}

/// The text of the desktop notice for a victim: its id, its name and its
/// resident size in whole MiB.
pub open spec fn notice_body(pid: i32, name: Seq<char>, rss_kb: u64) -> Seq<char> {
    "OOM Guard killed process:\nPID: "@ + signed_digits_of(pid as int) + "\nName: "@ + name
        + "\nRSS: "@ + digits_of((rss_kb / 1024) as nat) + " MB"@
}

/// What follows a kill: the script to call, if one is configured, and the
/// desktop notice, if notices are enabled.
#[derive(Debug, Clone)]
pub struct PostKillPlan {
    /// The post-kill script's call.
    pub script: Option<HookInvocation>,
    /// The desktop notice.
    pub notice: Option<DesktopNotice>,
}

/// A post-kill plan as a plain value.
pub struct PostKillPlanView {
    pub script: Option<HookInvocationView>,
    pub notice: Option<DesktopNoticeView>,
}

impl View for PostKillPlan {
    type V = PostKillPlanView;

    open spec fn view(&self) -> PostKillPlanView {
        PostKillPlanView {
            script: invocation_view(self.script),
            notice: match self.notice {
                Some(n) => Some(n@),
                None => None,
            },
        }
    }
}

/// The call of an optional script for a victim.
pub open spec fn hook_call(
    script: Option<Seq<char>>,
    pid: i32,
    name: Seq<char>,
    cmdline: Seq<char>,
    uid: u32,
    rss_kb: u64,
    oom_score: i32,
) -> Option<HookInvocationView> {
    match script {
        Some(path) => Some(invocation_of(path, pid, name, cmdline, uid, rss_kb, oom_score)),
        None => None,
    }
}

/// What follows a kill: the call of the post-kill script, where one is
/// configured, and the desktop notice, where notices are enabled.
pub open spec fn post_kill_plan(
    script: Option<Seq<char>>,
    enable_dbus: bool,
    pid: i32,
    name: Seq<char>,
    cmdline: Seq<char>,
    uid: u32,
    rss_kb: u64,
    oom_score: i32,
) -> PostKillPlanView {
    PostKillPlanView {
        script: hook_call(script, pid, name, cmdline, uid, rss_kb, oom_score),
        notice: if enable_dbus {
            Some(
                DesktopNoticeView {
                    summary: notice_summary(),
                    body: notice_body(pid, name, rss_kb),
                },
            )
        } else {
            None
        },
    }
}

/// Prepares the call of an optional hook script for a victim: the name
/// and the command line are sanitized, the numbers are handed on.
pub fn prepare_hook_call(
    script: &Option<String>,
    pid: i32,
    name: &str,
    cmdline: &str,
    uid: u32,
    rss_kb: u64,
    oom_score: i32,
) -> (call: Option<HookInvocation>)
    ensures
        invocation_view(call) == hook_call(
            optional_text(*script),
            pid,
            name@,
            cmdline@,
            uid,
            rss_kb,
            oom_score,
        ),
{
    match script {
        Some(path) => Some(
            HookInvocation {
                script: path.clone(),
                pid,
                name: sanitize_env_value(name),
                cmdline: sanitize_env_value(cmdline),
                uid,
                rss_kb,
                oom_score,
            },
        ),
        None => None,
    }
}

/// Prepares what follows a kill: the call of the post-kill script, where
/// one is configured, and the desktop notice, where notices are enabled.
pub fn prepare_post_kill(
    script: &Option<String>,
    enable_dbus: bool,
    pid: i32,
    name: &str,
    cmdline: &str,
    uid: u32,
    rss_kb: u64,
    oom_score: i32,
) -> (plan: PostKillPlan)
    ensures
        plan@ == post_kill_plan(
            optional_text(*script),
            enable_dbus,
            pid,
            name@,
            cmdline@,
            uid,
            rss_kb,
            oom_score,
        ),
{
    let call = prepare_hook_call(script, pid, name, cmdline, uid, rss_kb, oom_score);
    let notice = if enable_dbus {
        let mut body = owned("OOM Guard killed process:\nPID: ");
        push_signed_decimal(&mut body, pid as i64);
        body.append("\nName: ");
        body.append(name);
        body.append("\nRSS: ");
        push_decimal(&mut body, (rss_kb / 1024) as u128);
        body.append(" MB");
        Some(DesktopNotice { summary: owned("OOM Guard: Process Killed"), body })
    } else {
        None
    };
    PostKillPlan { script: call, notice }
}

/// An optional hook invocation as a plain value.
pub open spec fn invocation_view(h: Option<HookInvocation>) -> Option<HookInvocationView> {
    match h {
        Some(i) => Some(i@),
        None => None,
    }
}

/// Holds what the hooks need: the two script paths and whether desktop
/// notices are sent.
#[derive(Debug, Clone)]
pub struct NotificationManager {
    /// Whether desktop notices are sent.
    pub enable_dbus: bool,
    /// Script to call before a kill.
    pub pre_kill_script: Option<String>,
    /// Script to call after a kill.
    pub post_kill_script: Option<String>,
}

impl NotificationManager {
    /// A manager for the given scripts and notice setting.
    pub fn new(
        enable_dbus: bool,
        pre_kill_script: Option<String>,
        post_kill_script: Option<String>,
    ) -> (m: NotificationManager)
        ensures
            m.enable_dbus == enable_dbus,
            m.pre_kill_script == pre_kill_script,
            m.post_kill_script == post_kill_script,
    {
        NotificationManager { enable_dbus, pre_kill_script, post_kill_script }
    }

    /// What is to be done before a kill: the call of the pre-kill script
    /// with the victim's data, or nothing where no script is configured.
    /// Carrying the call out is the caller's part; a failure there does not
    /// stop the kill.
    pub fn send_pre_kill_notification(
        &self,
        pid: i32,
        name: &str,
        cmdline: &str,
        uid: u32,
        rss_kb: u64,
        oom_score: i32,
    ) -> (call: Option<HookInvocation>)
        ensures
            invocation_view(call) == hook_call(
                optional_text(self.pre_kill_script),
                pid,
                name@,
                cmdline@,
                uid,
                rss_kb,
                oom_score,
            ),
    {
        prepare_hook_call(&self.pre_kill_script, pid, name, cmdline, uid, rss_kb, oom_score)
    }

    /// What is to be done after a kill: the call of the post-kill script
    /// with the victim's data, where one is configured, and the desktop
    /// notice, where notices are enabled. Carrying them out is the
    /// caller's part.
    pub fn send_post_kill_notification(
        &self,
        pid: i32,
        name: &str,
        cmdline: &str,
        uid: u32,
        rss_kb: u64,
        oom_score: i32,
    ) -> (plan: PostKillPlan)
        ensures
            plan@ == post_kill_plan(
                optional_text(self.post_kill_script),
                self.enable_dbus,
                pid,
                name@,
                cmdline@,
                uid,
                rss_kb,
                oom_score,
            ),
    {
        prepare_post_kill(
            &self.post_kill_script,
            self.enable_dbus,
            pid,
            name,
            cmdline,
            uid,
            rss_kb,
            oom_score,
        )
    }
}

} // verus!

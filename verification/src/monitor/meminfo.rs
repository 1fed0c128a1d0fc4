//! The memory snapshot: reading the kernel's memory statistics text and the
//! threshold predicates on what it holds.

use vstd::prelude::*;
use vstd::string::StringExecFns;
use crate::percent::Percent;
use crate::text::{
    chars_of, digit_char, digits_of, find_char, find_char_in, owned, parse_u64_in, push_decimal,
    skip_blanks, skip_blanks_in, skip_word, skip_word_in, spec_parse_u64, spells,
};

verus! {

/// Why a memory snapshot could not be taken.
#[derive(Debug, Clone, Copy, PartialEq, Eq, Structural)]
pub enum SamplerError {
    /// The statistics text gives no positive `MemTotal`, or gives one of the
    /// four fields with a value that is no number.
    Unreadable,
}

/// System memory at one instant; every amount is in KiB.
#[derive(Debug, Clone, Copy, PartialEq, Eq, Structural)]
pub struct MemInfo {
    /// Total physical memory.
    pub mem_total: u64,
    /// Memory available to new work without swapping.
    pub mem_available: u64,
    /// Total swap space.
    pub swap_total: u64,
    /// Unused swap space.
    pub swap_free: u64,
}

/// The four fields that the sampler reads.
#[derive(Debug, Clone, Copy, PartialEq, Eq, Structural)]
pub enum MemField {
    MemTotal,
    MemAvailable,
    SwapTotal,
    SwapFree,
}

/// `s` without the colons at its end.
pub open spec fn strip_colons(s: Seq<char>) -> Seq<char>
    decreases s.len(),
{
    if s.len() > 0 && s.last() == ':' {
        strip_colons(s.drop_last())
    } else {
        s
    }
}

/// The field that a key names, if it names one of the four.
pub open spec fn field_of(key: Seq<char>) -> Option<MemField> {
    if key == "MemTotal"@ {
        Some(MemField::MemTotal)
    } else if key == "MemAvailable"@ {
        Some(MemField::MemAvailable)
    } else if key == "SwapTotal"@ {
        Some(MemField::SwapTotal)
    } else if key == "SwapFree"@ {
        Some(MemField::SwapFree)
    } else {
        None
    }
}

/// The key and the value text of the line `s[from..end]`: its first two
/// blank-separated words, the first without the colons at its end. `None`
/// where the line has fewer than two words.
pub open spec fn line_entry(s: Seq<char>, from: int, end: int) -> Option<(Seq<char>, Seq<char>)> {
    let a0 = skip_blanks(s, from, end);
    let b0 = skip_word(s, a0, end);
    let a1 = skip_blanks(s, b0, end);
    let b1 = skip_word(s, a1, end);
    if a1 < end {
        Some((strip_colons(s.subrange(a0, b0)), s.subrange(a1, b1)))
    } else {
        None
    }
}

/// The snapshot after the line `s[from..end]` has been read into `info`.
/// A line that names none of the four fields changes nothing; a line that
/// names one with a value that is no `u64` makes the whole text unreadable.
pub open spec fn apply_line(info: MemInfo, s: Seq<char>, from: int, end: int) -> Option<MemInfo> {
    match line_entry(s, from, end) {
        None => Some(info),
        Some((key, value)) => match field_of(key) {
            None => Some(info),
            Some(field) => match spec_parse_u64(value) {
                None => None,
                Some(n) => Some(info.with_field(field, n)),
            },
        },
    }
}

/// The snapshot after every line of `s` from position `from` on has been
/// read into `info`, in order; lines end at a line feed.
pub open spec fn apply_lines(info: MemInfo, s: Seq<char>, from: int) -> Option<MemInfo>
    decreases s.len() - from,
{
    if from >= s.len() {
        Some(info)
    } else {
        let end = find_char(s, from, '\n');
        match apply_line(info, s, from, end) {
            None => None,
            Some(next) => if from <= end < s.len() {
                apply_lines(next, s, end + 1)
            } else {
                Some(next)
            },
        }
    }
}

/// What a statistics text holds: the snapshot that its lines give, read in
/// order from an all-zero snapshot, unless a line is unreadable or no
/// positive `MemTotal` results.
pub open spec fn spec_parse_meminfo(s: Seq<char>) -> Result<MemInfo, SamplerError> {
    match apply_lines(MemInfo::zero(), s, 0) {
        Some(info) => if info.mem_total == 0 {
            Err(SamplerError::Unreadable)
        } else {
            Ok(info)
        },
        None => Err(SamplerError::Unreadable),
    }
}

/// KiB in one MiB.
pub const KIB_PER_MIB: u64 = 1024;

/// KiB in one GiB.
pub const KIB_PER_GIB: u64 = 1_048_576;

/// KiB in one TiB.
pub const KIB_PER_TIB: u64 = 1_073_741_824;

/// `n / d` rounded to the nearest whole number, a tie going to the even
/// one.
pub open spec fn rounded_ratio(n: nat, d: nat) -> nat {
    let q = n / d;
    let r = n % d;
    if 2 * r > d || (2 * r == d && q % 2 == 1) {
        q + 1
    } else {
        q
    }
}

/// A number of hundredths written with two digits behind the point.
pub open spec fn hundredths_text(h: nat) -> Seq<char> {
    digits_of(h / 100) + seq!['.'] + seq![digit_char((h % 100) / 10), digit_char(h % 10)]
}

/// A number of tenths written with one digit behind the point.
pub open spec fn tenths_text(t: nat) -> Seq<char> {
    digits_of(t / 10) + seq!['.'] + seq![digit_char(t % 10)]
}

/// The human-readable form of an amount: below 1024 the plain number with
/// ` KiB`; from there on the amount divided by 1024, by 1024² or by 1024³,
/// whichever is the largest that it reaches, with two digits behind the
/// point (rounded to nearest, ties to even) and ` KiB`, ` MiB` or ` GiB`.
pub open spec fn size_text(kb: u64) -> Seq<char> {
    if kb >= KIB_PER_TIB {
        hundredths_text(rounded_ratio((kb * 100) as nat, KIB_PER_TIB as nat)) + " GiB"@
    } else if kb >= KIB_PER_GIB {
        hundredths_text(rounded_ratio((kb * 100) as nat, KIB_PER_GIB as nat)) + " MiB"@
    } else if kb >= KIB_PER_MIB {
        hundredths_text(rounded_ratio((kb * 100) as nat, KIB_PER_MIB as nat)) + " KiB"@
    } else {
        digits_of(kb as nat) + " KiB"@
    }
}

/// A percentage that is not negative, with one digit behind the point,
/// rounded to nearest, ties to even.
pub open spec fn percent_tenths_text(p: Percent) -> Seq<char> {
    tenths_text(rounded_ratio(p.millis as nat, 100))
}

/// The text that [`MemInfo::describe`] gives.
pub open spec fn meminfo_text(m: MemInfo) -> Seq<char> {
    "Memory: "@ + size_text(m.mem_available) + "/"@ + size_text(m.mem_total) + " ("@
        + percent_tenths_text(m.spec_mem_available_percent()) + "% available), Swap: "@
        + size_text(m.swap_free) + "/"@ + size_text(m.swap_total) + " ("@ + percent_tenths_text(
        m.spec_swap_free_percent(),
    ) + "% free)"@
}

/// `n / d` rounded to nearest, ties to even.
fn round_ratio(n: u128, d: u128) -> (q: u128)
    requires
        d > 0,
        n < u128::MAX,
    ensures
        q == rounded_ratio(n as nat, d as nat),
{
    let q = n / d;
    let r = n % d;
    assert(q <= n) by (nonlinear_arith)
        requires
            q == n / d,
            d > 0,
    ;
    let up = if r > d - r {
        true
    } else {
        r == d - r && q % 2 == 1
    };
    if up {
        q + 1
    } else {
        q
    }
}

/// Appends a number of hundredths with two digits behind the point.
fn push_hundredths(out: &mut String, h: u128)
    ensures
        final(out)@ == old(out)@ + hundredths_text(h as nat),
{
    push_decimal(out, h / 100);
    out.push('.');
    let f: u8 = (h % 100) as u8;
    out.push(((f / 10) + 0x30) as char);
    out.push(((f % 10) + 0x30) as char);
    assert(final(out)@ == old(out)@ + hundredths_text(h as nat)) by {
        assert(final(out)@ =~= old(out)@ + (digits_of((h / 100) as nat) + seq!['.'] + seq![
            digit_char(((h % 100) / 10) as nat),
            digit_char((h % 10) as nat),
        ]));
    }
}

/// Appends a number of tenths with one digit behind the point.
fn push_tenths(out: &mut String, t: u128)
    ensures
        final(out)@ == old(out)@ + tenths_text(t as nat),
{
    push_decimal(out, t / 10);
    out.push('.');
    let f: u8 = (t % 10) as u8;
    out.push((f + 0x30) as char);
    assert(final(out)@ == old(out)@ + tenths_text(t as nat)) by {
        assert(final(out)@ =~= old(out)@ + (digits_of((t / 10) as nat) + seq!['.'] + seq![
            digit_char((t % 10) as nat),
        ]));
    }
}

/// Appends the human-readable form of an amount in KiB.
fn push_size(out: &mut String, kb: u64)
    ensures
        final(out)@ == old(out)@ + size_text(kb),
{
    let n: u128 = (kb as u128) * 100;
    if kb >= KIB_PER_TIB {
        push_hundredths(out, round_ratio(n, KIB_PER_TIB as u128));
        out.append(" GiB");
    } else if kb >= KIB_PER_GIB {
        push_hundredths(out, round_ratio(n, KIB_PER_GIB as u128));
        out.append(" MiB");
    } else if kb >= KIB_PER_MIB {
        push_hundredths(out, round_ratio(n, KIB_PER_MIB as u128));
        out.append(" KiB");
    } else {
        push_decimal(out, kb as u128);
        out.append(" KiB");
    }
    assert(final(out)@ =~= old(out)@ + size_text(kb));
}

impl MemInfo {
    /// The snapshot with every amount zero.
    pub open spec fn zero() -> MemInfo {
        MemInfo { mem_total: 0, mem_available: 0, swap_total: 0, swap_free: 0 }
    }

    /// This snapshot with one field replaced.
    pub open spec fn with_field(self, field: MemField, n: u64) -> MemInfo {
        match field {
            MemField::MemTotal => MemInfo { mem_total: n, ..self },
            MemField::MemAvailable => MemInfo { mem_available: n, ..self },
            MemField::SwapTotal => MemInfo { swap_total: n, ..self },
            MemField::SwapFree => MemInfo { swap_free: n, ..self },
        }
    }

    /// A snapshot can be acted on when it reports some physical memory.
    pub open spec fn wf(self) -> bool {
        self.mem_total > 0
    }

    /// Available memory as a percentage of the total, rounded down to a
    /// thousandth of a percent; zero where no total is known.
    pub open spec fn spec_mem_available_percent(self) -> Percent {
        Percent {
            millis: if self.mem_total == 0 {
                0
            } else {
                100_000 * self.mem_available / (self.mem_total as int)
            } as i128,
        }
    }

    /// Free swap as a percentage of the total, rounded down to a thousandth
    /// of a percent; one hundred percent where there is no swap at all.
    pub open spec fn spec_swap_free_percent(self) -> Percent {
        Percent {
            millis: if self.swap_total == 0 {
                100_000
            } else {
                100_000 * self.swap_free / (self.swap_total as int)
            } as i128,
        }
    }

    /// Reads the kernel's memory statistics text.
    ///
    /// Each line gives a key and a value as its first two blank-separated
    /// words; the key may end in colons. Only `MemTotal`, `MemAvailable`,
    /// `SwapTotal` and `SwapFree` are read, a later line replacing an
    /// earlier one; a missing field is zero. The result is
    /// `Err(Unreadable)` exactly when one of these four has a value that is
    /// no `u64`, or when `MemTotal` comes out zero.
    pub fn parse(content: &str) -> (r: Result<MemInfo, SamplerError>)
        ensures
            r == spec_parse_meminfo(content@),
            r matches Ok(info) ==> info.wf(),
    {
        let v = chars_of(content);
        let mut info = MemInfo { mem_total: 0, mem_available: 0, swap_total: 0, swap_free: 0 };
        let mut from: usize = 0;
        while from < v.len()
            invariant
                from <= v.len(),
                v@ == content@,
                apply_lines(MemInfo::zero(), v@, 0) == apply_lines(info, v@, from as int),
            decreases v.len() - from,
        {
            let end = find_char_in(&v, from, '\n');
            match MemInfo::read_line(info, &v, from, end) {
                Some(next) => {
                    info = next;
                },
                None => {
                    return Err(SamplerError::Unreadable);
                },
            }
            from = if end < v.len() {
                end + 1
            } else {
                end
            };
        }
        if info.mem_total == 0 {
            Err(SamplerError::Unreadable)
        } else {
            Ok(info)
        }
    }

    /// Reads the line `v[from..end]` into `info`.
    fn read_line(info: MemInfo, v: &Vec<char>, from: usize, end: usize) -> (r: Option<MemInfo>)
        requires
            from <= end <= v.len(),
        ensures
            r == apply_line(info, v@, from as int, end as int),
    {
        let a0 = skip_blanks_in(v, from, end);
        let b0 = skip_word_in(v, a0, end);
        let a1 = skip_blanks_in(v, b0, end);
        let b1 = skip_word_in(v, a1, end);
        if a1 >= end {
            return Some(info);
        }
        // the key, without the colons at its end
        let mut k: usize = b0;
        while k > a0 && v[k - 1] == ':'
            invariant
                a0 <= k <= b0 <= v.len(),
                strip_colons(v@.subrange(a0 as int, b0 as int)) == strip_colons(
                    v@.subrange(a0 as int, k as int),
                ),
            decreases k - a0,
        {
            assert(v@.subrange(a0 as int, k as int).drop_last() == v@.subrange(
                a0 as int,
                k - 1,
            ));
            k = k - 1;
        }
        let ghost key = v@.subrange(a0 as int, k as int);
        assert(strip_colons(key) == key);
        let field = if spells(v, a0, k, "MemTotal") {
            MemField::MemTotal
        } else if spells(v, a0, k, "MemAvailable") {
            MemField::MemAvailable
        } else if spells(v, a0, k, "SwapTotal") {
            MemField::SwapTotal
        } else if spells(v, a0, k, "SwapFree") {
            MemField::SwapFree
        } else {
            return Some(info);
        };
        match parse_u64_in(v, a1, b1) {
            None => None,
            Some(n) => Some(
                match field {
                    MemField::MemTotal => MemInfo { mem_total: n, ..info },
                    MemField::MemAvailable => MemInfo { mem_available: n, ..info },
                    MemField::SwapTotal => MemInfo { swap_total: n, ..info },
                    MemField::SwapFree => MemInfo { swap_free: n, ..info },
                },
            ),
        }
    }

    /// Available memory as a percentage of the total.
    pub fn mem_available_percent(&self) -> (p: Percent)
        ensures
            p == self.spec_mem_available_percent(),
    {
        if self.mem_total == 0 {
            return Percent { millis: 0 };
        }
        let scaled: u128 = 100_000u128 * (self.mem_available as u128);
        let q: u128 = scaled / (self.mem_total as u128);
        Percent { millis: q as i128 }
    }

    /// Free swap as a percentage of the total; one hundred percent where
    /// there is no swap.
    pub fn swap_free_percent(&self) -> (p: Percent)
        ensures
            p == self.spec_swap_free_percent(),
            self.swap_total == 0 ==> p.millis == 100_000,
    {
        if self.swap_total == 0 {
            return Percent { millis: 100_000 };
        }
        let scaled: u128 = 100_000u128 * (self.swap_free as u128);
        let q: u128 = scaled / (self.swap_total as u128);
        Percent { millis: q as i128 }
    }

    /// Used memory as a percentage: one hundred percent less what is
    /// available.
    pub fn mem_used_percent(&self) -> (p: Percent)
        ensures
            p.millis == 100_000 - self.spec_mem_available_percent().millis,
    {
        let available = self.mem_available_percent();
        Percent { millis: 100_000 - available.millis }
    }

    /// Used swap as a percentage: one hundred percent less what is free.
    pub fn swap_used_percent(&self) -> (p: Percent)
        ensures
            p.millis == 100_000 - self.spec_swap_free_percent().millis,
    {
        let free = self.swap_free_percent();
        Percent { millis: 100_000 - free.millis }
    }

    /// Whether available memory is strictly below `threshold` percent.
    pub open spec fn spec_mem_below(self, threshold: Percent) -> bool {
        self.spec_mem_available_percent().millis < threshold.millis
    }

    /// Whether free swap is strictly below `threshold` percent.
    pub open spec fn spec_swap_below(self, threshold: Percent) -> bool {
        self.spec_swap_free_percent().millis < threshold.millis
    }

    /// Whether available memory is strictly below `threshold` percent.
    pub fn is_mem_below_threshold(&self, threshold: Percent) -> (b: bool)
        ensures
            b == self.spec_mem_below(threshold),
    {
        self.mem_available_percent().millis < threshold.millis
    }

    /// Whether available memory is strictly below `threshold_kb` KiB.
    pub fn is_mem_below_threshold_kb(&self, threshold_kb: u64) -> (b: bool)
        ensures
            b == (self.mem_available < threshold_kb),
    {
        self.mem_available < threshold_kb
    }

    /// Whether free swap is strictly below `threshold` percent.
    pub fn is_swap_below_threshold(&self, threshold: Percent) -> (b: bool)
        ensures
            b == self.spec_swap_below(threshold),
    {
        self.swap_free_percent().millis < threshold.millis
    }

    /// Whether free swap is strictly below `threshold_kb` KiB.
    pub fn is_swap_below_threshold_kb(&self, threshold_kb: u64) -> (b: bool)
        ensures
            b == (self.swap_free < threshold_kb),
    {
        self.swap_free < threshold_kb
    }
    /// The human-readable form of an amount in KiB, such as `512 KiB`,
    /// `1.50 KiB` or `1.00 GiB`; see [`size_text`].
    pub fn format_size(kb: u64) -> (text: String)
        ensures
            text@ == size_text(kb),
    {
        let mut text = String::new();
        push_size(&mut text, kb);
        assert(Seq::<char>::empty() + size_text(kb) == size_text(kb));
        text
    }

    /// The snapshot in one line: available and total memory, free and
    /// total swap, each with its percentage.
    pub fn describe(&self) -> (text: String)
        ensures
            text@ == meminfo_text(*self),
    {
        let mut text = owned("Memory: ");
        push_size(&mut text, self.mem_available);
        text.append("/");
        push_size(&mut text, self.mem_total);
        text.append(" (");
        let mem = self.mem_available_percent();
        push_tenths(&mut text, round_ratio(mem.millis as u128, 100));
        text.append("% available), Swap: ");
        push_size(&mut text, self.swap_free);
        text.append("/");
        push_size(&mut text, self.swap_total);
        text.append(" (");
        let swap = self.swap_free_percent();
        push_tenths(&mut text, round_ratio(swap.millis as u128, 100));
        text.append("% free)");
        text
    }
}

impl Default for MemInfo {
    fn default() -> (info: MemInfo)
        ensures
            info == MemInfo::zero(),
    {
        MemInfo { mem_total: 0, mem_available: 0, swap_total: 0, swap_free: 0 }
    }
}

} // verus!

//! Percentages as exact fixed-point numbers.

use vstd::prelude::*;
use crate::text::{
    all_digits, chars_of, digit_char, digits_of, find_char, is_digit, parse_digits_wide,
    push_decimal, scan_digits, value_of,
};

verus! {

/// Thousandths that stand for one hundred percent.
pub const FULL_SCALE_MILLIS: i128 = 100_000;

/// A percentage, held exactly as a whole number of thousandths of a percent:
/// `7.5%` is `Percent { millis: 7500 }`.
#[derive(Clone, Copy, Debug, PartialEq, Eq, Structural)]
pub struct Percent {
    pub millis: i128,
}

/// Ten to the power `k`, for the scales that a fraction of up to three
/// digits needs.
pub open spec fn fraction_scale(k: nat) -> nat {
    if k == 0 {
        1000
    } else if k == 1 {
        100
    } else if k == 2 {
        10
    } else {
        1
    }
}

/// The digits of a fraction that count: the first three.
pub open spec fn kept_fraction(fraction: Seq<char>) -> Seq<char> {
    if fraction.len() > 3 {
        fraction.take(3)
    } else {
        fraction
    }
}

/// The digits of a fraction that are dropped: those behind the third.
pub open spec fn dropped_fraction(fraction: Seq<char>) -> Seq<char> {
    if fraction.len() > 3 {
        fraction.skip(3)
    } else {
        Seq::<char>::empty()
    }
}

/// What an unsigned decimal text writes: digits, a point, digits, where
/// the point and either run of digits may be missing but not both runs.
/// The result is the number in whole thousandths, digits behind the third
/// of the fraction left off, and whether anything but zeros was left off.
/// `None` for any other text.
pub open spec fn spec_parse_magnitude(s: Seq<char>) -> Option<(nat, bool)> {
    let dot = find_char(s, 0, '.');
    let whole = s.take(dot);
    let fraction = if dot < s.len() {
        s.skip(dot + 1)
    } else {
        Seq::<char>::empty()
    };
    if all_digits(whole) && all_digits(fraction) && whole.len() + fraction.len() >= 1 {
        let kept = kept_fraction(fraction);
        Some(
            (
                value_of(whole) * 1000 + value_of(kept) * fraction_scale(kept.len()),
                value_of(dropped_fraction(fraction)) > 0,
            ),
        )
    } else {
        None
    }
}

/// The percentage that a text writes: an optional `+` or `-`, then a decimal
/// number such as `10`, `7.5`, `.5` or `5.`, rounded down to a thousandth.
/// `None` for any other text (an exponent, `inf` and `nan` are not read) and
/// for a number that does not fit.
pub open spec fn spec_parse_percent(s: Seq<char>) -> Option<Percent> {
    let negative = s.len() > 0 && s[0] == '-';
    let body = if s.len() > 0 && (s[0] == '-' || s[0] == '+') {
        s.skip(1)
    } else {
        s
    };
    match spec_parse_magnitude(body) {
        Some((m, inexact)) => {
            let value: int = if negative {
                if inexact {
                    -(m + 1)
                } else {
                    -(m as int)
                }
            } else {
                m as int
            };
            if i128::MIN <= value <= i128::MAX {
                Some(Percent { millis: value as i128 })
            } else {
                None
            }
        },
        None => None,
    }
}

/// The three digits that write a number below one thousand, zeros included.
pub open spec fn three_digits(f: nat) -> Seq<char> {
    seq![digit_char(f / 100), digit_char((f / 10) % 10), digit_char(f % 10)]
}

/// The canonical text of a percentage: `-` for a negative one, the whole
/// percent in decimal, a point, and exactly three digits of thousandths.
pub open spec fn percent_text(p: Percent) -> Seq<char> {
    let m: nat = if p.millis < 0 {
        (-p.millis) as nat
    } else {
        p.millis as nat
    };
    let sign = if p.millis < 0 {
        seq!['-']
    } else {
        Seq::<char>::empty()
    };
    sign + digits_of(m / 1000) + seq!['.'] + three_digits(m % 1000)
}

/// A run of at most three digits writes less than one thousand.
pub proof fn lemma_value_of_bound(s: Seq<char>)
    requires
        s.len() <= 3,
    ensures
        all_digits(s) ==> value_of(s) <= 999,
        all_digits(s) && s.len() <= 2 ==> value_of(s) <= 99,
        all_digits(s) && s.len() <= 1 ==> value_of(s) <= 9,
    decreases s.len(),
{
    if s.len() > 0 && all_digits(s) {
        let t = s.drop_last();
        assert forall|i: int| 0 <= i < t.len() implies is_digit(#[trigger] t[i]) by {
            assert(t[i] == s[i]);
        }
        lemma_value_of_bound(t);
        assert(is_digit(s[s.len() - 1]));
    }
}

/// A fraction is made of digits exactly when its counted and its dropped
/// digits are.
proof fn lemma_fraction_parts(fraction: Seq<char>)
    ensures
        fraction == kept_fraction(fraction) + dropped_fraction(fraction),
        all_digits(fraction) <==> all_digits(kept_fraction(fraction)) && all_digits(
            dropped_fraction(fraction),
        ),
{
    let kept = kept_fraction(fraction);
    let dropped = dropped_fraction(fraction);
    assert(fraction == kept + dropped);
    if all_digits(fraction) {
        assert forall|i: int| 0 <= i < kept.len() implies is_digit(#[trigger] kept[i]) by {
            assert(kept[i] == fraction[i]);
        }
        assert forall|i: int| 0 <= i < dropped.len() implies is_digit(#[trigger] dropped[i]) by {
            assert(dropped[i] == fraction[i + kept.len()]);
        }
    }
    if all_digits(kept) && all_digits(dropped) {
        assert forall|i: int| 0 <= i < fraction.len() implies is_digit(#[trigger] fraction[i]) by {
            if i < kept.len() {
                assert(fraction[i] == kept[i]);
            } else {
                assert(fraction[i] == dropped[i - kept.len()]);
            }
        }
    }
}

/// Reads the fraction `v[first..to]`: its first three digits as
/// thousandths, and whether anything but zeros follows them. `None` where
/// it holds anything but digits.
fn read_fraction(v: &Vec<char>, first: usize, to: usize) -> (r: Option<(u128, bool)>)
    requires
        first <= to <= v.len(),
    ensures
        ({
            let f = v@.subrange(first as int, to as int);
            match r {
                Some((scaled, inexact)) => {
                    &&& all_digits(f)
                    &&& scaled == value_of(kept_fraction(f)) * fraction_scale(kept_fraction(f).len())
                    &&& scaled <= 999
                    &&& inexact == (value_of(dropped_fraction(f)) > 0)
                },
                None => !all_digits(f),
            }
        }),
{
    let ghost f = v@.subrange(first as int, to as int);
    let cut: usize = if to - first > 3 {
        first + 3
    } else {
        to
    };
    proof {
        lemma_fraction_parts(f);
        assert(kept_fraction(f) == v@.subrange(first as int, cut as int));
        assert(dropped_fraction(f) == v@.subrange(cut as int, to as int));
        lemma_value_of_bound(kept_fraction(f));
    }
    let (rest_ok, inexact) = scan_digits(v, cut, to);
    if !rest_ok {
        return None;
    }
    if first == cut {
        assert(value_of(kept_fraction(f)) == 0);
        return Some((0, inexact));
    }
    let ghost kept = kept_fraction(f);
    assert(kept.len() == cut - first);
    match parse_digits_wide(v, first, cut) {
        Some(d) => {
            assert(all_digits(kept) && d == value_of(kept));
            let digits = cut - first;
            let scaled: u128 = if digits == 1 {
                d * 100
            } else if digits == 2 {
                d * 10
            } else {
                d
            };
            assert(scaled == value_of(kept) * fraction_scale(kept.len())) by {
                if digits == 1 {
                    assert(fraction_scale(kept.len()) == 100);
                } else if digits == 2 {
                    assert(fraction_scale(kept.len()) == 10);
                } else {
                    assert(kept.len() == 3);
                    assert(fraction_scale(kept.len()) == 1);
                }
            }
            Some((scaled, inexact))
        },
        None => {
            assert(!all_digits(kept));
            None
        },
    }
}

/// Reads the unsigned decimal text `v[start..to]`; `None` where it is no
/// such text or writes more thousandths than a `u128` holds.
fn read_magnitude(v: &Vec<char>, start: usize, to: usize) -> (r: Option<(u128, bool)>)
    requires
        start <= to <= v.len(),
    ensures
        match spec_parse_magnitude(v@.subrange(start as int, to as int)) {
            Some((m, inexact)) => if m <= u128::MAX {
                r == Some((m as u128, inexact))
            } else {
                r is None
            },
            None => r is None,
        },
{
    let ghost body = v@.subrange(start as int, to as int);
    // position of the point
    let mut dot: usize = start;
    while dot < to && v[dot] != '.'
        invariant
            start <= dot <= to <= v.len(),
            body == v@.subrange(start as int, to as int),
            find_char(body, 0, '.') == find_char(body, dot - start, '.'),
        decreases to - dot,
    {
        assert(body[dot - start] == v@[dot as int]);
        dot = dot + 1;
    }
    assert(find_char(body, 0, '.') == dot - start) by {
        if dot < to {
            assert(body[dot - start] == v@[dot as int]);
        }
    }
    let ghost whole = body.take(dot - start);
    assert(whole == v@.subrange(start as int, dot as int));
    let first: usize = if dot < to {
        dot + 1
    } else {
        to
    };
    let ghost fraction = if dot < to {
        body.skip(dot - start + 1)
    } else {
        Seq::<char>::empty()
    };
    assert(fraction == v@.subrange(first as int, to as int));
    if (dot - start) + (to - first) < 1 {
        return None;
    }
    let (scaled, inexact) = match read_fraction(v, first, to) {
        Some(f) => f,
        None => {
            return None;
        },
    };
    let units: u128 = if start < dot {
        match parse_digits_wide(v, start, dot) {
            Some(w) => w,
            None => {
                proof {
                    if all_digits(whole) {
                        assert(value_of(whole) > u128::MAX);
                    }
                }
                return None;
            },
        }
    } else {
        assert(value_of(whole) == 0);
        0
    };
    match units.checked_mul(1000) {
        Some(m) => match m.checked_add(scaled) {
            Some(t) => Some((t, inexact)),
            None => None,
        },
        None => None,
    }
}

impl Percent {
    /// The percentage of `millis` thousandths of a percent.
    pub fn from_millis(millis: i128) -> (p: Percent)
        ensures
            p.millis == millis,
    {
        Percent { millis }
    }

    /// The percentage of `whole` percent.
    pub fn from_whole(whole: u32) -> (p: Percent)
        ensures
            p.millis == whole * 1000,
    {
        Percent { millis: (whole as i128) * 1000 }
    }

    /// The value in thousandths of a percent.
    pub fn millis(&self) -> (m: i128)
        ensures
            m == self.millis,
    {
        self.millis
    }

    /// Half of this percentage, rounded towards zero to a thousandth.
    pub open spec fn spec_half(self) -> Percent {
        Percent {
            millis: if self.millis >= 0 {
                self.millis / 2
            } else {
                -((-self.millis) / 2)
            } as i128,
        }
    }

    /// Half of this percentage, rounded towards zero to a thousandth.
    pub fn half(&self) -> (p: Percent)
        ensures
            p == self.spec_half(),
    {
        if self.millis >= 0 {
            Percent { millis: self.millis / 2 }
        } else if self.millis == i128::MIN {
            Percent { millis: i128::MIN / 2 }
        } else {
            Percent { millis: -((-self.millis) / 2) }
        }
    }

    /// Whether the percentage lies in `0..=100`.
    pub open spec fn in_range(self) -> bool {
        0 <= self.millis <= FULL_SCALE_MILLIS
    }

    /// Whether the percentage lies in `0..=100`.
    pub fn is_in_range(&self) -> (b: bool)
        ensures
            b == self.in_range(),
    {
        0 <= self.millis && self.millis <= FULL_SCALE_MILLIS
    }

    /// Reads a percentage from `v[from..to]`.
    pub(crate) fn parse_in(v: &Vec<char>, from: usize, to: usize) -> (r: Option<Percent>)
        requires
            from <= to <= v.len(),
        ensures
            r == spec_parse_percent(v@.subrange(from as int, to as int)),
    {
        let ghost s = v@.subrange(from as int, to as int);
        let negative = from < to && v[from] == '-';
        let start: usize = if from < to && (v[from] == '-' || v[from] == '+') {
            from + 1
        } else {
            from
        };
        assert(v@.subrange(start as int, to as int) == if s.len() > 0 && (s[0] == '-' || s[0]
            == '+') {
            s.skip(1)
        } else {
            s
        });
        match read_magnitude(v, start, to) {
            Some((t, inexact)) => {
                if negative {
                    let down: u128 = if inexact {
                        1
                    } else {
                        0
                    };
                    if t < 0x8000_0000_0000_0000_0000_0000_0000_0000 - down {
                        Some(Percent { millis: -((t + down) as i128) })
                    } else if t == 0x8000_0000_0000_0000_0000_0000_0000_0000 - down {
                        Some(Percent { millis: i128::MIN })
                    } else {
                        None
                    }
                } else if t <= 0x7fff_ffff_ffff_ffff_ffff_ffff_ffff_ffff {
                    Some(Percent { millis: t as i128 })
                } else {
                    None
                }
            },
            None => None,
        }
    }

    /// Reads a percentage from a decimal text such as `10`, `7.5`, `.5` or
    /// `-0.125`; digits behind the third of the fraction round the value
    /// down to a thousandth. An exponent, `inf` and `nan` are not read.
    pub fn parse(s: &str) -> (r: Option<Percent>)
        ensures
            r == spec_parse_percent(s@),
    {
        let v = chars_of(s);
        assert(v@.subrange(0, v@.len() as int) == v@);
        Percent::parse_in(&v, 0, v.len())
    }

    /// The canonical text of the percentage, such as `7.500`.
    pub fn to_text(&self) -> (text: String)
        ensures
            text@ == percent_text(*self),
    {
        let mut text = String::new();
        self.push_to(&mut text);
        assert(Seq::<char>::empty() + percent_text(*self) == percent_text(*self));
        text
    }

    /// Appends the canonical text of the percentage to `out`.
    pub fn push_to(&self, out: &mut String)
        ensures
            final(out)@ == old(out)@ + percent_text(*self),
    {
        let magnitude: u128 = if self.millis < 0 {
            if self.millis == i128::MIN {
                0x8000_0000_0000_0000_0000_0000_0000_0000
            } else {
                (-self.millis) as u128
            }
        } else {
            self.millis as u128
        };
        if self.millis < 0 {
            out.push('-');
        }
        let ghost signed = out@;
        push_decimal(out, magnitude / 1000);
        out.push('.');
        let f: u32 = (magnitude % 1000) as u32;
        out.push((((f / 100) as u8) + 0x30) as char);
        out.push(((((f / 10) % 10) as u8) + 0x30) as char);
        out.push((((f % 10) as u8) + 0x30) as char);
        assert(out@ == signed + digits_of((magnitude / 1000) as nat) + seq!['.'] + three_digits(
            (magnitude % 1000) as nat,
        ));
        assert(signed == old(out)@ + if self.millis < 0 {
            seq!['-']
        } else {
            Seq::<char>::empty()
        });
    }
}

} // verus!

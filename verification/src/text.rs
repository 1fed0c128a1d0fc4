//! Character-level building blocks: decimal numbers, blanks and separators.

use vstd::prelude::*;

verus! {

/// A decimal digit, `0` to `9`.
pub open spec fn is_digit(c: char) -> bool {
    0x30 <= (c as u32) && (c as u32) <= 0x39
}

/// The number a decimal digit stands for.
pub open spec fn digit_value(c: char) -> nat {
    ((c as u32) - 0x30) as nat
}

/// A blank: space, tab, line feed, carriage return, vertical tab or form feed.
pub open spec fn is_blank(c: char) -> bool {
    c == ' ' || c == '\t' || c == '\n' || c == '\r' || (c as u32) == 0x0b || (c as u32) == 0x0c
}

/// Every character of `s` is a decimal digit.
pub open spec fn all_digits(s: Seq<char>) -> bool {
    forall|i: int| 0 <= i < s.len() ==> is_digit(#[trigger] s[i])
}

/// The number that a sequence of decimal digits writes, most significant
/// digit first; the empty sequence writes zero.
pub open spec fn value_of(s: Seq<char>) -> nat
    decreases s.len(),
{
    if s.len() == 0 {
        0
    } else {
        10 * value_of(s.drop_last()) + digit_value(s.last())
    }
}

/// The digit that writes `d`, for `d` below ten.
pub open spec fn digit_char(d: nat) -> char {
    ((d + 0x30) as u8) as char
}

/// The shortest decimal writing of `n`.
pub open spec fn digits_of(n: nat) -> Seq<char>
    decreases n,
{
    if n < 10 {
        seq![digit_char(n)]
    } else {
        digits_of(n / 10).push(digit_char(n % 10))
    }
}

/// The decimal writing of an integer, with `-` in front of a negative one.
pub open spec fn signed_digits_of(n: int) -> Seq<char> {
    if n < 0 {
        seq!['-'] + digits_of((-n) as nat)
    } else {
        digits_of(n as nat)
    }
}

/// The characters of an optional string.
pub open spec fn optional_text(s: Option<String>) -> Option<Seq<char>> {
    match s {
        Some(t) => Some(t@),
        None => None,
    }
}

/// The first position at or after `from` that holds `c`, or the length of
/// `s` where there is none.
pub open spec fn find_char(s: Seq<char>, from: int, c: char) -> int
    decreases s.len() - from,
{
    if from >= s.len() {
        s.len() as int
    } else if s[from] == c {
        from
    } else {
        find_char(s, from + 1, c)
    }
}

/// The first position in `from..end` that holds no blank, or `end`.
pub open spec fn skip_blanks(s: Seq<char>, from: int, end: int) -> int
    decreases end - from,
{
    if from >= end {
        end
    } else if !is_blank(s[from]) {
        from
    } else {
        skip_blanks(s, from + 1, end)
    }
}

/// The first position in `from..end` that holds a blank, or `end`.
pub open spec fn skip_word(s: Seq<char>, from: int, end: int) -> int
    decreases end - from,
{
    if from >= end {
        end
    } else if is_blank(s[from]) {
        from
    } else {
        skip_word(s, from + 1, end)
    }
}

/// The end of `from..end` once the blanks at its end are taken off.
pub open spec fn drop_blanks_back(s: Seq<char>, from: int, end: int) -> int
    decreases end - from,
{
    if end <= from {
        from
    } else if !is_blank(s[end - 1]) {
        end
    } else {
        drop_blanks_back(s, from, end - 1)
    }
}

/// Whether `c` is a decimal digit.
pub fn char_is_digit(c: char) -> (b: bool)
    ensures
        b == is_digit(c),
{
    let code: u32 = c as u32;
    0x30 <= code && code <= 0x39
}

/// Whether `c` is a blank.
pub fn char_is_blank(c: char) -> (b: bool)
    ensures
        b == is_blank(c),
{
    let code: u32 = c as u32;
    c == ' ' || c == '\t' || c == '\n' || c == '\r' || code == 0x0b || code == 0x0c
}

/// The characters of `s`, in order.
pub fn chars_of(s: &str) -> (v: Vec<char>)
    ensures
        v@ == s@,
{
    let mut v: Vec<char> = Vec::new();
    for c in it: s.chars()
        invariant
            it.seq() == s@,
            v@ == s@.take(it.index()),
    {
        assert(s@.take(it.index() + 1) == s@.take(it.index()).push(c));
        v.push(c);
    }
    assert(s@.take(s@.len() as int) == s@);
    v
}

/// `String::push`. Claimed of it, as its documentation says: the character
/// is appended to the end of the string.
pub assume_specification[ String::push ](s: &mut String, c: char)
    ensures
        final(s)@ == old(s)@.push(c),
;

/// Executable form of [`find_char`].
pub(crate) fn find_char_in(v: &Vec<char>, from: usize, c: char) -> (r: usize)
    requires
        from <= v.len(),
    ensures
        r == find_char(v@, from as int, c),
        from <= r <= v.len(),
{
    let mut i: usize = from;
    while i < v.len() && v[i] != c
        invariant
            from <= i <= v.len(),
            find_char(v@, from as int, c) == find_char(v@, i as int, c),
        decreases v.len() - i,
    {
        i = i + 1;
    }
    i
}

/// Executable form of [`skip_blanks`].
pub(crate) fn skip_blanks_in(v: &Vec<char>, from: usize, end: usize) -> (r: usize)
    requires
        from <= end <= v.len(),
    ensures
        r == skip_blanks(v@, from as int, end as int),
        from <= r <= end,
{
    let mut i: usize = from;
    while i < end && char_is_blank(v[i])
        invariant
            from <= i <= end <= v.len(),
            skip_blanks(v@, from as int, end as int) == skip_blanks(v@, i as int, end as int),
        decreases end - i,
    {
        i = i + 1;
    }
    i
}

/// Executable form of [`skip_word`].
pub(crate) fn skip_word_in(v: &Vec<char>, from: usize, end: usize) -> (r: usize)
    requires
        from <= end <= v.len(),
    ensures
        r == skip_word(v@, from as int, end as int),
        from <= r <= end,
{
    let mut i: usize = from;
    while i < end && !char_is_blank(v[i])
        invariant
            from <= i <= end <= v.len(),
            skip_word(v@, from as int, end as int) == skip_word(v@, i as int, end as int),
        decreases end - i,
    {
        i = i + 1;
    }
    i
}

/// Executable form of [`drop_blanks_back`].
pub(crate) fn drop_blanks_back_in(v: &Vec<char>, from: usize, end: usize) -> (r: usize)
    requires
        from <= end <= v.len(),
    ensures
        r == drop_blanks_back(v@, from as int, end as int),
        from <= r <= end,
{
    let mut e: usize = end;
    while e > from && char_is_blank(v[e - 1])
        invariant
            from <= e <= end <= v.len(),
            drop_blanks_back(v@, from as int, end as int) == drop_blanks_back(
                v@,
                from as int,
                e as int,
            ),
        decreases e - from,
    {
        e = e - 1;
    }
    e
}

/// What a run of decimal digits holds as a `u128`: `None` where the run is
/// empty, holds anything but digits, or writes a number above `u128::MAX`.
pub open spec fn spec_parse_digits_wide(s: Seq<char>) -> Option<u128> {
    if s.len() >= 1 && all_digits(s) && value_of(s) <= u128::MAX {
        Some(value_of(s) as u128)
    } else {
        None
    }
}

/// What a run of decimal digits holds as a `u64`: `None` where the run is
/// empty, holds anything but digits, or writes a number above `u64::MAX`.
pub open spec fn spec_parse_digits(s: Seq<char>) -> Option<u64> {
    if s.len() >= 1 && all_digits(s) && value_of(s) <= u64::MAX {
        Some(value_of(s) as u64)
    } else {
        None
    }
}

/// What a text holds as a `u64`: decimal digits, with `+` allowed in front.
pub open spec fn spec_parse_u64(s: Seq<char>) -> Option<u64> {
    if s.len() > 0 && s[0] == '+' {
        spec_parse_digits(s.skip(1))
    } else {
        spec_parse_digits(s)
    }
}

/// What a text holds as an `i32`: decimal digits, with `+` or `-` allowed in
/// front; `None` where the number does not fit.
pub open spec fn spec_parse_i32(s: Seq<char>) -> Option<i32> {
    if s.len() > 0 && s[0] == '-' {
        match spec_parse_digits(s.skip(1)) {
            Some(v) => if v <= 0x8000_0000 {
                Some((-(v as int)) as i32)
            } else {
                None
            },
            None => None,
        }
    } else {
        match spec_parse_u64(s) {
            Some(v) => if v <= 0x7fff_ffff {
                Some(v as i32)
            } else {
                None
            },
            None => None,
        }
    }
}

/// One more digit at the end multiplies by ten and adds the digit.
pub proof fn lemma_value_of_step(s: Seq<char>, k: int)
    requires
        0 <= k < s.len(),
    ensures
        value_of(s.take(k + 1)) == 10 * value_of(s.take(k)) + digit_value(s[k]),
{
    assert(s.take(k + 1).drop_last() == s.take(k));
}

/// A prefix of a digit run writes no more than the run.
pub proof fn lemma_value_of_prefix(s: Seq<char>, k: int)
    requires
        0 <= k <= s.len(),
    ensures
        value_of(s.take(k)) <= value_of(s),
    decreases s.len() - k,
{
    if k < s.len() {
        lemma_value_of_step(s, k);
        lemma_value_of_prefix(s, k + 1);
    } else {
        assert(s.take(k) == s);
    }
}

/// The shortest decimal writing of `n` is a non-empty run of digits that
/// writes `n`.
pub proof fn lemma_digits_of(n: nat)
    ensures
        digits_of(n).len() >= 1,
        all_digits(digits_of(n)),
        value_of(digits_of(n)) == n,
    decreases n,
{
    if n < 10 {
        let s = digits_of(n);
        assert(s.len() == 1);
        assert(s[0] == digit_char(n));
        assert(s.drop_last().len() == 0);
        assert(value_of(s.drop_last()) == 0);
        assert(digit_value(s.last()) == n);
    } else {
        lemma_digits_of(n / 10);
        let s = digits_of(n);
        assert(s.drop_last() == digits_of(n / 10));
        assert(s.last() == digit_char(n % 10));
        assert forall|i: int| 0 <= i < s.len() implies is_digit(#[trigger] s[i]) by {
            if i < s.len() - 1 {
                assert(s[i] == digits_of(n / 10)[i]);
            }
        }
    }
}

/// Reads the digit run `v[from..to]` as a `u128`.
pub(crate) fn parse_digits_wide(v: &Vec<char>, from: usize, to: usize) -> (r: Option<u128>)
    requires
        from <= to <= v.len(),
    ensures
        r == spec_parse_digits_wide(v@.subrange(from as int, to as int)),
{
    let ghost s = v@.subrange(from as int, to as int);
    if from == to {
        return None;
    }
    let mut acc: u128 = 0;
    let mut i: usize = from;
    while i < to
        invariant
            from <= i <= to <= v.len(),
            s == v@.subrange(from as int, to as int),
            all_digits(s.take(i - from)),
            acc == value_of(s.take(i - from)),
        decreases to - i,
    {
        let c = v[i];
        assert(s[i - from] == c);
        if !char_is_digit(c) {
            return None;
        }
        proof {
            lemma_value_of_step(s, i - from);
            lemma_value_of_prefix(s, i - from + 1);
        }
        let d: u128 = (c as u32 - 0x30) as u128;
        let next = match acc.checked_mul(10) {
            Some(m) => m.checked_add(d),
            None => None,
        };
        match next {
            Some(n) => {
                acc = n;
            },
            None => {
                return None;
            },
        }
        i = i + 1;
        assert forall|j: int| 0 <= j < s.take(i - from).len() implies is_digit(
            #[trigger] s.take(i - from)[j],
        ) by {
            if j < i - from - 1 {
                assert(s.take(i - from)[j] == s.take(i - from - 1)[j]);
            }
        }
    }
    assert(s.take(to - from) == s);
    Some(acc)
}

/// Looks through `v[from..to]`: whether it holds digits only and, if so,
/// whether it writes more than zero.
pub(crate) fn scan_digits(v: &Vec<char>, from: usize, to: usize) -> (r: (bool, bool))
    requires
        from <= to <= v.len(),
    ensures
        r.0 == all_digits(v@.subrange(from as int, to as int)),
        r.0 ==> r.1 == (value_of(v@.subrange(from as int, to as int)) > 0),
{
    let ghost s = v@.subrange(from as int, to as int);
    let mut nonzero = false;
    let mut i: usize = from;
    while i < to
        invariant
            from <= i <= to <= v.len(),
            s == v@.subrange(from as int, to as int),
            all_digits(s.take(i - from)),
            nonzero == (value_of(s.take(i - from)) > 0),
        decreases to - i,
    {
        let c = v[i];
        assert(s[i - from] == c);
        if !char_is_digit(c) {
            return (false, false);
        }
        proof {
            lemma_value_of_step(s, i - from);
        }
        let code: u32 = c as u32;
        assert(digit_value(c) == code - 0x30);
        if code != 0x30 {
            nonzero = true;
        }
        i = i + 1;
        assert forall|j: int| 0 <= j < s.take(i - from).len() implies is_digit(
            #[trigger] s.take(i - from)[j],
        ) by {
            if j < i - from - 1 {
                assert(s.take(i - from)[j] == s.take(i - from - 1)[j]);
            }
        }
    }
    assert(s.take(to - from) == s);
    (true, nonzero)
}

/// Reads the digit run `v[from..to]` as a `u64`.
pub(crate) fn parse_digits(v: &Vec<char>, from: usize, to: usize) -> (r: Option<u64>)
    requires
        from <= to <= v.len(),
    ensures
        r == spec_parse_digits(v@.subrange(from as int, to as int)),
{
    match parse_digits_wide(v, from, to) {
        Some(n) => {
            if n <= 0xffff_ffff_ffff_ffff {
                Some(n as u64)
            } else {
                None
            }
        },
        None => {
            proof {
                let s = v@.subrange(from as int, to as int);
                if s.len() >= 1 && all_digits(s) {
                    assert(value_of(s) > u128::MAX);
                }
            }
            None
        },
    }
}

/// Reads `v[from..to]` as a `u64`.
pub(crate) fn parse_u64_in(v: &Vec<char>, from: usize, to: usize) -> (r: Option<u64>)
    requires
        from <= to <= v.len(),
    ensures
        r == spec_parse_u64(v@.subrange(from as int, to as int)),
{
    let ghost s = v@.subrange(from as int, to as int);
    if from < to && v[from] == '+' {
        assert(s.skip(1) == v@.subrange(from + 1, to as int));
        parse_digits(v, from + 1, to)
    } else {
        parse_digits(v, from, to)
    }
}

/// Reads `v[from..to]` as an `i32`.
pub(crate) fn parse_i32_in(v: &Vec<char>, from: usize, to: usize) -> (r: Option<i32>)
    requires
        from <= to <= v.len(),
    ensures
        r == spec_parse_i32(v@.subrange(from as int, to as int)),
{
    let ghost s = v@.subrange(from as int, to as int);
    if from < to && v[from] == '-' {
        assert(s.skip(1) == v@.subrange(from + 1, to as int));
        match parse_digits(v, from + 1, to) {
            Some(m) => {
                if m <= 0x7fff_ffff {
                    Some(-(m as i32))
                } else if m == 0x8000_0000 {
                    Some(i32::MIN)
                } else {
                    None
                }
            },
            None => None,
        }
    } else {
        match parse_u64_in(v, from, to) {
            Some(m) => {
                if m <= 0x7fff_ffff {
                    Some(m as i32)
                } else {
                    None
                }
            },
            None => None,
        }
    }
}

/// Reads a whole text as a `u64`.
pub fn parse_u64(s: &str) -> (r: Option<u64>)
    ensures
        r == spec_parse_u64(s@),
{
    let v = chars_of(s);
    assert(v@.subrange(0, v@.len() as int) == v@);
    parse_u64_in(&v, 0, v.len())
}

/// Reads a whole text as an `i32`.
pub fn parse_i32(s: &str) -> (r: Option<i32>)
    ensures
        r == spec_parse_i32(s@),
{
    let v = chars_of(s);
    assert(v@.subrange(0, v@.len() as int) == v@);
    parse_i32_in(&v, 0, v.len())
}

/// Appends the shortest decimal writing of `n` to `out`.
pub fn push_decimal(out: &mut String, n: u128)
    ensures
        final(out)@ == old(out)@ + digits_of(n as nat),
    decreases n,
{
    if n >= 10 {
        push_decimal(out, n / 10);
    }
    let d: u8 = (n % 10) as u8;
    out.push((d + 0x30) as char);
    assert(final(out)@ == old(out)@ + digits_of(n as nat)) by {
        if n >= 10 {
            assert((old(out)@ + digits_of((n / 10) as nat)).push(digit_char((n % 10) as nat))
                == old(out)@ + digits_of((n / 10) as nat).push(digit_char((n % 10) as nat)));
        } else {
            assert(old(out)@.push(digit_char(n as nat)) == old(out)@ + seq![digit_char(n as nat)]);
        }
    }
}

/// Appends the decimal writing of `n` to `out`, with `-` in front of a
/// negative number.
pub fn push_signed_decimal(out: &mut String, n: i64)
    ensures
        final(out)@ == old(out)@ + signed_digits_of(n as int),
{
    if n < 0 {
        out.push('-');
        let magnitude: u128 = if n == i64::MIN {
            0x8000_0000_0000_0000
        } else {
            (-n) as u128
        };
        push_decimal(out, magnitude);
        assert(final(out)@ == old(out)@ + signed_digits_of(n as int)) by {
            assert(old(out)@.push('-') + digits_of(magnitude as nat) == old(out)@ + (seq!['-']
                + digits_of(magnitude as nat)));
        }
    } else {
        push_decimal(out, n as u128);
    }
}

/// The literal `text` as an owned string.
pub fn owned(text: &str) -> (out: String)
    ensures
        out@ == text@,
{
    text.to_owned()
}

/// Whether `v[from..to]` spells the literal `word`.
pub(crate) fn spells(v: &Vec<char>, from: usize, to: usize, word: &str) -> (b: bool)
    requires
        from <= to <= v.len(),
    ensures
        b == (v@.subrange(from as int, to as int) == word@),
{
    let ghost s = v@.subrange(from as int, to as int);
    let mut i: usize = from;
    for c in it: word.chars()
        invariant
            it.seq() == word@,
            from <= i <= to <= v.len(),
            i == from + it.index(),
            s == v@.subrange(from as int, to as int),
            s.take(it.index()) == word@.take(it.index()),
    {
        if i >= to {
            assert(s.len() < word@.len());
            return false;
        }
        if v[i] != c {
            assert(s[it.index()] != word@[it.index()]);
            return false;
        }
        assert(s.take(it.index() + 1) == s.take(it.index()).push(s[it.index()]));
        assert(word@.take(it.index() + 1) == word@.take(it.index()).push(c));
        i = i + 1;
    }
    assert(word@.take(word@.len() as int) == word@);
    if i == to {
        assert(s.take(s.len() as int) == s);
        true
    } else {
        assert(s.len() > word@.len());
        false
    }
}

} // verus!

//! The time the resumed kernel took to restore the system, read from the
//! kernel log: the span between the line that starts bringing the other CPUs
//! back and the line that reports the devices restored.

use crate::hiberutil::{lines, lines_of};
use vstd::prelude::*;
use vstd::string::*;
use vstd::utf8::encode_utf8;

verus! {

/// Whether the bytes `p` occur in `s`.
pub open spec fn has_subslice(s: Seq<u8>, p: Seq<u8>) -> bool {
    exists|i: int| 0 <= i && i + p.len() <= s.len() && #[trigger] s.subrange(i, i + p.len()) == p
}

/// Whether `p` occurs in `s` at `i`.
fn occurs_at(s: &[u8], p: &[u8], i: usize) -> (r: bool)
    requires
        i + p@.len() <= s@.len(),
    ensures
        r == (s@.subrange(i as int, i + p@.len()) == p@),
{
    let n = s.len();
    let mut j: usize = 0;
    while j < p.len()
        invariant
            n == s@.len(),
            i + p@.len() <= s@.len(),
            j <= p@.len(),
            s@.subrange(i as int, i + j) == p@.subrange(0, j as int),
        decreases p@.len() - j,
    {
        if s[i + j] != p[j] {
            assert(s@.subrange(i as int, i + p@.len())[j as int] != p@[j as int]);
            return false;
        }
        assert(s@.subrange(i as int, i + j + 1) =~= s@.subrange(i as int, i + j).push(s@[i + j]));
        assert(p@.subrange(0, j + 1) =~= p@.subrange(0, j as int).push(p@[j as int]));
        j = j + 1;
    }
    assert(p@.subrange(0, p@.len() as int) =~= p@);
    true
}

/// Whether the bytes `p` occur in `s`.
pub fn contains_bytes(s: &[u8], p: &[u8]) -> (r: bool)
    ensures
        r == has_subslice(s@, p@),
{
    if p.len() > s.len() {
        return false;
    }
    let last = s.len() - p.len();
    let mut i: usize = 0;
    loop
        invariant
            last == s@.len() - p@.len(),
            p@.len() <= s@.len(),
            i <= last,
            forall|k: int| 0 <= k < i ==> #[trigger] s@.subrange(k, k + p@.len()) != p@,
        decreases last - i,
    {
        if occurs_at(s, p, i) {
            return true;
        }
        if i == last {
            return false;
        }
        i = i + 1;
    }
}

/// Whether `c` is a space or a tab.
pub open spec fn is_blank(c: u8) -> bool {
    c == 0x20 || c == 0x09
}

/// Whether `c` is an ASCII digit.
pub open spec fn is_digit(c: u8) -> bool {
    0x30 <= c <= 0x39
}

/// The first position from `i` on that is not a blank.
pub open spec fn skip_blanks(b: Seq<u8>, i: int) -> int
    decreases b.len() - i,
{
    if 0 <= i < b.len() && is_blank(b[i]) {
        skip_blanks(b, i + 1)
    } else {
        i
    }
}

/// The first position from `i` on that is not a digit.
pub open spec fn skip_digits(b: Seq<u8>, i: int) -> int
    decreases b.len() - i,
{
    if 0 <= i < b.len() && is_digit(b[i]) {
        skip_digits(b, i + 1)
    } else {
        i
    }
}

/// The number written by the digits `b[i..j]`.
pub open spec fn decimal_value(b: Seq<u8>, i: int, j: int) -> int
    decreases j - i,
{
    if j <= i {
        0
    } else {
        decimal_value(b, i, j - 1) * 10 + (b[j - 1] - 0x30)
    }
}

/// The timestamp `[ <seconds>.<six digits>]` at the start of a kernel log
/// line, as seconds and microseconds.
pub open spec fn kernel_timestamp(b: Seq<u8>) -> Option<(int, int)> {
    if b.len() > 0 && b[0] == 0x5b {
        let j = skip_blanks(b, 1);
        let k = skip_digits(b, j);
        if k > j && k < b.len() && b[k] == 0x2e && skip_digits(b, k + 1) == k + 7 && k + 7
            < b.len() && b[k + 7] == 0x5d {
            Some((decimal_value(b, j, k), decimal_value(b, k + 1, k + 7)))
        } else {
            None
        }
    } else {
        None
    }
}

/// Ten to the power `n`, for up to six digits.
spec fn digit_bound(n: int) -> int {
    if n <= 0 {
        1
    } else if n == 1 {
        10
    } else if n == 2 {
        100
    } else if n == 3 {
        1000
    } else if n == 4 {
        10000
    } else if n == 5 {
        100000
    } else {
        1000000
    }
}

proof fn lemma_skip_digits_from(b: Seq<u8>, i: int)
    requires
        0 <= i,
    ensures
        skip_digits(b, i) >= i,
        skip_digits(b, i) <= b.len() || skip_digits(b, i) == i,
    decreases b.len() - i,
{
    if 0 <= i < b.len() && is_digit(b[i]) {
        lemma_skip_digits_from(b, i + 1);
    }
}

/// Reads the timestamp at the start of a kernel log line: `None` where there
/// is none, or its seconds do not fit a `u64`.
pub fn parse_kernel_timestamp(b: &[u8]) -> (r: Option<(u64, u32)>)
    ensures
        r matches Some((_, us)) ==> us < 1_000_000,
        match kernel_timestamp(b@) {
            Some((s, us)) => if s <= u64::MAX {
                r matches Some((rs, rus)) && rs as int == s && rus as int == us
            } else {
                r is None
            },
            None => r is None,
        },
{
    if b.len() == 0 || b[0] != 0x5b {
        return None;
    }
    let mut j: usize = 1;
    while j < b.len() && (b[j] == 0x20 || b[j] == 0x09)
        invariant
            1 <= j <= b@.len(),
            skip_blanks(b@, j as int) == skip_blanks(b@, 1),
        decreases b@.len() - j,
    {
        j = j + 1;
    }
    let mut k: usize = j;
    let mut secs: u128 = 0;
    let mut too_large = false;
    while k < b.len() && 0x30 <= b[k] && b[k] <= 0x39
        invariant
            j <= k <= b@.len(),
            skip_digits(b@, k as int) == skip_digits(b@, j as int),
            !too_large ==> secs == decimal_value(b@, j as int, k as int) && secs <= u64::MAX,
            too_large ==> decimal_value(b@, j as int, k as int) > u64::MAX,
        decreases b@.len() - k,
    {
        if !too_large {
            let next = secs * 10 + (b[k] - 0x30) as u128;
            if next > u64::MAX as u128 {
                too_large = true;
            } else {
                secs = next;
            }
        }
        k = k + 1;
    }
    if k == j || k >= b.len() || b[k] != 0x2e {
        return None;
    }
    let mut m: usize = k + 1;
    let mut micros: u32 = 0;
    while m < b.len() && 0x30 <= b[m] && b[m] <= 0x39 && m - k < 7
        invariant
            k < m <= b@.len(),
            m - k <= 7,
            skip_digits(b@, m as int) == skip_digits(b@, k + 1),
            micros == decimal_value(b@, k + 1, m as int),
            micros < digit_bound(m - k - 1),
        decreases b@.len() - m,
    {
        micros = micros * 10 + (b[m] - 0x30) as u32;
        m = m + 1;
    }
    proof {
        lemma_skip_digits_from(b@, m as int);
    }
    if m - k != 7 || m >= b.len() || (0x30 <= b[m] && b[m] <= 0x39) || b[m] != 0x5d {
        return None;
    }
    if too_large {
        return None;
    }
    Some((secs as u64, micros))
}

/// The contents of `ls`.
pub open spec fn views(ls: Seq<String>) -> Seq<Seq<char>> {
    ls.map_values(|l: String| l@)
}

/// The first of `lines` from `from` on whose UTF-8 bytes hold those of
/// `pat`; `lines.len()` where none does.
pub open spec fn first_holding(lines: Seq<Seq<char>>, pat: Seq<char>, from: int) -> int
    decreases lines.len() - from,
{
    if 0 <= from < lines.len() {
        if has_subslice(encode_utf8(lines[from]), encode_utf8(pat)) {
            from
        } else {
            first_holding(lines, pat, from + 1)
        }
    } else {
        from
    }
}

/// The timestamp of a kernel log line, in microseconds, where it has one
/// whose seconds fit a `u64`.
pub open spec fn timestamp_micros(line: Seq<char>) -> Option<int> {
    match kernel_timestamp(encode_utf8(line)) {
        Some((secs, micros)) => if secs <= u64::MAX {
            Some(secs * 1_000_000 + micros)
        } else {
            None
        },
        None => None,
    }
}

/// The restore time in microseconds: from the first line that starts
/// enabling the other CPUs to the first later line that reports the devices
/// restored. `None` where either is missing, has no timestamp, or the span
/// is negative.
pub open spec fn restore_time_of(lines: Seq<Seq<char>>) -> Option<int> {
    let i = first_holding(lines, "Enabling non-boot CPUs ..."@, 0);
    let j = first_holding(lines, "PM: restore of devices complete after"@, i + 1);
    if j < lines.len() {
        match (timestamp_micros(lines[i]), timestamp_micros(lines[j])) {
            (Some(start), Some(done)) => if start <= done {
                Some(done - start)
            } else {
                None
            },
            _ => None,
        }
    } else {
        None
    }
}

proof fn lemma_first_holding_bounds(lines: Seq<Seq<char>>, pat: Seq<char>, from: int)
    requires
        0 <= from,
    ensures
        from <= first_holding(lines, pat, from),
        from <= lines.len() ==> first_holding(lines, pat, from) <= lines.len(),
    decreases lines.len() - from,
{
    if 0 <= from < lines.len() && !has_subslice(encode_utf8(lines[from]), encode_utf8(pat)) {
        lemma_first_holding_bounds(lines, pat, from + 1);
    }
}

/// The index of the first of `ls` from `from` on that holds `pat`.
fn find_line(ls: &Vec<String>, pat: &str, from: usize) -> (r: usize)
    requires
        from <= ls@.len(),
    ensures
        r == first_holding(views(ls@), pat@, from as int),
        r <= ls@.len(),
{
    let ghost l = views(ls@);
    let mut i = from;
    while i < ls.len() && !contains_bytes(ls[i].as_str().as_bytes(), pat.as_bytes())
        invariant
            l == views(ls@),
            from <= i <= ls@.len(),
            first_holding(l, pat@, from as int) == first_holding(l, pat@, i as int),
        decreases ls@.len() - i,
    {
        assert(l[i as int] == ls@[i as int]@);
        i = i + 1;
    }
    proof {
        if i < ls@.len() {
            assert(l[i as int] == ls@[i as int]@);
        }
    }
    i
}

/// The timestamp of a kernel log line in microseconds.
fn line_micros(line: &String) -> (r: Option<u128>)
    ensures
        r matches Some(t) ==> t <= u64::MAX as int * 1_000_000 + 999_999,
        match timestamp_micros(line@) {
            Some(t) => r matches Some(x) && x as int == t,
            None => r is None,
        },
{
    match parse_kernel_timestamp(line.as_str().as_bytes()) {
        Some((secs, micros)) => Some(secs as u128 * 1_000_000 + micros as u128),
        None => None,
    }
}

/// The time the resumed kernel took to restore the system, as seconds and
/// microseconds, from the kernel log `dmesg`.
pub fn kernel_restore_time(dmesg: &str) -> (r: Option<(u64, u32)>)
    ensures
        match restore_time_of(lines_of(dmesg@)) {
            Some(d) => r == Some(((d / 1_000_000) as u64, (d % 1_000_000) as u32)),
            None => r is None,
        },
{
    let ls = lines(dmesg);
    let ghost l = lines_of(dmesg@);
    assert(views(ls@) =~= l);
    let i = find_line(&ls, "Enabling non-boot CPUs ...", 0);
    if i >= ls.len() {
        proof {
            lemma_first_holding_bounds(l, "PM: restore of devices complete after"@, i + 1);
        }
        return None;
    }
    let j = find_line(&ls, "PM: restore of devices complete after", i + 1);
    if j >= ls.len() {
        return None;
    }
    assert(l[i as int] == ls@[i as int]@);
    assert(l[j as int] == ls@[j as int]@);
    let start = match line_micros(&ls[i]) {
        Some(t) => t,
        None => return None,
    };
    let done = match line_micros(&ls[j]) {
        Some(t) => t,
        None => return None,
    };
    if done < start {
        return None;
    }
    let d = done - start;
    assert(d / 1_000_000 <= u64::MAX) by (nonlinear_arith)
        requires
            d <= done,
            done <= u64::MAX as int * 1_000_000 + 999_999,
    ;
    Some(((d / 1_000_000) as u64, (d % 1_000_000) as u32))
}

} // verus!

//! Pieces of the memory-statistics daemon: sample types, the ring index
//! arithmetic of its sample queue, file names for testing, and the sample
//! header.

use crate::hiberutil::{lines, lines_of, parse_u64, parsed_u64, split_whitespace, whitespace_fields};
use vstd::prelude::*;
use vstd::string::*;

verus! {

/// `e` modulo `n`, always between 0 and `n - 1`, also for a negative `e`.
pub fn modulo(e: isize, n: usize) -> (r: usize)
    requires
        n > 0,
    ensures
        r as int == (e as int) % (n as int),
        r < n,
{
    if e >= 0 {
        (e as usize) % n
    } else {
        let k = (-(e + 1)) as usize;
        let m = k % n;
        let r = n - 1 - m;
        assert((e as int) % (n as int) == r as int) by (nonlinear_arith)
            requires
                e < 0,
                k as int == -(e as int + 1),
                m as int == (k as int) % (n as int),
                r as int == n as int - 1 - m as int,
                n > 0,
        {
            let q = (k as int) / (n as int);
            assert(k as int == q * (n as int) + m as int);
            assert(e as int == (-q - 1) * (n as int) + r as int);
        }
        r
    }
}

/// What a sample records.
#[derive(Clone, Copy, Debug, Default, PartialEq, Eq, Structural)]
pub enum SampleType {
    /// Entering low-memory state, from the kernel low-mem notifier.
    EnterLowMem,
    /// Leaving low-memory state, from the kernel low-mem notifier.
    LeaveLowMem,
    /// Chrome letting us know it detected an OOM kill.
    OomKillBrowser,
    /// The anomaly detector letting us know it detected an OOM kill.
    OomKillKernel,
    /// The daemon was not running for a long time.
    Sleeper,
    /// Chrome letting us know about a tab discard.
    TabDiscard,
    /// A sample taken after a fast-poll period with no other event.
    Timer,
    /// Internal use.
    #[default]
    Uninitialized,
}

impl SampleType {
    /// Whether the timestamp of this sample type is taken by the daemon: the
    /// timestamps of samples reported by others may be skewed.
    pub fn has_internal_timestamp(&self) -> (r: bool)
        ensures
            r == !(*self == SampleType::TabDiscard || *self == SampleType::OomKillBrowser || *self
                == SampleType::OomKillKernel),
    {
        match self {
            SampleType::TabDiscard | SampleType::OomKillBrowser | SampleType::OomKillKernel => false,
            _ => true,
        }
    }

    /// The identifier of the sample type, of at most six characters.
    pub fn name(&self) -> (r: &'static str)
        ensures
            r@ == sample_type_name(*self),
            r@.len() <= 6,
    {
        proof {
            reveal_strlit("lowmem");
            reveal_strlit("lealow");
            reveal_strlit("oomkll");
            reveal_strlit("keroom");
            reveal_strlit("sleepr");
            reveal_strlit("discrd");
            reveal_strlit("timer");
            reveal_strlit("UNINIT");
        }
        match self {
            SampleType::EnterLowMem => "lowmem",
            SampleType::LeaveLowMem => "lealow",
            SampleType::OomKillBrowser => "oomkll",
            SampleType::OomKillKernel => "keroom",
            SampleType::Sleeper => "sleepr",
            SampleType::TabDiscard => "discrd",
            SampleType::Timer => "timer",
            SampleType::Uninitialized => "UNINIT",
        }
    }
}

/// The identifier `SampleType::name` gives.
pub open spec fn sample_type_name(t: SampleType) -> Seq<char> {
    match t {
        SampleType::EnterLowMem => "lowmem"@,
        SampleType::LeaveLowMem => "lealow"@,
        SampleType::OomKillBrowser => "oomkll"@,
        SampleType::OomKillKernel => "keroom"@,
        SampleType::Sleeper => "sleepr"@,
        SampleType::TabDiscard => "discrd"@,
        SampleType::Timer => "timer"@,
        SampleType::Uninitialized => "UNINIT"@,
    }
}

/// The file name that replaces `name` when testing: `name` under the
/// testing root.
pub fn test_filename(testing: bool, testing_root: &str, name: &str) -> (r: String)
    ensures
        r@ == if testing {
            testing_root@ + name@
        } else {
            name@
        },
{
    if testing {
        String::from_str(testing_root).concat(name)
    } else {
        String::from_str(name)
    }
}

/// The header line of a clip file: the fixed columns, then the vmstat fields
/// tracked, in order.
pub fn build_sample_header() -> (r: String)
    ensures
        r@ == "uptime type load freeram freeswap procs runnables available"@ + " "@ + "pswpin"@
            + " "@ + "pswpout"@ + " "@ + "pgalloc"@ + " "@ + "pgmajfault"@ + " "@ + "pgmajfault_f"@
            + "\n"@,
{
    let s = String::from_str("uptime type load freeram freeswap procs runnables available");
    let s = s.concat(" ").concat("pswpin");
    let s = s.concat(" ").concat("pswpout");
    let s = s.concat(" ").concat("pgalloc");
    let s = s.concat(" ").concat("pgmajfault");
    let s = s.concat(" ").concat("pgmajfault_f");
    s.concat("\n")
}

/// The number of vmstat values tracked.
pub const VMSTAT_VALUES_COUNT: usize = 5;

/// Whether `p` starts `s`.
pub open spec fn is_prefix(p: Seq<char>, s: Seq<char>) -> bool {
    p.len() <= s.len() && s.subrange(0, p.len() as int) == p
}

/// Whether `p` starts `s`.
pub fn starts_with(s: &str, p: &str) -> (r: bool)
    ensures
        r == is_prefix(p@, s@),
{
    let n = s.unicode_len();
    let m = p.unicode_len();
    if m > n {
        return false;
    }
    let mut i: usize = 0;
    while i < m
        invariant
            m == p@.len(),
            n == s@.len(),
            m <= n,
            i <= m,
            s@.subrange(0, i as int) == p@.subrange(0, i as int),
        decreases m - i,
    {
        if s.get_char(i) != p.get_char(i) {
            assert(s@.subrange(0, m as int)[i as int] != p@[i as int]);
            return false;
        }
        assert(s@.subrange(0, i + 1) =~= s@.subrange(0, i as int).push(s@[i as int]));
        assert(p@.subrange(0, i + 1) =~= p@.subrange(0, i as int).push(p@[i as int]));
        i = i + 1;
    }
    assert(p@.subrange(0, m as int) =~= p@);
    true
}

/// The sum of the values of the entries of `v` whose name starts with
/// `prefix`.
pub open spec fn prefix_sum(v: Seq<(String, i64)>, prefix: Seq<char>) -> int
    decreases v.len(),
{
    if v.len() == 0 {
        0
    } else {
        prefix_sum(v.drop_last(), prefix) + if is_prefix(prefix, v.last().0@) {
            v.last().1 as int
        } else {
            0
        }
    }
}

/// The value of the first entry of `v` named `name`.
pub open spec fn value_named(v: Seq<(String, i64)>, name: Seq<char>) -> Option<i64>
    decreases v.len(),
{
    if v.len() == 0 {
        None
    } else if v[0].0@ == name {
        Some(v[0].1)
    } else {
        value_named(v.drop_first(), name)
    }
}

/// The sum of the entries whose name starts with `prefix`; an error where it
/// does not fit.
fn sum_with_prefix(v: &Vec<(String, i64)>, prefix: &str) -> (r: Result<i64, String>)
    ensures
        r is Ok <==> i64::MIN <= prefix_sum(v@, prefix@) <= i64::MAX,
        r matches Ok(x) ==> x == prefix_sum(v@, prefix@),
{
    let mut sum: i128 = 0;
    let mut i: usize = 0;
    while i < v.len()
        invariant
            i <= v@.len(),
            sum == prefix_sum(v@.subrange(0, i as int), prefix@),
            -(i as int) * 0x8000_0000_0000_0000 <= sum <= (i as int) * 0x8000_0000_0000_0000,
        decreases v@.len() - i,
    {
        assert(v@.subrange(0, i + 1).drop_last() =~= v@.subrange(0, i as int));
        assert((i as int + 1) * 0x8000_0000_0000_0000 <= 0x7fff_ffff_ffff_ffff_ffff_ffff_ffff_ffff)
            by (nonlinear_arith)
            requires
                i < usize::MAX,
        ;
        if starts_with(v[i].0.as_str(), prefix) {
            sum = sum + v[i].1 as i128;
        }
        i = i + 1;
    }
    assert(v@.subrange(0, v@.len() as int) =~= v@);
    if sum < i64::MIN as i128 || sum > i64::MAX as i128 {
        Err(String::from_str("vmstat: value out of range"))
    } else {
        Ok(sum as i64)
    }
}

/// The value of the first entry named `name`.
fn value_of(v: &Vec<(String, i64)>, name: &str) -> (r: Option<i64>)
    ensures
        r == value_named(v@, name@),
{
    let mut i: usize = 0;
    assert(v@.subrange(0, v@.len() as int) =~= v@);
    while i < v.len()
        invariant
            i <= v@.len(),
            value_named(v@.subrange(i as int, v@.len() as int), name@) == value_named(v@, name@),
        decreases v@.len() - i,
    {
        let ghost rest = v@.subrange(i as int, v@.len() as int);
        assert(rest[0] == v@[i as int]);
        assert(rest.drop_first() =~= v@.subrange(i + 1, v@.len() as int));
        if v[i].0.as_str().unicode_len() == name.unicode_len() && starts_with(v[i].0.as_str(), name) {
            assert(v@[i as int].0@ =~= name@);
            return Some(v[i].1);
        }
        assert(v@[i as int].0@.subrange(0, v@[i as int].0@.len() as int) =~= v@[i as int].0@);
        assert(v@[i as int].0@ != name@);
        i = i + 1;
    }
    None
}

/// The values tracked in /proc/vmstat, in order: `pswpin`, `pswpout`, the sum
/// of the `pgalloc` counters, `pgmajfault`, and `pgmajfault_f` (0 where the
/// kernel has none). `None` where a mandatory value is missing or the sum
/// does not fit.
pub open spec fn vmstat_values(v: Seq<(String, i64)>) -> Option<Seq<i64>> {
    let pgalloc = prefix_sum(v, "pgalloc"@);
    match (value_named(v, "pswpin"@), value_named(v, "pswpout"@), value_named(v, "pgmajfault"@)) {
        (Some(pswpin), Some(pswpout), Some(pgmajfault)) => if i64::MIN <= pgalloc <= i64::MAX {
            Some(
                seq![
                    pswpin,
                    pswpout,
                    pgalloc as i64,
                    pgmajfault,
                    match value_named(v, "pgmajfault_f"@) {
                        Some(x) => x,
                        None => 0,
                    },
                ],
            )
        } else {
            None
        },
        _ => None,
    }
}

fn mandatory(v: &Vec<(String, i64)>, name: &str) -> (r: Result<i64, String>)
    ensures
        match value_named(v@, name@) {
            Some(x) => r == Ok::<i64, String>(x),
            None => r is Err,
        },
{
    match value_of(v, name) {
        Some(x) => Ok(x),
        None => Err(String::from_str("vmstat: missing value: ").concat(name)),
    }
}

/// Whether no two entries of `v` share a name, as in a map.
pub open spec fn distinct_names(v: Seq<(String, i64)>) -> bool {
    forall|i: int, j: int| 0 <= i < j < v.len() ==> (#[trigger] v[i]).0@ != (#[trigger] v[j]).0@
}

/// Picks the tracked values out of the counters of /proc/vmstat, given as
/// name and value, each name once.
pub fn parse_vmstats(vmstats: &Vec<(String, i64)>) -> (r: Result<[i64; VMSTAT_VALUES_COUNT], String>)
    requires
        distinct_names(vmstats@),
    ensures
        r is Ok <==> vmstat_values(vmstats@) is Some,
        r matches Ok(a) ==> vmstat_values(vmstats@) == Some(a@),
{
    let pswpin = mandatory(vmstats, "pswpin")?;
    let pswpout = mandatory(vmstats, "pswpout")?;
    let pgalloc = sum_with_prefix(vmstats, "pgalloc")?;
    let pgmajfault = mandatory(vmstats, "pgmajfault")?;
    let pgmajfault_f = match value_of(vmstats, "pgmajfault_f") {
        Some(x) => x,
        None => 0,
    };
    let result = [pswpin, pswpout, pgalloc, pgmajfault, pgmajfault_f];
    assert(result@ =~= vmstat_values(vmstats@)->Some_0);
    Ok(result)
}

/// The zone watermarks, in pages, summed over the zones.
#[derive(Clone, Copy, Debug, PartialEq, Eq, Structural)]
pub struct Watermarks {
    pub min: u32,
    pub low: u32,
    pub high: u32,
}

/// What a zoneinfo line adds to the watermark `key`: its number where the
/// line is `key <number>`, 0 where it is about something else, and `None`
/// where the number is missing or is not a `u32`.
pub open spec fn line_watermark(line: Seq<char>, key: Seq<char>) -> Option<int> {
    let f = whitespace_fields(line);
    if f.len() > 0 && f[0] == key {
        if f.len() >= 2 && parsed_u64(f[1]) is Some && parsed_u64(f[1])->Some_0 <= u32::MAX {
            Some(parsed_u64(f[1])->Some_0 as int)
        } else {
            None
        }
    } else {
        Some(0)
    }
}

/// The sum of the watermark `key` over `lines`; `None` where a line for it
/// is malformed.
pub open spec fn watermark_sum(lines: Seq<Seq<char>>, key: Seq<char>) -> Option<int>
    decreases lines.len(),
{
    if lines.len() == 0 {
        Some(0)
    } else {
        match (watermark_sum(lines.drop_last(), key), line_watermark(lines.last(), key)) {
            (Some(a), Some(b)) => Some(a + b),
            _ => None,
        }
    }
}

/// Whether the sum of `key` over `lines` is well formed and fits a `u32`.
pub open spec fn watermark_fits(lines: Seq<Seq<char>>, key: Seq<char>) -> bool {
    watermark_sum(lines, key) matches Some(x) && x <= u32::MAX
}

/// What the zoneinfo line `line` adds to the watermark `key`.
fn watermark_in_line(line: &str, key: &str) -> (r: Option<u32>)
    ensures
        match line_watermark(line@, key@) {
            Some(x) => r == Some(x as u32),
            None => r is None,
        },
{
    let fields = split_whitespace(line);
    if fields.len() == 0 || !(fields[0] == String::from_str(key)) {
        return Some(0);
    }
    if fields.len() < 2 {
        return None;
    }
    match parse_u64(fields[1].as_str()) {
        Some(x) => if x <= u32::MAX as u64 {
            Some(x as u32)
        } else {
            None
        },
        None => None,
    }
}

/// A malformed line spoils the sum of every longer run of lines.
proof fn lemma_malformed_stays_malformed(lines: Seq<Seq<char>>, key: Seq<char>, j: int, k: int)
    requires
        0 <= j <= k <= lines.len(),
        watermark_sum(lines.subrange(0, j), key) is None,
    ensures
        watermark_sum(lines.subrange(0, k), key) is None,
    decreases k - j,
{
    if k > j {
        lemma_malformed_stays_malformed(lines, key, j, k - 1);
        assert(lines.subrange(0, k).drop_last() =~= lines.subrange(0, k - 1));
    }
}

/// One step of a watermark sum over the first lines.
proof fn lemma_watermark_step(lines: Seq<Seq<char>>, key: Seq<char>, i: int)
    requires
        0 <= i < lines.len(),
    ensures
        watermark_sum(lines.subrange(0, i + 1), key) == match (
            watermark_sum(lines.subrange(0, i), key),
            line_watermark(lines[i], key),
        ) {
            (Some(a), Some(b)) => Some(a + b),
            _ => None,
        },
{
    assert(lines.subrange(0, i + 1).drop_last() =~= lines.subrange(0, i));
}

/// Sums the `min`, `low` and `high` watermarks of /proc/zoneinfo over its
/// zones. An error where such a line has no `u32` number, or a sum does not
/// fit a `u32`.
pub fn read_watermarks(content: &str) -> (r: Result<Watermarks, String>)
    ensures
        r is Ok <==> (watermark_fits(lines_of(content@), "min"@) && watermark_fits(
            lines_of(content@),
            "low"@,
        ) && watermark_fits(lines_of(content@), "high"@)),
        r matches Ok(w) ==> (watermark_sum(lines_of(content@), "min"@) == Some(w.min as int)
            && watermark_sum(lines_of(content@), "low"@) == Some(w.low as int) && watermark_sum(
            lines_of(content@),
            "high"@,
        ) == Some(w.high as int)),
{
    let ls = lines(content);
    let ghost l = lines_of(content@);
    let mut min: u128 = 0;
    let mut low: u128 = 0;
    let mut high: u128 = 0;
    let mut i: usize = 0;
    assert(l.subrange(0, 0) =~= Seq::<Seq<char>>::empty());
    while i < ls.len()
        invariant
            l == lines_of(content@),
            ls@.len() == l.len(),
            forall|k: int| 0 <= k < ls@.len() ==> #[trigger] ls@[k]@ == l[k],
            i <= ls@.len(),
            watermark_sum(l.subrange(0, i as int), "min"@) == Some(min as int),
            watermark_sum(l.subrange(0, i as int), "low"@) == Some(low as int),
            watermark_sum(l.subrange(0, i as int), "high"@) == Some(high as int),
            min <= i * 0xffff_ffff,
            low <= i * 0xffff_ffff,
            high <= i * 0xffff_ffff,
        decreases ls@.len() - i,
    {
        assert(ls@[i as int]@ == l[i as int]);
        proof {
            lemma_watermark_step(l, "min"@, i as int);
            lemma_watermark_step(l, "low"@, i as int);
            lemma_watermark_step(l, "high"@, i as int);
        }
        let line = ls[i].as_str();
        let a = watermark_in_line(line, "min");
        let b = watermark_in_line(line, "low");
        let c = watermark_in_line(line, "high");
        if a.is_none() || b.is_none() || c.is_none() {
            proof {
                if a is None {
                    lemma_malformed_stays_malformed(l, "min"@, i + 1, l.len() as int);
                } else if b is None {
                    lemma_malformed_stays_malformed(l, "low"@, i + 1, l.len() as int);
                } else {
                    lemma_malformed_stays_malformed(l, "high"@, i + 1, l.len() as int);
                }
                assert(l.subrange(0, l.len() as int) =~= l);
            }
            return Err(String::from_str("zoneinfo: malformed watermark"));
        }
        assert((i as int + 1) * 0xffff_ffff <= 0xffff_ffff_ffff_ffff_ffff_ffff) by (nonlinear_arith)
            requires
                i < usize::MAX,
        ;
        min = min + a.unwrap() as u128;
        low = low + b.unwrap() as u128;
        high = high + c.unwrap() as u128;
        i = i + 1;
    }
    assert(l.subrange(0, l.len() as int) =~= l);
    if min > u32::MAX as u128 || low > u32::MAX as u128 || high > u32::MAX as u128 {
        return Err(String::from_str("zoneinfo: watermark out of range"));
    }
    Ok(Watermarks { min: min as u32, low: low as u32, high: high as u32 })
}

} // verus!

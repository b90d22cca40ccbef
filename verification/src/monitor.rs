//! Samples of the system's load and of the game's frame pacing: the frame
//! statistics from the frame timings that `dumpsys` prints. Taking the
//! samples (reading `/proc/stat`, running `dumpsys`) is the caller's part.
use vstd::prelude::*;
use vstd::relations::{sorted_by, total_ordering};
use crate::text::{
    chars_of, copy_range, parse_u64, parse_u64_spec, split_by, split_chars, split_words, trim,
    trim_chars, words,
};

verus! {

broadcast use vstd::seq_lib::group_to_multiset_ensures;

/// Idle and total CPU ticks of one CPU from `/proc/stat`.
#[derive(Debug, Clone, Copy, PartialEq, Eq)]
pub struct LoadSample {
    pub idle: u64,
    pub total: u64,
}

/// Frame-pacing figures of the game over the last sampling window.
#[derive(Debug, Clone, Copy, PartialEq, Eq)]
pub struct FrameStats {
    pub sample_count: usize,
    /// Frames that missed their deadline.
    pub janky_frames: usize,
    /// 90th percentile of the frame durations.
    pub p90_frame_ns: u64,
    pub worst_frame_ns: u64,
    /// When the figures were taken, in milliseconds on a monotonic clock.
    pub captured_at_ms: Option<u64>,
}

impl FrameStats {
    /// The number of frames sampled.
    pub fn frame_count(&self) -> (r: usize)
        ensures
            r == self.sample_count,
    {
        self.sample_count
    }

    /// The share of janky frames in hundredths of a percent, rounded down
    /// (and at most `i64::MAX`); 0 without frames.
    pub fn jank_hundredths(&self) -> (r: i64)
        ensures
            r == (if self.sample_count == 0 {
                0
            } else if (self.janky_frames as int * 10000) / (self.sample_count as int) > i64::MAX {
                i64::MAX as int
            } else {
                (self.janky_frames as int * 10000) / (self.sample_count as int)
            }),
    {
        if self.sample_count == 0 {
            0
        } else {
            let q = (self.janky_frames as u128) * 10000 / (self.sample_count as u128);
            if q > 0x7FFF_FFFF_FFFF_FFFF {
                0x7FFF_FFFF_FFFF_FFFF
            } else {
                q as i64
            }
        }
    }

    /// Whether the figures count for the game session at `now_ms`: taken
    /// no more than 12 s ago, with a 90th percentile between 0 and 500 ms
    /// (exclusive) over at least five frames.
    pub fn counts_for_session(&self, now_ms: u64) -> (r: bool)
        ensures
            r == (!(match self.captured_at_ms {
                Some(t) => now_ms >= t && now_ms - t > 12000,
                None => false,
            }) && self.p90_frame_ns > 0 && self.p90_frame_ns < 500_000_000 && self.sample_count >= 5),
    {
        let stale = match self.captured_at_ms {
            Some(t) => now_ms >= t && now_ms - t > 12000,
            None => false,
        };
        !stale && self.p90_frame_ns > 0 && self.p90_frame_ns < 500_000_000 && self.sample_count >= 5
    }
}

/// The frames longer than the budget.
pub open spec fn janky_count(d: Seq<u64>, budget: u64) -> nat
    decreases d.len(),
{
    if d.len() == 0 {
        0
    } else {
        janky_count(d.drop_last(), budget) + (if d.last() > budget {
            1nat
        } else {
            0nat
        })
    }
}

pub open spec fn max_of(d: Seq<u64>) -> u64
    decreases d.len(),
{
    if d.len() == 0 {
        0
    } else if d.len() == 1 {
        d[0]
    } else {
        let m = max_of(d.drop_last());
        if d.last() > m {
            d.last()
        } else {
            m
        }
    }
}

/// How many frame durations exceed the budget, and the longest one.
pub fn jank_and_worst(durations: &Vec<u64>, frame_budget_ns: u64) -> (r: (usize, u64))
    ensures
        r.0 == janky_count(durations@, frame_budget_ns),
        r.1 == max_of(durations@),
{
    let mut janky: usize = 0;
    let mut worst: u64 = 0;
    let mut i: usize = 0;
    while i < durations.len()
        invariant
            0 <= i <= durations.len(),
            janky == janky_count(durations@.take(i as int), frame_budget_ns),
            janky <= i,
            worst == max_of(durations@.take(i as int)),
        decreases durations.len() - i,
    {
        let ghost t = durations@.take(i + 1);
        assert(t.drop_last() =~= durations@.take(i as int));
        let d = durations[i];
        if d > frame_budget_ns {
            janky = janky + 1;
        }
        if i == 0 || d > worst {
            worst = d;
        }
        i = i + 1;
    }
    assert(durations@.take(durations.len() as int) =~= durations@);
    (janky, worst)
}

/// The order frame durations are sorted in: ascending.
pub open spec fn dur_order() -> spec_fn(u64, u64) -> bool {
    |a: u64, b: u64| a <= b
}

/// The durations in ascending order.
pub open spec fn sorted_durations(d: Seq<u64>) -> Seq<u64> {
    d.sort_by(dur_order())
}

proof fn lemma_dur_order_total()
    ensures
        total_ordering(dur_order()),
{
}

/// Sorting keeps the number of durations.
pub proof fn lemma_sorted_len(d: Seq<u64>)
    ensures
        sorted_durations(d).len() == d.len(),
{
    lemma_dur_order_total();
    d.lemma_sort_by_ensures(dur_order());
    assert(sorted_durations(d).to_multiset().len() == d.to_multiset().len());
}

/// Inserts `x` into the ascending `v`, after the elements not above it.
fn insert_ascending(v: &mut Vec<u64>, x: u64)
    requires
        sorted_by(old(v)@, dur_order()),
    ensures
        sorted_by(final(v)@, dur_order()),
        final(v)@.to_multiset() == old(v)@.to_multiset().insert(x),
{
    let ghost leq = dur_order();
    let mut p: usize = 0;
    while p < v.len() && v[p] <= x
        invariant
            0 <= p <= v.len(),
            forall|j: int| 0 <= j < p ==> v@[j] <= x,
        decreases v.len() - p,
    {
        p = p + 1;
    }
    let ghost before = v@;
    v.insert(p, x);
    proof {
        assert(p < before.len() ==> before[p as int] > x);
        assert forall|i: int, j: int| 0 <= i < j < v@.len() implies #[trigger] leq(v@[i], v@[j]) by {
            let vi = v@[i];
            let vj = v@[j];
            if j < p {
                assert(vi == before[i] && vj == before[j]);
                assert(leq(before[i], before[j]));
            } else if j == p {
                assert(vi == before[i]);
            } else if i < p {
                assert(vi == before[i] && vj == before[j - 1]);
                assert(leq(before[i], before[j - 1]));
            } else if i == p {
                assert(vj == before[j - 1]);
                assert(before[p as int] > x);
                if j - 1 > p {
                    assert(leq(before[p as int], before[j - 1]));
                }
            } else {
                assert(vi == before[i - 1] && vj == before[j - 1]);
                assert(leq(before[i - 1], before[j - 1]));
            }
        }
    }
}

/// The durations sorted in ascending order.
pub fn sort_durations(d: &Vec<u64>) -> (r: Vec<u64>)
    ensures
        r@ == sorted_durations(d@),
{
    let ghost leq = dur_order();
    let mut r: Vec<u64> = Vec::new();
    let mut i: usize = 0;
    assert(d@.take(0) =~= Seq::<u64>::empty());
    while i < d.len()
        invariant
            0 <= i <= d.len(),
            sorted_by(r@, dur_order()),
            r@.to_multiset() == d@.take(i as int).to_multiset(),
        decreases d.len() - i,
    {
        insert_ascending(&mut r, d[i]);
        assert(d@.take(i + 1) =~= d@.take(i as int).push(d@[i as int]));
        i = i + 1;
    }
    assert(d@.take(d.len() as int) =~= d@);
    proof {
        lemma_dur_order_total();
        d@.lemma_sort_by_ensures(leq);
        vstd::seq_lib::lemma_sorted_unique(r@, d@.sort_by(leq), leq);
    }
    r
}

/// The frame budget at 60 frames per second, in nanoseconds.
pub const DEFAULT_FRAME_BUDGET_NS: u64 = 16_666_667;

/// The index of the 90th percentile among `n` sorted frames: nine tenths of
/// `n`, rounded down, and at most the last index.
pub open spec fn p90_index(n: nat) -> int {
    let k = (9 * n / 10) as int;
    if k < n - 1 {
        k
    } else {
        n - 1
    }
}

/// The statistics of the frame durations `d` taken at `now`: how many,
/// how many over the budget, the 90th percentile and the longest; nothing
/// without frames.
pub open spec fn stats_spec(d: Seq<u64>, budget: u64, now: u64) -> Option<FrameStats> {
    if d.len() == 0 {
        None
    } else {
        Some(
            FrameStats {
                sample_count: d.len() as usize,
                janky_frames: janky_count(d, budget) as usize,
                p90_frame_ns: sorted_durations(d)[p90_index(d.len())],
                worst_frame_ns: max_of(d),
                captured_at_ms: Some(now),
            },
        )
    }
}

pub fn compute_stats_from_durations(durations: &Vec<u64>, frame_budget_ns: u64, now_ms: u64) -> (r: Option<FrameStats>)
    ensures
        r == stats_spec(durations@, frame_budget_ns, now_ms),
{
    if durations.len() == 0 {
        return None;
    }
    let sorted = sort_durations(durations);
    proof {
        lemma_dur_order_total();
        durations@.lemma_sort_by_ensures(dur_order());
        assert(sorted@.len() == durations@.len()) by {
            assert(sorted@.to_multiset().len() == durations@.to_multiset().len());
        }
    }
    let n = durations.len();
    let k128: u128 = (n as u128) * 9 / 10;
    let k: usize = if k128 < (n - 1) as u128 {
        k128 as usize
    } else {
        n - 1
    };
    let (janky, worst) = jank_and_worst(durations, frame_budget_ns);
    proof {
        lemma_janky_count_bound(durations@, frame_budget_ns);
    }
    Some(
        FrameStats {
            sample_count: n,
            janky_frames: janky,
            p90_frame_ns: sorted[k],
            worst_frame_ns: worst,
            captured_at_ms: Some(now_ms),
        },
    )
}

proof fn lemma_janky_count_bound(d: Seq<u64>, budget: u64)
    ensures
        janky_count(d, budget) <= d.len(),
    decreases d.len(),
{
    if d.len() > 0 {
        lemma_janky_count_bound(d.drop_last(), budget);
    }
}

/// The duration of one line of `--latency` output (intended vsync, vsync,
/// frame completed): completed minus intended, when both read as numbers,
/// the intended time is positive and the completed one later and below
/// `u64::MAX`.
pub open spec fn latency_duration(line: Seq<char>) -> Option<u64> {
    let f = words(line, true);
    if f.len() >= 3 {
        match (parse_u64_spec(f[0]), parse_u64_spec(f[2])) {
            (Some(iv), Some(fc)) => if fc > iv && iv > 0 && fc < u64::MAX {
                Some((fc - iv) as u64)
            } else {
                None
            },
            _ => None,
        }
    } else {
        None
    }
}

/// The durations the lines give, in order.
pub open spec fn latency_durations(lines: Seq<Seq<char>>) -> Seq<u64>
    decreases lines.len(),
{
    if lines.len() == 0 {
        Seq::empty()
    } else {
        let p = latency_durations(lines.drop_last());
        match latency_duration(lines.last()) {
            Some(v) => p.push(v),
            None => p,
        }
    }
}

/// The frame statistics of `dumpsys ... --latency` output: its first line
/// (the refresh period) is skipped; nothing for an empty text or without
/// frames.
pub open spec fn latency_stats_spec(text: Seq<char>, budget: u64, now: u64) -> Option<FrameStats> {
    if text.len() == 0 {
        None
    } else {
        stats_spec(latency_durations(split_by(text, '\n').drop_first()), budget, now)
    }
}

fn latency_duration_exec(line: &Vec<char>) -> (r: Option<u64>)
    ensures
        r == latency_duration(line@),
{
    let f = split_words(line, true);
    if f.len() < 3 {
        return None;
    }
    assert(f.deep_view()[0] == f@[0]@);
    assert(f.deep_view()[2] == f@[2]@);
    match (parse_u64(&f[0]), parse_u64(&f[2])) {
        (Some(iv), Some(fc)) => if fc > iv && iv > 0 && fc < u64::MAX {
            Some(fc - iv)
        } else {
            None
        },
        _ => None,
    }
}

pub fn parse_latency_output(text: &str, frame_budget_ns: u64, now_ms: u64) -> (r: Option<FrameStats>)
    ensures
        r == latency_stats_spec(text@, frame_budget_ns, now_ms),
{
    let chars = chars_of(text);
    if chars.len() == 0 {
        return None;
    }
    let lines = split_chars(&chars, '\n');
    let ghost all = lines.deep_view();
    proof {
        crate::text::lemma_split_by_nonempty(text@, '\n');
    }
    let ghost ls = all.drop_first();
    let mut durations: Vec<u64> = Vec::new();
    let mut i: usize = 1;
    assert(ls.take(0) =~= Seq::<Seq<char>>::empty());
    while i < lines.len()
        invariant
            1 <= i <= lines.len(),
            all == lines.deep_view(),
            all == split_by(text@, '\n'),
            ls == all.drop_first(),
            durations@ == latency_durations(ls.take(i - 1)),
        decreases lines.len() - i,
    {
        assert(ls.take(i as int).drop_last() =~= ls.take(i - 1));
        assert(ls.take(i as int).last() == lines@[i as int]@);
        match latency_duration_exec(&lines[i]) {
            Some(v) => durations.push(v),
            None => {},
        }
        i = i + 1;
    }
    assert(ls.take(lines.len() - 1) =~= ls);
    compute_stats_from_durations(&durations, frame_budget_ns, now_ms)
}

/// The non-empty pieces, in order.
pub open spec fn nonempty(s: Seq<Seq<char>>) -> Seq<Seq<char>>
    decreases s.len(),
{
    if s.len() == 0 {
        Seq::empty()
    } else if s.last().len() == 0 {
        nonempty(s.drop_last())
    } else {
        nonempty(s.drop_last()).push(s.last())
    }
}

/// The column of the intended vsync in a framestats row.
pub const INTENDED_VSYNC_COL: usize = 2;

/// The column of the frame's completion in a framestats row.
pub const FRAME_COMPLETED_COL: usize = 17;

/// The duration of one `gfxinfo framestats` row: a trimmed line that starts
/// with a digit, whose non-empty comma-separated fields number at least 18,
/// and whose completion time (field 17) is later than its intended vsync
/// (field 2), both trimmed and read as numbers.
pub open spec fn framestats_duration(line: Seq<char>) -> Option<u64> {
    let t = trim(line);
    if t.len() == 0 || !('0' <= t[0] && t[0] <= '9') {
        None
    } else {
        let f = nonempty(split_by(t, ','));
        if f.len() < 14 || f.len() <= FRAME_COMPLETED_COL {
            None
        } else {
            match (
                parse_u64_spec(trim(f[INTENDED_VSYNC_COL as int])),
                parse_u64_spec(trim(f[FRAME_COMPLETED_COL as int])),
            ) {
                (Some(iv), Some(fc)) => if fc > iv {
                    Some((fc - iv) as u64)
                } else {
                    None
                },
                _ => None,
            }
        }
    }
}

/// The durations the lines give, in order.
pub open spec fn framestats_durations(lines: Seq<Seq<char>>) -> Seq<u64>
    decreases lines.len(),
{
    if lines.len() == 0 {
        Seq::empty()
    } else {
        let p = framestats_durations(lines.drop_last());
        match framestats_duration(lines.last()) {
            Some(v) => p.push(v),
            None => p,
        }
    }
}

fn nonempty_exec(v: &Vec<Vec<char>>) -> (r: Vec<Vec<char>>)
    ensures
        r.deep_view() == nonempty(v.deep_view()),
{
    let ghost dv = v.deep_view();
    let mut out: Vec<Vec<char>> = Vec::new();
    let mut i: usize = 0;
    assert(dv.take(0) =~= Seq::<Seq<char>>::empty());
    while i < v.len()
        invariant
            0 <= i <= v.len(),
            dv == v.deep_view(),
            out.deep_view() == nonempty(dv.take(i as int)),
        decreases v.len() - i,
    {
        assert(dv.take(i + 1).drop_last() =~= dv.take(i as int));
        assert(dv.take(i + 1).last() == v@[i as int]@);
        if v[i].len() > 0 {
            let ghost before = out.deep_view();
            let ghost before_v = out@;
            let piece = copy_range(&v[i], 0, v[i].len());
            assert(piece@ =~= v@[i as int]@);
            out.push(piece);
            assert(out.deep_view() =~= before.push(v@[i as int]@)) by {
                assert forall|x: int| 0 <= x < out.len() implies out.deep_view()[x] == before.push(
                    v@[i as int]@,
                )[x] by {
                    if x < before_v.len() {
                        assert(out@[x] == before_v[x]);
                    }
                }
            }
        }
        i = i + 1;
    }
    assert(dv.take(v.len() as int) =~= dv);
    out
}

fn framestats_duration_exec(line: &Vec<char>) -> (r: Option<u64>)
    ensures
        r == framestats_duration(line@),
{
    let t = trim_chars(line);
    if t.len() == 0 || !('0' <= t[0] && t[0] <= '9') {
        return None;
    }
    let f = nonempty_exec(&split_chars(&t, ','));
    if f.len() < 14 || f.len() <= FRAME_COMPLETED_COL {
        return None;
    }
    assert(f.deep_view()[INTENDED_VSYNC_COL as int] == f@[INTENDED_VSYNC_COL as int]@);
    assert(f.deep_view()[FRAME_COMPLETED_COL as int] == f@[FRAME_COMPLETED_COL as int]@);
    let iv = parse_u64(&trim_chars(&f[INTENDED_VSYNC_COL]));
    let fc = parse_u64(&trim_chars(&f[FRAME_COMPLETED_COL]));
    match (iv, fc) {
        (Some(iv), Some(fc)) => if fc > iv {
            Some(fc - iv)
        } else {
            None
        },
        _ => None,
    }
}

/// The frame statistics of `dumpsys gfxinfo <package> framestats` output.
pub open spec fn framestats_stats_spec(text: Seq<char>, budget: u64, now: u64) -> Option<FrameStats> {
    stats_spec(framestats_durations(split_by(text, '\n')), budget, now)
}

pub fn parse_framestats(text: &str, frame_budget_ns: u64, now_ms: u64) -> (r: Option<FrameStats>)
    ensures
        r == framestats_stats_spec(text@, frame_budget_ns, now_ms),
{
    let lines = split_chars(&chars_of(text), '\n');
    let ghost ls = lines.deep_view();
    let mut durations: Vec<u64> = Vec::new();
    let mut i: usize = 0;
    assert(ls.take(0) =~= Seq::<Seq<char>>::empty());
    while i < lines.len()
        invariant
            0 <= i <= lines.len(),
            ls == lines.deep_view(),
            ls == split_by(text@, '\n'),
            durations@ == framestats_durations(ls.take(i as int)),
        decreases lines.len() - i,
    {
        assert(ls.take(i + 1).drop_last() =~= ls.take(i as int));
        assert(ls.take(i + 1).last() == lines@[i as int]@);
        match framestats_duration_exec(&lines[i]) {
            Some(v) => durations.push(v),
            None => {},
        }
        i = i + 1;
    }
    assert(ls.take(lines.len() as int) =~= ls);
    compute_stats_from_durations(&durations, frame_budget_ns, now_ms)
}


/// The 90th percentile is a high frame but not the top one: it lies between
/// the median and the longest of the sorted durations, and with at least
/// twenty frames it is at most the second-longest, so a single frame longer
/// than all others never becomes the percentile.
pub proof fn law_p90_between_median_and_second_longest(d: Seq<u64>, budget: u64, now: u64)
    requires
        d.len() >= 1,
    ensures
        ({
            let p90 = stats_spec(d, budget, now).unwrap().p90_frame_ns;
            let s = sorted_durations(d);
            let n = d.len() as int;
            &&& s[n / 2] <= p90 <= s[n - 1]
            &&& n >= 20 ==> p90 <= s[n - 2]
            &&& n >= 20 && s[n - 2] < s[n - 1] ==> p90 < s[n - 1]
        }),
{
    let n = d.len() as int;
    let s = sorted_durations(d);
    lemma_dur_order_total();
    d.lemma_sort_by_ensures(dur_order());
    lemma_sorted_len(d);
    let k = p90_index(d.len());
    assert(n / 2 <= k <= n - 1) by (nonlinear_arith)
        requires
            k == (if (9 * n / 10) < n - 1 {
                9 * n / 10
            } else {
                n - 1
            }),
            n >= 1,
    ;
    assert(n >= 20 ==> k <= n - 2) by (nonlinear_arith)
        requires
            k == (if (9 * n / 10) < n - 1 {
                9 * n / 10
            } else {
                n - 1
            }),
            n >= 1,
    ;
    assert(sorted_by(s, dur_order()));
    if n / 2 < k {
        assert((dur_order())(s[n / 2], s[k]));
    }
    if k < n - 1 {
        assert((dur_order())(s[k], s[n - 1]));
    }
    if n >= 20 && k < n - 2 {
        assert((dur_order())(s[k], s[n - 2]));
    }
}
} // verus!

//! Jitter measurement and statistics.
//!
//! Jitter is the deviation from the expected timing: `actual - expected`,
//! positive when late and negative when early. Statistics summarise the
//! absolute jitter of many measurements by percentiles.
use vstd::prelude::*;
use vstd::relations::{sorted_by, total_ordering};

verus! {

#[verifier::external_type_specification]
#[verifier::external_body]
pub struct ExInstant(std::time::Instant);

/// The current instant (`std::time::Instant::now`). It reads the monotonic
/// clock, so nothing is stated of the value.
#[verifier::external_body]
fn now() -> std::time::Instant {
    std::time::Instant::now()
}

/// Sorts the values in ascending order (`slice::sort_unstable`): the result
/// is sorted and holds the same values, each as often as before.
#[verifier::external_body]
fn sort_ascending(values: &mut Vec<u64>)
    ensures
        sorted_by(final(values)@, ascending()),
        final(values)@.to_multiset() == old(values)@.to_multiset(),
{
    values.sort_unstable();
}

/// The ascending order on `u64`.
pub open spec fn ascending() -> spec_fn(u64, u64) -> bool {
    |a: u64, b: u64| a <= b
}

/// The signed difference `actual - expected`, each reinterpreted as `i64`.
pub open spec fn signed_jitter(expected_ns: u64, actual_ns: u64) -> int {
    (actual_ns as i64) - (expected_ns as i64)
}

/// The absolute value of a signed jitter.
pub open spec fn abs_ns(j: i64) -> int {
    if j < 0 { -j } else { j as int }
}

/// Single jitter measurement.
#[derive(Debug, Clone, Copy)]
pub struct JitterMeasurement {
    /// Expected interval in nanoseconds
    pub expected_interval_ns: u64,
    /// Actual interval in nanoseconds
    pub actual_interval_ns: u64,
    /// Jitter in nanoseconds (positive = late, negative = early)
    pub jitter_ns: i64,
    /// When this measurement was taken
    pub timestamp: std::time::Instant,
}

impl JitterMeasurement {
    /// Create a new jitter measurement: `jitter = actual - expected`.
    pub fn new(expected_ns: u64, actual_ns: u64) -> (m: Self)
        requires
            i64::MIN <= signed_jitter(expected_ns, actual_ns) <= i64::MAX,
        ensures
            m.expected_interval_ns == expected_ns,
            m.actual_interval_ns == actual_ns,
            m.jitter_ns == signed_jitter(expected_ns, actual_ns),
            expected_ns <= i64::MAX && actual_ns <= i64::MAX ==> m.jitter_ns == actual_ns - expected_ns,
    {
        let jitter_ns = actual_ns as i64 - expected_ns as i64;
        JitterMeasurement {
            expected_interval_ns: expected_ns,
            actual_interval_ns: actual_ns,
            jitter_ns,
            timestamp: now(),
        }
    }

    /// Whether the absolute jitter is at most `tolerance_ns`.
    pub fn is_within_tolerance(&self, tolerance_ns: u64) -> (ok: bool)
        ensures
            ok <==> abs_ns(self.jitter_ns) <= tolerance_ns,
            ok <==> (-(tolerance_ns as int) <= self.jitter_ns && self.jitter_ns <= tolerance_ns),
    {
        self.abs_jitter_ns() <= tolerance_ns
    }

    /// The absolute jitter (`i64::unsigned_abs`).
    pub fn abs_jitter_ns(&self) -> (a: u64)
        ensures
            a == abs_ns(self.jitter_ns),
            a == self.jitter_ns || a == -(self.jitter_ns as int),
            a >= self.jitter_ns && a >= -(self.jitter_ns as int),
    {
        if self.jitter_ns < 0 {
            (0i128 - self.jitter_ns as i128) as u64
        } else {
            self.jitter_ns as u64
        }
    }
}

/// The absolute jitter is the magnitude of the jitter: never negative,
/// equal to the jitter or to its negation, and at least both.
pub proof fn lemma_abs_is_magnitude(j: i64)
    ensures
        abs_ns(j) >= 0,
        abs_ns(j) == j || abs_ns(j) == -j,
        abs_ns(j) >= j && abs_ns(j) >= -j,
        j >= 0 ==> abs_ns(j) == j,
        j < 0 ==> abs_ns(j) == -j,
{
}

/// The absolute jitter of each measurement, in order.
pub open spec fn abs_jitters(ms: Seq<JitterMeasurement>) -> Seq<u64> {
    ms.map_values(|m: JitterMeasurement| abs_ns(m.jitter_ns) as u64)
}

/// The absolute jitters in ascending order.
pub open spec fn sorted_abs_jitters(ms: Seq<JitterMeasurement>) -> Seq<u64> {
    abs_jitters(ms).sort_by(ascending())
}

/// The value at `permille` thousandths of the way through the ascending
/// values `s`: the rank `permille * (len - 1) / 1000` is split into a
/// whole index and a fraction, and the result interpolates linearly between
/// the two neighbouring values, rounded down.
pub open spec fn percentile_value(s: Seq<u64>, permille: int) -> int {
    if s.len() == 0 {
        0
    } else if s.len() == 1 {
        s[0] as int
    } else {
        let rank = permille * (s.len() - 1);
        let lower = rank / 1000;
        let frac = rank % 1000;
        if frac == 0 {
            s[lower] as int
        } else {
            s[lower] + (frac * (s[lower + 1] - s[lower])) / 1000
        }
    }
}

/// Jitter statistics with percentiles.
#[derive(Debug, Clone)]
pub struct JitterStats {
    /// 50th percentile (median)
    pub p50_ns: u64,
    /// 95th percentile
    pub p95_ns: u64,
    /// 99th percentile
    pub p99_ns: u64,
    /// 99.9th percentile
    pub p999_ns: u64,
    /// Maximum jitter observed
    pub max_ns: u64,
    /// Number of measurements
    pub count: usize,
}

/// The statistics of `ms`: all zero when empty; else the 50th, 95th, 99th
/// and 99.9th percentiles and the maximum of the absolute jitters, and the
/// number of measurements.
pub open spec fn stats_of(ms: Seq<JitterMeasurement>) -> JitterStats {
    if ms.len() == 0 {
        JitterStats { p50_ns: 0, p95_ns: 0, p99_ns: 0, p999_ns: 0, max_ns: 0, count: 0 }
    } else {
        let s = sorted_abs_jitters(ms);
        JitterStats {
            p50_ns: percentile_value(s, 500) as u64,
            p95_ns: percentile_value(s, 950) as u64,
            p99_ns: percentile_value(s, 990) as u64,
            p999_ns: percentile_value(s, 999) as u64,
            max_ns: s.last(),
            count: ms.len() as usize,
        }
    }
}

impl Default for JitterStats {
    fn default() -> (s: Self)
        ensures
            s == stats_of(Seq::<JitterMeasurement>::empty()),
    {
        JitterStats { p50_ns: 0, p95_ns: 0, p99_ns: 0, p999_ns: 0, max_ns: 0, count: 0 }
    }
}

proof fn lemma_ascending_total()
    ensures
        total_ordering(ascending()),
{
}

/// The ascending values of a sorted sequence that holds the same values as
/// `abs_jitters(ms)` are `sorted_abs_jitters(ms)`.
proof fn lemma_sorted_is_sorted_abs(values: Seq<u64>, ms: Seq<JitterMeasurement>)
    requires
        sorted_by(values, ascending()),
        values.to_multiset() == abs_jitters(ms).to_multiset(),
    ensures
        values == sorted_abs_jitters(ms),
{
    lemma_ascending_total();
    abs_jitters(ms).lemma_sort_by_ensures(ascending());
    vstd::seq_lib::lemma_sorted_unique(values, sorted_abs_jitters(ms), ascending());
}

/// Bounds of one interpolation step: between the two neighbouring values.
proof fn lemma_interpolation_bounds(lo: int, hi: int, frac: int)
    requires
        lo <= hi,
        0 <= frac < 1000,
    ensures
        0 <= (frac * (hi - lo)) / 1000 <= hi - lo,
        frac == 0 ==> (frac * (hi - lo)) / 1000 == 0,
{
    assert(0 <= frac * (hi - lo) <= 1000 * (hi - lo)) by (nonlinear_arith)
        requires lo <= hi, 0 <= frac < 1000;
    assert((frac * (hi - lo)) / 1000 <= (1000 * (hi - lo)) / 1000) by (nonlinear_arith)
        requires 0 <= frac * (hi - lo) <= 1000 * (hi - lo);
}

/// Interpolation grows with the fraction.
proof fn lemma_interpolation_monotone(lo: int, hi: int, f1: int, f2: int)
    requires
        lo <= hi,
        0 <= f1 <= f2,
    ensures
        (f1 * (hi - lo)) / 1000 <= (f2 * (hi - lo)) / 1000,
{
    assert(f1 * (hi - lo) <= f2 * (hi - lo)) by (nonlinear_arith)
        requires lo <= hi, 0 <= f1 <= f2;
    assert((f1 * (hi - lo)) / 1000 <= (f2 * (hi - lo)) / 1000) by (nonlinear_arith)
        requires f1 * (hi - lo) <= f2 * (hi - lo);
}

/// The rank of a percentile lies in `0 ..= 1000 * (len - 1)`; a rank with a
/// fraction lies strictly below the last index.
proof fn lemma_rank_bounds(n: int, permille: int)
    requires
        n >= 2,
        0 <= permille <= 1000,
    ensures
        0 <= permille * (n - 1) <= 1000 * (n - 1),
        0 <= (permille * (n - 1)) / 1000 <= n - 1,
        (permille * (n - 1)) % 1000 != 0 ==> (permille * (n - 1)) / 1000 < n - 1,
{
    assert(0 <= permille * (n - 1) <= 1000 * (n - 1)) by (nonlinear_arith)
        requires n >= 2, 0 <= permille <= 1000;
    let rank = permille * (n - 1);
    assert(rank == 1000 * (rank / 1000) + rank % 1000);
    assert(0 <= rank % 1000 < 1000);
}

/// For ascending values, a percentile lies between the smallest and the
/// largest value, and it lies within the interpolated pair.
pub proof fn lemma_percentile_bounds(s: Seq<u64>, permille: int)
    requires
        sorted_by(s, ascending()),
        s.len() > 0,
        0 <= permille <= 1000,
    ensures
        s[0] <= percentile_value(s, permille) <= s.last(),
{
    if s.len() >= 2 {
        let n = s.len() as int;
        lemma_rank_bounds(n, permille);
        let rank = permille * (n - 1);
        let lower = rank / 1000;
        let frac = rank % 1000;
        if frac != 0 {
            assert(ascending()(s[lower], s[lower + 1]));
            lemma_interpolation_bounds(s[lower] as int, s[lower + 1] as int, frac);
            if lower + 1 < n - 1 {
                assert(ascending()(s[lower + 1], s[n - 1]));
            }
        } else if lower < n - 1 {
            assert(ascending()(s[lower], s[n - 1]));
        }
        if lower > 0 {
            assert(ascending()(s[0], s[lower]));
        }
    }
}

/// For ascending values, a larger percentile is never smaller.
pub proof fn lemma_percentile_monotone(s: Seq<u64>, p1: int, p2: int)
    requires
        sorted_by(s, ascending()),
        0 <= p1 <= p2 <= 1000,
    ensures
        percentile_value(s, p1) <= percentile_value(s, p2),
{
    if s.len() >= 2 {
        let n = s.len() as int;
        lemma_rank_bounds(n, p1);
        lemma_rank_bounds(n, p2);
        let r1 = p1 * (n - 1);
        let r2 = p2 * (n - 1);
        assert(r1 <= r2) by (nonlinear_arith)
            requires r1 == p1 * (n - 1), r2 == p2 * (n - 1), p1 <= p2, n >= 2;
        let l1 = r1 / 1000;
        let l2 = r2 / 1000;
        let f1 = r1 % 1000;
        let f2 = r2 % 1000;
        assert(l1 <= l2);
        if f1 != 0 {
            assert(ascending()(s[l1], s[l1 + 1]));
            lemma_interpolation_bounds(s[l1] as int, s[l1 + 1] as int, f1);
        }
        if f2 != 0 {
            assert(ascending()(s[l2], s[l2 + 1]));
            lemma_interpolation_bounds(s[l2] as int, s[l2 + 1] as int, f2);
        }
        if l1 == l2 {
            assert(f1 <= f2);
            if f1 != 0 {
                lemma_interpolation_monotone(s[l1] as int, s[l1 + 1] as int, f1, f2);
            }
        } else {
            // the first value is at most s[l1 + 1], the second at least s[l2]
            if l1 + 1 < l2 {
                assert(ascending()(s[l1 + 1], s[l2]));
            }
            if f1 == 0 {
                assert(ascending()(s[l1], s[l2]));
            }
        }
    }
}

/// The percentile at 0 is the smallest value, at 1000 thousandths the largest.
pub proof fn lemma_percentile_extremes(s: Seq<u64>)
    requires
        s.len() > 0,
    ensures
        percentile_value(s, 0) == s[0],
        percentile_value(s, 1000) == s.last(),
{
    if s.len() >= 2 {
        let n = s.len() as int;
        assert(1000 * (n - 1) / 1000 == n - 1);
        assert(1000 * (n - 1) % 1000 == 0);
    }
}

/// `v` is the linear interpolation, rounded down, at the rank
/// `permille * (len - 1) / 1000` of the values `s`: with `lo` the whole part
/// of the rank and `f` its fraction in thousandths, `v` lies between
/// `s[lo]` and the next value `s[lo + 1]`, equals `s[lo]` when `f == 0`, and
/// otherwise `1000 * v` is the largest multiple of 1000 not above
/// `1000 * s[lo] + f * (s[lo + 1] - s[lo])`.
pub open spec fn neighbour_interpolation(s: Seq<u64>, permille: int, v: int) -> bool {
    let rank = permille * (s.len() - 1);
    let lo = rank / 1000;
    let f = rank % 1000;
    let up = (rank + 999) / 1000;
    &&& 0 <= lo <= up < s.len()
    &&& s[lo] <= v <= s[up]
    &&& f == 0 ==> v == s[lo]
    &&& f != 0 ==> up == lo + 1
        && 1000 * v <= 1000 * s[lo] + f * (s[lo + 1] - s[lo])
        && 1000 * s[lo] + f * (s[lo + 1] - s[lo]) < 1000 * v + 1000
}

/// A percentile of ascending values (at least two) is the linear
/// interpolation, rounded down, between the two values nearest its rank.
pub proof fn lemma_percentile_interpolates(s: Seq<u64>, permille: int)
    requires
        sorted_by(s, ascending()),
        s.len() >= 2,
        0 <= permille <= 1000,
    ensures
        neighbour_interpolation(s, permille, percentile_value(s, permille)),
{
    let n = s.len() as int;
    lemma_rank_bounds(n, permille);
    let rank = permille * (n - 1);
    let lo = rank / 1000;
    let f = rank % 1000;
    assert(rank == 1000 * lo + f);
    if f == 0 {
        assert((rank + 999) / 1000 == lo);
    } else {
        assert((rank + 999) / 1000 == lo + 1);
        assert(ascending()(s[lo], s[lo + 1]));
        let d = s[lo + 1] - s[lo];
        let q = (f * d) / 1000;
        lemma_interpolation_bounds(s[lo] as int, s[lo + 1] as int, f);
        assert(1000 * q <= f * d < 1000 * q + 1000) by (nonlinear_arith)
            requires q == (f * d) / 1000, 0 <= f * d;
    }
}

/// The median (the percentile at 500 thousandths) of ascending values lies
/// between the two middle values, `s[(n - 1) / 2]` and `s[n / 2]`; for an
/// odd count it is the middle value.
pub proof fn lemma_percentile_median(s: Seq<u64>)
    requires
        sorted_by(s, ascending()),
        s.len() > 0,
    ensures
        s[(s.len() - 1) / 2] <= percentile_value(s, 500) <= s[s.len() as int / 2],
        s.len() % 2 == 1 ==> percentile_value(s, 500) == s[(s.len() - 1) / 2],
{
    let n = s.len() as int;
    if n >= 2 {
        lemma_percentile_interpolates(s, 500);
        let rank = 500 * (n - 1);
        assert(rank / 1000 == (n - 1) / 2);
        assert((rank + 999) / 1000 == n / 2);
        if n % 2 == 1 {
            assert(rank % 1000 == 0);
        }
    }
}

/// Calculate a percentile, given in thousandths (`permille`, at most 1000),
/// from ascending values: linear interpolation between the nearest ranks,
/// `rank = permille / 1000 * (count - 1)`, rounded down.
pub fn percentile(sorted: &[u64], permille: u64) -> (v: u64)
    requires
        sorted_by(sorted@, ascending()),
        permille <= 1000,
    ensures
        v == percentile_value(sorted@, permille as int),
        sorted@.len() == 1 ==> v == sorted@[0],
        sorted@.len() >= 2 ==> neighbour_interpolation(sorted@, permille as int, v as int),
{
    let n = sorted.len();
    proof {
        if n >= 2 {
            lemma_percentile_interpolates(sorted@, permille as int);
        }
    }
    if n == 0 {
        return 0;
    }
    if n == 1 {
        return sorted[0];
    }
    proof {
        lemma_rank_bounds(n as int, permille as int);
    }
    let rank: u128 = (permille as u128) * ((n - 1) as u128);
    let lower = (rank / 1000) as usize;
    let frac: u128 = rank % 1000;
    if frac == 0 {
        return sorted[lower];
    }
    let lo = sorted[lower];
    let hi = sorted[lower + 1];
    proof {
        assert(ascending()(sorted@[lower as int], sorted@[lower + 1]));
        lemma_interpolation_bounds(lo as int, hi as int, frac as int);
    }
    let step: u128 = (frac * ((hi - lo) as u128)) / 1000;
    lo + step as u64
}

impl JitterStats {
    /// Calculate statistics from a collection of measurements: zero for an
    /// empty collection; otherwise percentiles and maximum of the absolute
    /// jitters, which never decrease from P50 to the maximum.
    pub fn from_measurements(measurements: &[JitterMeasurement]) -> (stats: Self)
        ensures
            stats == stats_of(measurements@),
            stats.count == measurements@.len(),
            stats.p50_ns <= stats.p95_ns <= stats.p99_ns <= stats.p999_ns <= stats.max_ns,
            forall|i: int| 0 <= i < measurements@.len() ==> abs_ns(#[trigger] measurements@[i].jitter_ns) <= stats.max_ns,
            measurements@.len() > 0 ==> exists|i: int| 0 <= i < measurements@.len()
                && abs_ns(#[trigger] measurements@[i].jitter_ns) == stats.max_ns,
            measurements@.len() > 0 ==> ({
                let s = sorted_abs_jitters(measurements@);
                let n = measurements@.len() as int;
                &&& sorted_by(s, ascending())
                &&& s.to_multiset() == abs_jitters(measurements@).to_multiset()
                &&& s[(n - 1) / 2] <= stats.p50_ns <= s[n as int / 2]
                &&& n >= 2 ==> neighbour_interpolation(s, 500, stats.p50_ns as int)
                &&& n >= 2 ==> neighbour_interpolation(s, 950, stats.p95_ns as int)
                &&& n >= 2 ==> neighbour_interpolation(s, 990, stats.p99_ns as int)
                &&& n >= 2 ==> neighbour_interpolation(s, 999, stats.p999_ns as int)
                &&& stats.max_ns == s[n - 1]
            }),
    {
        let n = measurements.len();
        if n == 0 {
            return Self::default();
        }
        let mut values: Vec<u64> = Vec::new();
        let mut k: usize = 0;
        while k < n
            invariant
                n == measurements@.len(),
                k <= n,
                values@ == abs_jitters(measurements@).take(k as int),
            decreases n - k,
        {
            let a = measurements[k].abs_jitter_ns();
            proof {
                assert(abs_jitters(measurements@).take(k + 1) == abs_jitters(measurements@).take(k as int).push(a));
            }
            values.push(a);
            k = k + 1;
        }
        proof {
            assert(abs_jitters(measurements@).take(n as int) == abs_jitters(measurements@));
        }
        sort_ascending(&mut values);
        let ghost s = values@;
        proof {
            broadcast use vstd::seq_lib::group_to_multiset_ensures;
            assert(s.to_multiset().len() == abs_jitters(measurements@).to_multiset().len());
            lemma_sorted_is_sorted_abs(s, measurements@);
            lemma_percentile_monotone(s, 500, 950);
            lemma_percentile_monotone(s, 950, 990);
            lemma_percentile_monotone(s, 990, 999);
            lemma_percentile_monotone(s, 999, 1000);
            lemma_percentile_extremes(s);
            lemma_max_is_largest(measurements@);
            lemma_percentile_median(s);
            lemma_ascending_total();
            abs_jitters(measurements@).lemma_sort_by_ensures(ascending());
            if n >= 2 {
                lemma_percentile_interpolates(s, 500);
                lemma_percentile_interpolates(s, 950);
                lemma_percentile_interpolates(s, 990);
                lemma_percentile_interpolates(s, 999);
            }
        }
        let max_ns = values[values.len() - 1];
        JitterStats {
            p50_ns: percentile(values.as_slice(), 500),
            p95_ns: percentile(values.as_slice(), 950),
            p99_ns: percentile(values.as_slice(), 990),
            p999_ns: percentile(values.as_slice(), 999),
            max_ns,
            count: n,
        }
    }

    /// Whether the P99 jitter is at most `tolerance_ns`.
    pub fn p99_within_tolerance(&self, tolerance_ns: u64) -> (ok: bool)
        ensures
            ok <==> self.p99_ns <= tolerance_ns,
    {
        self.p99_ns <= tolerance_ns
    }
}

/// The last of the sorted absolute jitters is the largest absolute jitter of
/// any measurement, and some measurement has it.
pub proof fn lemma_max_is_largest(ms: Seq<JitterMeasurement>)
    requires
        ms.len() > 0,
    ensures
        forall|i: int| 0 <= i < ms.len() ==> abs_ns(#[trigger] ms[i].jitter_ns) <= sorted_abs_jitters(ms).last(),
        exists|i: int| 0 <= i < ms.len() && abs_ns(#[trigger] ms[i].jitter_ns) == sorted_abs_jitters(ms).last(),
{
    broadcast use vstd::seq_lib::group_to_multiset_ensures;
    lemma_ascending_total();
    let a = abs_jitters(ms);
    let s = sorted_abs_jitters(ms);
    a.lemma_sort_by_ensures(ascending());
    assert(s.len() == a.len()) by {
        assert(s.to_multiset().len() == a.to_multiset().len());
    }
    assert forall|i: int| 0 <= i < ms.len() implies abs_ns(#[trigger] ms[i].jitter_ns) <= s.last() by {
        assert(a[i] == abs_ns(ms[i].jitter_ns) as u64);
        assert(a.to_multiset().count(a[i]) > 0);
        assert(s.contains(a[i]));
        let j = choose|j: int| 0 <= j < s.len() && s[j] == a[i];
        if j < s.len() - 1 {
            assert(ascending()(s[j], s[s.len() - 1]));
        }
    }
    assert(s.to_multiset().count(s.last()) > 0);
    assert(a.contains(s.last()));
    let i = choose|i: int| 0 <= i < a.len() && a[i] == s.last();
    assert(abs_ns(ms[i].jitter_ns) == s.last());
}

/// Statistics do not depend on the order of the measurements: two
/// collections with the same absolute jitters, each as often, have the same
/// statistics.
pub proof fn lemma_stats_ignore_order(ms1: Seq<JitterMeasurement>, ms2: Seq<JitterMeasurement>)
    requires
        abs_jitters(ms1).to_multiset() == abs_jitters(ms2).to_multiset(),
    ensures
        stats_of(ms1) == stats_of(ms2),
{
    broadcast use vstd::seq_lib::group_to_multiset_ensures;
    lemma_ascending_total();
    let a1 = abs_jitters(ms1);
    let a2 = abs_jitters(ms2);
    assert(a1.len() == a2.len()) by {
        assert(a1.to_multiset().len() == a2.to_multiset().len());
    }
    a1.lemma_sort_by_ensures(ascending());
    a2.lemma_sort_by_ensures(ascending());
    vstd::seq_lib::lemma_sorted_unique(sorted_abs_jitters(ms1), sorted_abs_jitters(ms2), ascending());
}

} // verus!

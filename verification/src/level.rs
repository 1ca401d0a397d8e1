//! Stateless level processing: root-mean-square of a sample buffer,
//! conversion of an RMS magnitude to decibels, and linear remapping of a
//! decibel value onto the display percentage scale.
//!
//! Samples are fixed-point amplitudes in micro-units: an amplitude of
//! `1.0` (full scale) is the integer `1_000_000`. Percentages are carried
//! in milli-percent: `100%` is `100_000`.
use vstd::prelude::*;
use crate::ProcessingError;

verus! {

/// Fixed-point scale of sample amplitudes: `1.0` of full scale.
pub const AMPLITUDE_SCALE: i64 = 1_000_000;

/// Largest admitted sample magnitude: 100 times full scale, generous
/// headroom for clipped input while keeping every square inside `i64`.
pub const SAMPLE_LIMIT: i64 = 100_000_000;

/// Sum of the squares of a sample sequence.
pub open spec fn sum_squares(s: Seq<i64>) -> int
    decreases s.len(),
{
    if s.len() == 0 {
        0
    } else {
        sum_squares(s.drop_last()) + s.last() * s.last()
    }
}

/// Mean of the squares of a non-empty sample sequence (floor division).
pub open spec fn mean_square(s: Seq<i64>) -> int
    recommends
        s.len() > 0,
{
    sum_squares(s) / (s.len() as int)
}

/// `r` is the floor of the square root of `n`.
pub open spec fn is_floor_sqrt(n: int, r: int) -> bool {
    r >= 0 && r * r <= n < (r + 1) * (r + 1)
}

/// The floor of the square root of a non-negative integer.
pub open spec fn floor_sqrt(n: int) -> int {
    choose|r: int| is_floor_sqrt(n, r)
}

/// The decibel staircase within one decade: for `q` in
/// `[1_000_000, 10_000_000)` (a magnitude in micro-units, normalized to
/// `[1, 10)`), the number of whole decibels above the bottom of the
/// decade. The breakpoints are `10^(k/20)` in micro-units, rounded up to
/// the next integer, so `stair(q) == k` exactly when
/// `10^(k/20) <= q/1_000_000 < 10^((k+1)/20)`.
pub open spec fn stair(q: int) -> int {
    if q >= 8_912_510 {
        19
    } else if q >= 7_943_283 {
        18
    } else if q >= 7_079_458 {
        17
    } else if q >= 6_309_574 {
        16
    } else if q >= 5_623_414 {
        15
    } else if q >= 5_011_873 {
        14
    } else if q >= 4_466_836 {
        13
    } else if q >= 3_981_072 {
        12
    } else if q >= 3_548_134 {
        11
    } else if q >= 3_162_278 {
        10
    } else if q >= 2_818_383 {
        9
    } else if q >= 2_511_887 {
        8
    } else if q >= 2_238_722 {
        7
    } else if q >= 1_995_263 {
        6
    } else if q >= 1_778_280 {
        5
    } else if q >= 1_584_894 {
        4
    } else if q >= 1_412_538 {
        3
    } else if q >= 1_258_926 {
        2
    } else if q >= 1_122_019 {
        1
    } else {
        0
    }
}

/// Decibels of an RMS magnitude in micro-units, at whole-dB resolution:
/// the staircase `20 * log10(rms / 1_000_000)`, rounded down to a whole
/// decibel (each decade contributes 20 dB, `stair` the remainder).
///
/// A zero magnitude is clamped to the silence floor of `1e-10` before
/// taking the logarithm, which yields exactly `-200` dB; the clamp is a
/// deliberate floor, not an error.
pub open spec fn db_of_rms(rms: int) -> int {
    if rms <= 0 {
        -200
    } else if rms < 10 {
        stair(rms * 1_000_000) - 120
    } else if rms < 100 {
        stair(rms * 100_000) - 100
    } else if rms < 1_000 {
        stair(rms * 10_000) - 80
    } else if rms < 10_000 {
        stair(rms * 1_000) - 60
    } else if rms < 100_000 {
        stair(rms * 100) - 40
    } else if rms < 1_000_000 {
        stair(rms * 10) - 20
    } else if rms < 10_000_000 {
        stair(rms)
    } else if rms < 100_000_000 {
        stair(rms / 10) + 20
    } else {
        stair(rms / 100) + 40
    }
}

/// Linear remap of a decibel value from the fixed range `[-100, 0]` dB
/// onto `[0, 100]` percent, in milli-percent. Values outside the range
/// are deliberately not clamped: out-of-range decibels yield a
/// percentage above `100_000` or below `0`.
pub open spec fn percentage_of_db(db: int) -> int {
    db * 1000 + 100_000
}

/// The normalized display level of a sample buffer: RMS, then decibels,
/// then the percentage remap.
pub open spec fn raw_level_of(s: Seq<i64>) -> int
    recommends
        s.len() > 0,
{
    percentage_of_db(db_of_rms(floor_sqrt(mean_square(s))))
}

/// The floor square root is unique, so any witness pins down `floor_sqrt`.
pub proof fn lemma_floor_sqrt_unique(n: int, r: int)
    requires
        is_floor_sqrt(n, r),
    ensures
        floor_sqrt(n) == r,
{
    let c = choose|c: int| is_floor_sqrt(n, c);
    assert(is_floor_sqrt(n, c));
    assert forall|a: int, b: int|
        is_floor_sqrt(n, a) && is_floor_sqrt(n, b) implies a == b by {
        if a < b {
            assert((a + 1) * (a + 1) <= b * b) by (nonlinear_arith)
                requires 0 <= a < b;
        }
        if b < a {
            assert((b + 1) * (b + 1) <= a * a) by (nonlinear_arith)
                requires 0 <= b < a;
        }
    }
}

/// The sum of squares of an all-zero sequence is zero.
pub proof fn lemma_sum_squares_zero(s: Seq<i64>)
    requires
        forall|i: int| 0 <= i < s.len() ==> #[trigger] s[i] == 0,
    ensures
        sum_squares(s) == 0,
    decreases s.len(),
{
    if s.len() > 0 {
        lemma_sum_squares_zero(s.drop_last());
        assert(s.last() == 0);
    }
}

/// For every non-empty, all-zero sample buffer: the RMS is `0`, the
/// decibel value is exactly `-200` (the silence clamp, matching
/// `20 * log10(1e-10)`), and the normalized percentage is exactly
/// `-100%` — `-100_000` milli-percent, deliberately left unclamped
/// below zero.
pub proof fn lemma_silence_level(s: Seq<i64>)
    requires
        s.len() > 0,
        forall|i: int| 0 <= i < s.len() ==> #[trigger] s[i] == 0,
    ensures
        mean_square(s) == 0,
        floor_sqrt(0) == 0,
        db_of_rms(0) == -200,
        raw_level_of(s) == -100_000,
{
    lemma_sum_squares_zero(s);
    assert(mean_square(s) == 0);
    assert(is_floor_sqrt(0, 0));
    lemma_floor_sqrt_unique(0, 0);
}

/// Every non-empty buffer whose mean square is exactly full scale (an
/// RMS of `1.0`, i.e. `1_000_000` micro-units) sits at exactly `0` dB
/// and normalizes to exactly `100%` — `100_000` milli-percent.
pub proof fn lemma_full_scale_level(s: Seq<i64>)
    requires
        s.len() > 0,
        mean_square(s) == 1_000_000_000_000,
    ensures
        floor_sqrt(1_000_000_000_000) == 1_000_000,
        db_of_rms(1_000_000) == 0,
        raw_level_of(s) == 100_000,
{
    assert(1_000_000int * 1_000_000int == 1_000_000_000_000int) by (nonlinear_arith);
    assert(1_000_001int * 1_000_001int > 1_000_000_000_000int) by (nonlinear_arith);
    assert(is_floor_sqrt(1_000_000_000_000, 1_000_000));
    lemma_floor_sqrt_unique(1_000_000_000_000, 1_000_000);
}

/// More magnitude never means fewer decibels: the whole-dB staircase is
/// monotone over the full admitted range, as `20 * log10` is.
pub proof fn lemma_db_monotone(r1: int, r2: int)
    requires
        0 <= r1 <= r2 <= 100_000_000,
    ensures
        db_of_rms(r1) <= db_of_rms(r2),
{
}

/// Floor of the square root of `n`, by binary search.
fn isqrt(n: u64) -> (r: u64)
    requires
        n <= 10_000_000_000_000_000,
    ensures
        is_floor_sqrt(n as int, r as int),
        r <= 100_000_000,
{
    let mut lo: u64 = 0;
    let mut hi: u64 = 100_000_000;
    proof {
        assert((100_000_000i64 + 1) * (100_000_000i64 + 1) > 10_000_000_000_000_000i64)
            by (nonlinear_arith);
    }
    while lo < hi
        invariant
            lo <= hi <= 100_000_000,
            lo * lo <= n,
            n < (hi + 1) * (hi + 1),
        decreases hi - lo,
    {
        let mid: u64 = lo + (hi - lo + 1) / 2;
        assert(lo < mid <= hi);
        proof {
            assert(mid * mid <= 10_000_000_000_000_000) by (nonlinear_arith)
                requires mid <= 100_000_000;
        }
        if mid * mid <= n {
            lo = mid;
        } else {
            hi = mid - 1;
        }
    }
    lo
}

/// Root-mean-square of a sample buffer in micro-units: the floor square
/// root of the mean of the squares. An empty buffer is rejected with
/// [`ProcessingError::InvalidInput`] rather than dividing by zero.
pub fn calculate_rms(samples: &Vec<i64>) -> (res: Result<u64, ProcessingError>)
    requires
        forall|i: int|
            0 <= i < samples@.len() ==> -SAMPLE_LIMIT <= #[trigger] samples@[i] <= SAMPLE_LIMIT,
    ensures
        samples@.len() == 0 <==> res is Err,
        res is Err ==> res == Err::<u64, ProcessingError>(ProcessingError::InvalidInput),
        res matches Ok(r) ==> is_floor_sqrt(mean_square(samples@), r as int) && r
            <= SAMPLE_LIMIT as int,
{
    if samples.len() == 0 {
        return Err(ProcessingError::InvalidInput);
    }
    let mut acc: u128 = 0;
    let mut i: usize = 0;
    while i < samples.len()
        invariant
            i <= samples@.len(),
            acc == sum_squares(samples@.subrange(0, i as int)),
            acc <= i * 10_000_000_000_000_000,
            forall|j: int|
                0 <= j < samples@.len() ==> -SAMPLE_LIMIT <= #[trigger] samples@[j]
                    <= SAMPLE_LIMIT,
        decreases samples@.len() - i,
    {
        let v: i64 = samples[i];
        proof {
            assert(v * v <= 10_000_000_000_000_000 && v * v >= 0) by (nonlinear_arith)
                requires -100_000_000 <= v <= 100_000_000;
            assert(samples@.subrange(0, i + 1).drop_last() =~= samples@.subrange(0, i as int));
            assert(samples@.subrange(0, i + 1).last() == samples@[i as int]);
            assert(usize::MAX as int * 10_000_000_000_000_000 < u128::MAX as int);
        }
        let sq: i64 = v * v;
        acc = acc + (sq as u128);
        i = i + 1;
    }
    assert(samples@.subrange(0, samples@.len() as int) =~= samples@);
    let len: u128 = samples.len() as u128;
    let mean_wide: u128 = acc / len;
    proof {
        assert(acc / len <= 10_000_000_000_000_000) by (nonlinear_arith)
            requires
                acc <= len * 10_000_000_000_000_000,
                len >= 1,
        ;
        assert(mean_wide == mean_square(samples@));
    }
    let mean: u64 = mean_wide as u64;
    Ok(isqrt(mean))
}

/// Decibels of an RMS magnitude, at whole-dB resolution; see
/// [`db_of_rms`]. Always within `[-200, 40]` for admitted magnitudes.
pub fn calculate_db(rms: u64) -> (db: i64)
    requires
        rms <= SAMPLE_LIMIT as int,
    ensures
        db == db_of_rms(rms as int),
        -200 <= db <= 40,
{
    if rms == 0 {
        -200
    } else if rms < 10 {
        stair_exec(rms * 1_000_000) - 120
    } else if rms < 100 {
        stair_exec(rms * 100_000) - 100
    } else if rms < 1_000 {
        stair_exec(rms * 10_000) - 80
    } else if rms < 10_000 {
        stair_exec(rms * 1_000) - 60
    } else if rms < 100_000 {
        stair_exec(rms * 100) - 40
    } else if rms < 1_000_000 {
        stair_exec(rms * 10) - 20
    } else if rms < 10_000_000 {
        stair_exec(rms)
    } else if rms < 100_000_000 {
        stair_exec(rms / 10) + 20
    } else {
        stair_exec(rms / 100) + 40
    }
}

/// The decibel staircase within one decade; see [`stair`].
fn stair_exec(q: u64) -> (k: i64)
    ensures
        k == stair(q as int),
        0 <= k <= 19,
{
    if q >= 8_912_510 {
        19
    } else if q >= 7_943_283 {
        18
    } else if q >= 7_079_458 {
        17
    } else if q >= 6_309_574 {
        16
    } else if q >= 5_623_414 {
        15
    } else if q >= 5_011_873 {
        14
    } else if q >= 4_466_836 {
        13
    } else if q >= 3_981_072 {
        12
    } else if q >= 3_548_134 {
        11
    } else if q >= 3_162_278 {
        10
    } else if q >= 2_818_383 {
        9
    } else if q >= 2_511_887 {
        8
    } else if q >= 2_238_722 {
        7
    } else if q >= 1_995_263 {
        6
    } else if q >= 1_778_280 {
        5
    } else if q >= 1_584_894 {
        4
    } else if q >= 1_412_538 {
        3
    } else if q >= 1_258_926 {
        2
    } else if q >= 1_122_019 {
        1
    } else {
        0
    }
}

/// Linear remap of decibels onto the display percentage scale, in
/// milli-percent; deliberately unclamped, see [`percentage_of_db`].
pub fn normalize_db_to_percentage(db: i64) -> (p: i64)
    requires
        -1_000_000 <= db <= 1_000_000,
    ensures
        p == percentage_of_db(db as int),
{
    db * 1000 + 100_000
}

} // verus!

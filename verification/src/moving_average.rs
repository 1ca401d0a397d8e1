//! Fixed-capacity FIFO smoothing window over a stream of levels.
//!
//! Levels are fixed-point integers (the meter uses milli-percent). The
//! window holds up to `size` values; once full, each new value evicts the
//! oldest. The mean is taken over the values currently held, so output
//! starts immediately instead of waiting for a full window.
use vstd::prelude::*;
use crate::ProcessingError;

verus! {

/// Largest level magnitude the window admits; keeps every sum of window
/// values inside `i128`.
pub const WINDOW_VALUE_LIMIT: i64 = 1_000_000_000;

/// Sum of a sequence of levels.
pub open spec fn sum_of(s: Seq<i64>) -> int
    decreases s.len(),
{
    if s.len() == 0 {
        0
    } else {
        sum_of(s.drop_last()) + s.last()
    }
}

/// Integer division truncated toward zero, as the executable mean
/// computes it.
pub open spec fn trunc_div(a: int, b: int) -> int
    recommends
        b > 0,
{
    if a >= 0 {
        a / b
    } else {
        -((-a) / b)
    }
}

/// Arithmetic mean of a non-empty sequence of levels, truncated toward
/// zero. The divisor is the current length, not the capacity.
pub open spec fn mean_of(s: Seq<i64>) -> int
    recommends
        s.len() > 0,
{
    trunc_div(sum_of(s), s.len() as int)
}

/// A smoothing window: an ordered sequence of up to `size` levels,
/// oldest first.
pub struct MovingAverage {
    values: Vec<i64>,
    size: usize,
}

impl MovingAverage {
    /// The levels currently held, oldest first.
    pub closed spec fn values(&self) -> Seq<i64> {
        self.values@
    }

    /// The capacity the window was created with.
    pub closed spec fn size(&self) -> int {
        self.size as int
    }

    /// Well-formedness: positive capacity, never more values than the
    /// capacity, every value within the admitted magnitude.
    pub open spec fn wf(&self) -> bool {
        &&& self.size() >= 1
        &&& self.values().len() <= self.size()
        &&& forall|i: int|
            0 <= i < self.values().len() ==> -WINDOW_VALUE_LIMIT <= #[trigger] self.values()[i]
                <= WINDOW_VALUE_LIMIT
    }

    /// Creates an empty window of capacity `size`; a capacity of zero is
    /// rejected with [`ProcessingError::InvalidConfiguration`].
    pub fn new(size: usize) -> (res: Result<MovingAverage, ProcessingError>)
        ensures
            size == 0 <==> res is Err,
            res is Err ==> res == Err::<MovingAverage, ProcessingError>(
                ProcessingError::InvalidConfiguration,
            ),
            res matches Ok(m) ==> m.wf() && m.size() == size && m.values() =~= Seq::<
                i64,
            >::empty(),
    {
        if size == 0 {
            Err(ProcessingError::InvalidConfiguration)
        } else {
            Ok(MovingAverage { values: Vec::new(), size })
        }
    }

    /// The sequence held after adding `v` to a window of the given
    /// contents and capacity: append, evicting the oldest value first
    /// when the window is already full.
    pub open spec fn pushed(w: Seq<i64>, size: int, v: i64) -> Seq<i64> {
        if w.len() < size {
            w.push(v)
        } else {
            w.skip(1).push(v)
        }
    }

    /// Appends `value` (evicting the oldest value if the window is full)
    /// and returns the mean of the values now held.
    pub fn add(&mut self, value: i64) -> (mean: i64)
        requires
            old(self).wf(),
            -WINDOW_VALUE_LIMIT <= value <= WINDOW_VALUE_LIMIT,
        ensures
            final(self).wf(),
            final(self).size() == old(self).size(),
            final(self).values() =~= Self::pushed(old(self).values(), old(self).size(), value),
            final(self).values().len() >= 1,
            mean == mean_of(final(self).values()),
            -WINDOW_VALUE_LIMIT <= mean <= WINDOW_VALUE_LIMIT,
    {
        if self.values.len() == self.size {
            self.values.remove(0);
            proof {
                assert(self.values@ =~= old(self).values@.skip(1));
            }
        }
        self.values.push(value);
        let ghost w = self.values@;

        let mut sum: i128 = 0;
        let mut i: usize = 0;
        while i < self.values.len()
            invariant
                self.values@ == w,
                i <= w.len(),
                sum == sum_of(w.subrange(0, i as int)),
                -(i as int) * (WINDOW_VALUE_LIMIT as int) <= sum <= (i as int) * (
                WINDOW_VALUE_LIMIT as int),
                forall|j: int|
                    0 <= j < w.len() ==> -WINDOW_VALUE_LIMIT <= #[trigger] w[j]
                        <= WINDOW_VALUE_LIMIT,
            decreases w.len() - i,
        {
            proof {
                assert(w.subrange(0, i + 1).drop_last() =~= w.subrange(0, i as int));
                assert(w.subrange(0, i + 1).last() == w[i as int]);
                assert(usize::MAX as int * (WINDOW_VALUE_LIMIT as int) < i128::MAX as int);
            }
            sum = sum + (self.values[i] as i128);
            i = i + 1;
        }
        assert(w.subrange(0, w.len() as int) =~= w);

        let len: u128 = self.values.len() as u128;
        let (neg, mag): (bool, u128) = if sum < 0 {
            (true, (-sum) as u128)
        } else {
            (false, sum as u128)
        };
        let q: u128 = mag / len;
        proof {
            assert(mag / len <= WINDOW_VALUE_LIMIT) by (nonlinear_arith)
                requires
                    mag <= len * (WINDOW_VALUE_LIMIT as int),
                    len >= 1,
            ;
        }
        if neg {
            -(q as i64)
        } else {
            q as i64
        }
    }
}

} // verus!

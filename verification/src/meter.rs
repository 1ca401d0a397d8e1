//! The stateful metering aggregator: optional smoothing, running
//! extrema, trend against the previous smoothed level, threshold
//! alerting, and elapsed time since construction.
//!
//! Levels are percentages in milli-percent (`100%` = `100_000`);
//! timestamps are plain milliseconds supplied by the caller, so the core
//! itself never touches a clock.
use vstd::prelude::*;
use crate::ProcessingError;
use crate::level::SAMPLE_LIMIT;
use crate::level::calculate_db;
use crate::level::calculate_rms;
use crate::level::lemma_floor_sqrt_unique;
use crate::level::mean_square;
use crate::level::normalize_db_to_percentage;
use crate::level::raw_level_of;
use crate::moving_average::MovingAverage;
use crate::moving_average::WINDOW_VALUE_LIMIT;
use crate::moving_average::mean_of;

verus! {

/// Direction of the current level against the previous smoothed level.
#[derive(Clone, Copy, Debug, PartialEq, Eq, Structural)]
pub enum Trend {
    Up,
    Down,
    Flat,
}

/// Meter configuration, supplied once at startup and read-only for the
/// session. `alert_threshold` is in milli-percent.
#[derive(Clone, Copy, Debug, PartialEq, Eq, Structural)]
pub struct Configuration {
    /// Display columns of the rendered meter; not used by the core's
    /// arithmetic, carried for the renderer.
    pub meter_width: usize,
    /// Capacity of the smoothing window; must be positive.
    pub moving_avg_size: usize,
    /// Alert strictly above this level, in milli-percent.
    pub alert_threshold: i64,
    /// Whether levels are smoothed through the moving average.
    pub use_moving_average: bool,
}

impl Default for Configuration {
    /// A meter 100 columns wide, smoothing over 10 buffers, alerting
    /// above 80%.
    fn default() -> (c: Self)
        ensures
            c == (Configuration {
                meter_width: 100,
                moving_avg_size: 10,
                alert_threshold: 80_000,
                use_moving_average: true,
            }),
    {
        Configuration {
            meter_width: 100,
            moving_avg_size: 10,
            alert_threshold: 80_000,
            use_moving_average: true,
        }
    }
}

/// Everything the renderer needs from one update, in milli-percent and
/// milliseconds.
#[derive(Clone, Copy, Debug, PartialEq, Eq, Structural)]
pub struct MeterSnapshot {
    pub current_level: i64,
    pub min_level: i64,
    pub max_level: i64,
    pub trend: Trend,
    pub alert: bool,
    pub elapsed_ms: u64,
}

/// The trend of `level` against the previous smoothed level: strictly
/// greater is `Up`, strictly less is `Down`, equal or no previous value
/// is `Flat`.
pub open spec fn trend_spec(prev: Option<i64>, level: i64) -> Trend {
    match prev {
        Option::Some(p) => if level > p {
            Trend::Up
        } else if level < p {
            Trend::Down
        } else {
            Trend::Flat
        },
        Option::None => Trend::Flat,
    }
}

/// The level an update works with: the raw percentage, smoothed through
/// the window when smoothing is enabled.
pub open spec fn smoothed(avg_values: Seq<i64>, avg_size: int, use_avg: bool, raw: int) -> int {
    if use_avg {
        mean_of(MovingAverage::pushed(avg_values, avg_size, raw as i64))
    } else {
        raw
    }
}

/// The metering state machine. `min_level` starts at the `i64::MAX`
/// sentinel and `max_level` at `i64::MIN`, so the first update sets
/// both to its level.
pub struct MeterState {
    /// The smoothing window this state exclusively owns.
    pub avg: MovingAverage,
    /// Level of the most recent update, milli-percent.
    pub current_level: i64,
    /// Least level seen so far (sentinel `i64::MAX` before the first
    /// update).
    pub min_level: i64,
    /// Greatest level seen so far (sentinel `i64::MIN` before the first
    /// update).
    pub max_level: i64,
    /// Level of the previous update, absent until one has happened;
    /// trend is computed against it.
    pub prev_smoothed_level: Option<i64>,
    /// Construction timestamp, milliseconds.
    pub start_ms: u64,
}

impl MeterState {
    /// Well-formedness: the window is well-formed, and once a first
    /// update has happened the extrema bracket the current level.
    pub open spec fn wf(&self) -> bool {
        &&& self.avg.wf()
        &&& self.prev_smoothed_level is Some ==> self.min_level <= self.current_level
            <= self.max_level
    }

    /// A fresh state at timestamp `start_ms`: empty window, extrema at
    /// their sentinels, no previous level. A window capacity of zero is
    /// rejected with [`ProcessingError::InvalidConfiguration`].
    pub fn new(config: &Configuration, start_ms: u64) -> (res: Result<MeterState, ProcessingError>)
        ensures
            config.moving_avg_size == 0 <==> res is Err,
            res is Err ==> res == Err::<MeterState, ProcessingError>(
                ProcessingError::InvalidConfiguration,
            ),
            res matches Ok(s) ==> {
                &&& s.wf()
                &&& s.avg.size() == config.moving_avg_size
                &&& s.avg.values() =~= Seq::<i64>::empty()
                &&& s.current_level == 0
                &&& s.min_level == i64::MAX
                &&& s.max_level == i64::MIN
                &&& s.prev_smoothed_level is None
                &&& s.start_ms == start_ms
            },
    {
        match MovingAverage::new(config.moving_avg_size) {
            Ok(avg) => Ok(
                MeterState {
                    avg,
                    current_level: 0,
                    min_level: i64::MAX,
                    max_level: i64::MIN,
                    prev_smoothed_level: None,
                    start_ms,
                },
            ),
            Err(e) => Err(e),
        }
    }

    /// One transition of the state machine, from the raw (unsmoothed)
    /// percentage of a buffer: smooth, set the current level, widen the
    /// extrema, compute trend against the previous level, evaluate the
    /// alert, and only then store the level for the next trend.
    ///
    /// The `ensures` clauses state the testable laws directly: the
    /// extrema move monotonically, the trend compares against the level
    /// of the previous call (`Flat` when there is none), and the alert
    /// holds exactly when the level is strictly above the threshold.
    pub fn update(&mut self, raw: i64, config: &Configuration, now_ms: u64) -> (snap:
        MeterSnapshot)
        requires
            old(self).wf(),
            -WINDOW_VALUE_LIMIT <= raw <= WINDOW_VALUE_LIMIT,
            old(self).start_ms <= now_ms,
        ensures
            final(self).wf(),
            final(self).start_ms == old(self).start_ms,
            final(self).avg.size() == old(self).avg.size(),
            final(self).avg.values() =~= (if config.use_moving_average {
                MovingAverage::pushed(old(self).avg.values(), old(self).avg.size(), raw)
            } else {
                old(self).avg.values()
            }),
            final(self).current_level as int == smoothed(
                old(self).avg.values(),
                old(self).avg.size(),
                config.use_moving_average,
                raw as int,
            ),
            final(self).min_level == (if final(self).current_level < old(self).min_level {
                final(self).current_level
            } else {
                old(self).min_level
            }),
            final(self).max_level == (if final(self).current_level > old(self).max_level {
                final(self).current_level
            } else {
                old(self).max_level
            }),
            final(self).min_level <= old(self).min_level,
            final(self).max_level >= old(self).max_level,
            final(self).min_level as int == min_after(
                old(self).min_level as int,
                seq![final(self).current_level],
            ),
            final(self).max_level as int == max_after(
                old(self).max_level as int,
                seq![final(self).current_level],
            ),
            final(self).prev_smoothed_level == Some(final(self).current_level),
            snap == (MeterSnapshot {
                current_level: final(self).current_level,
                min_level: final(self).min_level,
                max_level: final(self).max_level,
                trend: trend_spec(old(self).prev_smoothed_level, final(self).current_level),
                alert: final(self).current_level > config.alert_threshold,
                elapsed_ms: (now_ms - old(self).start_ms) as u64,
            }),
    {
        let level: i64 = if config.use_moving_average {
            self.avg.add(raw)
        } else {
            raw
        };
        self.current_level = level;
        if level < self.min_level {
            self.min_level = level;
        }
        if level > self.max_level {
            self.max_level = level;
        }
        let trend = match self.prev_smoothed_level {
            Some(p) => if level > p {
                Trend::Up
            } else if level < p {
                Trend::Down
            } else {
                Trend::Flat
            },
            None => Trend::Flat,
        };
        let alert = level > config.alert_threshold;
        self.prev_smoothed_level = Some(level);
        proof {
            reveal_with_fuel(min_after, 2);
            reveal_with_fuel(max_after, 2);
            assert(seq![level].skip(1) =~= Seq::<i64>::empty());
        }
        MeterSnapshot {
            current_level: level,
            min_level: self.min_level,
            max_level: self.max_level,
            trend,
            alert,
            elapsed_ms: now_ms - self.start_ms,
        }
    }
}

impl Default for MeterState {
    /// The fresh state under the default configuration, at timestamp 0.
    fn default() -> (s: Self)
        ensures
            s.wf(),
            s.avg.size() == 10,
            s.avg.values() =~= Seq::<i64>::empty(),
            s.current_level == 0,
            s.min_level == i64::MAX,
            s.max_level == i64::MIN,
            s.prev_smoothed_level is None,
            s.start_ms == 0,
    {
        let config = Configuration::default();
        match MeterState::new(&config, 0) {
            Ok(s) => s,
            Err(_) => vstd::pervasive::unreached(),
        }
    }
}

/// The single processing entry point: turn a sample buffer into a
/// normalized level through the level pipeline, then run one state
/// machine transition. An empty buffer is rejected with
/// [`ProcessingError::InvalidInput`] and leaves the state untouched; a
/// non-empty one always succeeds.
pub fn process_buffer(
    samples: &Vec<i64>,
    config: &Configuration,
    state: &mut MeterState,
    now_ms: u64,
) -> (res: Result<MeterSnapshot, ProcessingError>)
    requires
        old(state).wf(),
        old(state).start_ms <= now_ms,
        forall|i: int|
            0 <= i < samples@.len() ==> -SAMPLE_LIMIT <= #[trigger] samples@[i] <= SAMPLE_LIMIT,
    ensures
        samples@.len() == 0 <==> res is Err,
        res is Err ==> res == Err::<MeterSnapshot, ProcessingError>(ProcessingError::InvalidInput)
            && *final(state) == *old(state),
        res matches Ok(snap) ==> ({
            let raw = raw_level_of(samples@);
            &&& final(state).wf()
            &&& final(state).start_ms == old(state).start_ms
            &&& final(state).avg.size() == old(state).avg.size()
            &&& final(state).avg.values() =~= (if config.use_moving_average {
                MovingAverage::pushed(old(state).avg.values(), old(state).avg.size(), raw as i64)
            } else {
                old(state).avg.values()
            })
            &&& final(state).current_level as int == smoothed(
                old(state).avg.values(),
                old(state).avg.size(),
                config.use_moving_average,
                raw,
            )
            &&& final(state).min_level == (if final(state).current_level < old(state).min_level {
                final(state).current_level
            } else {
                old(state).min_level
            })
            &&& final(state).max_level == (if final(state).current_level > old(state).max_level {
                final(state).current_level
            } else {
                old(state).max_level
            })
            &&& final(state).min_level <= old(state).min_level
            &&& final(state).max_level >= old(state).max_level
            &&& final(state).prev_smoothed_level == Some(final(state).current_level)
            &&& snap == (MeterSnapshot {
                current_level: final(state).current_level,
                min_level: final(state).min_level,
                max_level: final(state).max_level,
                trend: trend_spec(old(state).prev_smoothed_level, final(state).current_level),
                alert: final(state).current_level > config.alert_threshold,
                elapsed_ms: (now_ms - old(state).start_ms) as u64,
            })
        }),
{
    let rms = match calculate_rms(samples) {
        Ok(r) => r,
        Err(e) => {
            return Err(e);
        },
    };
    proof {
        lemma_floor_sqrt_unique(mean_square(samples@), rms as int);
    }
    let db = calculate_db(rms);
    let raw = normalize_db_to_percentage(db);
    assert(raw as int == raw_level_of(samples@));
    Ok(state.update(raw, config, now_ms))
}

/// The least level after folding a sequence of update levels into a
/// running minimum.
pub open spec fn min_after(start: int, levels: Seq<i64>) -> int
    decreases levels.len(),
{
    if levels.len() == 0 {
        start
    } else {
        min_after(
            if levels[0] < start {
                levels[0] as int
            } else {
                start
            },
            levels.skip(1),
        )
    }
}

/// The greatest level after folding a sequence of update levels into a
/// running maximum.
pub open spec fn max_after(start: int, levels: Seq<i64>) -> int
    decreases levels.len(),
{
    if levels.len() == 0 {
        start
    } else {
        max_after(
            if levels[0] > start {
                levels[0] as int
            } else {
                start
            },
            levels.skip(1),
        )
    }
}

/// Across any sequence of updates, the running minimum only ever
/// decreases and the running maximum only ever increases: each update
/// folds its level into the extrema exactly as `min_after` / `max_after`
/// do, so after any run they are at or beyond where they started.
pub proof fn lemma_extrema_monotone(start_min: int, start_max: int, levels: Seq<i64>)
    ensures
        min_after(start_min, levels) <= start_min,
        max_after(start_max, levels) >= start_max,
    decreases levels.len(),
{
    if levels.len() > 0 {
        lemma_extrema_monotone(
            if levels[0] < start_min {
                levels[0] as int
            } else {
                start_min
            },
            if levels[0] > start_max {
                levels[0] as int
            } else {
                start_max
            },
            levels.skip(1),
        );
    }
}

/// On the very first update there is no previous level, so the trend is
/// `Flat` regardless of the computed level.
pub proof fn lemma_first_trend_flat(level: i64)
    ensures
        trend_spec(Option::<i64>::None, level) == Trend::Flat,
{
}

/// The trend against a previous level is `Up` exactly on a strict rise,
/// `Down` exactly on a strict fall, and `Flat` exactly on equality.
pub proof fn lemma_trend_direction(prev: i64, level: i64)
    ensures
        trend_spec(Some(prev), level) == Trend::Up <==> level > prev,
        trend_spec(Some(prev), level) == Trend::Down <==> level < prev,
        trend_spec(Some(prev), level) == Trend::Flat <==> level == prev,
{
}

} // verus!

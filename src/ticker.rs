use vstd::prelude::*;
use vstd::arithmetic::div_mod::lemma_fundamental_div_mod;
use crate::time::{Duration, NANOS_PER_MICRO, Timestamp};

verus! {

/// The time between display updates, in microseconds.
pub const PERIOD_US: i64 = 250_000;

/// The corrected time, in whole microseconds since the epoch: the local clock
/// reading `now` (rounded down to a microsecond) shifted by `offset`.
pub open spec fn corrected_micros(now: Timestamp, offset: Duration) -> int {
    now@ / (NANOS_PER_MICRO as int) + offset@
}

/// The tick that follows the corrected time `c` (in microseconds): the
/// boundary of the fixed grid of periods that lies at least a quarter of a
/// period beyond `c`, counted in periods from the epoch.
pub open spec fn tick_after(c: int) -> int {
    (c + PERIOD_US + PERIOD_US / 4) / (PERIOD_US as int)
}

/// Whether the tick following `now` corrected by `offset` has an instant whose
/// microsecond count fits in an `i64`.
pub open spec fn predictable(now: Timestamp, offset: Duration) -> bool {
    i64::MIN <= tick_after(corrected_micros(now, offset)) * PERIOD_US <= i64::MAX
}

/// Whether `p` is the prediction `(nominal instant, tick id, wait in
/// microseconds)` of the next tick for clock reading `now` and offset `offset`.
pub open spec fn is_prediction(now: Timestamp, offset: Duration, p: (Timestamp, i64, u64)) -> bool {
    let c = corrected_micros(now, offset);
    &&& p.1 == tick_after(c)
    &&& p.0@ == p.1 * PERIOD_US * NANOS_PER_MICRO
    &&& p.2 == p.1 * PERIOD_US - c
}

/// The tick that follows `c` lies more than a quarter period and at most one
/// and a quarter periods beyond `c`.
pub proof fn lemma_tick_after_bounds(c: int)
    ensures
        c + PERIOD_US / 4 < tick_after(c) * PERIOD_US <= c + PERIOD_US + PERIOD_US / 4,
{
    lemma_fundamental_div_mod(c + PERIOD_US + PERIOD_US / 4, PERIOD_US as int);
}

/// Ticks advance one at a time: where the corrected time `c2` of a later call
/// lies at or after the nominal instant of the tick predicted for `c1`, and
/// less than three quarters of a period beyond it, the next prediction is the
/// following tick, one period later on the grid.
pub proof fn lemma_consecutive_ticks(c1: int, c2: int)
    requires
        tick_after(c1) * PERIOD_US <= c2 < tick_after(c1) * PERIOD_US + PERIOD_US - PERIOD_US / 4,
    ensures
        tick_after(c2) == tick_after(c1) + 1,
        tick_after(c2) * PERIOD_US == tick_after(c1) * PERIOD_US + PERIOD_US,
{
    let t = tick_after(c1);
    lemma_tick_after_bounds(c2);
    assert((t + 1) * PERIOD_US == t * PERIOD_US + PERIOD_US) by (nonlinear_arith);
    assert((t + 2) * PERIOD_US == t * PERIOD_US + 2 * PERIOD_US) by (nonlinear_arith);
    assert(t * PERIOD_US < tick_after(c2) * PERIOD_US < (t + 2) * PERIOD_US);
    assert(t < tick_after(c2) < t + 2) by (nonlinear_arith)
        requires
            t * PERIOD_US < tick_after(c2) * PERIOD_US < (t + 2) * PERIOD_US,
    ;
}

/// Ticks advance one at a time for calls at the instants that the scheduler
/// sleeps until: where `earlier` is the prediction for `now1`, a call at
/// `now2`, which lies the wait of `earlier` after `now1`, with the same offset
/// predicts the following tick, one period later.
pub proof fn lemma_wake_predicts_next_tick(
    now1: Timestamp,
    now2: Timestamp,
    offset: Duration,
    earlier: (Timestamp, i64, u64),
    later: (Timestamp, i64, u64),
)
    requires
        is_prediction(now1, offset, earlier),
        is_prediction(now2, offset, later),
        now2@ == now1@ + earlier.2 * NANOS_PER_MICRO,
    ensures
        later.1 == earlier.1 + 1,
        later.0@ == earlier.0@ + PERIOD_US * NANOS_PER_MICRO,
{
    let c1 = corrected_micros(now1, offset);
    let c2 = corrected_micros(now2, offset);
    assert(now2@ / 1000 == now1@ / 1000 + earlier.2) by {
        lemma_fundamental_div_mod(now1@, 1000);
        lemma_fundamental_div_mod(now2@, 1000);
        vstd::arithmetic::div_mod::lemma_fundamental_div_mod_converse(
            now2@,
            1000,
            now1@ / 1000 + earlier.2,
            now1@ % 1000,
        );
    }
    assert(c2 == tick_after(c1) * PERIOD_US);
    lemma_consecutive_ticks(c1, c2);
}

/// A clock-tick event.
#[derive(Clone, Copy, Debug, PartialEq, Eq, Structural)]
pub struct TickEvent {
    /// The (corrected) time that should be displayed to the user.
    pub t_nominal: Timestamp,
    /// The (uncorrected) time at which this event was sent.
    pub t_transmit: Timestamp,
    /// The number of ticks since the epoch.
    pub tick_id: i64,
}

impl TickEvent {
    /// The phase of this tick in a rotation of four, which advances by one
    /// from each tick to the next.
    pub fn phase(&self) -> (r: usize)
        ensures
            r == self.tick_id % 4,
            r < 4,
    {
        self.tick_id.checked_rem_euclid(4).unwrap() as usize
    }
}

/// The tick scheduler: computes the instants of display updates on a fixed grid
/// of periods, corrected by the latest known clock offset.
pub struct Ticker {
    avg_offset: Duration,
}

impl View for Ticker {
    type V = Duration;

    /// The clock offset in use.
    closed spec fn view(&self) -> Duration {
        self.avg_offset
    }
}

impl Ticker {
    /// A scheduler with no clock correction.
    pub fn new() -> (r: Ticker)
        ensures
            r@@ == 0,
    {
        Ticker { avg_offset: Duration::zero() }
    }

    /// The clock offset in use.
    pub fn avg_offset(&self) -> (r: Duration)
        ensures
            r == self@,
    {
        self.avg_offset
    }

    /// Take in the offsets received since the last tick, in order of arrival:
    /// the latest replaces the offset in use, and the others are dropped.
    pub fn absorb_offsets(&mut self, offsets: &Vec<Duration>)
        ensures
            offsets@.len() == 0 ==> final(self)@ == old(self)@,
            offsets@.len() > 0 ==> final(self)@ == offsets@.last(),
    {
        let n = offsets.len();
        if n > 0 {
            self.avg_offset = offsets[n - 1];
        }
    }

    /// The next tick for local clock reading `now` and clock offset
    /// `avg_offset`: its nominal instant, its id and the wait until it, in
    /// microseconds.
    pub fn predict_next(now: Timestamp, avg_offset: Duration) -> (r: (Timestamp, i64, u64))
        requires
            predictable(now, avg_offset),
        ensures
            is_prediction(now, avg_offset, r),
            PERIOD_US / 4 < r.2 <= PERIOD_US + PERIOD_US / 4,
    {
        let c: i128 = now.timestamp_micros() as i128 + avg_offset.num_microseconds() as i128;
        let period: i128 = PERIOD_US as i128;
        let q: i128 = (c + period + period / 4).checked_div_euclid(period).unwrap();
        proof {
            lemma_tick_after_bounds(c as int);
        }
        let tick_id: i64 = q as i64;
        let nominal_us: i64 = tick_id * PERIOD_US;
        let wait: u64 = (nominal_us as i128 - c) as u64;
        (Timestamp::from_micros(nominal_us), tick_id, wait)
    }

    /// The next tick for local clock reading `now`, corrected by the offset in
    /// use; `None` where it cannot be represented.
    pub fn next_tick(&self, now: Timestamp) -> (r: Option<(Timestamp, i64, u64)>)
        ensures
            r.is_some() <==> predictable(now, self@),
            r.is_some() ==> is_prediction(now, self@, r.unwrap()),
    {
        let c: i128 = now.timestamp_micros() as i128 + self.avg_offset.num_microseconds() as i128;
        let period: i128 = PERIOD_US as i128;
        let q: i128 = (c + period + period / 4).checked_div_euclid(period).unwrap();
        let nominal_us: i128 = q * period;
        if nominal_us < i64::MIN as i128 || nominal_us > i64::MAX as i128 {
            None
        } else {
            Some(Ticker::predict_next(now, self.avg_offset))
        }
    }
}

} // verus!

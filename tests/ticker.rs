use eng_clock::ticker::{Ticker, TickEvent, PERIOD_US};
use eng_clock::time::{Duration, Timestamp};

/// Instants relative to 1991-07-10 00:00:00 UTC, with a fraction of a second
/// given as (milliseconds, microseconds, nanoseconds).
fn mk_time(seconds: i32, fracs: (i32, i32, i32)) -> Timestamp {
    let nanos = fracs.2 + 1000 * (fracs.1 + 1000 * fracs.0);
    Timestamp::from_parts(679_104_000 + seconds as i64, nanos as u32).unwrap()
}

#[test]
fn base_prediction() {
    fn next(s: i32, f: (i32, i32, i32)) -> (Timestamp, i64, u32) {
        let (t_nom, tick, wait) = Ticker::predict_next(mk_time(s, f), Duration::zero());
        (t_nom, tick % 40, wait as u32)
    }

    assert_eq!(next(0, (0, 0, 0)), (mk_time(0, (250, 0, 0)), 1, 250_000));
    assert_eq!(next(281, (149, 151, 157)), (mk_time(281, (250, 0, 0)), 5, 100_849));
    assert_eq!(next(977, (739, 743, 751)), (mk_time(978, (0, 0, 0)), 32, 260_257));
}

#[test]
fn prediction_exact_tick_ids() {
    let (_, tick, _) = Ticker::predict_next(mk_time(0, (0, 0, 0)), Duration::zero());
    assert_eq!(tick, 2_716_416_001);
    let (_, tick, _) = Ticker::predict_next(mk_time(977, (739, 743, 751)), Duration::zero());
    assert_eq!(tick, 2_716_419_912);
}

#[test]
fn prediction_with_offset() {
    // An offset of +100 ms moves the corrected time from .149151 s to .249151 s,
    // which is within a quarter period of .25 s, so the tick after that is chosen.
    let (t_nom, tick, wait) =
        Ticker::predict_next(mk_time(281, (149, 151, 157)), Duration::microseconds(100_000));
    assert_eq!(t_nom, mk_time(281, (500, 0, 0)));
    assert_eq!(tick % 40, 6);
    assert_eq!(wait, 250_849);

    // A negative offset.
    let (t_nom, _, wait) =
        Ticker::predict_next(mk_time(10, (0, 0, 0)), Duration::microseconds(-1_000_000));
    assert_eq!(t_nom, mk_time(9, (250, 0, 0)));
    assert_eq!(wait, 250_000);
}

#[test]
fn prediction_before_epoch() {
    // 0.1 s before the epoch: the corrected time is -100000 us.
    let now = Timestamp::from_parts(-1, 900_000_000).unwrap();
    let (t_nom, tick, wait) = Ticker::predict_next(now, Duration::zero());
    assert_eq!(tick, 0);
    assert_eq!(t_nom, Timestamp::from_micros(0));
    assert_eq!(wait, 100_000);
}

#[test]
fn prediction_near_boundary_skips_ahead() {
    // Just under a quarter period before a boundary: that boundary is skipped.
    let (t_nom, _, wait) = Ticker::predict_next(mk_time(5, (187, 600, 0)), Duration::zero());
    assert_eq!(t_nom, mk_time(5, (500, 0, 0)));
    assert_eq!(wait, 312_400);
    // Exactly a quarter period before: also skipped.
    let (t_nom, _, wait) = Ticker::predict_next(mk_time(5, (187, 500, 0)), Duration::zero());
    assert_eq!(t_nom, mk_time(5, (500, 0, 0)));
    assert_eq!(wait, 312_500);
    // Just over a quarter period before: the boundary is kept.
    let (t_nom, _, wait) = Ticker::predict_next(mk_time(5, (187, 499, 999)), Duration::zero());
    assert_eq!(t_nom, mk_time(5, (250, 0, 0)));
    assert_eq!(wait, 62_501);
}

#[test]
fn consecutive_predictions_advance_by_one() {
    let offset = Duration::microseconds(-37_123);
    let mut now = mk_time(123, (456, 789, 12));
    let (mut t_prev, mut tick_prev, mut wait) = Ticker::predict_next(now, offset);
    for _ in 0..200 {
        now = Timestamp::from_micros(now.timestamp_micros() + wait as i64);
        let (t_nom, tick, w) = Ticker::predict_next(now, offset);
        assert_eq!(tick, tick_prev + 1);
        assert_eq!(t_nom.timestamp_micros(), t_prev.timestamp_micros() + PERIOD_US);
        assert_eq!(w, PERIOD_US as u64);
        t_prev = t_nom;
        tick_prev = tick;
        wait = w;
    }
}

#[test]
fn late_wake_still_advances_by_one() {
    let now = mk_time(42, (10, 0, 0));
    let (t_nom, tick, _) = Ticker::predict_next(now, Duration::zero());
    // Waking 187.499 ms late (just under three quarters of a period).
    let late = Timestamp::from_micros(t_nom.timestamp_micros() + 187_499);
    let (t_next, tick_next, wait) = Ticker::predict_next(late, Duration::zero());
    assert_eq!(tick_next, tick + 1);
    assert_eq!(t_next.timestamp_micros(), t_nom.timestamp_micros() + PERIOD_US);
    assert_eq!(wait, 62_501);
}

#[test]
fn ticker_starts_without_offset() {
    let ticker = Ticker::new();
    assert_eq!(ticker.avg_offset(), Duration::zero());
}

#[test]
fn absorb_keeps_latest_offset() {
    let mut ticker = Ticker::new();
    ticker.absorb_offsets(&vec![
        Duration::microseconds(5),
        Duration::microseconds(-7),
        Duration::microseconds(11),
    ]);
    assert_eq!(ticker.avg_offset(), Duration::microseconds(11));
    ticker.absorb_offsets(&Vec::new());
    assert_eq!(ticker.avg_offset(), Duration::microseconds(11));
    ticker.absorb_offsets(&vec![Duration::microseconds(-250_000)]);
    assert_eq!(ticker.avg_offset().num_microseconds(), -250_000);
}

#[test]
fn next_tick_uses_ticker_offset() {
    let mut ticker = Ticker::new();
    ticker.absorb_offsets(&vec![Duration::microseconds(100_000)]);
    let now = mk_time(281, (149, 151, 157));
    assert_eq!(
        ticker.next_tick(now),
        Some(Ticker::predict_next(now, Duration::microseconds(100_000)))
    );
    let (t_nom, _, wait) = ticker.next_tick(now).unwrap();
    assert_eq!(t_nom, mk_time(281, (500, 0, 0)));
    assert_eq!(wait, 250_849);
}

#[test]
fn next_tick_out_of_range() {
    let ticker = Ticker::new();
    assert_eq!(ticker.next_tick(Timestamp::from_micros(i64::MAX)), None);
    // The last grid instant that fits is i64::MAX - 25_807 microseconds.
    assert_eq!(ticker.next_tick(Timestamp::from_micros(i64::MAX - 88_307)), None);
    let (t_nom, _, wait) = ticker.next_tick(Timestamp::from_micros(i64::MAX - 88_308)).unwrap();
    assert_eq!(t_nom.timestamp_micros(), i64::MAX - 25_807);
    assert_eq!(wait, 62_501);
    assert!(ticker.next_tick(Timestamp::from_micros(i64::MIN)).is_some());
}

#[test]
fn tick_event_fields() {
    let ev = TickEvent { t_nominal: mk_time(1, (0, 0, 0)), t_transmit: mk_time(0, (999, 0, 0)), tick_id: 4 };
    let copy = ev;
    assert_eq!(copy, ev);
    assert_eq!(ev.tick_id % 4, 0);
}

#[test]
fn tick_phase_rotates() {
    let at = |tick_id: i64| TickEvent {
        t_nominal: Timestamp::from_micros(tick_id * PERIOD_US),
        t_transmit: Timestamp::from_micros(tick_id * PERIOD_US),
        tick_id,
    };
    assert_eq!(at(0).phase(), 0);
    assert_eq!(at(5).phase(), 1);
    assert_eq!(at(2_716_419_912).phase(), 0);
    assert_eq!(at(2_716_419_914).phase(), 2);
    assert_eq!(at(-1).phase(), 3);
    assert_eq!(at(-4).phase(), 0);
    for id in -10..10 {
        assert_eq!(at(id + 1).phase(), (at(id).phase() + 1) % 4);
    }
}

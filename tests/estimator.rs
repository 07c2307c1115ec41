use mpris_client_async::estimator::{
    advance_position, Event, Inputs, PositionEstimator, Slot, Step, RATE_UNIT, TICK_MICROS,
};
use mpris_client_async::Playback;

const SECOND: u64 = 1_000_000;

#[test]
fn scenario_seek_pause_resume() {
    let mut est = PositionEstimator::new(RATE_UNIT, Playback::Playing, 0, 0);
    let mut inputs = Inputs::new();
    assert_eq!(est.poll(&mut inputs, SECOND), Step::Emit(SECOND));

    inputs.seek = Slot::Ready(30 * SECOND);
    assert_eq!(est.poll(&mut inputs, SECOND + 500_000), Step::Emit(30 * SECOND));
    assert_eq!(inputs.seek, Slot::Empty);

    inputs.playback = Slot::Ready(Playback::Paused);
    assert_eq!(est.poll(&mut inputs, 3 * SECOND + 500_000), Step::Emit(32 * SECOND));

    assert_eq!(est.poll(&mut inputs, 5 * SECOND), Step::Wait);
    assert_eq!(est.poll(&mut inputs, 9 * SECOND), Step::Wait);
    assert_eq!(est.position(), 32 * SECOND);

    inputs.playback = Slot::Ready(Playback::Playing);
    assert_eq!(est.poll(&mut inputs, 10 * SECOND), Step::Emit(32 * SECOND));
    assert_eq!(est.poll(&mut inputs, 10 * SECOND + 500_000), Step::Wait);
    assert_eq!(est.poll(&mut inputs, 11 * SECOND), Step::Emit(33 * SECOND));
}

#[test]
fn scenario_rate_change_integrates_at_old_rate() {
    let mut est = PositionEstimator::new(RATE_UNIT, Playback::Playing, 0, 0);
    let mut inputs = Inputs::new();
    inputs.rate = Slot::Ready(2 * RATE_UNIT);
    assert_eq!(est.poll(&mut inputs, 3 * SECOND), Step::Emit(3 * SECOND));
    assert_eq!(est.rate(), 2 * RATE_UNIT);
    assert_eq!(est.poll(&mut inputs, 4 * SECOND), Step::Emit(5 * SECOND));
}

#[test]
fn priority_is_rate_playback_seek_timer() {
    let mut est = PositionEstimator::new(RATE_UNIT, Playback::Playing, 0, 0);
    let mut inputs = Inputs {
        rate: Slot::Ready(2 * RATE_UNIT),
        playback: Slot::Ready(Playback::Paused),
        seek: Slot::Ready(50 * SECOND),
    };
    assert_eq!(est.poll(&mut inputs, 2 * SECOND), Step::Emit(2 * SECOND));
    assert_eq!(inputs.rate, Slot::Empty);
    assert_eq!(inputs.playback, Slot::Ready(Playback::Paused));
    assert_eq!(est.poll(&mut inputs, 3 * SECOND), Step::Emit(4 * SECOND));
    assert_eq!(est.playback(), Playback::Paused);
    assert_eq!(est.poll(&mut inputs, 3 * SECOND), Step::Emit(50 * SECOND));
    assert_eq!(inputs, Inputs::new());
    assert_eq!(est.poll(&mut inputs, 10 * SECOND), Step::Wait);
    assert_eq!(est.position(), 50 * SECOND);
}

#[test]
fn silent_items_fall_through_to_later_inputs() {
    let mut est = PositionEstimator::new(RATE_UNIT, Playback::Paused, 7, 0);
    let mut inputs = Inputs {
        rate: Slot::Ready(3 * RATE_UNIT),
        playback: Slot::Ready(Playback::Stopped),
        seek: Slot::Ready(9),
    };
    assert_eq!(est.poll(&mut inputs, SECOND), Step::Emit(9));
    assert_eq!(inputs, Inputs::new());
    assert_eq!(est.rate(), 3 * RATE_UNIT);
    assert_eq!(est.playback(), Playback::Stopped);
}

#[test]
fn a_feed_that_ends_ends_the_estimate_for_good() {
    let mut est = PositionEstimator::new(RATE_UNIT, Playback::Playing, 0, 0);
    let mut inputs = Inputs::new();
    inputs.seek = Slot::Ended;
    assert_eq!(est.poll(&mut inputs, 0), Step::End);
    assert!(est.ended());
    inputs.seek = Slot::Ready(5);
    assert_eq!(est.poll(&mut inputs, 5 * SECOND), Step::End);
    assert_eq!(inputs.seek, Slot::Ready(5));

    let mut est = PositionEstimator::new(RATE_UNIT, Playback::Playing, 0, 0);
    let mut inputs = Inputs { rate: Slot::Ended, playback: Slot::Empty, seek: Slot::Ready(5) };
    assert_eq!(est.poll(&mut inputs, 0), Step::End);
    assert_eq!(est.position(), 0);
}

#[test]
fn no_emission_before_the_heartbeat() {
    let mut est = PositionEstimator::new(RATE_UNIT, Playback::Playing, 0, 100);
    let mut inputs = Inputs::new();
    assert_eq!(est.deadline(), 100 + TICK_MICROS);
    assert_eq!(est.poll(&mut inputs, 100 + TICK_MICROS - 1), Step::Wait);
    assert_eq!(est.poll(&mut inputs, 100 + TICK_MICROS), Step::Emit(TICK_MICROS));
}

#[test]
fn zero_rate_is_never_used() {
    let est = PositionEstimator::new(0, Playback::Playing, 0, 0);
    assert_eq!(est.rate(), RATE_UNIT);

    let mut est = PositionEstimator::new(2 * RATE_UNIT, Playback::Playing, 0, 0);
    assert_eq!(est.on_rate_change(0, SECOND), Some(2 * SECOND));
    assert_eq!(est.rate(), 2 * RATE_UNIT);
    assert_eq!(est.on_tick(2 * SECOND), Some(4 * SECOND));
}

#[test]
fn monotonic_while_playing() {
    let mut est = PositionEstimator::new(RATE_UNIT, Playback::Playing, 0, 0);
    let events = [
        (Event::Tick, SECOND),
        (Event::RateChanged(RATE_UNIT / 2), 2 * SECOND),
        (Event::PlaybackChanged(Playback::Playing), 2 * SECOND + 1),
        (Event::Tick, 4 * SECOND),
        (Event::RateChanged(3 * RATE_UNIT), 5 * SECOND),
        (Event::Tick, 6 * SECOND),
    ];
    let mut last = est.position();
    for (e, now) in events {
        est.apply(e, now);
        assert!(est.position() >= last);
        last = est.position();
    }
    assert_eq!(last, 6 * SECOND + SECOND / 2);
}

#[test]
fn frozen_while_stopped() {
    let mut est = PositionEstimator::new(RATE_UNIT, Playback::Stopped, 12, 0);
    assert_eq!(est.on_tick(SECOND), None);
    assert_eq!(est.on_rate_change(4 * RATE_UNIT, 2 * SECOND), None);
    assert_eq!(est.on_playback_change(Playback::Paused, 3 * SECOND), None);
    assert_eq!(est.on_tick(9 * SECOND), None);
    assert_eq!(est.position(), 12);
    assert_eq!(est.on_playback_change(Playback::Playing, 10 * SECOND), Some(12));
    assert_eq!(est.on_playback_change(Playback::Stopped, 11 * SECOND), Some(12 + 4 * SECOND));
}

#[test]
fn seek_is_taken_verbatim() {
    let mut est = PositionEstimator::new(RATE_UNIT, Playback::Playing, 40 * SECOND, 0);
    assert_eq!(est.on_seek(3, 20 * SECOND), 3);
    assert_eq!(est.apply(Event::Tick, 21 * SECOND), Some(3 + SECOND));
}

#[test]
fn advancing_rounds_and_saturates() {
    assert_eq!(advance_position(10, 3, RATE_UNIT / 2), 11);
    assert_eq!(advance_position(10, 2 * SECOND, -RATE_UNIT), 0);
    assert_eq!(advance_position(5 * SECOND, SECOND, -RATE_UNIT), 4 * SECOND);
    assert_eq!(advance_position(u64::MAX - 5, 10, RATE_UNIT), u64::MAX);
    assert_eq!(advance_position(0, u64::MAX, i64::MAX), u64::MAX);
    assert_eq!(advance_position(u64::MAX, u64::MAX, i64::MIN), 0);
    assert_eq!(advance_position(7, 0, i64::MAX), 7);
}

#[test]
fn clock_going_back_counts_as_no_time() {
    let mut est = PositionEstimator::new(RATE_UNIT, Playback::Playing, 100, 10 * SECOND);
    assert_eq!(est.on_playback_change(Playback::Paused, 5 * SECOND), Some(100));
}

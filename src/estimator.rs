//! The position estimator: follows the playback offset of a remote player
//! from its rate changes, playback-state changes and seek events, with a
//! one-second heartbeat in between, without polling the player.
//!
//! Time is counted in microseconds: the position as an offset into the
//! track, the instants on a monotonic clock that the caller reads. Rates are
//! counted in millionths, so that normal speed is `RATE_UNIT`.

use vstd::prelude::*;

use crate::enums::Playback;

verus! {

/// The heartbeat period, in microseconds.
pub const TICK_MICROS: u64 = 1_000_000;

/// A rate of one (normal speed), in millionths.
pub const RATE_UNIT: i64 = 1_000_000;

/// The time that passed from `last` to `now`; a clock read that goes
/// backwards counts as no time.
pub open spec fn elapsed(last: u64, now: u64) -> u64 {
    if now >= last {
        (now - last) as u64
    } else {
        0
    }
}

/// `position` moved on by `elapsed` microseconds at `rate` millionths,
/// rounded towards the old position, and kept within `0..=u64::MAX`.
pub open spec fn advance(position: u64, elapsed: u64, rate: i64) -> u64 {
    if rate >= 0 {
        let gain = (elapsed as int * rate as int) / (RATE_UNIT as int);
        if position + gain > u64::MAX {
            u64::MAX
        } else {
            (position + gain) as u64
        }
    } else {
        let loss = (elapsed as int * (-rate) as int) / (RATE_UNIT as int);
        if position - loss < 0 {
            0
        } else {
            (position - loss) as u64
        }
    }
}

/// Moves `position` on as `advance` states.
pub fn advance_position(position: u64, elapsed: u64, rate: i64) -> (r: u64)
    ensures
        r == advance(position, elapsed, rate),
{
    let magnitude: u128 = if rate >= 0 {
        rate as u128
    } else {
        (-(rate as i128)) as u128
    };
    proof {
        assert(magnitude <= 0x8000_0000_0000_0000);
        assert(elapsed as u128 * magnitude <= 0xffff_ffff_ffff_ffff * 0x8000_0000_0000_0000)
            by (nonlinear_arith)
            requires
                magnitude <= 0x8000_0000_0000_0000,
                elapsed <= 0xffff_ffff_ffff_ffff,
        ;
    }
    let change: u128 = (elapsed as u128) * magnitude / (RATE_UNIT as u128);
    if rate >= 0 {
        let sum: u128 = (position as u128) + change;
        if sum > (u64::MAX as u128) {
            u64::MAX
        } else {
            sum as u64
        }
    } else if change > (position as u128) {
        0
    } else {
        position - (change as u64)
    }
}

/// What the estimator knows of the player's timeline.
#[derive(Debug, Clone, Copy, PartialEq, Eq, Structural)]
pub struct EstimatorState {
    /// The rate in effect, in millionths; never zero.
    pub rate: i64,
    /// The playback state in effect.
    pub playback: Playback,
    /// The estimated offset into the track, in microseconds.
    pub position: u64,
    /// The instant at which `position` was last brought up to date; the
    /// heartbeat is due one period after it.
    pub last_tick: u64,
}

/// One input of the estimator.
#[derive(Debug, Clone, Copy, PartialEq, Eq, Structural)]
pub enum Event {
    /// The player reported a new rate, in millionths.
    RateChanged(i64),
    /// The player reported a new playback state.
    PlaybackChanged(Playback),
    /// The player reported that it jumped to a position, in microseconds.
    Seeked(u64),
    /// The heartbeat came due.
    Tick,
}

impl EstimatorState {
    pub open spec fn wf(self) -> bool {
        self.rate != 0
    }

    /// The position brought up to `now` at the rate in effect.
    pub open spec fn caught_up(self, now: u64) -> u64 {
        advance(self.position, elapsed(self.last_tick, now), self.rate)
    }
}

/// The instant at which the heartbeat is due in state `s`.
pub open spec fn deadline_of(s: EstimatorState) -> u64 {
    if s.last_tick as int + TICK_MICROS as int > u64::MAX {
        u64::MAX
    } else {
        (s.last_tick + TICK_MICROS) as u64
    }
}

/// The state after event `e` at instant `now`, and the position emitted, if any.
pub open spec fn transition(s: EstimatorState, e: Event, now: u64) -> (EstimatorState, Option<u64>) {
    match e {
        Event::RateChanged(r) => {
            // A rate of zero breaks the protocol: the last non-zero rate stays.
            let rate = if r == 0 { s.rate } else { r };
            if s.playback == Playback::Playing {
                let p = s.caught_up(now);
                (EstimatorState { rate, position: p, last_tick: now, ..s }, Some(p))
            } else {
                (EstimatorState { rate, ..s }, None)
            }
        },
        Event::PlaybackChanged(b) => {
            if s.playback != Playback::Playing && b == Playback::Playing {
                (EstimatorState { playback: b, last_tick: now, ..s }, Some(s.position))
            } else if s.playback == Playback::Playing && b != Playback::Playing {
                let p = s.caught_up(now);
                (EstimatorState { playback: b, position: p, last_tick: now, ..s }, Some(p))
            } else {
                (EstimatorState { playback: b, ..s }, None)
            }
        },
        Event::Seeked(p) => (EstimatorState { position: p, last_tick: now, ..s }, Some(p)),
        Event::Tick => {
            if s.playback == Playback::Playing {
                let p = s.caught_up(now);
                (EstimatorState { position: p, last_tick: now, ..s }, Some(p))
            } else {
                (EstimatorState { last_tick: now, ..s }, None)
            }
        },
    }
}

/// What one pass of the estimator gives its consumer.
#[derive(Debug, Clone, Copy, PartialEq, Eq, Structural)]
pub enum Step {
    /// A new estimate of the position, in microseconds.
    Emit(u64),
    /// Nothing yet: wait for a feed or for the heartbeat deadline.
    Wait,
    /// A feed ended: the estimate ends too, for good.
    End,
}

/// What one feed has handed over and the estimator has not yet taken.
#[derive(Debug, Clone, Copy, PartialEq, Eq, Structural)]
pub enum Slot<T> {
    /// Nothing has arrived.
    Empty,
    /// A value arrived.
    Ready(T),
    /// The feed ended.
    Ended,
}

/// The latest unconsumed item of each of the three feeds.
#[derive(Debug, Clone, Copy, PartialEq, Eq, Structural)]
pub struct Inputs {
    /// The rate feed, in millionths.
    pub rate: Slot<i64>,
    /// The playback-state feed.
    pub playback: Slot<Playback>,
    /// The seek feed, in microseconds.
    pub seek: Slot<u64>,
}

impl Inputs {
    /// Three empty slots.
    pub fn new() -> (r: Inputs)
        ensures
            r == (Inputs { rate: Slot::Empty, playback: Slot::Empty, seek: Slot::Empty }),
    {
        Inputs { rate: Slot::Empty, playback: Slot::Empty, seek: Slot::Empty }
    }
}

/// The heartbeat stage of a pass: last in priority.
pub open spec fn pass_timer(s: EstimatorState, i: Inputs, now: u64) -> (EstimatorState, Inputs, Step) {
    if now >= deadline_of(s) {
        let (s1, out) = transition(s, Event::Tick, now);
        match out {
            Some(p) => (s1, i, Step::Emit(p)),
            None => (s1, i, Step::Wait),
        }
    } else {
        (s, i, Step::Wait)
    }
}

/// The seek stage of a pass, then the heartbeat.
pub open spec fn pass_seek(s: EstimatorState, i: Inputs, now: u64) -> (EstimatorState, Inputs, Step) {
    match i.seek {
        Slot::Ended => (s, i, Step::End),
        Slot::Ready(p) => {
            let (s1, out) = transition(s, Event::Seeked(p), now);
            let i1 = Inputs { seek: Slot::Empty, ..i };
            match out {
                Some(v) => (s1, i1, Step::Emit(v)),
                None => pass_timer(s1, i1, now),
            }
        },
        Slot::Empty => pass_timer(s, i, now),
    }
}

/// The playback-state stage of a pass, then the later ones.
pub open spec fn pass_playback(s: EstimatorState, i: Inputs, now: u64) -> (EstimatorState, Inputs, Step) {
    match i.playback {
        Slot::Ended => (s, i, Step::End),
        Slot::Ready(b) => {
            let (s1, out) = transition(s, Event::PlaybackChanged(b), now);
            let i1 = Inputs { playback: Slot::Empty, ..i };
            match out {
                Some(v) => (s1, i1, Step::Emit(v)),
                None => pass_seek(s1, i1, now),
            }
        },
        Slot::Empty => pass_seek(s, i, now),
    }
}

/// One pass over the inputs in their fixed priority: rate, playback state,
/// seek, heartbeat. Each item taken leaves its slot empty; the pass stops at
/// the first emission or the first ended feed.
pub open spec fn pass(s: EstimatorState, i: Inputs, now: u64) -> (EstimatorState, Inputs, Step) {
    match i.rate {
        Slot::Ended => (s, i, Step::End),
        Slot::Ready(r) => {
            let (s1, out) = transition(s, Event::RateChanged(r), now);
            let i1 = Inputs { rate: Slot::Empty, ..i };
            match out {
                Some(v) => (s1, i1, Step::Emit(v)),
                None => pass_playback(s1, i1, now),
            }
        },
        Slot::Empty => pass_playback(s, i, now),
    }
}

/// Estimates the position of one player's playback.
pub struct PositionEstimator {
    state: EstimatorState,
    ended: bool,
}

impl PositionEstimator {
    pub closed spec fn state(&self) -> EstimatorState {
        self.state
    }

    pub closed spec fn is_ended(&self) -> bool {
        self.ended
    }

    pub open spec fn wf(&self) -> bool {
        self.state().wf()
    }

    /// Starts from a snapshot of the player taken at `now`. A rate of zero
    /// is taken as normal speed.
    pub fn new(rate: i64, playback: Playback, position: u64, now: u64) -> (r: PositionEstimator)
        ensures
            r.wf(),
            !r.is_ended(),
            r.state() == (EstimatorState {
                rate: if rate == 0 { RATE_UNIT } else { rate },
                playback,
                position,
                last_tick: now,
            }),
    {
        let rate: i64 = if rate == 0 { RATE_UNIT } else { rate };
        PositionEstimator {
            state: EstimatorState { rate, playback, position, last_tick: now },
            ended: false,
        }
    }

    /// The current estimate, in microseconds.
    pub fn position(&self) -> (r: u64)
        ensures
            r == self.state().position,
    {
        self.state.position
    }

    /// The rate in effect, in millionths.
    pub fn rate(&self) -> (r: i64)
        ensures
            r == self.state().rate,
    {
        self.state.rate
    }

    /// The playback state in effect.
    pub fn playback(&self) -> (r: Playback)
        ensures
            r == self.state().playback,
    {
        self.state.playback
    }

    /// Whether a feed has ended, which ends the estimate for good.
    pub fn ended(&self) -> (r: bool)
        ensures
            r == self.is_ended(),
    {
        self.ended
    }

    /// The instant at which the heartbeat is due.
    pub fn deadline(&self) -> (r: u64)
        ensures
            r == deadline_of(self.state()),
    {
        self.state.last_tick.saturating_add(TICK_MICROS)
    }

    fn caught_up(&self, now: u64) -> (r: u64)
        ensures
            r == self.state().caught_up(now),
    {
        let elapsed: u64 = if now >= self.state.last_tick {
            now - self.state.last_tick
        } else {
            0
        };
        advance_position(self.state.position, elapsed, self.state.rate)
    }

    /// The player reported `rate` at `now`. While playing, the time since the
    /// last update counts at the old rate and the new estimate is emitted;
    /// a reported rate of zero leaves the old rate in effect.
    pub fn on_rate_change(&mut self, rate: i64, now: u64) -> (r: Option<u64>)
        requires
            old(self).wf(),
        ensures
            final(self).wf(),
            final(self).is_ended() == old(self).is_ended(),
            (final(self).state(), r) == transition(old(self).state(), Event::RateChanged(rate), now),
            rate == 0 ==> final(self).state().rate == old(self).state().rate,
    {
        let new_rate: i64 = if rate == 0 { self.state.rate } else { rate };
        if self.state.playback == Playback::Playing {
            let p: u64 = self.caught_up(now);
            self.state = EstimatorState { rate: new_rate, position: p, last_tick: now, ..self.state };
            Some(p)
        } else {
            self.state = EstimatorState { rate: new_rate, ..self.state };
            None
        }
    }

    /// The player reported the playback state `playback` at `now`. Starting
    /// to play emits the position unchanged; stopping or pausing brings it up
    /// to `now` and emits it; any other change is only recorded.
    pub fn on_playback_change(&mut self, playback: Playback, now: u64) -> (r: Option<u64>)
        requires
            old(self).wf(),
        ensures
            final(self).wf(),
            final(self).is_ended() == old(self).is_ended(),
            (final(self).state(), r) == transition(
                old(self).state(),
                Event::PlaybackChanged(playback),
                now,
            ),
    {
        let was_playing = self.state.playback == Playback::Playing;
        let playing = playback == Playback::Playing;
        if !was_playing && playing {
            self.state = EstimatorState { playback, last_tick: now, ..self.state };
            Some(self.state.position)
        } else if was_playing && !playing {
            let p: u64 = self.caught_up(now);
            self.state = EstimatorState { playback, position: p, last_tick: now, ..self.state };
            Some(p)
        } else {
            self.state = EstimatorState { playback, ..self.state };
            None
        }
    }

    /// The player reported at `now` that it jumped to `position`, which is
    /// taken as it stands and emitted.
    pub fn on_seek(&mut self, position: u64, now: u64) -> (r: u64)
        requires
            old(self).wf(),
        ensures
            final(self).wf(),
            final(self).is_ended() == old(self).is_ended(),
            (final(self).state(), Some(r)) == transition(
                old(self).state(),
                Event::Seeked(position),
                now,
            ),
    {
        self.state = EstimatorState { position, last_tick: now, ..self.state };
        position
    }

    /// The heartbeat came due at `now`: while playing, the position is
    /// brought up to `now` and emitted; otherwise only the heartbeat restarts.
    pub fn on_tick(&mut self, now: u64) -> (r: Option<u64>)
        requires
            old(self).wf(),
        ensures
            final(self).wf(),
            final(self).is_ended() == old(self).is_ended(),
            (final(self).state(), r) == transition(old(self).state(), Event::Tick, now),
    {
        if self.state.playback == Playback::Playing {
            let p: u64 = self.caught_up(now);
            self.state = EstimatorState { position: p, last_tick: now, ..self.state };
            Some(p)
        } else {
            self.state = EstimatorState { last_tick: now, ..self.state };
            None
        }
    }

    /// One pass at `now` over what the feeds have handed over, in the fixed
    /// priority of `pass`: the consumer's request for the next value. Once a
    /// feed has ended, every later pass ends too and changes nothing.
    pub fn poll(&mut self, inputs: &mut Inputs, now: u64) -> (r: Step)
        requires
            old(self).wf(),
        ensures
            final(self).wf(),
            old(self).is_ended() ==> r == Step::End && *final(self) == *old(self) && *final(inputs)
                == *old(inputs),
            !old(self).is_ended() ==> (final(self).state(), *final(inputs), r) == pass(
                old(self).state(),
                *old(inputs),
                now,
            ),
            final(self).is_ended() == (r == Step::End),
    {
        if self.ended {
            return Step::End;
        }
        match inputs.rate {
            Slot::Ended => {
                self.ended = true;
                return Step::End;
            },
            Slot::Ready(rate) => {
                inputs.rate = Slot::Empty;
                if let Some(p) = self.on_rate_change(rate, now) {
                    return Step::Emit(p);
                }
            },
            Slot::Empty => {},
        }
        match inputs.playback {
            Slot::Ended => {
                self.ended = true;
                return Step::End;
            },
            Slot::Ready(b) => {
                inputs.playback = Slot::Empty;
                if let Some(p) = self.on_playback_change(b, now) {
                    return Step::Emit(p);
                }
            },
            Slot::Empty => {},
        }
        match inputs.seek {
            Slot::Ended => {
                self.ended = true;
                return Step::End;
            },
            Slot::Ready(p) => {
                inputs.seek = Slot::Empty;
                return Step::Emit(self.on_seek(p, now));
            },
            Slot::Empty => {},
        }
        if now >= self.deadline() {
            match self.on_tick(now) {
                Some(p) => Step::Emit(p),
                None => Step::Wait,
            }
        } else {
            Step::Wait
        }
    }

    /// Applies one event at `now`, as `transition` states.
    pub fn apply(&mut self, event: Event, now: u64) -> (r: Option<u64>)
        requires
            old(self).wf(),
        ensures
            final(self).wf(),
            final(self).is_ended() == old(self).is_ended(),
            (final(self).state(), r) == transition(old(self).state(), event, now),
    {
        match event {
            Event::RateChanged(rate) => self.on_rate_change(rate, now),
            Event::PlaybackChanged(b) => self.on_playback_change(b, now),
            Event::Seeked(p) => Some(self.on_seek(p, now)),
            Event::Tick => self.on_tick(now),
        }
    }
}

/// The state after `events`, each with the instant it came at, starting in `s`.
pub open spec fn run(s: EstimatorState, events: Seq<(Event, u64)>) -> EstimatorState
    decreases events.len(),
{
    if events.len() == 0 {
        s
    } else {
        let (e, now) = events.last();
        transition(run(s, events.drop_last()), e, now).0
    }
}

/// Playing at a positive rate.
pub open spec fn playing_forward(s: EstimatorState) -> bool {
    s.playback == Playback::Playing && s.rate > 0
}

proof fn lemma_run_step(s: EstimatorState, events: Seq<(Event, u64)>, k: int)
    requires
        0 <= k < events.len(),
    ensures
        run(s, events.take(k + 1)) == transition(run(s, events.take(k)), events[k].0, events[k].1).0,
{
    assert(events.take(k + 1).drop_last() =~= events.take(k));
    assert(events.take(k + 1).last() == events[k]);
}

proof fn lemma_advance_forward(position: u64, elapsed: u64, rate: i64)
    requires
        rate > 0,
    ensures
        advance(position, elapsed, rate) >= position,
{
    assert(elapsed as int * rate as int >= 0) by (nonlinear_arith)
        requires
            rate > 0,
    ;
}

/// Playing at a positive rate, an event other than a seek never moves the
/// position back.
pub proof fn lemma_step_forward(s: EstimatorState, e: Event, now: u64)
    requires
        playing_forward(s),
        !(e is Seeked),
    ensures
        transition(s, e, now).0.position >= s.position,
{
    lemma_advance_forward(s.position, elapsed(s.last_tick, now), s.rate);
}

/// Monotonic while playing: over a run of rate changes, playback changes and
/// heartbeats in which the player plays at a positive rate before each event,
/// the estimated position never decreases.
pub proof fn lemma_monotonic_while_playing(
    s: EstimatorState,
    events: Seq<(Event, u64)>,
    i: int,
    j: int,
)
    requires
        forall|k: int| 0 <= k < events.len() ==> !(#[trigger] events[k].0 is Seeked),
        forall|k: int| 0 <= k < events.len() ==> playing_forward(#[trigger] run(s, events.take(k))),
        0 <= i <= j <= events.len(),
    ensures
        run(s, events.take(i)).position <= run(s, events.take(j)).position,
    decreases j - i,
{
    if i < j {
        lemma_monotonic_while_playing(s, events, i, j - 1);
        lemma_run_step(s, events, j - 1);
        assert(playing_forward(run(s, events.take(j - 1))));
        assert(!(events[j - 1].0 is Seeked));
        lemma_step_forward(run(s, events.take(j - 1)), events[j - 1].0, events[j - 1].1);
    }
}

/// Frozen while stopped: over a run of rate changes, playback changes and
/// heartbeats in which the player is paused or stopped before and after each
/// event, the estimated position stays as it was and nothing is emitted.
pub proof fn lemma_frozen_while_stopped(s: EstimatorState, events: Seq<(Event, u64)>)
    requires
        forall|k: int| 0 <= k < events.len() ==> !(#[trigger] events[k].0 is Seeked),
        forall|k: int|
            0 <= k <= events.len() ==> (#[trigger] run(s, events.take(k))).playback
                != Playback::Playing,
    ensures
        run(s, events).position == s.position,
        forall|k: int|
            0 <= k < events.len() ==> (#[trigger] transition(
                run(s, events.take(k)),
                events[k].0,
                events[k].1,
            )).1 is None,
        forall|k: int| 0 <= k <= events.len() ==> (#[trigger] run(s, events.take(k))).position == s.position,
{
    assert forall|k: int| 0 <= k <= events.len() implies (#[trigger] run(s, events.take(k))).position
        == s.position by {
        lemma_frozen_prefix(s, events, k);
    }
    assert forall|k: int| 0 <= k < events.len() implies (#[trigger] transition(
        run(s, events.take(k)),
        events[k].0,
        events[k].1,
    )).1 is None by {
        lemma_run_step(s, events, k);
        assert(run(s, events.take(k + 1)).playback != Playback::Playing);
        assert(!(events[k].0 is Seeked));
    }
    assert(events.take(events.len() as int) =~= events);
}

proof fn lemma_frozen_prefix(s: EstimatorState, events: Seq<(Event, u64)>, k: int)
    requires
        forall|k: int| 0 <= k < events.len() ==> !(#[trigger] events[k].0 is Seeked),
        forall|k: int|
            0 <= k <= events.len() ==> (#[trigger] run(s, events.take(k))).playback
                != Playback::Playing,
        0 <= k <= events.len(),
    ensures
        run(s, events.take(k)).position == s.position,
    decreases k,
{
    if k == 0 {
        assert(events.take(0) =~= Seq::<(Event, u64)>::empty());
    } else {
        lemma_frozen_prefix(s, events, k - 1);
        lemma_run_step(s, events, k - 1);
        assert(run(s, events.take(k - 1)).playback != Playback::Playing);
        assert(!(events[k - 1].0 is Seeked));
    }
}

/// Zero-rate guard: over any run of events, reported rates of zero included,
/// the rate in effect is never zero, and a reported zero leaves the rate that
/// was in effect.
pub proof fn lemma_zero_rate_guard(s: EstimatorState, events: Seq<(Event, u64)>)
    requires
        s.wf(),
    ensures
        run(s, events).wf(),
        forall|k: int|
            0 <= k < events.len() && #[trigger] events[k].0 == Event::RateChanged(0) ==> run(
                s,
                events.take(k + 1),
            ).rate == run(s, events.take(k)).rate,
    decreases events.len(),
{
    if events.len() > 0 {
        lemma_zero_rate_guard(s, events.drop_last());
    }
    assert forall|k: int|
        0 <= k < events.len() && #[trigger] events[k].0 == Event::RateChanged(0) implies run(
        s,
        events.take(k + 1),
    ).rate == run(s, events.take(k)).rate by {
        lemma_run_step(s, events, k);
    }
}

} // verus!

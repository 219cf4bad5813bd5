//! Quadrature decoding of a rotary encoder and its rotation bookkeeping.
//!
//! Every edge of the encoder's A phase is confirmed by a majority-vote
//! sampling pass over both phase lines; the decided levels drive a small
//! state machine that recognises one full quadrature cycle per detent
//! and tells front from back rotation. Each recognised step updates a
//! [`RotateState`], which keeps a run of same-direction steps and its
//! timing so the instantaneous speed can be read off.

use vstd::prelude::*;

use crate::event::EventType;
use crate::level::Level;
use crate::level::classify_level;
use crate::level::level_of_count;

verus! {

/// Which way the wheel is turning; `NoState` when no run is in progress.
#[derive(PartialEq, Eq, Structural, Debug, Copy, Clone)]
pub enum WheelDirection {
    Front,
    Back,
    NoState,
}

/// A new step keeps the running count only while it comes within this
/// many milliseconds of the previous one.
pub const SPEED_DELAY: u64 = 300;

/// Readings taken per phase line when an A edge is confirmed.
pub const SAMPLE_TIMES: u32 = 10;

/// A line counts as low when more than this many readings are low, and
/// as high when fewer than `SAMPLE_TIMES - JUDGE_TIMES` are.
pub const JUDGE_TIMES: u32 = 8;

/// The running tally of a same-direction burst of encoder steps.
#[derive(PartialEq, Eq, Structural, Debug, Copy, Clone)]
pub struct RotateState {
    /// When the current run began, in monotonic milliseconds.
    pub begin_timestamp: u64,
    /// When the latest step of the run landed.
    pub last_timestamp: u64,
    /// The direction the run is going; sticky until a timeout or a turn.
    pub wheel_direction: WheelDirection,
    /// Steps recorded in the run; at least 1 once any step landed.
    pub steps: u32,
}

/// The step count after one more step, held at the top of its range.
pub open spec fn inc_steps(steps: u32) -> u32 {
    if steps == u32::MAX {
        steps
    } else {
        (steps + 1) as u32
    }
}

/// The tally after a step in direction `dir` lands at `now_ms`: the run
/// goes on (count up, latest timestamp forward) when the direction is
/// unchanged and the previous step is less than [`SPEED_DELAY`] old;
/// otherwise a fresh run of one step starts at `now_ms`.
pub open spec fn stepped(s: RotateState, dir: WheelDirection, now_ms: u64) -> RotateState {
    if s.wheel_direction == dir && now_ms - s.last_timestamp < SPEED_DELAY {
        RotateState {
            begin_timestamp: s.begin_timestamp,
            last_timestamp: now_ms,
            wheel_direction: s.wheel_direction,
            steps: inc_steps(s.steps),
        }
    } else {
        RotateState {
            begin_timestamp: now_ms,
            last_timestamp: now_ms,
            wheel_direction: dir,
            steps: 1,
        }
    }
}

/// The instantaneous speed read off a tally: the raw step count while it
/// is at most 3 (a division over so few samples is unstable), otherwise
/// steps per second over the run's span. A run whose span is zero
/// milliseconds is faster than the clock can resolve, so the speed
/// saturates at the top of its range.
pub open spec fn speed_of(s: RotateState) -> u64 {
    if s.steps <= 3 {
        s.steps as u64
    } else if s.last_timestamp == s.begin_timestamp {
        u64::MAX
    } else {
        ((s.steps * 1000) / (s.last_timestamp - s.begin_timestamp)) as u64
    }
}

impl RotateState {
    /// A run never ends before it begins.
    pub open spec fn wf(self) -> bool {
        self.begin_timestamp <= self.last_timestamp
    }

    /// The zero tally: no run, no steps, both timestamps at zero.
    pub fn new() -> (s: Self)
        ensures
            s == (RotateState {
                begin_timestamp: 0,
                last_timestamp: 0,
                wheel_direction: WheelDirection::NoState,
                steps: 0,
            }),
            s.wf(),
    {
        RotateState {
            begin_timestamp: 0,
            last_timestamp: 0,
            wheel_direction: WheelDirection::NoState,
            steps: 0,
        }
    }

    /// Records one recognised step in direction `wheel_direction` at the
    /// monotonic millisecond time `now_ms`.
    pub fn do_step(&mut self, wheel_direction: WheelDirection, now_ms: u64)
        requires
            old(self).wf(),
            old(self).last_timestamp <= now_ms,
        ensures
            *final(self) == stepped(*old(self), wheel_direction, now_ms),
            final(self).wf(),
            final(self).steps >= 1,
    {
        if self.wheel_direction == wheel_direction && now_ms - self.last_timestamp < SPEED_DELAY {
            self.last_timestamp = now_ms;
            self.steps = if self.steps < u32::MAX {
                self.steps + 1
            } else {
                self.steps
            };
        } else {
            self.wheel_direction = wheel_direction;
            self.begin_timestamp = now_ms;
            self.last_timestamp = now_ms;
            self.steps = 1;
        }
    }

    /// Reads the instantaneous speed off the tally.
    pub fn speed(&self) -> (r: u64)
        requires
            self.wf(),
        ensures
            r == speed_of(*self),
    {
        if self.steps > 3 {
            let span = self.last_timestamp - self.begin_timestamp;
            if span == 0 {
                u64::MAX
            } else {
                (self.steps as u64) * 1000 / span
            }
        } else {
            self.steps as u64
        }
    }
}

/// The quadrature transition: from the decoder state and the two decided
/// phase levels to the next state and the direction to emit, if any.
///
/// An indeterminate level on either line discards the edge. A falling A
/// (A low) opens a pending cycle: front when B is low too, back when B
/// is high. A rising A (A high) closes it: the cycle emits only when B
/// ended opposite to how it began — B high closes a pending front, B low
/// closes a pending back — and in every other case the decoder just
/// returns to idle.
pub open spec fn decode_transition(
    begin_state: WheelDirection,
    a: Level,
    b: Level,
) -> (WheelDirection, Option<WheelDirection>) {
    if a == Level::Indeterminate || b == Level::Indeterminate {
        (begin_state, None)
    } else if a == Level::Low {
        if b == Level::Low {
            (WheelDirection::Front, None)
        } else {
            (WheelDirection::Back, None)
        }
    } else {
        if b == Level::High {
            if begin_state == WheelDirection::Front {
                (WheelDirection::NoState, Some(WheelDirection::Front))
            } else {
                (WheelDirection::NoState, None)
            }
        } else {
            if begin_state == WheelDirection::Back {
                (WheelDirection::NoState, Some(WheelDirection::Back))
            } else {
                (WheelDirection::NoState, None)
            }
        }
    }
}

/// Advances the decoder by one confirmed A edge.
pub fn decode_edge(begin_state: WheelDirection, a: Level, b: Level) -> (r: (
    WheelDirection,
    Option<WheelDirection>,
))
    ensures
        r == decode_transition(begin_state, a, b),
{
    match (a, b) {
        (Level::Indeterminate, _) => (begin_state, None),
        (_, Level::Indeterminate) => (begin_state, None),
        (Level::Low, Level::Low) => (WheelDirection::Front, None),
        (Level::Low, Level::High) => (WheelDirection::Back, None),
        (Level::High, Level::High) => {
            if begin_state == WheelDirection::Front {
                (WheelDirection::NoState, Some(WheelDirection::Front))
            } else {
                (WheelDirection::NoState, None)
            }
        },
        (Level::High, Level::Low) => {
            if begin_state == WheelDirection::Back {
                (WheelDirection::NoState, Some(WheelDirection::Back))
            } else {
                (WheelDirection::NoState, None)
            }
        },
    }
}

/// What a sampling pass over an encoder phase line decides, with the
/// encoder's fixed pass length and thresholds.
pub open spec fn ec11_level(low_count: int) -> Level {
    level_of_count(low_count, SAMPLE_TIMES as int, JUDGE_TIMES as int, JUDGE_TIMES as int)
}

/// Processes one A-phase edge of the encoder: classifies the sampling
/// passes of both lines, advances the decoder, and on a recognised step
/// records it in the shared tally and pairs the step event with the
/// speed read off the updated tally.
pub fn ec11_on_edge(
    begin_state: WheelDirection,
    a_low_times: u32,
    b_low_times: u32,
    rotate: &mut RotateState,
    now_ms: u64,
) -> (r: (WheelDirection, Option<(EventType, u64)>))
    requires
        old(rotate).wf(),
        old(rotate).last_timestamp <= now_ms,
    ensures
        ({
            let a = ec11_level(a_low_times as int);
            let b = ec11_level(b_low_times as int);
            let t = decode_transition(begin_state, a, b);
            &&& r.0 == t.0
            &&& t.1 != Some(WheelDirection::NoState)
            &&& (t.1 == None::<WheelDirection> ==> {
                &&& r.1 == None::<(EventType, u64)>
                &&& *final(rotate) == *old(rotate)
            })
            &&& (t.1 == Some(WheelDirection::Front) ==> {
                &&& *final(rotate) == stepped(*old(rotate), WheelDirection::Front, now_ms)
                &&& r.1 == Some((EventType::EC11Front, speed_of(*final(rotate))))
            })
            &&& (t.1 == Some(WheelDirection::Back) ==> {
                &&& *final(rotate) == stepped(*old(rotate), WheelDirection::Back, now_ms)
                &&& r.1 == Some((EventType::EC11Back, speed_of(*final(rotate))))
            })
        }),
        final(rotate).wf(),
{
    let a = classify_level(a_low_times, SAMPLE_TIMES, JUDGE_TIMES, JUDGE_TIMES);
    let b = classify_level(b_low_times, SAMPLE_TIMES, JUDGE_TIMES, JUDGE_TIMES);
    let (next_state, emit) = decode_edge(begin_state, a, b);
    match emit {
        None => (next_state, None),
        Some(WheelDirection::Front) => {
            rotate.do_step(WheelDirection::Front, now_ms);
            let sp = rotate.speed();
            (next_state, Some((EventType::EC11Front, sp)))
        },
        Some(WheelDirection::Back) => {
            rotate.do_step(WheelDirection::Back, now_ms);
            let sp = rotate.speed();
            (next_state, Some((EventType::EC11Back, sp)))
        },
        Some(WheelDirection::NoState) => vstd::pervasive::unreached(),
    }
}

/// Law: a clean forward quadrature cycle — A falls with B low, then A
/// rises with B high, each edge confirmed by its sampling pass — takes
/// the idle decoder through a pending front and emits exactly one front
/// step, nothing on the first edge, and leaves the decoder idle again.
pub proof fn lemma_clean_cycle_front(a_fall: int, b_fall: int, a_rise: int, b_rise: int)
    requires
        ec11_level(a_fall) == Level::Low,
        ec11_level(b_fall) == Level::Low,
        ec11_level(a_rise) == Level::High,
        ec11_level(b_rise) == Level::High,
    ensures
        ({
            let t1 = decode_transition(
                WheelDirection::NoState,
                ec11_level(a_fall),
                ec11_level(b_fall),
            );
            let t2 = decode_transition(t1.0, ec11_level(a_rise), ec11_level(b_rise));
            &&& t1 == (WheelDirection::Front, None::<WheelDirection>)
            &&& t2 == (WheelDirection::NoState, Some(WheelDirection::Front))
        }),
{
}

/// Law: the mirrored cycle — A falls with B high, then A rises with B
/// low — emits exactly one back step and nothing else.
pub proof fn lemma_clean_cycle_back(a_fall: int, b_fall: int, a_rise: int, b_rise: int)
    requires
        ec11_level(a_fall) == Level::Low,
        ec11_level(b_fall) == Level::High,
        ec11_level(a_rise) == Level::High,
        ec11_level(b_rise) == Level::Low,
    ensures
        ({
            let t1 = decode_transition(
                WheelDirection::NoState,
                ec11_level(a_fall),
                ec11_level(b_fall),
            );
            let t2 = decode_transition(t1.0, ec11_level(a_rise), ec11_level(b_rise));
            &&& t1 == (WheelDirection::Back, None::<WheelDirection>)
            &&& t2 == (WheelDirection::NoState, Some(WheelDirection::Back))
        }),
{
}

/// Law: an edge whose sampling pass leaves either line undecided is
/// discarded whole — the decoder keeps its state and emits nothing.
pub proof fn lemma_indeterminate_edge_discarded(begin_state: WheelDirection, a: Level, b: Level)
    requires
        a == Level::Indeterminate || b == Level::Indeterminate,
    ensures
        decode_transition(begin_state, a, b) == (begin_state, None::<WheelDirection>),
{
}

} // verus!

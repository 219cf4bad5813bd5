//! Classified interaction events and the button-gesture state machine.
//!
//! One press-to-release cycle of a push button is classified on a fixed
//! tick: each tick samples the line through the level sampler and hands
//! the decided level, together with a monotonic millisecond timestamp,
//! to [`key_tick`]. The cycle ends with exactly one terminal event —
//! `KeyShort`, `KeyDouble` or `KeyLongEnd` — preceded by zero or more
//! progress events (`KeyLongStart`, then `KeyLongIng` while still held).

use vstd::prelude::*;

use crate::level::Level;

verus! {

/// A classified interaction event.
#[derive(PartialEq, Eq, Structural, Debug, Copy, Clone)]
pub enum EventType {
    KeyShort,
    KeyLongStart,
    KeyLongIng,
    KeyLongEnd,
    KeyDouble,
    WheelFront,
    WheelBack,
    EC11Front,
    EC11Back,
}

/// A press counts as long once it has been held for more than this many
/// milliseconds.
pub const LONG_PRESS_MS: u64 = 500;

/// After a short release, a second press within this many milliseconds
/// makes the gesture a double click (when double-click detection is on).
pub const DOUBLE_CLICK_WINDOW_MS: u64 = 400;

/// Readings taken per classification tick of the button line.
pub const KEY_SAMPLE_TIMES: u32 = 100;

/// The line counts as pressed when more than this many readings are low.
pub const KEY_LOW_THRESHOLD: u32 = 80;

/// The line counts as released when fewer than
/// `KEY_SAMPLE_TIMES - KEY_HIGH_THRESHOLD` readings are low.
pub const KEY_HIGH_THRESHOLD: u32 = 98;

/// Where one press-to-release cycle stands.
#[derive(PartialEq, Eq, Structural, Debug, Copy, Clone)]
pub enum ButtonPhase {
    /// The button is (or was last seen) held down.
    Pressed,
    /// The button was released before the long-press threshold and a
    /// double click is still possible; `release_ms` is when it was let go.
    ReleaseWait { release_ms: u64 },
}

/// The classification state of a single press, created on the falling
/// edge that starts it and dropped once a terminal event is emitted.
#[derive(PartialEq, Eq, Structural, Debug, Copy, Clone)]
pub struct ButtonSession {
    /// When the press began, in monotonic milliseconds.
    pub begin_timestamp: u64,
    /// Whether the long-press threshold has been crossed.
    pub long_active: bool,
    /// Where the press-to-release cycle stands.
    pub phase: ButtonPhase,
}

impl ButtonSession {
    /// The release mark never precedes the press, and a long press is
    /// terminal on release, so it never waits for a double click.
    pub open spec fn wf(self) -> bool {
        match self.phase {
            ButtonPhase::Pressed => true,
            ButtonPhase::ReleaseWait { release_ms } => self.begin_timestamp <= release_ms
                && !self.long_active,
        }
    }

    /// Opens the classification of one press at time `now_ms`.
    pub fn begin(now_ms: u64) -> (s: Self)
        ensures
            s == (ButtonSession {
                begin_timestamp: now_ms,
                long_active: false,
                phase: ButtonPhase::Pressed,
            }),
            s.wf(),
    {
        ButtonSession { begin_timestamp: now_ms, long_active: false, phase: ButtonPhase::Pressed }
    }
}

/// What one classification tick decided.
#[derive(PartialEq, Eq, Structural, Debug, Copy, Clone)]
pub enum KeyTick {
    /// Nothing to report; sample again on the next tick.
    Quiet,
    /// A progress event (`KeyLongStart` or `KeyLongIng`); the cycle goes on.
    Progress(EventType),
    /// The terminal event; the cycle is over and the session is spent.
    Done(EventType),
}

/// The button-gesture transition: from the session state, the sampled
/// level and the current time to the next state and what to emit.
///
/// While pressed: crossing the long-press threshold emits `KeyLongStart`
/// once, then `KeyLongIng` on every later held tick. A release ends a
/// long press with `KeyLongEnd`; a release before the threshold ends the
/// cycle with `KeyShort` at once when double-click detection is off,
/// else it opens the double-click window. Inside that window a new press
/// makes `KeyDouble`; a decided release past the window makes `KeyShort`.
/// An indeterminate sample never changes the state and never emits.
pub open spec fn key_transition(
    s: ButtonSession,
    level: Level,
    now_ms: u64,
    double_enabled: bool,
) -> (ButtonSession, KeyTick) {
    match s.phase {
        ButtonPhase::Pressed => match level {
            Level::Low => if now_ms - s.begin_timestamp > LONG_PRESS_MS {
                if !s.long_active {
                    (
                        ButtonSession {
                            begin_timestamp: s.begin_timestamp,
                            long_active: true,
                            phase: ButtonPhase::Pressed,
                        },
                        KeyTick::Progress(EventType::KeyLongStart),
                    )
                } else {
                    (s, KeyTick::Progress(EventType::KeyLongIng))
                }
            } else {
                (s, KeyTick::Quiet)
            },
            Level::High => if s.long_active {
                (s, KeyTick::Done(EventType::KeyLongEnd))
            } else if double_enabled {
                (
                    ButtonSession {
                        begin_timestamp: s.begin_timestamp,
                        long_active: false,
                        phase: ButtonPhase::ReleaseWait { release_ms: now_ms },
                    },
                    KeyTick::Quiet,
                )
            } else {
                (s, KeyTick::Done(EventType::KeyShort))
            },
            Level::Indeterminate => (s, KeyTick::Quiet),
        },
        ButtonPhase::ReleaseWait { release_ms } => match level {
            Level::Low => if now_ms - release_ms <= DOUBLE_CLICK_WINDOW_MS {
                (s, KeyTick::Done(EventType::KeyDouble))
            } else {
                (s, KeyTick::Done(EventType::KeyShort))
            },
            Level::High => if now_ms - release_ms > DOUBLE_CLICK_WINDOW_MS {
                (s, KeyTick::Done(EventType::KeyShort))
            } else {
                (s, KeyTick::Quiet)
            },
            Level::Indeterminate => (s, KeyTick::Quiet),
        },
    }
}

/// Runs one classification tick of the button-gesture state machine.
pub fn key_tick(session: &mut ButtonSession, level: Level, now_ms: u64, double_enabled: bool) -> (r:
    KeyTick)
    requires
        old(session).wf(),
        old(session).begin_timestamp <= now_ms,
        (match old(session).phase {
            ButtonPhase::Pressed => true,
            ButtonPhase::ReleaseWait { release_ms } => release_ms <= now_ms,
        }),
    ensures
        (*final(session), r) == key_transition(*old(session), level, now_ms, double_enabled),
        final(session).wf(),
{
    match session.phase {
        ButtonPhase::Pressed => match level {
            Level::Low => {
                if now_ms - session.begin_timestamp > LONG_PRESS_MS {
                    if !session.long_active {
                        session.long_active = true;
                        KeyTick::Progress(EventType::KeyLongStart)
                    } else {
                        KeyTick::Progress(EventType::KeyLongIng)
                    }
                } else {
                    KeyTick::Quiet
                }
            },
            Level::High => {
                if session.long_active {
                    KeyTick::Done(EventType::KeyLongEnd)
                } else if double_enabled {
                    session.phase = ButtonPhase::ReleaseWait { release_ms: now_ms };
                    KeyTick::Quiet
                } else {
                    KeyTick::Done(EventType::KeyShort)
                }
            },
            Level::Indeterminate => KeyTick::Quiet,
        },
        ButtonPhase::ReleaseWait { release_ms } => match level {
            Level::Low => {
                if now_ms - release_ms <= DOUBLE_CLICK_WINDOW_MS {
                    KeyTick::Done(EventType::KeyDouble)
                } else {
                    KeyTick::Done(EventType::KeyShort)
                }
            },
            Level::High => {
                if now_ms - release_ms > DOUBLE_CLICK_WINDOW_MS {
                    KeyTick::Done(EventType::KeyShort)
                } else {
                    KeyTick::Quiet
                }
            },
            Level::Indeterminate => KeyTick::Quiet,
        },
    }
}

/// One simulated classification tick: the decided level and the time.
#[derive(PartialEq, Eq, Structural, Debug, Copy, Clone)]
pub struct TickSample {
    pub level: Level,
    pub now_ms: u64,
}

/// The events one press-to-release cycle emits over a run of ticks:
/// every tick advances the machine, a progress event is appended and
/// the run goes on, and the terminal event ends the run.
pub open spec fn run_key_ticks(
    s: ButtonSession,
    ticks: Seq<TickSample>,
    double_enabled: bool,
) -> Seq<EventType>
    decreases ticks.len(),
{
    if ticks.len() == 0 {
        Seq::empty()
    } else {
        let t = key_transition(s, ticks[0].level, ticks[0].now_ms, double_enabled);
        match t.1 {
            KeyTick::Quiet => run_key_ticks(t.0, ticks.drop_first(), double_enabled),
            KeyTick::Progress(e) => seq![e] + run_key_ticks(t.0, ticks.drop_first(), double_enabled),
            KeyTick::Done(e) => seq![e],
        }
    }
}

/// Ticks that neither move the machine nor emit can be skipped.
proof fn lemma_run_skip_quiet(s: ButtonSession, ticks: Seq<TickSample>, double_enabled: bool, k: int)
    requires
        0 <= k <= ticks.len(),
        forall|i: int| 0 <= i < k ==> key_transition(s, ticks[i].level, ticks[i].now_ms, double_enabled)
            == (s, KeyTick::Quiet),
    ensures
        run_key_ticks(s, ticks, double_enabled) == run_key_ticks(s, ticks.skip(k), double_enabled),
    decreases k,
{
    if k > 0 {
        assert(key_transition(s, ticks[0].level, ticks[0].now_ms, double_enabled) == (
            s,
            KeyTick::Quiet,
        ));
        assert(ticks.drop_first() =~= ticks.skip(1));
        assert forall|i: int| 0 <= i < k - 1 implies key_transition(
            s,
            ticks.skip(1)[i].level,
            ticks.skip(1)[i].now_ms,
            double_enabled,
        ) == (s, KeyTick::Quiet) by {
            assert(ticks.skip(1)[i] == ticks[i + 1]);
        }
        lemma_run_skip_quiet(s, ticks.skip(1), double_enabled, k - 1);
        assert(ticks.skip(1).skip(k - 1) =~= ticks.skip(k));
    } else {
        assert(ticks.skip(0) =~= ticks);
    }
}

/// Law: a press that is released before the long-press threshold, with
/// double-click detection off, yields exactly one `KeyShort` and no
/// other event. The held ticks before the release (index `k`) are low
/// or indeterminate and lie within the threshold.
pub proof fn lemma_short_press(s: ButtonSession, ticks: Seq<TickSample>, k: int)
    requires
        s.wf(),
        s.phase == ButtonPhase::Pressed,
        !s.long_active,
        0 <= k < ticks.len(),
        forall|i: int| 0 <= i < k ==> #[trigger] ticks[i].level != Level::High,
        forall|i: int| 0 <= i < k ==> #[trigger] ticks[i].now_ms <= s.begin_timestamp
            + LONG_PRESS_MS,
        ticks[k].level == Level::High,
    ensures
        run_key_ticks(s, ticks, false) == seq![EventType::KeyShort],
{
    assert forall|i: int| 0 <= i < k implies key_transition(
        s,
        ticks[i].level,
        ticks[i].now_ms,
        false,
    ) == (s, KeyTick::Quiet) by {}
    lemma_run_skip_quiet(s, ticks, false, k);
    assert(ticks.skip(k)[0] == ticks[k]);
    assert(run_key_ticks(s, ticks.skip(k), false) == seq![EventType::KeyShort]);
}

/// Law: a press that is released before the long-press threshold, with
/// double-click detection on but no second press before the window
/// expires, yields exactly one `KeyShort` and no other event. The press
/// is released at index `k`; the window then passes without a low
/// sample until the decided release at index `m` confirms the expiry.
pub proof fn lemma_short_press_window(s: ButtonSession, ticks: Seq<TickSample>, k: int, m: int)
    requires
        s.wf(),
        s.phase == ButtonPhase::Pressed,
        !s.long_active,
        0 <= k < m < ticks.len(),
        forall|i: int| 0 <= i < k ==> #[trigger] ticks[i].level != Level::High,
        forall|i: int| 0 <= i < k ==> #[trigger] ticks[i].now_ms <= s.begin_timestamp
            + LONG_PRESS_MS,
        ticks[k].level == Level::High,
        forall|i: int|
            k < i < m ==> (#[trigger] ticks[i].level == Level::Indeterminate || (ticks[i].level
                == Level::High && ticks[i].now_ms <= ticks[k].now_ms + DOUBLE_CLICK_WINDOW_MS)),
        ticks[m].level == Level::High,
        ticks[m].now_ms > ticks[k].now_ms + DOUBLE_CLICK_WINDOW_MS,
    ensures
        run_key_ticks(s, ticks, true) == seq![EventType::KeyShort],
{
    assert forall|i: int| 0 <= i < k implies key_transition(
        s,
        ticks[i].level,
        ticks[i].now_ms,
        true,
    ) == (s, KeyTick::Quiet) by {}
    lemma_run_skip_quiet(s, ticks, true, k);
    let s2 = ButtonSession {
        begin_timestamp: s.begin_timestamp,
        long_active: false,
        phase: ButtonPhase::ReleaseWait { release_ms: ticks[k].now_ms },
    };
    assert(ticks.skip(k)[0] == ticks[k]);
    assert(key_transition(s, ticks[k].level, ticks[k].now_ms, true) == (s2, KeyTick::Quiet));
    assert(ticks.skip(k).drop_first() =~= ticks.skip(k + 1));
    assert(run_key_ticks(s, ticks.skip(k), true) == run_key_ticks(s2, ticks.skip(k + 1), true));
    let rest = ticks.skip(k + 1);
    assert forall|i: int| 0 <= i < m - k - 1 implies key_transition(
        s2,
        rest[i].level,
        rest[i].now_ms,
        true,
    ) == (s2, KeyTick::Quiet) by {
        assert(rest[i] == ticks[k + 1 + i]);
    }
    lemma_run_skip_quiet(s2, rest, true, m - k - 1);
    assert(rest.skip(m - k - 1) =~= ticks.skip(m));
    assert(ticks.skip(m)[0] == ticks[m]);
    assert(run_key_ticks(s2, ticks.skip(m), true) == seq![EventType::KeyShort]);
}

/// A machine past the long-press threshold emits `KeyLongIng` on every
/// further held tick and ends with `KeyLongEnd` on the release.
proof fn lemma_long_held_run(
    s: ButtonSession,
    ticks: Seq<TickSample>,
    double_enabled: bool,
    k: int,
)
    requires
        s.phase == ButtonPhase::Pressed,
        s.long_active,
        0 <= k < ticks.len(),
        forall|i: int|
            0 <= i < k ==> #[trigger] ticks[i].level == Level::Low && ticks[i].now_ms
                > s.begin_timestamp + LONG_PRESS_MS,
        ticks[k].level == Level::High,
    ensures
        run_key_ticks(s, ticks, double_enabled) == Seq::new(
            k as nat,
            |i: int| EventType::KeyLongIng,
        ) + seq![EventType::KeyLongEnd],
    decreases k,
{
    if k == 0 {
        assert(run_key_ticks(s, ticks, double_enabled) == seq![EventType::KeyLongEnd]);
        assert(Seq::new(0nat, |i: int| EventType::KeyLongIng) + seq![EventType::KeyLongEnd]
            =~= seq![EventType::KeyLongEnd]);
    } else {
        assert(key_transition(s, ticks[0].level, ticks[0].now_ms, double_enabled) == (
            s,
            KeyTick::Progress(EventType::KeyLongIng),
        ));
        assert(ticks.drop_first() =~= ticks.skip(1));
        assert forall|i: int|
            0 <= i < k - 1 implies #[trigger] ticks.skip(1)[i].level == Level::Low && ticks.skip(
            1,
        )[i].now_ms > s.begin_timestamp + LONG_PRESS_MS by {
            assert(ticks.skip(1)[i] == ticks[i + 1]);
        }
        assert(ticks.skip(1)[k - 1] == ticks[k]);
        lemma_long_held_run(s, ticks.skip(1), double_enabled, k - 1);
        assert(seq![EventType::KeyLongIng] + (Seq::new((k - 1) as nat, |i: int| EventType::KeyLongIng)
            + seq![EventType::KeyLongEnd]) =~= Seq::new(k as nat, |i: int| EventType::KeyLongIng)
            + seq![EventType::KeyLongEnd]);
    }
}

/// Law: a press held past the long-press threshold and then released
/// yields exactly one `KeyLongStart`, one `KeyLongIng` per further held
/// tick, and exactly one `KeyLongEnd` — never a `KeyShort` or
/// `KeyDouble` for that press. The threshold is first crossed at index
/// `j`; the release is the decided high sample at index `k`.
pub proof fn lemma_long_press(
    s: ButtonSession,
    ticks: Seq<TickSample>,
    double_enabled: bool,
    j: int,
    k: int,
)
    requires
        s.wf(),
        s.phase == ButtonPhase::Pressed,
        !s.long_active,
        0 <= j < k < ticks.len(),
        forall|i: int| 0 <= i < j ==> #[trigger] ticks[i].level != Level::High,
        forall|i: int| 0 <= i < j ==> #[trigger] ticks[i].now_ms <= s.begin_timestamp
            + LONG_PRESS_MS,
        forall|i: int|
            j <= i < k ==> #[trigger] ticks[i].level == Level::Low && ticks[i].now_ms
                > s.begin_timestamp + LONG_PRESS_MS,
        ticks[k].level == Level::High,
    ensures
        run_key_ticks(s, ticks, double_enabled) == seq![EventType::KeyLongStart] + Seq::new(
            (k - j - 1) as nat,
            |i: int| EventType::KeyLongIng,
        ) + seq![EventType::KeyLongEnd],
{
    assert forall|i: int| 0 <= i < j implies key_transition(
        s,
        ticks[i].level,
        ticks[i].now_ms,
        double_enabled,
    ) == (s, KeyTick::Quiet) by {}
    lemma_run_skip_quiet(s, ticks, double_enabled, j);
    let s_long = ButtonSession {
        begin_timestamp: s.begin_timestamp,
        long_active: true,
        phase: ButtonPhase::Pressed,
    };
    assert(ticks.skip(j)[0] == ticks[j]);
    assert(key_transition(s, ticks[j].level, ticks[j].now_ms, double_enabled) == (
        s_long,
        KeyTick::Progress(EventType::KeyLongStart),
    ));
    assert(ticks.skip(j).drop_first() =~= ticks.skip(j + 1));
    let rest = ticks.skip(j + 1);
    assert forall|i: int|
        0 <= i < k - j - 1 implies #[trigger] rest[i].level == Level::Low && rest[i].now_ms
        > s_long.begin_timestamp + LONG_PRESS_MS by {
        assert(rest[i] == ticks[j + 1 + i]);
    }
    assert(rest[k - j - 1] == ticks[k]);
    lemma_long_held_run(s_long, rest, double_enabled, k - j - 1);
    assert(seq![EventType::KeyLongStart] + (Seq::new((k - j - 1) as nat, |i: int| EventType::KeyLongIng)
        + seq![EventType::KeyLongEnd]) =~= seq![EventType::KeyLongStart] + Seq::new(
        (k - j - 1) as nat,
        |i: int| EventType::KeyLongIng,
    ) + seq![EventType::KeyLongEnd]);
}

/// Law: an indeterminate sample never moves the machine and never emits;
/// the tick is simply re-evaluated on the next one.
pub proof fn lemma_indeterminate_tick_is_quiet(s: ButtonSession, now_ms: u64, double_enabled: bool)
    ensures
        key_transition(s, Level::Indeterminate, now_ms, double_enabled) == (s, KeyTick::Quiet),
{
}

} // verus!

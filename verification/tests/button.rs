use esp32c3_fm::event::ButtonSession;
use esp32c3_fm::event::EventType;
use esp32c3_fm::event::KeyTick;
use esp32c3_fm::event::key_tick;
use esp32c3_fm::level::Level;

/// Feeds one press's ticks through the classifier and collects what it
/// emits, stopping at the terminal event as the sampling loop would.
fn run_press(begin_ms: u64, ticks: &[(Level, u64)], double_enabled: bool) -> Vec<EventType> {
    let mut session = ButtonSession::begin(begin_ms);
    let mut out = Vec::new();
    for &(level, now_ms) in ticks {
        match key_tick(&mut session, level, now_ms, double_enabled) {
            KeyTick::Quiet => {},
            KeyTick::Progress(e) => out.push(e),
            KeyTick::Done(e) => {
                out.push(e);
                return out;
            },
        }
    }
    out
}

#[test]
fn short_press_yields_exactly_one_key_short() {
    // Held 200 ms, released, detection off: one KeyShort, nothing else.
    let mut ticks: Vec<(Level, u64)> = (1..=200).map(|t| (Level::Low, t)).collect();
    ticks.push((Level::High, 201));
    assert_eq!(run_press(0, &ticks, false), vec![EventType::KeyShort]);
}

#[test]
fn short_press_with_expired_window_yields_key_short() {
    // Released at 200 ms with detection on; no second press; the window
    // expires and the next decided release settles it.
    let mut ticks: Vec<(Level, u64)> = (1..=199).map(|t| (Level::Low, t)).collect();
    ticks.push((Level::High, 200));
    for t in 201..=600 {
        ticks.push((Level::High, t));
    }
    ticks.push((Level::High, 601));
    assert_eq!(run_press(0, &ticks, true), vec![EventType::KeyShort]);
}

#[test]
fn second_press_within_the_window_yields_key_double() {
    let ticks = [
        (Level::Low, 50),
        (Level::High, 100),
        (Level::High, 200),
        (Level::Low, 300),
    ];
    assert_eq!(run_press(0, &ticks, true), vec![EventType::KeyDouble]);
}

#[test]
fn press_after_the_window_yields_key_short() {
    // The release at 100 ms opens the window; the next press comes at
    // 501 ms, past the 400 ms window, so the first press was short.
    let ticks = [(Level::Low, 50), (Level::High, 100), (Level::Low, 501)];
    assert_eq!(run_press(0, &ticks, true), vec![EventType::KeyShort]);
}

#[test]
fn long_press_brackets_the_hold_with_start_and_end() {
    // Held 600 ms then released: KeyLongStart at the threshold, one
    // KeyLongIng per further held tick, KeyLongEnd on release.
    let mut ticks: Vec<(Level, u64)> = (1..=600).map(|t| (Level::Low, t)).collect();
    ticks.push((Level::High, 601));
    let events = run_press(0, &ticks, false);
    assert_eq!(events[0], EventType::KeyLongStart);
    assert_eq!(*events.last().unwrap(), EventType::KeyLongEnd);
    let ing = events.len() - 2;
    // Ticks at 502..=600 ms are past the 500 ms threshold with the
    // start already emitted.
    assert_eq!(ing, 99);
    for e in &events[1..events.len() - 1] {
        assert_eq!(*e, EventType::KeyLongIng);
    }
}

#[test]
fn long_press_never_yields_key_short() {
    let mut ticks: Vec<(Level, u64)> = (1..=550).map(|t| (Level::Low, t)).collect();
    ticks.push((Level::High, 551));
    let events = run_press(0, &ticks, true);
    assert!(!events.contains(&EventType::KeyShort));
    assert!(!events.contains(&EventType::KeyDouble));
    assert_eq!(events.iter().filter(|e| **e == EventType::KeyLongStart).count(), 1);
    assert_eq!(events.iter().filter(|e| **e == EventType::KeyLongEnd).count(), 1);
}

#[test]
fn indeterminate_ticks_emit_nothing() {
    // A pass too close to call never emits and never moves the machine.
    let ticks: Vec<(Level, u64)> = (1..=1000).map(|t| (Level::Indeterminate, t)).collect();
    assert_eq!(run_press(0, &ticks, true), Vec::<EventType>::new());
}

#[test]
fn a_stuck_low_line_keeps_reporting_the_hold() {
    // Defined behaviour for a stuck pin: one KeyLongStart, then
    // KeyLongIng on every tick, and no terminal event.
    let ticks: Vec<(Level, u64)> = (490..=520).map(|t| (Level::Low, t)).collect();
    let events = run_press(0, &ticks, false);
    assert_eq!(events[0], EventType::KeyLongStart);
    assert_eq!(events.len(), 20);
    for e in &events[1..] {
        assert_eq!(*e, EventType::KeyLongIng);
    }
}

#[test]
fn threshold_tick_is_still_a_short_press() {
    // A tick at exactly the threshold has not exceeded it.
    let ticks = [(Level::Low, 500), (Level::High, 501)];
    assert_eq!(run_press(0, &ticks, false), vec![EventType::KeyShort]);
}

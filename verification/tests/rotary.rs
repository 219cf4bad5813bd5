use esp32c3_fm::ec11::RotateState;
use esp32c3_fm::ec11::WheelDirection;
use esp32c3_fm::ec11::decode_edge;
use esp32c3_fm::ec11::ec11_on_edge;
use esp32c3_fm::event::EventType;
use esp32c3_fm::level::Level;

#[test]
fn clean_cycle_emits_one_front_step() {
    // A falls with B low, then A rises with B high: one front step.
    let (s1, e1) = decode_edge(WheelDirection::NoState, Level::Low, Level::Low);
    assert_eq!(s1, WheelDirection::Front);
    assert_eq!(e1, None);
    let (s2, e2) = decode_edge(s1, Level::High, Level::High);
    assert_eq!(s2, WheelDirection::NoState);
    assert_eq!(e2, Some(WheelDirection::Front));
}

#[test]
fn mirrored_cycle_emits_one_back_step() {
    let (s1, e1) = decode_edge(WheelDirection::NoState, Level::Low, Level::High);
    assert_eq!(s1, WheelDirection::Back);
    assert_eq!(e1, None);
    let (s2, e2) = decode_edge(s1, Level::High, Level::Low);
    assert_eq!(s2, WheelDirection::NoState);
    assert_eq!(e2, Some(WheelDirection::Back));
}

#[test]
fn indeterminate_level_discards_the_edge() {
    let (s, e) = decode_edge(WheelDirection::Front, Level::Indeterminate, Level::High);
    assert_eq!(s, WheelDirection::Front);
    assert_eq!(e, None);
    let (s2, e2) = decode_edge(WheelDirection::Back, Level::High, Level::Indeterminate);
    assert_eq!(s2, WheelDirection::Back);
    assert_eq!(e2, None);
}

#[test]
fn mismatched_close_emits_nothing() {
    // A rising with B low closes nothing when a front cycle is pending.
    let (s, e) = decode_edge(WheelDirection::Front, Level::High, Level::Low);
    assert_eq!(s, WheelDirection::NoState);
    assert_eq!(e, None);
    // And B high closes nothing when a back cycle is pending.
    let (s2, e2) = decode_edge(WheelDirection::Back, Level::High, Level::High);
    assert_eq!(s2, WheelDirection::NoState);
    assert_eq!(e2, None);
}

#[test]
fn same_direction_steps_accumulate_within_the_delay() {
    let mut rs = RotateState::new();
    rs.do_step(WheelDirection::Front, 100);
    assert_eq!(rs.steps, 1);
    assert_eq!(rs.begin_timestamp, 100);
    assert_eq!(rs.last_timestamp, 100);
    rs.do_step(WheelDirection::Front, 200);
    assert_eq!(rs.steps, 2);
    assert_eq!(rs.begin_timestamp, 100);
    assert_eq!(rs.last_timestamp, 200);
}

#[test]
fn a_turn_or_a_pause_restarts_the_run() {
    let mut rs = RotateState::new();
    rs.do_step(WheelDirection::Front, 100);
    rs.do_step(WheelDirection::Back, 150);
    assert_eq!(rs.steps, 1);
    assert_eq!(rs.wheel_direction, WheelDirection::Back);
    assert_eq!(rs.begin_timestamp, 150);
    // 300 ms without a step is too long: the run restarts.
    rs.do_step(WheelDirection::Back, 450);
    assert_eq!(rs.steps, 1);
    assert_eq!(rs.begin_timestamp, 450);
}

#[test]
fn speed_is_the_raw_count_up_to_three_steps() {
    let mut rs = RotateState::new();
    rs.do_step(WheelDirection::Front, 100);
    assert_eq!(rs.speed(), 1);
    rs.do_step(WheelDirection::Front, 150);
    assert_eq!(rs.speed(), 2);
    rs.do_step(WheelDirection::Front, 200);
    assert_eq!(rs.speed(), 3);
}

#[test]
fn speed_is_steps_per_second_past_three_steps() {
    let rs = RotateState {
        begin_timestamp: 1000,
        last_timestamp: 1500,
        wheel_direction: WheelDirection::Front,
        steps: 4,
    };
    // 4 steps over 500 ms: 8 steps per second.
    assert_eq!(rs.speed(), 8);
    let brisk = RotateState { steps: 10, last_timestamp: 1300, ..rs };
    // 10 steps over 300 ms.
    assert_eq!(brisk.speed(), 10 * 1000 / 300);
}

#[test]
fn speed_saturates_on_a_zero_span_run() {
    let rs = RotateState {
        begin_timestamp: 1000,
        last_timestamp: 1000,
        wheel_direction: WheelDirection::Back,
        steps: 4,
    };
    assert_eq!(rs.speed(), u64::MAX);
}

#[test]
fn two_cycles_within_the_delay_reach_speed_two() {
    // Both lines low ten of ten: a front cycle is pending.
    let mut rs = RotateState::new();
    let (s1, e1) = ec11_on_edge(WheelDirection::NoState, 10, 10, &mut rs, 1000);
    assert_eq!(s1, WheelDirection::Front);
    assert_eq!(e1, None);
    // A back high, B high: the cycle closes with one front step.
    let (s2, e2) = ec11_on_edge(s1, 0, 0, &mut rs, 1010);
    assert_eq!(s2, WheelDirection::NoState);
    assert_eq!(e2, Some((EventType::EC11Front, 1)));
    assert_eq!(rs.steps, 1);
    assert_eq!(rs.speed(), 1);
    // A second identical cycle within 300 ms: two steps, raw speed 2.
    let (s3, e3) = ec11_on_edge(s2, 10, 10, &mut rs, 1100);
    assert_eq!(s3, WheelDirection::Front);
    assert_eq!(e3, None);
    let (_s4, e4) = ec11_on_edge(s3, 0, 0, &mut rs, 1110);
    assert_eq!(e4, Some((EventType::EC11Front, 2)));
    assert_eq!(rs.steps, 2);
    assert_eq!(rs.speed(), 2);
}

#[test]
fn an_undecided_pass_leaves_the_tally_alone() {
    let mut rs = RotateState::new();
    rs.do_step(WheelDirection::Front, 100);
    let before = rs;
    // Five of ten reads low on A: too close to call.
    let (s, e) = ec11_on_edge(WheelDirection::Front, 5, 0, &mut rs, 200);
    assert_eq!(s, WheelDirection::Front);
    assert_eq!(e, None);
    assert_eq!(rs, before);
}

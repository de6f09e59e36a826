use control_node::rotary::RotaryPosition;

#[test]
fn fresh_position_reads_zero() {
    let p = RotaryPosition::new();
    assert_eq!(p.read(), 0);
}

#[test]
fn read_settles_to_accumulator_plus_register() {
    let mut p = RotaryPosition::new();
    p.set_register(37);
    assert_eq!(p.read(), 37);
    p.on_high_limit();
    p.set_register(2);
    assert_eq!(p.read(), 102);
    p.on_low_limit();
    p.on_low_limit();
    p.set_register(-15);
    assert_eq!(p.read(), 100 - 200 - 15);
}

#[test]
fn clockwise_steps_count_up_across_the_high_limit() {
    let mut p = RotaryPosition::new();
    for _ in 0..250 {
        p.step_up();
    }
    // Two high-limit crossings happened on the way; the reading still
    // counts every detent exactly once.
    assert_eq!(p.read(), 250);
}

#[test]
fn counter_clockwise_steps_count_down_across_the_low_limit() {
    let mut p = RotaryPosition::new();
    for _ in 0..150 {
        p.step_down();
    }
    assert_eq!(p.read(), -150);
}

#[test]
fn mixed_rotation_tracks_the_net_of_both_directions() {
    let mut p = RotaryPosition::new();
    for _ in 0..120 {
        p.step_up();
    }
    for _ in 0..300 {
        p.step_down();
    }
    for _ in 0..30 {
        p.step_up();
    }
    assert_eq!(p.read(), 120 - 300 + 30);
}

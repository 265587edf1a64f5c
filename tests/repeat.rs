use matrix_clock::repeat::{
    next_interval, ButtonRepeat, RepeatStep, INITIAL_REPEAT_INTERVAL_US, REPEAT_FLOOR_US,
};

#[test]
fn interval_decays_to_the_floor() {
    let expected = [
        500000, 400000, 320000, 256000, 204800, 163840, 131072, 104857, 83885, 67108, 53686,
        42948, 34358, 27486, 21988, 20000, 20000, 20000,
    ];
    let mut interval = INITIAL_REPEAT_INTERVAL_US;
    for want in expected {
        assert_eq!(interval, want);
        interval = next_interval(interval);
    }
}

#[test]
fn floor_is_kept() {
    assert_eq!(next_interval(REPEAT_FLOOR_US), REPEAT_FLOOR_US);
    assert_eq!(next_interval(24000), 20000);
    assert_eq!(next_interval(25000), 20000);
    assert_eq!(next_interval(25005), 20004);
    assert_eq!(next_interval(u32::MAX), 3435973836);
}

#[test]
fn press_release_round_trip() {
    let mut b = ButtonRepeat::new();
    assert!(!b.state.active && b.edge_enabled);

    let step = b.press();
    assert_eq!(
        step,
        RepeatStep {
            advance_minute: true,
            arm_timer_us: Some(500000),
            set_edge_interrupt: Some(false),
        }
    );
    assert!(b.state.active && !b.edge_enabled);

    let step = b.expire(true);
    assert_eq!(
        step,
        RepeatStep { advance_minute: true, arm_timer_us: Some(400000), set_edge_interrupt: None }
    );
    assert!(b.state.active && !b.edge_enabled);

    let step = b.expire(false);
    assert_eq!(
        step,
        RepeatStep { advance_minute: false, arm_timer_us: None, set_edge_interrupt: Some(true) }
    );
    assert!(!b.state.active && b.edge_enabled);
}

#[test]
fn press_while_held_is_ignored() {
    let mut b = ButtonRepeat::new();
    b.press();
    b.expire(true);
    let before = b;
    let step = b.press();
    assert_eq!(
        step,
        RepeatStep { advance_minute: false, arm_timer_us: None, set_edge_interrupt: None }
    );
    assert_eq!(b, before);
}

#[test]
fn expiry_while_idle_is_ignored() {
    let mut b = ButtonRepeat::new();
    let before = b;
    for pressed in [true, false] {
        let step = b.expire(pressed);
        assert_eq!(
            step,
            RepeatStep { advance_minute: false, arm_timer_us: None, set_edge_interrupt: None }
        );
        assert_eq!(b, before);
    }
}

#[test]
fn long_hold_stays_at_the_floor() {
    let mut b = ButtonRepeat::new();
    b.press();
    let mut last = INITIAL_REPEAT_INTERVAL_US;
    for _ in 0..40 {
        let step = b.expire(true);
        let armed = step.arm_timer_us.unwrap();
        assert!(armed <= last && armed >= REPEAT_FLOOR_US);
        assert!(!b.edge_enabled);
        last = armed;
    }
    assert_eq!(last, REPEAT_FLOOR_US);
    let again = b.press();
    assert!(!again.advance_minute);
}

#[test]
fn new_press_restarts_the_interval() {
    let mut b = ButtonRepeat::new();
    b.press();
    b.expire(true);
    b.expire(true);
    b.expire(false);
    let step = b.press();
    assert_eq!(step.arm_timer_us, Some(INITIAL_REPEAT_INTERVAL_US));
    assert_eq!(b.state.current_interval, INITIAL_REPEAT_INTERVAL_US);
}

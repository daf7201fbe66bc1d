use hexapod_motion::{
    desired_mode, init_sleep, init_standing, init_walking, initialization, loop_sleep,
    loop_standing, loop_walking, stick_axis, Controller, Gait, LegMotion, Mode, RcDataPackage,
    SignalMonitor, SleepState, StandingState, State, WalkingState, INTERVAL_MS_SIGNAL_LOST,
    SETTLE_STEPS, SLEEP_STEPS,
};

fn sample(b1: u8) -> RcDataPackage {
    let mut p = RcDataPackage::new();
    p.buttons_1 = b1;
    p.joy_left_x = 128;
    p.joy_left_y = 128;
    p
}

const WALK: u8 = 0b0010_0000;
const STAND: u8 = 0b0001_0000;

#[test]
fn setup_sends_every_leg_home() {
    assert_eq!(initialization(), vec![LegMotion::Home; 6]);
    let mut c = Controller::new(Gait::tripod(4), 0);
    assert_eq!(c.start(), vec![LegMotion::Home; 6]);
    assert_eq!(c.state.mode(), Mode::Initialization);
}

#[test]
fn mode_selection() {
    let s = Some(sample(WALK | STAND));
    assert_eq!(desired_mode(Mode::Standing, true, s), Mode::Sleep);
    assert_eq!(desired_mode(Mode::Standing, false, s), Mode::Walking);
    assert_eq!(desired_mode(Mode::Walking, false, Some(sample(STAND))), Mode::Standing);
    assert_eq!(desired_mode(Mode::Walking, false, Some(sample(0))), Mode::Sleep);
    assert_eq!(desired_mode(Mode::Initialization, false, None), Mode::Standing);
    assert_eq!(desired_mode(Mode::Initialization, true, None), Mode::Sleep);
}

#[test]
fn link_is_lost_only_after_the_interval() {
    let mut m = SignalMonitor::new(100);
    assert!(!m.is_lost(100 + INTERVAL_MS_SIGNAL_LOST));
    assert!(m.is_lost(101 + INTERVAL_MS_SIGNAL_LOST));
    assert!(!m.is_lost(50));
    m.record(5000);
    assert!(!m.is_lost(5500));
}

#[test]
fn stick_dead_zone() {
    assert_eq!(stick_axis(128), 0);
    assert_eq!(stick_axis(136), 0);
    assert_eq!(stick_axis(120), 0);
    assert_eq!(stick_axis(137), 9);
    assert_eq!(stick_axis(0), -128);
    assert_eq!(stick_axis(255), 127);
}

#[test]
fn sleep_walks_to_rest_then_holds() {
    let mut st = SleepState { progress: 7, target_reached: true };
    assert_eq!(init_sleep(&mut st), vec![LegMotion::Rest(0); 6]);
    assert_eq!(st, SleepState { progress: 1, target_reached: false });
    for k in 1..SLEEP_STEPS {
        assert_eq!(loop_sleep(&mut st), vec![LegMotion::Rest(k); 6]);
    }
    assert!(st.target_reached);
    assert_eq!(st.progress, SLEEP_STEPS);
    assert_eq!(loop_sleep(&mut st), vec![LegMotion::Hold; 6]);
    assert_eq!(st.progress, SLEEP_STEPS);
}

#[test]
fn standing_settles_leg_by_leg() {
    let mut st = StandingState { points: 33 };
    let first = init_standing(&mut st);
    assert_eq!(first[0], LegMotion::Settle(0));
    assert!(first[1..].iter().all(|m| *m == LegMotion::Hold));
    assert_eq!(st.points, 1);
    for _ in 1..SETTLE_STEPS {
        loop_standing(&mut st);
    }
    let next = loop_standing(&mut st);
    assert_eq!(next[1], LegMotion::Settle(0));
    assert_eq!(next[0], LegMotion::Hold);
    while st.points < 60 {
        loop_standing(&mut st);
    }
    assert_eq!(loop_standing(&mut st), vec![LegMotion::Hold; 6]);
    assert_eq!(st.points, 60);
}

#[test]
fn walking_counter_wraps_around_the_cycle() {
    let g = Gait::tripod(3);
    let mut st = WalkingState { points: 4 };
    let legs = init_walking(&mut st, &g);
    assert_eq!(st.points, 0);
    assert_eq!(legs[0], LegMotion::Swing(0));
    assert_eq!(legs[1], LegMotion::Stance(0));
    for _ in 0..5 {
        loop_walking(&mut st, &g);
    }
    assert_eq!(st.points, 5);
    let legs = loop_walking(&mut st, &g);
    assert_eq!(st.points, 0);
    assert_eq!(legs[0], LegMotion::Swing(0));
}

#[test]
fn walking_tick_at_swing_boundary_starts_new_swing_for_leg_zero() {
    let mut c = Controller::new(Gait::tripod(4), 0);
    c.start();
    let mut heading = sample(WALK);
    heading.joy_left_x = 255;
    let cmd = c.tick(10, Some(heading));
    assert_eq!(cmd.mode, Mode::Walking);
    assert_eq!(cmd.legs[0], LegMotion::Swing(0));
    assert_eq!(cmd.heading_x, 127);
    assert_eq!(cmd.heading_y, 0);
    // run the cycle round to the next boundary of leg 0's group
    let mut last = Vec::new();
    for t in 0..7 {
        last = c.tick(20 + t, None).legs;
    }
    assert_eq!(last[0], LegMotion::Stance(3));
    let cmd = c.tick(30, None);
    assert_eq!(cmd.legs[0], LegMotion::Swing(0));
    assert_eq!(cmd.legs[1], LegMotion::Stance(0));
}

#[test]
fn signal_loss_drops_gait_counter_and_walking_restarts() {
    let mut c = Controller::new(Gait::tripod(4), 0);
    c.start();
    c.tick(10, Some(sample(WALK)));
    for t in 0..3 {
        c.tick(20 + t, None);
    }
    assert_eq!(c.state, State::Walking(WalkingState { points: 3 }));
    let cmd = c.tick(10 + INTERVAL_MS_SIGNAL_LOST + 1, None);
    assert_eq!(cmd.mode, Mode::Sleep);
    assert!(!cmd.connected);
    assert!(!c.ack.connected());
    assert_eq!(cmd.heading_x, 0);
    assert_eq!(cmd.legs, vec![LegMotion::Rest(0); 6]);
    let cmd = c.tick(2000, Some(sample(WALK)));
    assert!(cmd.connected);
    assert!(c.ack.connected());
    assert_eq!(cmd.mode, Mode::Walking);
    assert_eq!(c.state, State::Walking(WalkingState { points: 0 }));
}

#[test]
fn state_enter_drops_old_payload() {
    let g = Gait::wave(2);
    let mut s = State::Walking(WalkingState { points: 5 });
    let legs = s.enter(Mode::Standing, &g);
    assert_eq!(s, State::Standing(StandingState { points: 1 }));
    assert_eq!(legs[0], LegMotion::Settle(0));
    let legs = s.init(&g);
    assert_eq!(s, State::Standing(StandingState { points: 1 }));
    assert_eq!(legs.len(), 6);
    let legs = s.run_loop(&g);
    assert_eq!(legs[0], LegMotion::Settle(1));
    let mut i = State::new();
    assert_eq!(i.run_loop(&g), vec![LegMotion::Hold; 6]);
}

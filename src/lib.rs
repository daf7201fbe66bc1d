//! Motion core of a six-legged walking robot: operator input packets,
//! signal supervision, curve weights, gait sequencing and mode control.

pub mod bezier;
pub mod controller;
pub mod gait;
pub mod nrf;
pub mod signal;
pub mod state;

pub use bezier::{bernstein_coefficients, binomial_coefficient, MAX_CURVE_POINTS};
pub use gait::{Gait, LegMotion, LEG_COUNT, MAX_GAIT_CYCLE};
pub use nrf::{AckDataPackage, Error, RcDataPackage, RC_PACKAGE_LEN};
pub use signal::{SignalMonitor, INTERVAL_MS_SIGNAL_LOST, INTERVAL_MS_SIGNAL_RETRY};
pub use state::{
    init_sleep, init_standing, init_walking, initialization, loop_sleep, loop_standing,
    loop_walking, Mode, SleepState, StandingState, State, WalkingState, SETTLE_STEPS,
    SETTLE_TOTAL, SLEEP_STEPS,
};
pub use controller::{desired_mode, stick_axis, Command, Controller, STICK_CENTER, STICK_DEADZONE};

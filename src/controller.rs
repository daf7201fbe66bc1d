use vstd::prelude::*;
use crate::gait::{Gait, LegMotion};
use crate::nrf::{bit_set, AckDataPackage, RcDataPackage};
use crate::signal::{signal_lost, SignalMonitor};
use crate::state::{
    entered, fresh_walking, mode_of, state_wf, step_motions, step_state, Mode, State,
    WalkingState,
};

verus! {

/// Raw reading of a stick axis at rest.
pub const STICK_CENTER: i32 = 128;

/// Deflections of at most this much from the centre read as zero.
pub const STICK_DEADZONE: i32 = 8;

/// Deflection of a stick axis from its centre, zero inside the dead zone.
pub open spec fn stick_axis_spec(raw: u8) -> int {
    let d = raw as int - STICK_CENTER;
    if -STICK_DEADZONE <= d <= STICK_DEADZONE {
        0
    } else {
        d
    }
}

/// Deflection of a stick axis from its centre, zero inside the dead zone.
pub fn stick_axis(raw: u8) -> (r: i32)
    ensures
        r == stick_axis_spec(raw),
{
    let d = raw as i32 - STICK_CENTER;
    if -STICK_DEADZONE <= d && d <= STICK_DEADZONE {
        0
    } else {
        d
    }
}

/// The mode that the robot should be in: sleep when the link is lost;
/// otherwise walk while toggle B is set, stand while toggle A is set, and
/// with neither, stand after setup and sleep from any other mode. Without any
/// sample yet no toggle counts as set.
pub open spec fn desired_mode_spec(current: Mode, lost: bool, sample: Option<RcDataPackage>) -> Mode {
    if lost {
        Mode::Sleep
    } else if sample is Some && bit_set(sample->0.buttons_1, 5) {
        Mode::Walking
    } else if sample is Some && bit_set(sample->0.buttons_1, 4) {
        Mode::Standing
    } else if current == Mode::Initialization {
        Mode::Standing
    } else {
        Mode::Sleep
    }
}

/// The mode that the robot should be in, from the current mode, whether
/// the link is lost, and the latest operator sample.
pub fn desired_mode(current: Mode, lost: bool, sample: Option<RcDataPackage>) -> (r: Mode)
    ensures
        r == desired_mode_spec(current, lost, sample),
{
    if lost {
        return Mode::Sleep;
    }
    match sample {
        Some(p) => {
            if p.toggle_b() {
                return Mode::Walking;
            }
            if p.toggle_a() {
                return Mode::Standing;
            }
        },
        None => {},
    }
    if current == Mode::Initialization {
        Mode::Standing
    } else {
        Mode::Sleep
    }
}

/// What one control step hands to the actuators and the radio.
pub struct Command {
    /// The mode after the step.
    pub mode: Mode,
    /// One motion per leg, in leg order.
    pub legs: Vec<LegMotion>,
    /// Sideways part of the heading, from the left stick.
    pub heading_x: i32,
    /// Forward part of the heading, from the left stick.
    pub heading_y: i32,
    /// Whether the link to the operator is up.
    pub connected: bool,
}

/// The behavioural controller: the active mode, the gait, the link monitor,
/// the latest operator sample and the acknowledgement to send back.
pub struct Controller {
    pub state: State,
    pub gait: Gait,
    pub monitor: SignalMonitor,
    pub latest: Option<RcDataPackage>,
    pub ack: AckDataPackage,
}

impl Controller {
    pub open spec fn wf(&self) -> bool {
        self.gait.wf() && state_wf(self.state, self.gait)
    }

    /// A controller in setup mode whose link clock starts at `now_ms`.
    pub fn new(gait: Gait, now_ms: u64) -> (r: Controller)
        requires
            gait.wf(),
        ensures
            r.wf(),
            r.state == State::Initialization,
            r.gait == gait,
            r.monitor.last_signal_ms == now_ms,
            r.latest.is_none(),
            r.ack.status_spec() == 0,
    {
        Controller {
            state: State::new(),
            gait,
            monitor: SignalMonitor::new(now_ms),
            latest: None,
            ack: AckDataPackage::new(),
        }
    }

    /// Runs the entry of the active mode; at start-up that sends every leg home.
    pub fn start(&mut self) -> (r: Vec<LegMotion>)
        requires
            old(self).wf(),
        ensures
            final(self).wf(),
            final(self).state == entered(mode_of(old(self).state)),
            final(self).gait == old(self).gait,
            final(self).monitor == old(self).monitor,
            final(self).latest == old(self).latest,
            final(self).ack == old(self).ack,
            r@ == crate::state::enter_motions(mode_of(old(self).state), old(self).gait),
    {
        self.state.init(&self.gait)
    }

    /// One control step at time `now_ms`, with the sample that arrived since
    /// the last step, if any. A fresh sample resets the link clock; a lost
    /// link forces sleep; the active mode ticks if it stays, else the new mode
    /// is entered with a fresh payload.
    pub fn tick(&mut self, now_ms: u64, fresh: Option<RcDataPackage>) -> (r: Command)
        requires
            old(self).wf(),
        ensures
            final(self).wf(),
            final(self).gait == old(self).gait,
            final(self).monitor.last_signal_ms == (if fresh is Some {
                now_ms
            } else {
                old(self).monitor.last_signal_ms
            }),
            final(self).latest == (if fresh is Some {
                fresh
            } else {
                old(self).latest
            }),
            ({
                let lost = signal_lost(final(self).monitor.last_signal_ms, now_ms);
                let target = desired_mode_spec(mode_of(old(self).state), lost, final(self).latest);
                &&& r.connected == !lost
                &&& bit_set(final(self).ack.status_spec(), 0) == !lost
                &&& r.mode == target
                &&& final(self).state == step_state(old(self).state, target, old(self).gait)
                &&& r.legs@ == step_motions(old(self).state, target, old(self).gait)
                &&& r.heading_x == (if final(self).latest is Some && !lost {
                    stick_axis_spec(final(self).latest->0.joy_left_x)
                } else {
                    0
                })
                &&& r.heading_y == (if final(self).latest is Some && !lost {
                    stick_axis_spec(final(self).latest->0.joy_left_y)
                } else {
                    0
                })
            }),
    {
        if let Some(p) = fresh {
            self.monitor.record(now_ms);
            self.latest = Some(p);
        }
        let lost = self.monitor.is_lost(now_ms);
        self.ack.set_connected(!lost);
        let current = self.state.mode();
        let target = desired_mode(current, lost, self.latest);
        let legs = if target == current {
            self.state.run_loop(&self.gait)
        } else {
            self.state.enter(target, &self.gait)
        };
        let (heading_x, heading_y) = match self.latest {
            Some(p) if !lost => (stick_axis(p.joy_left_x), stick_axis(p.joy_left_y)),
            _ => (0, 0),
        };
        Command { mode: target, legs, heading_x, heading_y, connected: !lost }
    }
}

/// Losing the link while walking forces sleep and drops the gait counter;
/// walking again afterwards starts the gait cycle from its first tick.
pub proof fn lemma_signal_loss_restarts_gait(
    walking: WalkingState,
    gait: Gait,
    stale: Option<RcDataPackage>,
    resumed: RcDataPackage,
)
    requires
        gait.wf(),
        bit_set(resumed.buttons_1, 5),
    ensures
        ({
            let before = State::Walking(walking);
            let slept = step_state(before, desired_mode_spec(Mode::Walking, true, stale), gait);
            let again = step_state(slept, desired_mode_spec(mode_of(slept), false, Some(resumed)), gait);
            &&& mode_of(slept) == Mode::Sleep
            &&& slept == entered(Mode::Sleep)
            &&& again == State::Walking(fresh_walking())
        }),
{
}

/// Setup is a one-shot mode: whatever the current mode, link state and
/// operator sample, the control rules never choose it again.
pub proof fn lemma_setup_never_reentered(current: Mode, lost: bool, sample: Option<RcDataPackage>)
    ensures
        desired_mode_spec(current, lost, sample) != Mode::Initialization,
{
}

} // verus!

use vstd::prelude::*;
use crate::gait::{Gait, LegMotion, LEG_COUNT};

verus! {

/// Ticks that the move to the resting pose lasts.
pub const SLEEP_STEPS: u32 = 50;

/// Ticks that each leg takes to settle into the standing pose.
pub const SETTLE_STEPS: u32 = 10;

/// Ticks that the whole leg-by-leg settle takes: one settle per leg.
pub const SETTLE_TOTAL: i32 = 60;

/// The behavioural modes, without their data.
#[derive(Clone, Copy, Debug, PartialEq, Eq, Structural)]
pub enum Mode {
    Initialization,
    Sleep,
    Standing,
    Walking,
}

/// Data of the sleep mode: how many steps of the move to the resting pose
/// have been issued, and whether the resting pose has been reached.
#[derive(Clone, Copy, Debug, PartialEq, Eq, Structural)]
pub struct SleepState {
    pub progress: u32,
    pub target_reached: bool,
}

/// Data of the standing mode: how many settle steps have been issued over all legs.
#[derive(Clone, Copy, Debug, PartialEq, Eq, Structural)]
pub struct StandingState {
    pub points: i32,
}

/// Data of the walking mode: the tick of the gait cycle last issued.
#[derive(Clone, Copy, Debug, PartialEq, Eq, Structural)]
pub struct WalkingState {
    pub points: i32,
}

/// The active mode together with its data.
#[derive(Clone, Copy, Debug, PartialEq, Eq, Structural)]
pub enum State {
    Initialization,
    Sleep(SleepState),
    Standing(StandingState),
    Walking(WalkingState),
}

pub open spec fn mode_of(s: State) -> Mode {
    match s {
        State::Initialization => Mode::Initialization,
        State::Sleep(_) => Mode::Sleep,
        State::Standing(_) => Mode::Standing,
        State::Walking(_) => Mode::Walking,
    }
}

/// The same motion for every leg.
pub open spec fn all_legs(m: LegMotion) -> Seq<LegMotion> {
    Seq::new(LEG_COUNT as nat, |_l: int| m)
}

/// Settle step `p` of the leg-by-leg settle: leg `p / SETTLE_STEPS` moves,
/// the others hold.
pub open spec fn settle_motions(p: nat) -> Seq<LegMotion> {
    Seq::new(
        LEG_COUNT as nat,
        |l: int|
            if l == p / (SETTLE_STEPS as nat) {
                LegMotion::Settle((p % (SETTLE_STEPS as nat)) as u32)
            } else {
                LegMotion::Hold
            },
    )
}

/// Every leg's motion at tick `c` of the gait cycle.
pub open spec fn walk_motions(gait: Gait, c: nat) -> Seq<LegMotion> {
    Seq::new(LEG_COUNT as nat, |l: int| gait.motion_at(l, c))
}

pub open spec fn fresh_sleep() -> SleepState {
    SleepState { progress: 1, target_reached: SLEEP_STEPS == 1 }
}

pub open spec fn fresh_standing() -> StandingState {
    StandingState { points: 1 }
}

pub open spec fn fresh_walking() -> WalkingState {
    WalkingState { points: 0 }
}

/// The state right after entering mode `m`: a fresh payload.
pub open spec fn entered(m: Mode) -> State {
    match m {
        Mode::Initialization => State::Initialization,
        Mode::Sleep => State::Sleep(fresh_sleep()),
        Mode::Standing => State::Standing(fresh_standing()),
        Mode::Walking => State::Walking(fresh_walking()),
    }
}

/// The motions issued on entering mode `m`.
pub open spec fn enter_motions(m: Mode, gait: Gait) -> Seq<LegMotion> {
    match m {
        Mode::Initialization => all_legs(LegMotion::Home),
        Mode::Sleep => all_legs(LegMotion::Rest(0)),
        Mode::Standing => settle_motions(0),
        Mode::Walking => walk_motions(gait, 0),
    }
}

pub open spec fn sleep_wf(st: SleepState) -> bool {
    1 <= st.progress <= SLEEP_STEPS && st.target_reached == (st.progress == SLEEP_STEPS)
}

pub open spec fn standing_wf(st: StandingState) -> bool {
    1 <= st.points <= SETTLE_TOTAL
}

pub open spec fn walking_wf(st: WalkingState, gait: Gait) -> bool {
    0 <= st.points < gait.cycle()
}

/// The payload of the active mode is within its bounds.
pub open spec fn state_wf(s: State, gait: Gait) -> bool {
    match s {
        State::Initialization => true,
        State::Sleep(st) => sleep_wf(st),
        State::Standing(st) => standing_wf(st),
        State::Walking(st) => walking_wf(st, gait),
    }
}

pub open spec fn sleep_ticked(st: SleepState) -> SleepState {
    if st.target_reached {
        st
    } else {
        SleepState {
            progress: (st.progress + 1) as u32,
            target_reached: st.progress + 1 == SLEEP_STEPS,
        }
    }
}

pub open spec fn sleep_tick_motions(st: SleepState) -> Seq<LegMotion> {
    if st.target_reached {
        all_legs(LegMotion::Hold)
    } else {
        all_legs(LegMotion::Rest(st.progress))
    }
}

pub open spec fn standing_ticked(st: StandingState) -> StandingState {
    if st.points < SETTLE_TOTAL {
        StandingState { points: (st.points + 1) as i32 }
    } else {
        st
    }
}

pub open spec fn standing_tick_motions(st: StandingState) -> Seq<LegMotion> {
    if st.points < SETTLE_TOTAL {
        settle_motions(st.points as nat)
    } else {
        all_legs(LegMotion::Hold)
    }
}

pub open spec fn walking_ticked(st: WalkingState, gait: Gait) -> WalkingState {
    WalkingState { points: ((st.points + 1) % (gait.cycle() as int)) as i32 }
}

pub open spec fn walking_tick_motions(st: WalkingState, gait: Gait) -> Seq<LegMotion> {
    walk_motions(gait, walking_ticked(st, gait).points as nat)
}

/// The state after one tick of the active mode.
pub open spec fn ticked(s: State, gait: Gait) -> State {
    match s {
        State::Initialization => State::Initialization,
        State::Sleep(st) => State::Sleep(sleep_ticked(st)),
        State::Standing(st) => State::Standing(standing_ticked(st)),
        State::Walking(st) => State::Walking(walking_ticked(st, gait)),
    }
}

/// The motions issued by one tick of the active mode.
pub open spec fn tick_motions(s: State, gait: Gait) -> Seq<LegMotion> {
    match s {
        State::Initialization => all_legs(LegMotion::Hold),
        State::Sleep(st) => sleep_tick_motions(st),
        State::Standing(st) => standing_tick_motions(st),
        State::Walking(st) => walking_tick_motions(st, gait),
    }
}

/// One control step towards mode `target`: the active mode ticks if it is
/// the target, else the target is entered with a fresh payload.
pub open spec fn step_state(s: State, target: Mode, gait: Gait) -> State {
    if mode_of(s) == target {
        ticked(s, gait)
    } else {
        entered(target)
    }
}

pub open spec fn step_motions(s: State, target: Mode, gait: Gait) -> Seq<LegMotion> {
    if mode_of(s) == target {
        tick_motions(s, gait)
    } else {
        enter_motions(target, gait)
    }
}

/// Issues the same motion to every leg.
fn legs_all(m: LegMotion) -> (r: Vec<LegMotion>)
    ensures
        r@ == all_legs(m),
{
    let mut r: Vec<LegMotion> = Vec::new();
    let mut l: usize = 0;
    while l < LEG_COUNT
        invariant
            l <= LEG_COUNT,
            r@ == Seq::new(l as nat, |_i: int| m),
        decreases LEG_COUNT - l,
    {
        r.push(m);
        l = l + 1;
        proof {
            assert(r@ =~= Seq::new(l as nat, |_i: int| m));
        }
    }
    r
}

fn legs_settle(p: u32) -> (r: Vec<LegMotion>)
    ensures
        r@ == settle_motions(p as nat),
{
    let mut r: Vec<LegMotion> = Vec::new();
    let mut l: usize = 0;
    let leg = p / SETTLE_STEPS;
    let step = p % SETTLE_STEPS;
    while l < LEG_COUNT
        invariant
            l <= LEG_COUNT,
            leg == p / SETTLE_STEPS,
            step == p % SETTLE_STEPS,
            r@ == settle_motions(p as nat).take(l as int),
        decreases LEG_COUNT - l,
    {
        if l as u32 == leg {
            r.push(LegMotion::Settle(step));
        } else {
            r.push(LegMotion::Hold);
        }
        l = l + 1;
        proof {
            assert(r@ =~= settle_motions(p as nat).take(l as int));
        }
    }
    proof {
        assert(settle_motions(p as nat).take(LEG_COUNT as int) =~= settle_motions(p as nat));
    }
    r
}

fn legs_walk(gait: &Gait, c: u32) -> (r: Vec<LegMotion>)
    requires
        gait.wf(),
        c < gait.cycle(),
    ensures
        r@ == walk_motions(*gait, c as nat),
{
    let mut r: Vec<LegMotion> = Vec::new();
    let mut l: usize = 0;
    while l < LEG_COUNT
        invariant
            l <= LEG_COUNT,
            gait.wf(),
            c < gait.cycle(),
            r@ == walk_motions(*gait, c as nat).take(l as int),
        decreases LEG_COUNT - l,
    {
        let m = gait.motion(l, c);
        r.push(m);
        l = l + 1;
        proof {
            assert(r@ =~= walk_motions(*gait, c as nat).take(l as int));
        }
    }
    proof {
        assert(walk_motions(*gait, c as nat).take(LEG_COUNT as int) =~= walk_motions(*gait, c as nat));
    }
    r
}

/// Setup: every leg is sent to its home configuration.
pub fn initialization() -> (r: Vec<LegMotion>)
    ensures
        r@ == all_legs(LegMotion::Home),
{
    legs_all(LegMotion::Home)
}

/// Starts the move to the resting pose: every leg plans its curve from where
/// it stands and takes the first step.
pub fn init_sleep(state: &mut SleepState) -> (r: Vec<LegMotion>)
    ensures
        *final(state) == fresh_sleep(),
        r@ == all_legs(LegMotion::Rest(0)),
{
    state.progress = 1;
    state.target_reached = SLEEP_STEPS == 1;
    legs_all(LegMotion::Rest(0))
}

/// Takes the next step towards the resting pose; once it is reached, holds.
pub fn loop_sleep(state: &mut SleepState) -> (r: Vec<LegMotion>)
    requires
        sleep_wf(*old(state)),
    ensures
        *final(state) == sleep_ticked(*old(state)),
        sleep_wf(*final(state)),
        r@ == sleep_tick_motions(*old(state)),
{
    if state.target_reached {
        return legs_all(LegMotion::Hold);
    }
    let r = legs_all(LegMotion::Rest(state.progress));
    state.progress = state.progress + 1;
    state.target_reached = state.progress == SLEEP_STEPS;
    r
}

/// Starts the leg-by-leg settle with the first step of leg 0.
pub fn init_standing(state: &mut StandingState) -> (r: Vec<LegMotion>)
    ensures
        *final(state) == fresh_standing(),
        r@ == settle_motions(0),
{
    state.points = 1;
    legs_settle(0)
}

/// Issues the next settle step; a new leg's trajectory starts at every
/// multiple of `SETTLE_STEPS`. Once every leg has settled, holds.
pub fn loop_standing(state: &mut StandingState) -> (r: Vec<LegMotion>)
    requires
        standing_wf(*old(state)),
    ensures
        *final(state) == standing_ticked(*old(state)),
        standing_wf(*final(state)),
        r@ == standing_tick_motions(*old(state)),
{
    if state.points < SETTLE_TOTAL {
        let r = legs_settle(state.points as u32);
        state.points = state.points + 1;
        r
    } else {
        legs_all(LegMotion::Hold)
    }
}

/// Starts the gait cycle at its first tick.
pub fn init_walking(state: &mut WalkingState, gait: &Gait) -> (r: Vec<LegMotion>)
    requires
        gait.wf(),
    ensures
        *final(state) == fresh_walking(),
        r@ == walk_motions(*gait, 0),
{
    state.points = 0;
    legs_walk(gait, 0)
}

/// Advances the gait cycle by one tick: legs of the swinging group follow
/// their swing curve, the others push along their stance line.
pub fn loop_walking(state: &mut WalkingState, gait: &Gait) -> (r: Vec<LegMotion>)
    requires
        gait.wf(),
        walking_wf(*old(state), *gait),
    ensures
        *final(state) == walking_ticked(*old(state), *gait),
        walking_wf(*final(state), *gait),
        r@ == walking_tick_motions(*old(state), *gait),
{
    let cycle = gait.cycle_len();
    let next = ((state.points as u32) + 1) % cycle;
    state.points = next as i32;
    legs_walk(gait, next)
}

impl State {
    /// The state at start-up.
    pub fn new() -> (r: State)
        ensures
            r == State::Initialization,
    {
        State::Initialization
    }

    /// The active mode.
    pub fn mode(&self) -> (r: Mode)
        ensures
            r == mode_of(*self),
    {
        match self {
            State::Initialization => Mode::Initialization,
            State::Sleep(_) => Mode::Sleep,
            State::Standing(_) => Mode::Standing,
            State::Walking(_) => Mode::Walking,
        }
    }

    /// Runs the entry of the active mode: its payload starts afresh.
    pub fn init(&mut self, gait: &Gait) -> (r: Vec<LegMotion>)
        requires
            gait.wf(),
        ensures
            *final(self) == entered(mode_of(*old(self))),
            state_wf(*final(self), *gait),
            r@ == enter_motions(mode_of(*old(self)), *gait),
    {
        match *self {
            State::Initialization => initialization(),
            State::Sleep(st) => {
                let mut st = st;
                let r = init_sleep(&mut st);
                *self = State::Sleep(st);
                r
            },
            State::Standing(st) => {
                let mut st = st;
                let r = init_standing(&mut st);
                *self = State::Standing(st);
                r
            },
            State::Walking(st) => {
                let mut st = st;
                let r = init_walking(&mut st, gait);
                *self = State::Walking(st);
                r
            },
        }
    }

    /// Runs one tick of the active mode.
    pub fn run_loop(&mut self, gait: &Gait) -> (r: Vec<LegMotion>)
        requires
            gait.wf(),
            state_wf(*old(self), *gait),
        ensures
            *final(self) == ticked(*old(self), *gait),
            state_wf(*final(self), *gait),
            r@ == tick_motions(*old(self), *gait),
    {
        match *self {
            State::Initialization => legs_all(LegMotion::Hold),
            State::Sleep(st) => {
                let mut st = st;
                let r = loop_sleep(&mut st);
                *self = State::Sleep(st);
                r
            },
            State::Standing(st) => {
                let mut st = st;
                let r = loop_standing(&mut st);
                *self = State::Standing(st);
                r
            },
            State::Walking(st) => {
                let mut st = st;
                let r = loop_walking(&mut st, gait);
                *self = State::Walking(st);
                r
            },
        }
    }

    /// Leaves the active mode and enters `m`: the old payload is dropped and
    /// `m` starts with a fresh one.
    pub fn enter(&mut self, m: Mode, gait: &Gait) -> (r: Vec<LegMotion>)
        requires
            gait.wf(),
        ensures
            *final(self) == entered(m),
            state_wf(*final(self), *gait),
            r@ == enter_motions(m, *gait),
    {
        *self = match m {
            Mode::Initialization => State::Initialization,
            Mode::Sleep => State::Sleep(SleepState { progress: 0, target_reached: false }),
            Mode::Standing => State::Standing(StandingState { points: 0 }),
            Mode::Walking => State::Walking(WalkingState { points: 0 }),
        };
        self.init(gait)
    }
}

} // verus!

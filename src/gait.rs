use vstd::prelude::*;
use vstd::arithmetic::div_mod::{lemma_div_multiples_vanish, lemma_mod_multiples_basic};

verus! {

/// Number of legs of the robot.
pub const LEG_COUNT: usize = 6;

/// Largest gait cycle, in ticks, that a gait table may describe.
pub const MAX_GAIT_CYCLE: u32 = 100000;

/// What one leg is told to do on one tick. The number is the step within the
/// current segment: step `j` of a segment of `n` steps places the tip at
/// progress `(j + 1) / n`, and step 0 starts a new segment from the tip's
/// current position.
#[derive(Clone, Copy, Debug, PartialEq, Eq, Structural)]
pub enum LegMotion {
    /// Keep the current target.
    Hold,
    /// Move to the home configuration.
    Home,
    /// Follow the curve towards the resting pose.
    Rest(u32),
    /// Follow the curve towards the standing pose.
    Settle(u32),
    /// Lift and place the tip along a swing curve.
    Swing(u32),
    /// Push the planted tip along a straight line against the heading.
    Stance(u32),
}

/// A gait table: which group each leg belongs to, how many groups there are,
/// and how many ticks a swing lasts. Group `g` swings during ticks
/// `g * swing_steps .. (g + 1) * swing_steps` of the cycle and stands for
/// the rest of it.
pub struct Gait {
    groups: Vec<u32>,
    n_groups: u32,
    swing_steps: u32,
}

impl Gait {
    pub closed spec fn group_of(&self, leg: int) -> nat {
        self.groups@[leg] as nat
    }

    pub closed spec fn group_count(&self) -> nat {
        self.n_groups as nat
    }

    pub closed spec fn swing_len(&self) -> nat {
        self.swing_steps as nat
    }

    pub closed spec fn table_len(&self) -> nat {
        self.groups@.len()
    }

    pub open spec fn cycle(&self) -> nat {
        self.group_count() * self.swing_len()
    }

    pub open spec fn wf(&self) -> bool {
        &&& self.table_len() == LEG_COUNT
        &&& self.group_count() >= 1
        &&& self.swing_len() >= 1
        &&& self.swing_len() <= self.cycle() <= MAX_GAIT_CYCLE
        &&& forall|l: int| 0 <= l < LEG_COUNT ==> self.group_of(l) < self.group_count()
    }

    /// What leg `leg` does at tick `c` of the cycle.
    pub open spec fn motion_at(&self, leg: int, c: nat) -> LegMotion {
        let g = self.group_of(leg);
        let s = self.swing_len();
        if c / s == g {
            LegMotion::Swing((c % s) as u32)
        } else {
            LegMotion::Stance(((c + self.cycle() - (g + 1) * s) % (self.cycle() as int)) as u32)
        }
    }

    /// A gait from a table of one group per leg. `None` unless the table
    /// has one entry per leg, every entry is below `n_groups`, swings last at
    /// least one tick and the cycle is at most `MAX_GAIT_CYCLE` ticks.
    pub fn new(groups: Vec<u32>, n_groups: u32, swing_steps: u32) -> (r: Option<Gait>)
        ensures
            r.is_some() == (groups@.len() == LEG_COUNT && n_groups >= 1 && swing_steps >= 1
                && n_groups * swing_steps <= MAX_GAIT_CYCLE
                && forall|l: int| 0 <= l < LEG_COUNT ==> groups@[l] < n_groups),
            r matches Some(g) ==> g.wf() && g.group_count() == n_groups && g.swing_len() == swing_steps
                && forall|l: int| 0 <= l < LEG_COUNT ==> g.group_of(l) == groups@[l],
    {
        if groups.len() != LEG_COUNT || n_groups == 0 || swing_steps == 0 {
            return None;
        }
        if n_groups > MAX_GAIT_CYCLE / swing_steps {
            proof {
                assert(n_groups * swing_steps > MAX_GAIT_CYCLE) by (nonlinear_arith)
                    requires
                        n_groups > MAX_GAIT_CYCLE / swing_steps,
                        swing_steps >= 1,
                ;
            }
            return None;
        }
        proof {
            assert(n_groups * swing_steps <= MAX_GAIT_CYCLE) by (nonlinear_arith)
                requires
                    n_groups <= MAX_GAIT_CYCLE / swing_steps,
                    swing_steps >= 1,
            ;
        }
        proof {
            assert(swing_steps <= n_groups * swing_steps) by (nonlinear_arith)
                requires
                    n_groups >= 1,
            ;
        }
        let mut l: usize = 0;
        while l < LEG_COUNT
            invariant
                groups@.len() == LEG_COUNT,
                l <= LEG_COUNT,
                forall|j: int| 0 <= j < l ==> groups@[j] < n_groups,
            decreases LEG_COUNT - l,
        {
            if groups[l] >= n_groups {
                return None;
            }
            l = l + 1;
        }
        Some(Gait { groups, n_groups, swing_steps })
    }

    /// The tripod gait: legs 0, 2 and 4 swing together, then legs 1, 3 and 5.
    pub fn tripod(swing_steps: u32) -> (r: Gait)
        requires
            1 <= swing_steps <= MAX_GAIT_CYCLE / 2,
        ensures
            r.wf(),
            r.group_count() == 2,
            r.swing_len() == swing_steps,
            forall|l: int| 0 <= l < LEG_COUNT ==> r.group_of(l) == l % 2,
    {
        let groups: Vec<u32> = vec![0, 1, 0, 1, 0, 1];
        Gait { groups, n_groups: 2, swing_steps }
    }

    /// The wave gait: one leg swings at a time, in order of leg index.
    pub fn wave(swing_steps: u32) -> (r: Gait)
        requires
            1 <= swing_steps <= MAX_GAIT_CYCLE / 6,
        ensures
            r.wf(),
            r.group_count() == 6,
            r.swing_len() == swing_steps,
            forall|l: int| 0 <= l < LEG_COUNT ==> r.group_of(l) == l,
    {
        let groups: Vec<u32> = vec![0, 1, 2, 3, 4, 5];
        Gait { groups, n_groups: 6, swing_steps }
    }

    /// Length of the gait cycle in ticks.
    pub fn cycle_len(&self) -> (r: u32)
        requires
            self.wf(),
        ensures
            r == self.cycle(),
    {
        self.n_groups * self.swing_steps
    }

    /// Ticks that one swing lasts.
    pub fn swing_steps(&self) -> (r: u32)
        ensures
            r == self.swing_len(),
    {
        self.swing_steps
    }

    /// What leg `leg` does at tick `c` of the cycle.
    pub fn motion(&self, leg: usize, c: u32) -> (r: LegMotion)
        requires
            self.wf(),
            leg < LEG_COUNT,
            c < self.cycle(),
        ensures
            r == self.motion_at(leg as int, c as nat),
    {
        let g = self.groups[leg];
        let s = self.swing_steps;
        if c / s == g {
            LegMotion::Swing(c % s)
        } else {
            let cycle = self.n_groups * s;
            proof {
                assert((g + 1) * s <= self.n_groups * s) by (nonlinear_arith)
                    requires
                        g < self.n_groups,
            ;
            }
            LegMotion::Stance((c + cycle - (g + 1) * s) % cycle)
        }
    }
}

/// Every leg starts a new swing, from its first step, at the tick where its
/// group's swing window opens.
pub proof fn lemma_swing_starts_at_group_boundary(gait: Gait, leg: int)
    requires
        gait.wf(),
        0 <= leg < LEG_COUNT,
    ensures
        gait.group_of(leg) * gait.swing_len() < gait.cycle(),
        gait.motion_at(leg, gait.group_of(leg) * gait.swing_len()) == LegMotion::Swing(0),
{
    let g = gait.group_of(leg) as int;
    let s = gait.swing_len() as int;
    lemma_div_multiples_vanish(g, s);
    lemma_mod_multiples_basic(g, s);
    assert(s * g == g * s) by (nonlinear_arith);
    assert(g * s < gait.group_count() * s) by (nonlinear_arith)
        requires
            g < gait.group_count(),
            s >= 1,
    ;
}

} // verus!

use vstd::prelude::*;

verus! {

/// Position targets for the four drive motors; `None` leaves a motor unpowered.
#[derive(Clone, Copy, Debug, PartialEq, Eq, Structural)]
pub struct MotorTargets {
    pub m0_target: Option<i32>,
    pub m1_target: Option<i32>,
    pub m2_target: Option<i32>,
    pub m3_target: Option<i32>,
}

/// The encoder positions of the four drive motors, as last reported.
#[derive(Clone, Copy, Debug, PartialEq, Eq, Structural)]
pub struct MotorStatusUpdate {
    pub m0: i32,
    pub m1: i32,
    pub m2: i32,
    pub m3: i32,
}

/// What the auto handler does with one motor after a bulk read.
#[derive(Clone, Copy, Debug, PartialEq, Eq, Structural)]
pub enum AutoDrive {
    /// No target: send zero power.
    Stop,
    /// Run the motor's PID towards `target` from `position` and send the power.
    Track { target: i32, position: i32 },
}

/// The absolute value of `x`.
pub open spec fn abs(x: int) -> int {
    if x < 0 { -x } else { x }
}

/// `pos` is within `tolerance` (taken by its absolute value) of `target`, or there is no
/// target.
pub open spec fn within(pos: i32, target: Option<i32>, tolerance: i32) -> bool {
    match target {
        None => true,
        Some(v) => abs(pos - v) <= abs(tolerance as int),
    }
}

impl MotorTargets {
    /// The targets in motor order.
    pub open spec fn seq(self) -> Seq<Option<i32>> {
        seq![self.m0_target, self.m1_target, self.m2_target, self.m3_target]
    }

    /// No motor has a target.
    pub fn none() -> (t: Self)
        ensures
            forall|i: int| 0 <= i < 4 ==> #[trigger] t.seq()[i] is None,
    {
        MotorTargets { m0_target: None, m1_target: None, m2_target: None, m3_target: None }
    }

    /// The targets as an array in motor order.
    pub fn to_array(&self) -> (a: [Option<i32>; 4])
        ensures
            a@ == self.seq(),
    {
        let a = [self.m0_target, self.m1_target, self.m2_target, self.m3_target];
        assert(a@ =~= self.seq());
        a
    }
}

impl MotorStatusUpdate {
    /// The positions in motor order.
    pub open spec fn seq(self) -> Seq<i32> {
        seq![self.m0, self.m1, self.m2, self.m3]
    }

    /// The status that reports `positions`, in motor order.
    pub fn from_positions(positions: &[i32; 4]) -> (s: Self)
        ensures
            s.seq() == positions@,
    {
        let s = MotorStatusUpdate { m0: positions[0], m1: positions[1], m2: positions[2], m3: positions[3] };
        assert(s.seq() =~= positions@);
        s
    }

    /// Every motor that has a target is within `tolerance` of it.
    pub open spec fn near_spec(self, target: MotorTargets, tolerance: i32) -> bool {
        forall|i: int| 0 <= i < 4 ==> within(#[trigger] self.seq()[i], target.seq()[i], tolerance)
    }

    /// Whether every motor that has a target is within `tolerance` (by its absolute value)
    /// of it.
    pub fn near(&self, target: &MotorTargets, tolerance: i32) -> (b: bool)
        ensures
            b == self.near_spec(*target, tolerance),
    {
        let b = pos_within(self.m0, target.m0_target, tolerance) && pos_within(self.m1, target.m1_target, tolerance)
            && pos_within(self.m2, target.m2_target, tolerance) && pos_within(self.m3, target.m3_target, tolerance);
        proof {
            if b {
                assert forall|i: int| 0 <= i < 4 implies within(#[trigger] self.seq()[i], target.seq()[i], tolerance) by {
                    assert(i == 0 || i == 1 || i == 2 || i == 3);
                }
            } else {
                if !within(self.m0, target.m0_target, tolerance) {
                    assert(!within(self.seq()[0], target.seq()[0], tolerance));
                } else if !within(self.m1, target.m1_target, tolerance) {
                    assert(!within(self.seq()[1], target.seq()[1], tolerance));
                } else if !within(self.m2, target.m2_target, tolerance) {
                    assert(!within(self.seq()[2], target.seq()[2], tolerance));
                } else {
                    assert(!within(self.seq()[3], target.seq()[3], tolerance));
                }
            }
        }
        b
    }
}

fn abs_i64(x: i64) -> (r: i64)
    requires
        x > i64::MIN,
    ensures
        r == abs(x as int),
{
    if x < 0 { -x } else { x }
}

fn pos_within(pos: i32, target: Option<i32>, tolerance: i32) -> (b: bool)
    ensures
        b == within(pos, target, tolerance),
{
    match target {
        None => true,
        Some(value) => {
            let diff = pos as i64 - value as i64;
            abs_i64(diff) <= abs_i64(tolerance as i64)
        },
    }
}

/// Plans the auto handler's response to a bulk read: each motor with a target is driven
/// towards it from its position, each motor without one is stopped.
pub fn plan_auto(targets: &MotorTargets, positions: &[i32; 4]) -> (plan: Vec<AutoDrive>)
    ensures
        plan.len() == 4,
        forall|i: int|
            0 <= i < 4 ==> #[trigger] plan[i] == match targets.seq()[i] {
                None => AutoDrive::Stop,
                Some(t) => AutoDrive::Track { target: t, position: positions[i] },
            },
{
    let ts = targets.to_array();
    let mut plan: Vec<AutoDrive> = Vec::new();
    for i in 0..4usize
        invariant
            plan.len() == i,
            ts@ == targets.seq(),
            forall|j: int|
                0 <= j < i ==> #[trigger] plan[j] == match targets.seq()[j] {
                    None => AutoDrive::Stop,
                    Some(t) => AutoDrive::Track { target: t, position: positions[j] },
                },
    {
        let d = match ts[i] {
            None => AutoDrive::Stop,
            Some(t) => AutoDrive::Track { target: t, position: positions[i] },
        };
        plan.push(d);
    }
    plan
}

/// How close, in encoder ticks, every motor must come to its target to finish a leg.
pub const AUTO_TOLERANCE: i32 = 25;

/// The legs of the example autonomous routine, in order: first motors 0 and 2 drive to
/// 1000 and 1500, then motors 1 and 3 drive to -1000 and -1500 while 0 and 2 go unpowered.
pub fn auto_legs() -> (legs: Vec<MotorTargets>)
    ensures
        legs@ == auto_legs_spec(),
{
    let mut legs: Vec<MotorTargets> = Vec::new();
    legs.push(MotorTargets { m0_target: Some(1000), m1_target: None, m2_target: Some(1500), m3_target: None });
    legs.push(MotorTargets { m0_target: None, m1_target: Some(-1000), m2_target: None, m3_target: Some(-1500) });
    legs
}

/// The legs of the example autonomous routine, in order.
pub open spec fn auto_legs_spec() -> Seq<MotorTargets> {
    seq![
        MotorTargets { m0_target: Some(1000), m1_target: None, m2_target: Some(1500), m3_target: None },
        MotorTargets { m0_target: None, m1_target: Some(-1000i32), m2_target: None, m3_target: Some(-1500i32) },
    ]
}

/// The example autonomous routine's progress: how many of its legs are finished.
pub struct AutoRoutine {
    done: usize,
}

/// The routine's progress after a status report when `done` legs are finished: the current
/// leg counts as finished, and the next one starts, once the report is near its targets.
pub open spec fn routine_next(done: nat, status: MotorStatusUpdate) -> nat {
    if done < auto_legs_spec().len() && status.near_spec(auto_legs_spec()[done as int], AUTO_TOLERANCE) {
        done + 1
    } else {
        done
    }
}

impl AutoRoutine {
    #[verifier::type_invariant]
    spec fn inv(self) -> bool {
        self.done <= 2
    }

    /// How many legs are finished; also the stage number the routine reports.
    pub closed spec fn legs_done(self) -> nat {
        self.done as nat
    }

    /// A routine with no leg finished.
    pub fn new() -> (r: Self)
        ensures
            r.legs_done() == 0,
    {
        AutoRoutine { done: 0 }
    }

    /// The stage number to report: the number of finished legs.
    pub fn stage(&self) -> (s: usize)
        ensures
            s == self.legs_done(),
            s <= 2,
    {
        proof {
            use_type_invariant(self);
        }
        self.done
    }

    /// The targets of the leg in progress, or `None` once every leg is finished.
    pub fn current_leg(&self) -> (leg: Option<MotorTargets>)
        ensures
            leg == (if self.legs_done() < 2 {
                Some(auto_legs_spec()[self.legs_done() as int])
            } else {
                None::<MotorTargets>
            }),
    {
        proof {
            use_type_invariant(self);
        }
        let legs = auto_legs();
        if self.done < legs.len() {
            Some(legs[self.done])
        } else {
            None
        }
    }

    /// Whether `status` finishes the leg in progress.
    pub fn leg_done(&self, status: &MotorStatusUpdate) -> (b: bool)
        ensures
            b == (routine_next(self.legs_done(), *status) != self.legs_done()),
    {
        match self.current_leg() {
            Some(leg) => leg_finished(status, &leg),
            None => false,
        }
    }

    /// Takes a status report: where it finishes the leg in progress, the routine moves on to
    /// the next leg and `true` is returned.
    pub fn advance(&mut self, status: &MotorStatusUpdate) -> (moved: bool)
        ensures
            final(self).legs_done() == routine_next(old(self).legs_done(), *status),
            moved == (final(self).legs_done() != old(self).legs_done()),
    {
        proof {
            use_type_invariant(&*self);
        }
        if self.leg_done(status) {
            self.done = self.done + 1;
            true
        } else {
            false
        }
    }
}

/// The routine runs its legs in order: it moves on by at most one leg per report, only
/// when the report is near the leg in progress, never goes back, and stops after the last.
pub proof fn lemma_routine_runs_legs_in_order(done: nat, status: MotorStatusUpdate)
    requires
        done <= auto_legs_spec().len(),
    ensures
        done <= routine_next(done, status) <= done + 1,
        routine_next(done, status) <= auto_legs_spec().len(),
        routine_next(done, status) == done + 1 ==> status.near_spec(auto_legs_spec()[done as int], AUTO_TOLERANCE),
        done == auto_legs_spec().len() ==> routine_next(done, status) == done,
{
}

/// A leg is finished once the reported positions are near its targets.
pub fn leg_finished(status: &MotorStatusUpdate, leg: &MotorTargets) -> (b: bool)
    ensures
        b == status.near_spec(*leg, AUTO_TOLERANCE),
{
    status.near(leg, AUTO_TOLERANCE)
}

/// Positions that sit exactly on their targets are near them, whatever the tolerance.
pub proof fn lemma_on_target_is_near(status: MotorStatusUpdate, target: MotorTargets, tolerance: i32)
    requires
        forall|i: int| 0 <= i < 4 ==> (#[trigger] target.seq()[i] matches Some(v) ==> status.seq()[i] == v),
    ensures
        status.near_spec(target, tolerance),
{
    assert forall|i: int| 0 <= i < 4 implies within(#[trigger] status.seq()[i], target.seq()[i], tolerance) by {
        assert(target.seq()[i] matches Some(v) ==> status.seq()[i] == v);
    }
}

/// Motors without targets never hold a leg back.
pub proof fn lemma_untargeted_always_near(status: MotorStatusUpdate, target: MotorTargets, tolerance: i32)
    requires
        forall|i: int| 0 <= i < 4 ==> #[trigger] target.seq()[i] is None,
    ensures
        status.near_spec(target, tolerance),
{
    assert forall|i: int| 0 <= i < 4 implies within(#[trigger] status.seq()[i], target.seq()[i], tolerance) by {
        assert(target.seq()[i] is None);
    }
}

/// Widening the tolerance keeps positions near.
pub proof fn lemma_near_monotone_in_tolerance(status: MotorStatusUpdate, target: MotorTargets, t1: i32, t2: i32)
    requires
        status.near_spec(target, t1),
        abs(t1 as int) <= abs(t2 as int),
    ensures
        status.near_spec(target, t2),
{
    assert forall|i: int| 0 <= i < 4 implies within(#[trigger] status.seq()[i], target.seq()[i], t2) by {
        assert(within(status.seq()[i], target.seq()[i], t1));
    }
}

/// What `near` means, field by field: every motor with a target `v` sits within the
/// tolerance's size of `v`; motors without a target are not looked at.
pub proof fn lemma_near_meaning(s: MotorStatusUpdate, t: MotorTargets, tol: i32)
    ensures
        ({
            let w = if tol < 0 { -tol } else { tol as int };
            s.near_spec(t, tol) <==> {
                &&& (t.m0_target matches Some(v) ==> -w <= s.m0 - v <= w)
                &&& (t.m1_target matches Some(v) ==> -w <= s.m1 - v <= w)
                &&& (t.m2_target matches Some(v) ==> -w <= s.m2 - v <= w)
                &&& (t.m3_target matches Some(v) ==> -w <= s.m3 - v <= w)
            }
        }),
{
    assert(s.seq()[0] == s.m0 && s.seq()[1] == s.m1 && s.seq()[2] == s.m2 && s.seq()[3] == s.m3);
    assert(t.seq()[0] == t.m0_target && t.seq()[1] == t.m1_target && t.seq()[2] == t.m2_target
        && t.seq()[3] == t.m3_target);
    if !s.near_spec(t, tol) {
        let i = choose|i: int| 0 <= i < 4 && !within(#[trigger] s.seq()[i], t.seq()[i], tol);
        assert(i == 0 || i == 1 || i == 2 || i == 3);
    }
}

/// A report finishes the leg in progress exactly when every motor that the leg targets is
/// within 25 ticks of its target, whatever the other motors read: the first leg needs motor
/// 0 near 1000 and motor 2 near 1500, the second motor 1 near -1000 and motor 3 near -1500,
/// and after the second nothing moves the routine on.
pub proof fn lemma_routine_finishes_near_legs(s: MotorStatusUpdate, done: nat)
    ensures
        auto_legs_spec().len() == 2,
        (auto_legs_spec()[0] == MotorTargets { m0_target: Some(1000), m1_target: None, m2_target: Some(1500), m3_target: None }),
        (auto_legs_spec()[1] == MotorTargets { m0_target: None, m1_target: Some(-1000i32), m2_target: None, m3_target: Some(-1500i32) }),
        routine_next(0, s) == (if -25 <= s.m0 - 1000 <= 25 && -25 <= s.m2 - 1500 <= 25 { 1nat } else { 0nat }),
        routine_next(1, s) == (if -25 <= s.m1 + 1000 <= 25 && -25 <= s.m3 + 1500 <= 25 { 2nat } else { 1nat }),
        routine_next(2, s) == 2,
        done < auto_legs_spec().len() && s.near_spec(auto_legs_spec()[done as int], AUTO_TOLERANCE)
            ==> routine_next(done, s) == done + 1,
{
    lemma_near_meaning(s, auto_legs_spec()[0], AUTO_TOLERANCE);
    lemma_near_meaning(s, auto_legs_spec()[1], AUTO_TOLERANCE);
}

} // verus!

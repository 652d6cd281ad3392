use vstd::prelude::*;

verus! {

/// How a motor channel of a hub is driven.
#[derive(Clone, Copy, Debug, PartialEq, Eq, Structural)]
pub enum RunMode {
    /// Open-loop power, no encoder feedback.
    RunWithoutEncoder,
    /// Closed-loop velocity control on the encoder.
    RunUsingEncoder,
    /// Closed-loop position control on the encoder.
    RunToPosition,
}

/// A change to the neutrino target table: `(hub, motor, value)`.
///
/// `P` is the PIDF coefficient set, which this library only carries.
#[derive(Clone, Copy, Debug, PartialEq)]
pub enum NeutrinoStateUpdate<P> {
    PidfUpdate(u8, u8, P),
    VelUpdate(u8, u8, i16),
    PosUpdate(u8, u8, i32),
}

impl<P> NeutrinoStateUpdate<P> {
    /// The hub the update is addressed to.
    pub open spec fn hub(self) -> int {
        match self {
            NeutrinoStateUpdate::PidfUpdate(h, _, _) => h as int,
            NeutrinoStateUpdate::VelUpdate(h, _, _) => h as int,
            NeutrinoStateUpdate::PosUpdate(h, _, _) => h as int,
        }
    }

    /// The motor channel the update is addressed to.
    pub open spec fn motor(self) -> int {
        match self {
            NeutrinoStateUpdate::PidfUpdate(_, m, _) => m as int,
            NeutrinoStateUpdate::VelUpdate(_, m, _) => m as int,
            NeutrinoStateUpdate::PosUpdate(_, m, _) => m as int,
        }
    }

    /// The update names a cell of the table: hub 0 or 1, motor 0 to 3.
    pub open spec fn in_range(self) -> bool {
        0 <= self.hub() < 2 && 0 <= self.motor() < 4
    }
}

/// Replaces entry `(h, m)` of a table of rows.
pub open spec fn set_cell<T>(table: Seq<Seq<T>>, h: int, m: int, v: T) -> Seq<Seq<T>> {
    table.update(h, table[h].update(m, v))
}

/// A table of two rows of four entries each.
pub open spec fn is_grid<T>(table: Seq<Seq<T>>) -> bool {
    table.len() == 2 && forall|h: int| 0 <= h < 2 ==> (#[trigger] table[h]).len() == 4
}

/// The mathematical content of a `NeutrinoTarget`: one row per hub, one entry per motor.
#[verifier::ext_equal]
pub struct TargetTable<P> {
    pub pids: Seq<Seq<P>>,
    pub vel_targets: Seq<Seq<i16>>,
    pub pos_targets: Seq<Seq<i32>>,
}

impl<P> TargetTable<P> {
    pub open spec fn wf(self) -> bool {
        is_grid(self.pids) && is_grid(self.vel_targets) && is_grid(self.pos_targets)
    }

    /// The table after `u`: the one entry that `u` names, in the table of its kind, holds
    /// `u`'s value.
    pub open spec fn apply(self, u: NeutrinoStateUpdate<P>) -> TargetTable<P> {
        match u {
            NeutrinoStateUpdate::PidfUpdate(h, m, p) => TargetTable {
                pids: set_cell(self.pids, h as int, m as int, p),
                ..self
            },
            NeutrinoStateUpdate::VelUpdate(h, m, v) => TargetTable {
                vel_targets: set_cell(self.vel_targets, h as int, m as int, v),
                ..self
            },
            NeutrinoStateUpdate::PosUpdate(h, m, p) => TargetTable {
                pos_targets: set_cell(self.pos_targets, h as int, m as int, p),
                ..self
            },
        }
    }
}

/// The PIDF coefficients, velocity targets and position targets that the SDK asked for,
/// for each of the two hubs and each of their four motors.
#[derive(Clone, Copy, Debug, PartialEq, Default)]
pub struct NeutrinoTarget<P> {
    pids: [[P; 4]; 2],
    vel_targets: [[i16; 4]; 2],
    pos_targets: [[i32; 4]; 2],
}

pub open spec fn grid_view<T>(a: [[T; 4]; 2]) -> Seq<Seq<T>> {
    a@.map_values(|row: [T; 4]| row@)
}

impl<P> View for NeutrinoTarget<P> {
    type V = TargetTable<P>;

    closed spec fn view(&self) -> TargetTable<P> {
        TargetTable {
            pids: grid_view(self.pids),
            vel_targets: grid_view(self.vel_targets),
            pos_targets: grid_view(self.pos_targets),
        }
    }
}

proof fn lemma_grid_view<T>(a: [[T; 4]; 2])
    ensures
        is_grid(grid_view(a)),
        forall|h: int, m: int|
            0 <= h < 2 && 0 <= m < 4 ==> #[trigger] grid_view(a)[h][m] == a[h][m],
{
    assert forall|h: int| 0 <= h < 2 implies (#[trigger] grid_view(a)[h]).len() == 4 by {
        assert(grid_view(a)[h] == a[h]@);
    }
}

fn set_grid<T: Copy>(a: &mut [[T; 4]; 2], h: usize, m: usize, v: T)
    requires
        h < 2,
        m < 4,
    ensures
        grid_view(*final(a)) == set_cell(grid_view(*old(a)), h as int, m as int, v),
{
    let mut row = a[h];
    row[m] = v;
    a[h] = row;
    proof {
        let new_g = grid_view(*a);
        let want = set_cell(grid_view(*old(a)), h as int, m as int, v);
        lemma_grid_view(*a);
        lemma_grid_view(*old(a));
        assert forall|i: int| 0 <= i < 2 implies #[trigger] new_g[i] =~= want[i] by {
            if i == h as int {
                assert(new_g[i] == row@);
            } else {
                assert(new_g[i] == old(a)[i]@);
            }
        }
        assert(new_g =~= want);
    }
}

impl<P: Copy> NeutrinoTarget<P> {
    /// A table with `pid` for every motor and all velocity and position targets zero.
    pub fn new(pid: P) -> (t: Self)
        ensures
            t@.wf(),
            forall|h: int, m: int| 0 <= h < 2 && 0 <= m < 4 ==> #[trigger] t@.pids[h][m] == pid,
            forall|h: int, m: int| 0 <= h < 2 && 0 <= m < 4 ==> #[trigger] t@.vel_targets[h][m] == 0,
            forall|h: int, m: int| 0 <= h < 2 && 0 <= m < 4 ==> #[trigger] t@.pos_targets[h][m] == 0,
    {
        let t = NeutrinoTarget {
            pids: [[pid, pid, pid, pid], [pid, pid, pid, pid]],
            vel_targets: [[0, 0, 0, 0], [0, 0, 0, 0]],
            pos_targets: [[0, 0, 0, 0], [0, 0, 0, 0]],
        };
        proof {
            lemma_grid_view(t.pids);
            lemma_grid_view(t.vel_targets);
            lemma_grid_view(t.pos_targets);
        }
        t
    }

    /// Records `update` in the table: the entry it names takes its value.
    pub fn apply_update(&mut self, update: &NeutrinoStateUpdate<P>)
        requires
            update.in_range(),
        ensures
            final(self)@ == old(self)@.apply(*update),
            final(self)@.wf(),
    {
        match update {
            NeutrinoStateUpdate::PidfUpdate(h, m, pid) => {
                set_grid(&mut self.pids, *h as usize, *m as usize, *pid);
            },
            NeutrinoStateUpdate::VelUpdate(h, m, vel) => {
                set_grid(&mut self.vel_targets, *h as usize, *m as usize, *vel);
            },
            NeutrinoStateUpdate::PosUpdate(h, m, pos) => {
                set_grid(&mut self.pos_targets, *h as usize, *m as usize, *pos);
            },
        }
        proof {
            lemma_grid_view(self.pids);
            lemma_grid_view(self.vel_targets);
            lemma_grid_view(self.pos_targets);
        }
    }

    /// The PIDF coefficients of motor `m` on hub `h`.
    pub fn pid(&self, h: u8, m: u8) -> (p: P)
        requires
            h < 2,
            m < 4,
        ensures
            p == self@.pids[h as int][m as int],
    {
        proof {
            lemma_grid_view(self.pids);
        }
        self.pids[h as usize][m as usize]
    }

    /// The velocity target of motor `m` on hub `h`.
    pub fn vel_target(&self, h: u8, m: u8) -> (v: i16)
        requires
            h < 2,
            m < 4,
        ensures
            v == self@.vel_targets[h as int][m as int],
    {
        proof {
            lemma_grid_view(self.vel_targets);
        }
        self.vel_targets[h as usize][m as usize]
    }

    /// The position target of motor `m` on hub `h`.
    pub fn pos_target(&self, h: u8, m: u8) -> (p: i32)
        requires
            h < 2,
            m < 4,
        ensures
            p == self@.pos_targets[h as int][m as int],
    {
        proof {
            lemma_grid_view(self.pos_targets);
        }
        self.pos_targets[h as usize][m as usize]
    }
}


/// What a bulk read reports of one motor channel.
#[derive(Clone, Copy, Debug, PartialEq, Eq, Structural)]
pub struct MotorReading {
    pub velocity: i32,
    pub position: i32,
}

/// What the neutrino feedback loop does with one motor after a bulk read.
#[derive(Clone, Copy, Debug, PartialEq, Eq, Structural)]
pub enum MotorDrive {
    /// Leave the motor alone.
    Idle,
    /// Run the motor's PIDF towards `target` from the measured velocity and send the power.
    TrackVelocity { target: i16, measured: i32 },
    /// Run the motor's PIDF towards `target` from the measured position and send the power.
    TrackPosition { target: i32, measured: i32 },
}

/// What the neutrino feedback loop does after one bulk read of a hub.
pub struct BulkReadPlan {
    /// One entry per motor channel, 0 to 3.
    pub motors: Vec<MotorDrive>,
    /// Ask the hub for the next bulk read, so that the loop runs again.
    pub request_bulk_read: bool,
}

/// The drive of motor `i` of hub `hub` in `mode`, given the table and its reading.
pub open spec fn drive_of<P>(t: TargetTable<P>, hub: int, i: int, mode: RunMode, r: MotorReading) -> MotorDrive {
    match mode {
        RunMode::RunWithoutEncoder => MotorDrive::Idle,
        RunMode::RunUsingEncoder => MotorDrive::TrackVelocity {
            target: t.vel_targets[hub][i],
            measured: r.velocity,
        },
        RunMode::RunToPosition => MotorDrive::TrackPosition {
            target: t.pos_targets[hub][i],
            measured: r.position,
        },
    }
}

/// The drive of motor `i`: idle without a target table, else as the channel's mode says.
pub open spec fn planned_drive<P>(
    target: Option<TargetTable<P>>,
    hub: int,
    i: int,
    mode: RunMode,
    r: MotorReading,
) -> MotorDrive {
    match target {
        None => MotorDrive::Idle,
        Some(t) => drive_of(t, hub, i, mode, r),
    }
}

impl<P: Copy> NeutrinoTarget<P> {
    /// The drive of motor `i` of hub `hub`.
    fn drive(&self, hub: u8, i: u8, mode: RunMode, r: MotorReading) -> (d: MotorDrive)
        requires
            hub < 2,
            i < 4,
        ensures
            d == drive_of(self@, hub as int, i as int, mode, r),
    {
        match mode {
            RunMode::RunWithoutEncoder => MotorDrive::Idle,
            RunMode::RunUsingEncoder => MotorDrive::TrackVelocity {
                target: self.vel_target(hub, i),
                measured: r.velocity,
            },
            RunMode::RunToPosition => MotorDrive::TrackPosition {
                target: self.pos_target(hub, i),
                measured: r.position,
            },
        }
    }
}

/// Plans the neutrino feedback loop's response to a bulk read of hub `hub_id`: each motor is
/// driven as its channel's mode says from the target table, if there is one, and the next
/// bulk read is requested exactly when some motor is driven.
pub fn plan_bulk_read<P: Copy>(
    target: Option<&NeutrinoTarget<P>>,
    hub_id: u8,
    modes: &[RunMode; 4],
    readings: &[MotorReading; 4],
) -> (plan: BulkReadPlan)
    requires
        hub_id < 2,
    ensures
        plan.motors.len() == 4,
        forall|i: int|
            0 <= i < 4 ==> #[trigger] plan.motors[i] == planned_drive(
                match target {
                    Some(t) => Some(t@),
                    None => None,
                },
                hub_id as int,
                i,
                modes[i],
                readings[i],
            ),
        plan.request_bulk_read <==> exists|i: int| 0 <= i < 4 && !(#[trigger] plan.motors[i] is Idle),
{
    let mut motors: Vec<MotorDrive> = Vec::new();
    let mut needs_update = false;
    let ghost tv = match target {
        Some(t) => Some(t@),
        None => None,
    };
    for i in 0..4u8
        invariant
            motors.len() == i,
            forall|j: int|
                0 <= j < i ==> #[trigger] motors[j] == planned_drive(tv, hub_id as int, j, modes[j], readings[j]),
            needs_update <==> exists|j: int| 0 <= j < i && !(#[trigger] motors[j] is Idle),
            hub_id < 2,
            tv == match target {
                Some(t) => Some(t@),
                None => None,
            },
    {
        let d = match target {
            None => MotorDrive::Idle,
            Some(t) => t.drive(hub_id, i, modes[i as usize], readings[i as usize]),
        };
        let idle = match d {
            MotorDrive::Idle => true,
            _ => false,
        };
        let ghost prev = motors@;
        motors.push(d);
        if !idle {
            needs_update = true;
        }
        proof {
            assert(forall|j: int| 0 <= j < i ==> motors@[j] == prev[j]);
            assert(motors@[i as int] == d);
            if needs_update {
                if !idle {
                    assert(!(motors[i as int] is Idle));
                } else {
                    let j = choose|j: int| 0 <= j < i && !(#[trigger] prev[j] is Idle);
                    assert(!(motors[j] is Idle));
                }
            } else {
                assert forall|j: int| 0 <= j < i + 1 implies (#[trigger] motors[j] is Idle) by {
                    if j < i {
                        assert(motors[j] == prev[j]);
                    }
                }
            }
        }
    }
    BulkReadPlan { motors, request_bulk_read: needs_update }
}

/// A bulk read leads to another exactly when there is a target table and some motor of the
/// hub runs a feedback loop; so the loop stops once every channel is back to open-loop power.
pub proof fn lemma_bulk_reads_continue_while_closed_loop<P>(
    target: Option<TargetTable<P>>,
    hub: int,
    modes: [RunMode; 4],
    readings: [MotorReading; 4],
)
    ensures
        (exists|i: int|
            0 <= i < 4 && !(#[trigger] planned_drive(target, hub, i, modes[i], readings[i]) is Idle))
            <==> (target is Some && exists|i: int|
            0 <= i < 4 && #[trigger] modes[i] != RunMode::RunWithoutEncoder),
{
    if target is Some {
        assert forall|i: int| 0 <= i < 4 implies (#[trigger] planned_drive(target, hub, i, modes[i], readings[i]) is Idle)
            == (modes[i] == RunMode::RunWithoutEncoder) by {}
        if exists|i: int| 0 <= i < 4 && #[trigger] modes[i] != RunMode::RunWithoutEncoder {
            let i = choose|i: int| 0 <= i < 4 && #[trigger] modes[i] != RunMode::RunWithoutEncoder;
            assert(!(planned_drive(target, hub, i, modes[i], readings[i]) is Idle));
        }
    }
}

/// How the neutrino debugging gamepad changes the two proxy switches.
#[derive(Clone, Copy, Debug, PartialEq, Eq, Structural)]
pub struct SwitchChanges {
    /// The new value of the switch that enables the neutrino proxy, if it changes.
    pub neutrino: Option<bool>,
    /// The new value of the switch that enables the proxy's extras, if it changes.
    pub extras: Option<bool>,
}

/// What the second gamepad's d-pad does to the proxy switches: left turns the proxy on and
/// right off (left wins if both are down); up turns the extras on and down off (up wins).
pub fn switch_changes(dpad_left: bool, dpad_right: bool, dpad_up: bool, dpad_down: bool) -> (c: SwitchChanges)
    ensures
        c.neutrino == (if dpad_left { Some(true) } else if dpad_right { Some(false) } else { None::<bool> }),
        c.extras == (if dpad_up { Some(true) } else if dpad_down { Some(false) } else { None::<bool> }),
{
    let neutrino = if dpad_left {
        Some(true)
    } else if dpad_right {
        Some(false)
    } else {
        None
    };
    let extras = if dpad_up {
        Some(true)
    } else if dpad_down {
        Some(false)
    } else {
        None
    };
    SwitchChanges { neutrino, extras }
}

/// Reading back the entry that an update names gives the update's value.
pub proof fn lemma_update_reads_back<P>(t: TargetTable<P>, u: NeutrinoStateUpdate<P>)
    requires
        t.wf(),
        u.in_range(),
    ensures
        t.apply(u).wf(),
        match u {
            NeutrinoStateUpdate::PidfUpdate(h, m, p) => t.apply(u).pids[h as int][m as int] == p,
            NeutrinoStateUpdate::VelUpdate(h, m, v) => t.apply(u).vel_targets[h as int][m as int]
                == v,
            NeutrinoStateUpdate::PosUpdate(h, m, p) => t.apply(u).pos_targets[h as int][m as int]
                == p,
        },
{
}

/// An update leaves every other entry of every table as it was.
pub proof fn lemma_update_keeps_other_entries<P>(
    t: TargetTable<P>,
    u: NeutrinoStateUpdate<P>,
    h: int,
    m: int,
)
    requires
        t.wf(),
        u.in_range(),
        0 <= h < 2,
        0 <= m < 4,
        h != u.hub() || m != u.motor(),
    ensures
        t.apply(u).pids[h][m] == t.pids[h][m],
        t.apply(u).vel_targets[h][m] == t.vel_targets[h][m],
        t.apply(u).pos_targets[h][m] == t.pos_targets[h][m],
{
}

/// Two updates to different entries, or of different kinds, give the same table in either
/// order.
pub proof fn lemma_independent_updates_commute<P>(
    t: TargetTable<P>,
    u1: NeutrinoStateUpdate<P>,
    u2: NeutrinoStateUpdate<P>,
)
    requires
        t.wf(),
        u1.in_range(),
        u2.in_range(),
        u1.hub() != u2.hub() || u1.motor() != u2.motor() || !same_kind(u1, u2),
    ensures
        t.apply(u1).apply(u2) == t.apply(u2).apply(u1),
{
    let (h1, m1, h2, m2) = (u1.hub(), u1.motor(), u2.hub(), u2.motor());
    if same_kind(u1, u2) {
        match u1 {
            NeutrinoStateUpdate::PidfUpdate(_, _, p1) => {
                let p2 = u2->PidfUpdate_2;
                lemma_set_cells_commute(t.pids, h1, m1, p1, h2, m2, p2);
            },
            NeutrinoStateUpdate::VelUpdate(_, _, v1) => {
                let v2 = u2->VelUpdate_2;
                lemma_set_cells_commute(t.vel_targets, h1, m1, v1, h2, m2, v2);
            },
            NeutrinoStateUpdate::PosUpdate(_, _, q1) => {
                let q2 = u2->PosUpdate_2;
                lemma_set_cells_commute(t.pos_targets, h1, m1, q1, h2, m2, q2);
            },
        }
    }
    let a = t.apply(u1).apply(u2);
    let b = t.apply(u2).apply(u1);
    assert(a =~= b);
}

proof fn lemma_set_cells_commute<T>(g: Seq<Seq<T>>, h1: int, m1: int, v1: T, h2: int, m2: int, v2: T)
    requires
        is_grid(g),
        0 <= h1 < 2,
        0 <= m1 < 4,
        0 <= h2 < 2,
        0 <= m2 < 4,
        h1 != h2 || m1 != m2,
    ensures
        set_cell(set_cell(g, h1, m1, v1), h2, m2, v2) == set_cell(set_cell(g, h2, m2, v2), h1, m1, v1),
{
    let g1 = set_cell(g, h1, m1, v1);
    let g2 = set_cell(g, h2, m2, v2);
    let a = set_cell(g1, h2, m2, v2);
    let b = set_cell(g2, h1, m1, v1);
    assert(g1.len() == 2 && g2.len() == 2);
    if h1 == h2 {
        let r = g[h1];
        assert(g1[h1] == r.update(m1, v1));
        assert(g2[h1] == r.update(m2, v2));
        assert(a[h1] == r.update(m1, v1).update(m2, v2));
        assert(b[h1] == r.update(m2, v2).update(m1, v1));
        assert(a[h1] =~= b[h1]);
    } else {
        assert(a[h1] == g1[h1]);
        assert(b[h2] == g2[h2]);
        assert(a[h1] =~= b[h1]);
        assert(a[h2] =~= b[h2]);
    }
    assert(a =~= b);
}

proof fn lemma_set_cell_twice<T>(g: Seq<Seq<T>>, h: int, m: int, v: T)
    requires
        is_grid(g),
        0 <= h < 2,
        0 <= m < 4,
    ensures
        set_cell(set_cell(g, h, m, v), h, m, v) == set_cell(g, h, m, v),
{
    let a = set_cell(set_cell(g, h, m, v), h, m, v);
    let b = set_cell(g, h, m, v);
    assert(a[h] =~= b[h]);
    assert(a =~= b);
}

/// Applying the same update twice is the same as applying it once.
pub proof fn lemma_update_idempotent<P>(t: TargetTable<P>, u: NeutrinoStateUpdate<P>)
    requires
        t.wf(),
        u.in_range(),
    ensures
        t.apply(u).apply(u) == t.apply(u),
{
    match u {
        NeutrinoStateUpdate::PidfUpdate(h, m, p) => lemma_set_cell_twice(t.pids, h as int, m as int, p),
        NeutrinoStateUpdate::VelUpdate(h, m, v) => lemma_set_cell_twice(t.vel_targets, h as int, m as int, v),
        NeutrinoStateUpdate::PosUpdate(h, m, q) => lemma_set_cell_twice(t.pos_targets, h as int, m as int, q),
    }
    assert(t.apply(u).apply(u) =~= t.apply(u));
}

/// Both updates write the same table.
pub open spec fn same_kind<P>(u1: NeutrinoStateUpdate<P>, u2: NeutrinoStateUpdate<P>) -> bool {
    ||| (u1 is PidfUpdate && u2 is PidfUpdate)
    ||| (u1 is VelUpdate && u2 is VelUpdate)
    ||| (u1 is PosUpdate && u2 is PosUpdate)
}

/// The feedback loop of hub `h` tracks exactly what was written for it: after a velocity
/// target `v` is written for motor `i` of hub `h`, a velocity-mode motor `i` of that hub is
/// driven towards `v` from its measured velocity; after a position target `p`, a
/// position-mode motor towards `p` from its measured position; an open-loop motor, or any
/// motor without a table, is left alone; and writes for the other hub change nothing here.
pub proof fn lemma_loop_tracks_written_targets<P>(
    t: TargetTable<P>,
    h: u8,
    i: u8,
    v: i16,
    p: i32,
    mode: RunMode,
    r: MotorReading,
)
    requires
        t.wf(),
        h < 2,
        i < 4,
    ensures
        (planned_drive(Some(t.apply(NeutrinoStateUpdate::VelUpdate(h, i, v))), h as int, i as int, RunMode::RunUsingEncoder, r)
            == MotorDrive::TrackVelocity { target: v, measured: r.velocity }),
        (planned_drive(Some(t.apply(NeutrinoStateUpdate::PosUpdate(h, i, p))), h as int, i as int, RunMode::RunToPosition, r)
            == MotorDrive::TrackPosition { target: p, measured: r.position }),
        (planned_drive(Some(t), h as int, i as int, RunMode::RunWithoutEncoder, r) == MotorDrive::Idle),
        (planned_drive(None::<TargetTable<P>>, h as int, i as int, mode, r) == MotorDrive::Idle),
        (planned_drive(Some(t.apply(NeutrinoStateUpdate::VelUpdate((1 - h) as u8, i, v))), h as int, i as int, mode, r)
            == planned_drive(Some(t), h as int, i as int, mode, r)),
        (planned_drive(Some(t.apply(NeutrinoStateUpdate::PosUpdate((1 - h) as u8, i, p))), h as int, i as int, mode, r)
            == planned_drive(Some(t), h as int, i as int, mode, r)),
{
}

} // verus!

use vstd::prelude::*;

verus! {

/// The op mode that an integer chosen in the driver-station config selects.
#[derive(Clone, Copy, Debug, PartialEq, Eq, Structural)]
pub enum OpMode {
    /// Pass-through proxy that acknowledges motor writes itself.
    Neutrino,
    /// Plain mecanum teleop driven from the gamepad handler.
    Mecanum,
    /// Mecanum teleop that switches to a position-holding brake on "a".
    BrakeModes,
    /// Autonomous routine that drives motors to position targets.
    AutoPids,
    /// Teleop loop that runs without the robot framework.
    Bare,
}

/// What `select_opmode` returns for `to_run`.
pub open spec fn opmode_of(to_run: int) -> OpMode {
    if to_run == 0 {
        OpMode::Neutrino
    } else if to_run == 1 {
        OpMode::Mecanum
    } else if to_run == 2 {
        OpMode::BrakeModes
    } else if to_run == 3 {
        OpMode::AutoPids
    } else {
        OpMode::Bare
    }
}

/// Chooses the op mode to start: 0 to 3 pick the framework op modes, anything else runs the
/// bare loop.
pub fn select_opmode(to_run: i32) -> (mode: OpMode)
    ensures
        mode == opmode_of(to_run as int),
{
    match to_run {
        0 => OpMode::Neutrino,
        1 => OpMode::Mecanum,
        2 => OpMode::BrakeModes,
        3 => OpMode::AutoPids,
        _ => OpMode::Bare,
    }
}

/// The numbering of the op modes: 0 neutrino, 1 mecanum, 2 brake modes, 3 auto, and every
/// other number the bare loop.
pub proof fn lemma_opmode_numbering(to_run: int)
    ensures
        to_run == 0 <==> opmode_of(to_run) == OpMode::Neutrino,
        to_run == 1 <==> opmode_of(to_run) == OpMode::Mecanum,
        to_run == 2 <==> opmode_of(to_run) == OpMode::BrakeModes,
        to_run == 3 <==> opmode_of(to_run) == OpMode::AutoPids,
        !(0 <= to_run <= 3) <==> opmode_of(to_run) == OpMode::Bare,
{
}

} // verus!

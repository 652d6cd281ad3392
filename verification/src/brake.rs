use vstd::prelude::*;

verus! {

/// The two ways the brake op mode drives the robot.
#[derive(Clone, Copy, Debug, PartialEq, Eq, Structural)]
pub enum ControlMode {
    /// Hold every wheel at the position it had when the brake engaged.
    Brake,
    /// Drive from the gamepad sticks.
    Mecanum,
}

/// The other mode.
pub open spec fn toggled(mode: Option<ControlMode>) -> ControlMode {
    if mode == Some(ControlMode::Mecanum) {
        ControlMode::Brake
    } else {
        ControlMode::Mecanum
    }
}

/// What the gamepad handler of the brake op mode does on one gamepad update.
#[derive(Clone, Copy, Debug, PartialEq, Eq, Structural)]
pub struct GamepadDecision {
    /// Drive the wheels from the sticks.
    pub drive: bool,
    /// Request a bulk read, which starts the brake handler's loop.
    pub request_bulk_read: bool,
    /// Ask the main thread to switch to this mode.
    pub mode_request: Option<ControlMode>,
}

/// The gamepad handler's state: whether "a" was down on the previous update.
#[derive(Clone, Copy, Debug, PartialEq, Eq, Structural)]
pub struct ModeToggle {
    pub a_was_pressed: bool,
}

/// "a" went down on this update.
pub open spec fn pressed(state: ModeToggle, a: bool) -> bool {
    a && !state.a_was_pressed
}

/// The decision of the gamepad handler in `state` when "a" reads `a` and the current mode
/// is `mode`.
pub open spec fn gamepad_decision(state: ModeToggle, a: bool, mode: Option<ControlMode>) -> GamepadDecision {
    let driving = mode == Some(ControlMode::Mecanum);
    GamepadDecision {
        drive: driving,
        request_bulk_read: driving && pressed(state, a),
        mode_request: if pressed(state, a) { Some(toggled(mode)) } else { None },
    }
}

impl ModeToggle {
    /// A handler that has not seen "a" down.
    pub fn new() -> (s: Self)
        ensures
            !s.a_was_pressed,
    {
        ModeToggle { a_was_pressed: false }
    }

    /// One gamepad update: drives in mecanum mode, and on the update on which "a" goes down
    /// asks for the other mode (and, leaving mecanum, starts the bulk reads).
    pub fn update(&mut self, a: bool, mode: Option<ControlMode>) -> (d: GamepadDecision)
        ensures
            d == gamepad_decision(*old(self), a, mode),
            final(self).a_was_pressed == a,
    {
        let a_pressed = a && !self.a_was_pressed;
        self.a_was_pressed = a;
        let driving = match mode {
            Some(ControlMode::Mecanum) => true,
            _ => false,
        };
        let mode_request = if a_pressed {
            if driving {
                Some(ControlMode::Brake)
            } else {
                Some(ControlMode::Mecanum)
            }
        } else {
            None
        };
        GamepadDecision { drive: driving, request_bulk_read: driving && a_pressed, mode_request }
    }
}

/// Holding "a" down asks for a mode change once, on the update on which it went down.
pub proof fn lemma_held_button_fires_once(state: ModeToggle, mode1: Option<ControlMode>, mode2: Option<ControlMode>)
    ensures
        gamepad_decision(ModeToggle { a_was_pressed: true }, true, mode2).mode_request is None,
        gamepad_decision(state, true, mode1).mode_request is Some <==> !state.a_was_pressed,
{
}

/// A press asks for the mode other than the current one, so press, release and press again,
/// with the requested mode echoed back as the current one, return to the mode one started in.
pub proof fn lemma_two_presses_round_trip(start: ControlMode)
    ensures
        ({
            let s0 = ModeToggle { a_was_pressed: false };
            let d1 = gamepad_decision(s0, true, Some(start));
            let s1 = ModeToggle { a_was_pressed: true };
            let d2 = gamepad_decision(s1, false, d1.mode_request);
            let s2 = ModeToggle { a_was_pressed: false };
            let d3 = gamepad_decision(s2, true, d1.mode_request);
            &&& d1.mode_request == Some(toggled(Some(start)))
            &&& toggled(Some(start)) != start
            &&& d2.mode_request is None
            &&& d3.mode_request == Some(start)
        }),
{
}

/// What the brake handler does after a bulk read.
#[derive(Clone, Copy, Debug, PartialEq, Eq, Structural)]
pub enum BrakeAction {
    /// Not in brake mode: send nothing, and forget the held positions.
    Release,
    /// Entering brake mode: take the positions just read as the PID targets.
    Capture,
    /// In brake mode: drive every motor to its held position.
    Hold,
}

impl BrakeAction {
    /// Both brake actions request the next bulk read, so that the handler runs again.
    pub fn requests_bulk_read(&self) -> (b: bool)
        ensures
            b == !(*self is Release),
    {
        match self {
            BrakeAction::Release => false,
            _ => true,
        }
    }
}

/// The brake handler's state: whether its PID targets hold the positions from the moment
/// the brake engaged.
#[derive(Clone, Copy, Debug, PartialEq, Eq, Structural)]
pub struct BrakeHold {
    pub motor_target: bool,
}

/// The action of the brake handler in `state` in mode `mode`.
pub open spec fn brake_action(state: BrakeHold, mode: Option<ControlMode>) -> BrakeAction {
    if mode == Some(ControlMode::Brake) {
        if state.motor_target { BrakeAction::Hold } else { BrakeAction::Capture }
    } else {
        BrakeAction::Release
    }
}

/// The brake handler's state after a bulk read in mode `mode`.
pub open spec fn brake_next(mode: Option<ControlMode>) -> BrakeHold {
    BrakeHold { motor_target: mode == Some(ControlMode::Brake) }
}

impl BrakeHold {
    /// A handler with no targets taken.
    pub fn new() -> (s: Self)
        ensures
            !s.motor_target,
    {
        BrakeHold { motor_target: false }
    }

    /// One bulk read: in brake mode take the targets once, then hold them; in any other mode
    /// mark the targets stale.
    pub fn on_bulk_read(&mut self, mode: Option<ControlMode>) -> (action: BrakeAction)
        ensures
            action == brake_action(*old(self), mode),
            *final(self) == brake_next(mode),
    {
        match mode {
            Some(ControlMode::Brake) => {
                if self.motor_target {
                    BrakeAction::Hold
                } else {
                    self.motor_target = true;
                    BrakeAction::Capture
                }
            },
            _ => {
                self.motor_target = false;
                BrakeAction::Release
            },
        }
    }
}

/// Each time the brake engages it first takes the current positions, then holds them: a
/// bulk read in any other mode releases, the first brake read after it captures, and the
/// brake read after a brake read holds.
pub proof fn lemma_brake_captures_then_holds(state: BrakeHold, other: Option<ControlMode>)
    requires
        other != Some(ControlMode::Brake),
    ensures
        brake_action(state, other) == BrakeAction::Release,
        brake_action(brake_next(other), Some(ControlMode::Brake)) == BrakeAction::Capture,
        brake_action(brake_next(Some(ControlMode::Brake)), Some(ControlMode::Brake)) == BrakeAction::Hold,
{
}

/// What one gamepad update does, in terms of the inputs: the wheels are driven exactly in
/// mecanum mode; a bulk read is requested exactly on the update on which "a" goes down in
/// mecanum mode; a mode change is asked for exactly on that update, from mecanum to brake and
/// from anything else to mecanum; and the handler remembers the button as it reads now.
pub proof fn lemma_gamepad_update_meaning(s: ModeToggle, a: bool, mode: Option<ControlMode>)
    ensures
        gamepad_decision(s, a, mode).drive == (mode == Some(ControlMode::Mecanum)),
        gamepad_decision(s, a, mode).request_bulk_read == (mode == Some(ControlMode::Mecanum) && a && !s.a_was_pressed),
        !a ==> gamepad_decision(s, a, mode).mode_request is None,
        s.a_was_pressed ==> gamepad_decision(s, a, mode).mode_request is None,
        a && !s.a_was_pressed && mode == Some(ControlMode::Mecanum) ==> gamepad_decision(s, a, mode).mode_request
            == Some(ControlMode::Brake),
        a && !s.a_was_pressed && mode != Some(ControlMode::Mecanum) ==> gamepad_decision(s, a, mode).mode_request
            == Some(ControlMode::Mecanum),
{
}

/// What one bulk read does to the brake handler: in brake mode it captures the positions if
/// none are held and holds them otherwise, and afterwards they are held; in any other mode it
/// releases and afterwards none are held.
pub proof fn lemma_brake_update_meaning(s: BrakeHold, mode: Option<ControlMode>)
    ensures
        mode == Some(ControlMode::Brake) && !s.motor_target ==> brake_action(s, mode) == BrakeAction::Capture,
        mode == Some(ControlMode::Brake) && s.motor_target ==> brake_action(s, mode) == BrakeAction::Hold,
        mode != Some(ControlMode::Brake) ==> brake_action(s, mode) == BrakeAction::Release,
        brake_next(mode).motor_target == (mode == Some(ControlMode::Brake)),
{
}

} // verus!

use blaze_ftc_quickstart::auto::{auto_legs, AutoRoutine, leg_finished, plan_auto, AutoDrive, MotorStatusUpdate, MotorTargets, AUTO_TOLERANCE};
use blaze_ftc_quickstart::brake::{BrakeAction, BrakeHold, ControlMode, GamepadDecision, ModeToggle};
use blaze_ftc_quickstart::drive::{is_reversed, mecanum_mix, MixRow, DRIVE_SCALE_DENOMINATOR, DRIVE_SCALE_NUMERATOR};
use blaze_ftc_quickstart::opmode::{select_opmode, OpMode};

#[test]
fn opmode_numbers_select_framework_modes() {
    assert_eq!(select_opmode(0), OpMode::Neutrino);
    assert_eq!(select_opmode(1), OpMode::Mecanum);
    assert_eq!(select_opmode(2), OpMode::BrakeModes);
    assert_eq!(select_opmode(3), OpMode::AutoPids);
}

#[test]
fn other_numbers_run_bare() {
    assert_eq!(select_opmode(4), OpMode::Bare);
    assert_eq!(select_opmode(-1), OpMode::Bare);
    assert_eq!(select_opmode(i32::MAX), OpMode::Bare);
    assert_eq!(select_opmode(i32::MIN), OpMode::Bare);
}

#[test]
fn mixing_table_rows() {
    assert_eq!(mecanum_mix(0), MixRow { forward: 1, strafe: 1, turn: 1 });
    assert_eq!(mecanum_mix(1), MixRow { forward: 1, strafe: -1, turn: -1 });
    assert_eq!(mecanum_mix(2), MixRow { forward: 1, strafe: -1, turn: 1 });
    assert_eq!(mecanum_mix(3), MixRow { forward: 1, strafe: 1, turn: -1 });
}

#[test]
fn mixing_columns_are_orthogonal() {
    let rows: Vec<MixRow> = (0..4).map(mecanum_mix).collect();
    let dot = |f: fn(&MixRow) -> i32, g: fn(&MixRow) -> i32| rows.iter().map(|r| f(r) * g(r)).sum::<i32>();
    assert_eq!(dot(|r| r.forward as i32, |r| r.strafe as i32), 0);
    assert_eq!(dot(|r| r.forward as i32, |r| r.turn as i32), 0);
    assert_eq!(dot(|r| r.strafe as i32, |r| r.turn as i32), 0);
}

#[test]
fn mixing_reproduces_stick_formula() {
    let (y, x, turn) = (0.5f32, -0.25f32, 0.125f32);
    let s = DRIVE_SCALE_NUMERATOR as f32 / DRIVE_SCALE_DENOMINATOR as f32;
    assert_eq!(s, 0.7f32);
    let expected = [(y + x + turn) * s, (y - x - turn) * s, (y - x + turn) * s, (y + x - turn) * s];
    for m in 0..4u8 {
        let r = mecanum_mix(m);
        let p = (y * r.forward as f32 + x * r.strafe as f32 + turn * r.turn as f32) * s;
        assert_eq!(p, expected[m as usize]);
    }
}

#[test]
fn reversed_motors_are_one_and_three() {
    assert!(!is_reversed(0));
    assert!(is_reversed(1));
    assert!(!is_reversed(2));
    assert!(is_reversed(3));
    assert!(!is_reversed(4));
}

#[test]
fn press_in_mecanum_requests_brake_and_bulk_read() {
    let mut t = ModeToggle::new();
    let d = t.update(true, Some(ControlMode::Mecanum));
    assert_eq!(d, GamepadDecision { drive: true, request_bulk_read: true, mode_request: Some(ControlMode::Brake) });
    assert!(t.a_was_pressed);
}

#[test]
fn held_button_fires_once() {
    let mut t = ModeToggle::new();
    assert_eq!(t.update(true, Some(ControlMode::Mecanum)).mode_request, Some(ControlMode::Brake));
    let d = t.update(true, Some(ControlMode::Brake));
    assert_eq!(d, GamepadDecision { drive: false, request_bulk_read: false, mode_request: None });
}

#[test]
fn two_presses_round_trip() {
    let mut t = ModeToggle::new();
    let mode = t.update(true, Some(ControlMode::Mecanum)).mode_request;
    assert_eq!(mode, Some(ControlMode::Brake));
    assert_eq!(t.update(false, mode).mode_request, None);
    let d = t.update(true, mode);
    assert_eq!(d, GamepadDecision { drive: false, request_bulk_read: false, mode_request: Some(ControlMode::Mecanum) });
}

#[test]
fn press_without_mode_requests_mecanum() {
    let mut t = ModeToggle::new();
    let d = t.update(true, None);
    assert_eq!(d, GamepadDecision { drive: false, request_bulk_read: false, mode_request: Some(ControlMode::Mecanum) });
}

#[test]
fn brake_captures_then_holds_then_releases() {
    let mut b = BrakeHold::new();
    assert_eq!(b.on_bulk_read(Some(ControlMode::Brake)), BrakeAction::Capture);
    assert!(b.motor_target);
    assert_eq!(b.on_bulk_read(Some(ControlMode::Brake)), BrakeAction::Hold);
    assert_eq!(b.on_bulk_read(Some(ControlMode::Mecanum)), BrakeAction::Release);
    assert!(!b.motor_target);
    assert_eq!(b.on_bulk_read(None), BrakeAction::Release);
    assert_eq!(b.on_bulk_read(Some(ControlMode::Brake)), BrakeAction::Capture);
}

#[test]
fn brake_actions_request_bulk_reads() {
    assert!(BrakeAction::Capture.requests_bulk_read());
    assert!(BrakeAction::Hold.requests_bulk_read());
    assert!(!BrakeAction::Release.requests_bulk_read());
}

fn status(m: [i32; 4]) -> MotorStatusUpdate {
    MotorStatusUpdate::from_positions(&m)
}

#[test]
fn status_from_positions_keeps_order() {
    assert_eq!(status([1, 2, 3, 4]), MotorStatusUpdate { m0: 1, m1: 2, m2: 3, m3: 4 });
}

#[test]
fn near_checks_only_targeted_motors() {
    let t = MotorTargets { m0_target: Some(1000), m1_target: None, m2_target: Some(1500), m3_target: None };
    assert!(status([1000, -77777, 1500, 99999]).near(&t, 25));
    assert!(status([975, 0, 1525, 0]).near(&t, 25));
    assert!(!status([974, 0, 1500, 0]).near(&t, 25));
    assert!(!status([1000, 0, 1526, 0]).near(&t, 25));
}

#[test]
fn near_uses_tolerance_magnitude() {
    let t = MotorTargets { m0_target: Some(0), m1_target: None, m2_target: None, m3_target: None };
    assert!(status([-25, 0, 0, 0]).near(&t, -25));
    assert!(!status([26, 0, 0, 0]).near(&t, -25));
    assert!(status([i32::MAX, 0, 0, 0]).near(&t, i32::MIN));
}

#[test]
fn near_without_targets_is_true() {
    assert!(status([i32::MIN, i32::MAX, 5, -5]).near(&MotorTargets::none(), 0));
}

#[test]
fn near_handles_extreme_distances() {
    let t = MotorTargets { m0_target: Some(i32::MAX), m1_target: None, m2_target: None, m3_target: None };
    assert!(!status([i32::MIN, 0, 0, 0]).near(&t, i32::MAX));
    assert!(status([i32::MAX, 0, 0, 0]).near(&t, 0));
}

#[test]
fn auto_plan_stops_untargeted_motors() {
    let t = MotorTargets { m0_target: Some(1000), m1_target: None, m2_target: Some(1500), m3_target: None };
    let plan = plan_auto(&t, &[10, 20, 30, 40]);
    assert_eq!(
        plan,
        vec![
            AutoDrive::Track { target: 1000, position: 10 },
            AutoDrive::Stop,
            AutoDrive::Track { target: 1500, position: 30 },
            AutoDrive::Stop,
        ]
    );
}

#[test]
fn auto_routine_legs() {
    let legs = auto_legs();
    assert_eq!(legs.len(), 2);
    assert_eq!(legs[0], MotorTargets { m0_target: Some(1000), m1_target: None, m2_target: Some(1500), m3_target: None });
    assert_eq!(legs[1], MotorTargets { m0_target: None, m1_target: Some(-1000), m2_target: None, m3_target: Some(-1500) });
    assert_eq!(AUTO_TOLERANCE, 25);
}

#[test]
fn legs_finish_within_tolerance() {
    let legs = auto_legs();
    assert!(!leg_finished(&status([0, 0, 0, 0]), &legs[0]));
    assert!(leg_finished(&status([1020, 0, 1490, 0]), &legs[0]));
    assert!(!leg_finished(&status([1020, 0, 1490, 0]), &legs[1]));
    assert!(leg_finished(&status([0, -1010, 0, -1525]), &legs[1]));
}

#[test]
fn targets_as_array_in_motor_order() {
    let t = MotorTargets { m0_target: None, m1_target: Some(-1000), m2_target: None, m3_target: Some(-1500) };
    assert_eq!(t.to_array(), [None, Some(-1000), None, Some(-1500)]);
    assert_eq!(MotorTargets::none().to_array(), [None; 4]);
}

#[test]
fn routine_runs_legs_in_order() {
    let legs = auto_legs();
    let mut r = AutoRoutine::new();
    assert_eq!(r.stage(), 0);
    assert_eq!(r.current_leg(), Some(legs[0]));
    assert!(!r.advance(&status([0, 0, 0, 0])));
    assert_eq!(r.stage(), 0);
    assert!(!r.leg_done(&status([0, -1000, 0, -1500])));
    assert!(r.leg_done(&status([1000, 0, 1500, 0])));
    assert!(r.advance(&status([1010, 7, 1490, 7])));
    assert_eq!(r.stage(), 1);
    assert_eq!(r.current_leg(), Some(legs[1]));
    assert!(!r.advance(&status([1000, 0, 1500, 0])));
    assert!(r.advance(&status([0, -1000, 0, -1500])));
    assert_eq!(r.stage(), 2);
    assert_eq!(r.current_leg(), None);
    assert!(!r.leg_done(&status([0, -1000, 0, -1500])));
    assert!(!r.advance(&status([0, -1000, 0, -1500])));
    assert_eq!(r.stage(), 2);
}

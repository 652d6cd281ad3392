use blaze_ftc_quickstart::neutrino::{plan_bulk_read, MotorDrive, MotorReading, NeutrinoStateUpdate, NeutrinoTarget, RunMode};
use blaze_ftc_quickstart::neutrino::{switch_changes, SwitchChanges};
use blaze_ftc_quickstart::proxy::{decide_packet, hub_id, not_already_running, starts_bulk_reads, HubState, LynxRequest, ProxyDecision};

type Pid = (u16, u16);
type Zpb = u8;

const OPEN: RunMode = RunMode::RunWithoutEncoder;

fn hub(is_parent: bool) -> Option<HubState> {
    Some(HubState { is_parent })
}

fn is_pass(d: &ProxyDecision<Pid, Zpb>) -> bool {
    matches!(d, ProxyDecision::PassThrough)
}

#[test]
fn hub_ids() {
    assert_eq!(hub_id(true), 0);
    assert_eq!(hub_id(false), 1);
}

#[test]
fn new_table_is_zeroed() {
    let t = NeutrinoTarget::new((7u16, 8u16));
    for h in 0..2 {
        for m in 0..4 {
            assert_eq!(t.pid(h, m), (7, 8));
            assert_eq!(t.vel_target(h, m), 0);
            assert_eq!(t.pos_target(h, m), 0);
        }
    }
}

#[test]
fn update_reads_back_and_keeps_others() {
    let mut t = NeutrinoTarget::new((0u16, 0u16));
    t.apply_update(&NeutrinoStateUpdate::VelUpdate(1, 2, -300));
    t.apply_update(&NeutrinoStateUpdate::PosUpdate(0, 3, 123456));
    t.apply_update(&NeutrinoStateUpdate::PidfUpdate(1, 0, (5, 6)));
    assert_eq!(t.vel_target(1, 2), -300);
    assert_eq!(t.pos_target(0, 3), 123456);
    assert_eq!(t.pid(1, 0), (5, 6));
    assert_eq!(t.vel_target(0, 2), 0);
    assert_eq!(t.pos_target(1, 3), 0);
    assert_eq!(t.pid(0, 0), (0, 0));
    assert_eq!(t.pos_target(1, 2), 0);
}

#[test]
fn updates_to_different_cells_commute() {
    let u1 = NeutrinoStateUpdate::PosUpdate(0, 1, 10);
    let u2 = NeutrinoStateUpdate::PosUpdate(1, 1, 20);
    let mut a = NeutrinoTarget::new((0u16, 0u16));
    let mut b = a;
    a.apply_update(&u1);
    a.apply_update(&u2);
    b.apply_update(&u2);
    b.apply_update(&u1);
    for h in 0..2 {
        for m in 0..4 {
            assert_eq!(a.pos_target(h, m), b.pos_target(h, m));
        }
    }
    assert_eq!(a.pos_target(0, 1), 10);
    assert_eq!(a.pos_target(1, 1), 20);
}

#[test]
fn later_update_to_same_cell_wins() {
    let mut t = NeutrinoTarget::new((0u16, 0u16));
    t.apply_update(&NeutrinoStateUpdate::VelUpdate(0, 0, 1));
    t.apply_update(&NeutrinoStateUpdate::VelUpdate(0, 0, 2));
    assert_eq!(t.vel_target(0, 0), 2);
}

#[test]
fn no_hub_passes_everything() {
    let reqs: Vec<LynxRequest<Pid, Zpb>> = vec![
        LynxRequest::SetMotorPower { motor: 0, power: 100 },
        LynxRequest::SetServoPulseWidth,
        LynxRequest::SetMotorChannelMode { motor: 0, run_mode: RunMode::RunToPosition, zero_power_behavior: 1 },
        LynxRequest::GetMotorChannelMode { motor: 0 },
        LynxRequest::SetMotorPidf { motor: 0, pidf: (1, 1) },
        LynxRequest::SetMotorVelocityTarget { motor: 0, velocity: 5 },
        LynxRequest::SetMotorTargetPosition { motor: 0, position: 5 },
        LynxRequest::Unhandled,
    ];
    for r in &reqs {
        assert!(is_pass(&decide_packet(r, None, true)));
        assert!(is_pass(&decide_packet(r, None, false)));
    }
}

#[test]
fn motor_power_goes_to_hub_unchanged() {
    let d = decide_packet::<Pid, Zpb>(&LynxRequest::SetMotorPower { motor: 2, power: -32768 }, hub(true), false);
    assert!(matches!(d, ProxyDecision::SetMotorPower { motor: 2, power: -32768 }));
}

#[test]
fn servo_is_acked_and_forwarded() {
    let d = decide_packet::<Pid, Zpb>(&LynxRequest::SetServoPulseWidth, hub(false), false);
    assert!(matches!(d, ProxyDecision::AckAndForward));
}

#[test]
fn extras_off_passes_extras() {
    let h = hub(true);
    assert!(is_pass(&decide_packet::<Pid, Zpb>(&LynxRequest::SetMotorChannelMode { motor: 0, run_mode: RunMode::RunToPosition, zero_power_behavior: 1 }, h, false)));
    assert!(is_pass(&decide_packet::<Pid, Zpb>(&LynxRequest::GetMotorChannelMode { motor: 0 }, h, false)));
    assert!(is_pass(&decide_packet::<Pid, Zpb>(&LynxRequest::SetMotorPidf { motor: 0, pidf: (1, 2) }, h, false)));
    assert!(is_pass(&decide_packet::<Pid, Zpb>(&LynxRequest::SetMotorVelocityTarget { motor: 0, velocity: 1 }, h, false)));
    assert!(is_pass(&decide_packet::<Pid, Zpb>(&LynxRequest::SetMotorTargetPosition { motor: 0, position: 1 }, h, false)));
    assert!(is_pass(&decide_packet::<Pid, Zpb>(&LynxRequest::Unhandled, h, true)));
}

#[test]
fn channel_mode_keeps_its_data() {
    let req = LynxRequest::<Pid, Zpb>::SetMotorChannelMode { motor: 1, run_mode: RunMode::RunUsingEncoder, zero_power_behavior: 2 };
    let d = decide_packet(&req, hub(true), true);
    assert!(matches!(d, ProxyDecision::SetChannelMode { motor: 1, run_mode: RunMode::RunUsingEncoder, zero_power_behavior: 2 }));
}

#[test]
fn bulk_reads_start_with_first_closed_loop_channel() {
    assert!(starts_bulk_reads(&[OPEN; 4], RunMode::RunUsingEncoder));
    assert!(starts_bulk_reads(&[OPEN; 4], RunMode::RunToPosition));
    assert!(!starts_bulk_reads(&[OPEN; 4], OPEN));
    assert!(!starts_bulk_reads(&[OPEN, OPEN, RunMode::RunToPosition, OPEN], RunMode::RunUsingEncoder));
}

#[test]
fn dpad_switches() {
    assert_eq!(switch_changes(false, false, false, false), SwitchChanges { neutrino: None, extras: None });
    assert_eq!(switch_changes(true, true, false, false), SwitchChanges { neutrino: Some(true), extras: None });
    assert_eq!(switch_changes(false, true, false, true), SwitchChanges { neutrino: Some(false), extras: Some(false) });
    assert_eq!(switch_changes(false, false, true, true), SwitchChanges { neutrino: None, extras: Some(true) });
}

#[test]
fn not_running_needs_all_open_loop() {
    assert!(not_already_running(&[OPEN; 4]));
    assert!(!not_already_running(&[OPEN, OPEN, OPEN, RunMode::RunUsingEncoder]));
    assert!(!not_already_running(&[RunMode::RunToPosition, OPEN, OPEN, OPEN]));
}

#[test]
fn get_channel_mode_is_answered() {
    let d = decide_packet::<Pid, Zpb>(&LynxRequest::GetMotorChannelMode { motor: 3 }, hub(false), true);
    assert!(matches!(d, ProxyDecision::AnswerChannelMode { motor: 3 }));
}

#[test]
fn targets_become_state_updates_for_the_hub() {
    let d = decide_packet::<Pid, Zpb>(&LynxRequest::SetMotorPidf { motor: 1, pidf: (3, 4) }, hub(false), true);
    assert!(matches!(d, ProxyDecision::AckAndUpdate { update: NeutrinoStateUpdate::PidfUpdate(1, 1, (3, 4)) }));
    let d = decide_packet::<Pid, Zpb>(&LynxRequest::SetMotorVelocityTarget { motor: 2, velocity: -9 }, hub(true), true);
    assert!(matches!(d, ProxyDecision::AckAndUpdate { update: NeutrinoStateUpdate::VelUpdate(0, 2, -9) }));
    let d = decide_packet::<Pid, Zpb>(&LynxRequest::SetMotorTargetPosition { motor: 0, position: 4242 }, hub(false), true);
    assert!(matches!(d, ProxyDecision::AckAndUpdate { update: NeutrinoStateUpdate::PosUpdate(1, 0, 4242) }));
}

#[test]
fn bulk_read_plan_follows_modes() {
    let mut t = NeutrinoTarget::new((0u16, 0u16));
    t.apply_update(&NeutrinoStateUpdate::VelUpdate(1, 1, 250));
    t.apply_update(&NeutrinoStateUpdate::PosUpdate(1, 2, -800));
    let modes = [OPEN, RunMode::RunUsingEncoder, RunMode::RunToPosition, OPEN];
    let readings = [
        MotorReading { velocity: 1, position: 2 },
        MotorReading { velocity: 3, position: 4 },
        MotorReading { velocity: 5, position: 6 },
        MotorReading { velocity: 7, position: 8 },
    ];
    let plan = plan_bulk_read(Some(&t), 1, &modes, &readings);
    assert_eq!(
        plan.motors,
        vec![
            MotorDrive::Idle,
            MotorDrive::TrackVelocity { target: 250, measured: 3 },
            MotorDrive::TrackPosition { target: -800, measured: 6 },
            MotorDrive::Idle,
        ]
    );
    assert!(plan.request_bulk_read);
    let plan0 = plan_bulk_read(Some(&t), 0, &modes, &readings);
    assert_eq!(plan0.motors[1], MotorDrive::TrackVelocity { target: 0, measured: 3 });
}

#[test]
fn bulk_reads_stop_when_open_loop_or_no_table() {
    let t = NeutrinoTarget::new((0u16, 0u16));
    let readings = [MotorReading { velocity: 0, position: 0 }; 4];
    let plan = plan_bulk_read(Some(&t), 0, &[OPEN; 4], &readings);
    assert_eq!(plan.motors, vec![MotorDrive::Idle; 4]);
    assert!(!plan.request_bulk_read);
    let plan = plan_bulk_read::<Pid>(None, 0, &[RunMode::RunToPosition; 4], &readings);
    assert_eq!(plan.motors, vec![MotorDrive::Idle; 4]);
    assert!(!plan.request_bulk_read);
}

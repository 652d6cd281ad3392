use vstd::prelude::*;
use crate::neutrino::{NeutrinoStateUpdate, RunMode};

verus! {

/// What the neutrino proxy reads of a packet that the SDK sends to a hub.
///
/// `P` is the PIDF coefficient set and `Z` the zero-power behaviour of a motor channel;
/// the proxy only carries them.
#[derive(Clone, Copy, Debug)]
pub enum LynxRequest<P, Z> {
    SetMotorPower { motor: u8, power: i16 },
    SetServoPulseWidth,
    SetMotorChannelMode { motor: u8, run_mode: RunMode, zero_power_behavior: Z },
    GetMotorChannelMode { motor: u8 },
    SetMotorPidf { motor: u8, pidf: P },
    SetMotorVelocityTarget { motor: u8, velocity: i16 },
    SetMotorTargetPosition { motor: u8, position: i32 },
    /// Any other lynx command, and any payload that is not a lynx command.
    Unhandled,
}

/// What the proxy reads of the hub that a packet is addressed to.
#[derive(Clone, Copy, Debug)]
pub struct HubState {
    /// The hub is the parent (hub 0) rather than the expansion hub (hub 1).
    pub is_parent: bool,
}

/// What the proxy does with a packet.
#[derive(Clone, Copy, Debug)]
pub enum ProxyDecision<P, Z> {
    /// Hand the packet on to the hardware unchanged; the hardware answers it.
    PassThrough,
    /// Send the power to the motor through the hub, then acknowledge to the SDK.
    SetMotorPower { motor: u8, power: i16 },
    /// Acknowledge to the SDK, then forward the packet to the hub unchanged.
    AckAndForward,
    /// Acknowledge, put the channel into open-loop power with `zero_power_behavior`, record
    /// `run_mode` as the mode the library drives it in, and request a bulk read where
    /// `starts_bulk_reads` says so for the hub's channel modes at that moment.
    SetChannelMode { motor: u8, run_mode: RunMode, zero_power_behavior: Z },
    /// Answer the SDK with the channel's recorded mode in place of the hardware.
    AnswerChannelMode { motor: u8 },
    /// Send the state update to the main thread, then acknowledge to the SDK.
    AckAndUpdate { update: NeutrinoStateUpdate<P> },
}

impl<P, Z> ProxyDecision<P, Z> {
    /// The packet stays with the proxy instead of going on to the hardware.
    pub open spec fn consumes(self) -> bool {
        !(self is PassThrough)
    }

    /// The proxy sends the SDK a plain acknowledgement.
    pub open spec fn acknowledges(self) -> bool {
        ||| self is SetMotorPower
        ||| self is AckAndForward
        ||| self is SetChannelMode
        ||| self is AckAndUpdate
    }

    /// The proxy sends the SDK a made-up response carrying data.
    pub open spec fn answers(self) -> bool {
        self is AnswerChannelMode
    }
}

impl<P, Z> LynxRequest<P, Z> {
    /// Commands that the proxy takes over only while its extras are enabled.
    pub open spec fn needs_extras(self) -> bool {
        ||| self is SetMotorChannelMode
        ||| self is GetMotorChannelMode
        ||| self is SetMotorPidf
        ||| self is SetMotorVelocityTarget
        ||| self is SetMotorTargetPosition
    }
}

/// The hub number that the target table uses: 0 for the parent hub, 1 for the other.
pub open spec fn hub_id_of(is_parent: bool) -> u8 {
    if is_parent { 0 } else { 1 }
}

/// All four channels run open-loop.
pub open spec fn all_open_loop(modes: [RunMode; 4]) -> bool {
    forall|i: int| 0 <= i < 4 ==> modes[i] == RunMode::RunWithoutEncoder
}

/// What `decide_packet` returns.
pub open spec fn decision_of<P, Z>(request: LynxRequest<P, Z>, hub: Option<HubState>, extras: bool) -> ProxyDecision<P, Z> {
    match hub {
        None => ProxyDecision::PassThrough,
        Some(hub) => if request.needs_extras() && !extras {
            ProxyDecision::PassThrough
        } else {
            let id = hub_id_of(hub.is_parent);
            match request {
                LynxRequest::SetMotorPower { motor, power } => ProxyDecision::SetMotorPower { motor, power },
                LynxRequest::SetServoPulseWidth => ProxyDecision::AckAndForward,
                LynxRequest::SetMotorChannelMode { motor, run_mode, zero_power_behavior } => ProxyDecision::SetChannelMode {
                    motor,
                    run_mode,
                    zero_power_behavior,
                },
                LynxRequest::GetMotorChannelMode { motor } => ProxyDecision::AnswerChannelMode { motor },
                LynxRequest::SetMotorPidf { motor, pidf } => ProxyDecision::AckAndUpdate {
                    update: NeutrinoStateUpdate::PidfUpdate(id, motor, pidf),
                },
                LynxRequest::SetMotorVelocityTarget { motor, velocity } => ProxyDecision::AckAndUpdate {
                    update: NeutrinoStateUpdate::VelUpdate(id, motor, velocity),
                },
                LynxRequest::SetMotorTargetPosition { motor, position } => ProxyDecision::AckAndUpdate {
                    update: NeutrinoStateUpdate::PosUpdate(id, motor, position),
                },
                LynxRequest::Unhandled => ProxyDecision::PassThrough,
            }
        },
    }
}

/// The hub number that the target table uses for a hub.
pub fn hub_id(is_parent: bool) -> (id: u8)
    ensures
        id == hub_id_of(is_parent),
        id < 2,
{
    if is_parent { 0 } else { 1 }
}

fn is_open_loop(mode: RunMode) -> (b: bool)
    ensures
        b == (mode == RunMode::RunWithoutEncoder),
{
    match mode {
        RunMode::RunWithoutEncoder => true,
        _ => false,
    }
}

/// Whether none of the four channels runs a feedback loop yet.
pub fn not_already_running(modes: &[RunMode; 4]) -> (b: bool)
    ensures
        b == all_open_loop(*modes),
{
    let b = is_open_loop(modes[0]) && is_open_loop(modes[1]) && is_open_loop(modes[2])
        && is_open_loop(modes[3]);
    proof {
        if b {
            assert forall|i: int| 0 <= i < 4 implies modes[i] == RunMode::RunWithoutEncoder by {
                assert(i == 0 || i == 1 || i == 2 || i == 3);
            }
        }
    }
    b
}

/// Whether setting a channel to `run_mode` starts the bulk reads: exactly when no channel
/// runs a feedback loop yet and the new mode is one.
pub fn starts_bulk_reads(modes: &[RunMode; 4], run_mode: RunMode) -> (b: bool)
    ensures
        b == (all_open_loop(*modes) && run_mode != RunMode::RunWithoutEncoder),
{
    not_already_running(modes) && !is_open_loop(run_mode)
}

/// Decides what the neutrino proxy does with a packet bound for a hub: `hub` is the hub the
/// packet is addressed to, where the proxy holds one, and `extras` whether the extra
/// interceptions are enabled.
pub fn decide_packet<P: Copy, Z: Copy>(request: &LynxRequest<P, Z>, hub: Option<HubState>, extras: bool) -> (d: ProxyDecision<P, Z>)
    ensures
        d == decision_of(*request, hub, extras),
{
    match hub {
        None => ProxyDecision::PassThrough,
        Some(hub) => {
            let id = hub_id(hub.is_parent);
            match request {
                LynxRequest::SetMotorPower { motor, power } => ProxyDecision::SetMotorPower {
                    motor: *motor,
                    power: *power,
                },
                LynxRequest::SetServoPulseWidth => ProxyDecision::AckAndForward,
                LynxRequest::Unhandled => ProxyDecision::PassThrough,
                _ => {
                    if !extras {
                        ProxyDecision::PassThrough
                    } else {
                        match request {
                            LynxRequest::SetMotorChannelMode { motor, run_mode, zero_power_behavior } => {
                                ProxyDecision::SetChannelMode {
                                    motor: *motor,
                                    run_mode: *run_mode,
                                    zero_power_behavior: *zero_power_behavior,
                                }
                            },
                            LynxRequest::GetMotorChannelMode { motor } => ProxyDecision::AnswerChannelMode {
                                motor: *motor,
                            },
                            LynxRequest::SetMotorPidf { motor, pidf } => ProxyDecision::AckAndUpdate {
                                update: NeutrinoStateUpdate::PidfUpdate(id, *motor, *pidf),
                            },
                            LynxRequest::SetMotorVelocityTarget { motor, velocity } => ProxyDecision::AckAndUpdate {
                                update: NeutrinoStateUpdate::VelUpdate(id, *motor, *velocity),
                            },
                            LynxRequest::SetMotorTargetPosition { motor, position } => ProxyDecision::AckAndUpdate {
                                update: NeutrinoStateUpdate::PosUpdate(id, *motor, *position),
                            },
                            _ => ProxyDecision::PassThrough,
                        }
                    }
                },
            }
        },
    }
}

/// The proxy keeps a packet exactly when it holds the packet's hub, knows the command, and
/// the command is a plain write or the extras are on; every packet it keeps is answered to
/// the SDK exactly once, by an acknowledgement or by a made-up response, and a packet that
/// goes on to the hardware is not answered by the proxy.
pub proof fn lemma_kept_packets_answered_once<P, Z>(request: LynxRequest<P, Z>, hub: Option<HubState>, extras: bool)
    ensures
        ({
            let d = decision_of(request, hub, extras);
            &&& d.consumes() <==> (hub is Some && !(request is Unhandled) && (!request.needs_extras() || extras))
            &&& d.consumes() ==> (d.acknowledges() != d.answers())
            &&& !d.consumes() ==> !d.acknowledges() && !d.answers()
        }),
{
}

/// A packet for a hub that the proxy does not hold goes on to the hardware untouched.
pub proof fn lemma_unknown_hub_passes<P, Z>(request: LynxRequest<P, Z>, extras: bool)
    ensures
        decision_of(request, None, extras) is PassThrough,
{
}

/// With the extras off the proxy takes over only motor power and servo pulse-width writes.
pub proof fn lemma_extras_off_only_writes<P, Z>(request: LynxRequest<P, Z>, hub: Option<HubState>)
    ensures
        decision_of(request, hub, false).consumes() ==> hub is Some && (request is SetMotorPower
            || request is SetServoPulseWidth),
{
}

/// A state update that the proxy sends names the hub that the packet went to and the motor
/// of the packet.
pub proof fn lemma_update_addresses_packet_hub<P, Z>(request: LynxRequest<P, Z>, hub: HubState, extras: bool)
    ensures
        decision_of(request, Some(hub), extras) matches ProxyDecision::AckAndUpdate { update }
            ==> update.hub() == hub_id_of(hub.is_parent) && 0 <= update.hub() < 2,
{
}

/// The proxy does not change what a write carries: a motor power goes to the same motor
/// unchanged, a channel mode keeps its motor, mode and zero-power behaviour, and a state
/// update carries the packet's motor and value.
pub proof fn lemma_write_data_unchanged<P, Z>(request: LynxRequest<P, Z>, hub: HubState, extras: bool)
    ensures
        ({
            let d = decision_of(request, Some(hub), extras);
            let id = hub_id_of(hub.is_parent);
            &&& request matches LynxRequest::SetMotorPower { motor, power } ==> d
                == ProxyDecision::<P, Z>::SetMotorPower { motor, power }
            &&& d.consumes() ==> (request matches LynxRequest::SetMotorChannelMode { motor, run_mode, zero_power_behavior }
                ==> d == ProxyDecision::<P, Z>::SetChannelMode { motor, run_mode, zero_power_behavior })
            &&& d.consumes() ==> (request matches LynxRequest::SetMotorPidf { motor, pidf } ==> d
                == ProxyDecision::<P, Z>::AckAndUpdate { update: NeutrinoStateUpdate::PidfUpdate(id, motor, pidf) })
            &&& d.consumes() ==> (request matches LynxRequest::SetMotorVelocityTarget { motor, velocity }
                ==> d == ProxyDecision::<P, Z>::AckAndUpdate {
                update: NeutrinoStateUpdate::VelUpdate(id, motor, velocity),
            })
            &&& d.consumes() ==> (request matches LynxRequest::SetMotorTargetPosition { motor, position }
                ==> d == ProxyDecision::<P, Z>::AckAndUpdate {
                update: NeutrinoStateUpdate::PosUpdate(id, motor, position),
            })
        }),
{
}

/// Bulk reads are started by the first channel that leaves open-loop power and by no later
/// one: once a channel runs a feedback loop, no channel-mode change starts them again.
pub proof fn lemma_bulk_reads_start_once(modes: [RunMode; 4], motor: int, next_mode: RunMode)
    requires
        0 <= motor < 4,
        modes[motor] != RunMode::RunWithoutEncoder,
    ensures
        !(all_open_loop(modes) && next_mode != RunMode::RunWithoutEncoder),
{
}

/// Motor power and servo writes to a hub that the proxy holds are both acknowledged to the
/// SDK at once and delivered to the hardware, whether or not the extras are on.
pub proof fn lemma_writes_acked_and_delivered<P, Z>(request: LynxRequest<P, Z>, hub: HubState, extras: bool)
    requires
        request is SetMotorPower || request is SetServoPulseWidth,
    ensures
        ({
            let d = decision_of(request, Some(hub), extras);
            &&& d.acknowledges()
            &&& (d is SetMotorPower || d is AckAndForward)
        }),
{
}

/// What the proxy does with each kind of packet for a hub it holds, with the extras on:
/// motor power goes to the same motor, servo writes are acknowledged and forwarded, a
/// channel-mode write is applied with its own motor, mode and zero-power behaviour, a
/// channel-mode query for motor `m` is answered by the proxy for motor `m`, PIDF, velocity and
/// position targets become state updates for this hub's number (0 for the parent, 1 for the
/// other) and the packet's motor and value, and anything else passes through.
pub proof fn lemma_held_hub_decisions<P, Z>(hub: HubState)
    ensures
        (forall|m: u8, p: i16|
            #[trigger] decision_of(LynxRequest::<P, Z>::SetMotorPower { motor: m, power: p }, Some(hub), true)
                == ProxyDecision::<P, Z>::SetMotorPower { motor: m, power: p }),
        (decision_of(LynxRequest::<P, Z>::SetServoPulseWidth, Some(hub), true) == ProxyDecision::<P, Z>::AckAndForward),
        (forall|m: u8, r: RunMode, z: Z|
            #[trigger] decision_of(
                LynxRequest::<P, Z>::SetMotorChannelMode { motor: m, run_mode: r, zero_power_behavior: z },
                Some(hub),
                true,
            ) == ProxyDecision::<P, Z>::SetChannelMode { motor: m, run_mode: r, zero_power_behavior: z }),
        (forall|m: u8|
            #[trigger] decision_of(LynxRequest::<P, Z>::GetMotorChannelMode { motor: m }, Some(hub), true)
                == ProxyDecision::<P, Z>::AnswerChannelMode { motor: m }),
        (forall|m: u8, p: P|
            #[trigger] decision_of(LynxRequest::<P, Z>::SetMotorPidf { motor: m, pidf: p }, Some(hub), true)
                == ProxyDecision::<P, Z>::AckAndUpdate {
                update: NeutrinoStateUpdate::PidfUpdate(if hub.is_parent { 0u8 } else { 1u8 }, m, p),
            }),
        (forall|m: u8, v: i16|
            #[trigger] decision_of(LynxRequest::<P, Z>::SetMotorVelocityTarget { motor: m, velocity: v }, Some(hub), true)
                == ProxyDecision::<P, Z>::AckAndUpdate {
                update: NeutrinoStateUpdate::VelUpdate(if hub.is_parent { 0u8 } else { 1u8 }, m, v),
            }),
        (forall|m: u8, q: i32|
            #[trigger] decision_of(LynxRequest::<P, Z>::SetMotorTargetPosition { motor: m, position: q }, Some(hub), true)
                == ProxyDecision::<P, Z>::AckAndUpdate {
                update: NeutrinoStateUpdate::PosUpdate(if hub.is_parent { 0u8 } else { 1u8 }, m, q),
            }),
        (decision_of(LynxRequest::<P, Z>::Unhandled, Some(hub), true) == ProxyDecision::<P, Z>::PassThrough),
{
}

/// With the extras off, motor power and servo writes are still taken over exactly as with
/// them on, and every other packet passes through.
pub proof fn lemma_extras_off_decisions<P, Z>(request: LynxRequest<P, Z>, hub: HubState)
    ensures
        (request is SetMotorPower || request is SetServoPulseWidth) ==> decision_of(request, Some(hub), false)
            == decision_of(request, Some(hub), true),
        !(request is SetMotorPower || request is SetServoPulseWidth) ==> decision_of(request, Some(hub), false)
            == ProxyDecision::<P, Z>::PassThrough,
{
}

/// Bulk reads start on a channel-mode change exactly when each of the four channels is in
/// open-loop power and the new mode is velocity or position control.
pub proof fn lemma_bulk_read_start_meaning(modes: [RunMode; 4], run_mode: RunMode)
    ensures
        (all_open_loop(modes) && run_mode != RunMode::RunWithoutEncoder) <==> {
            &&& modes[0] == RunMode::RunWithoutEncoder
            &&& modes[1] == RunMode::RunWithoutEncoder
            &&& modes[2] == RunMode::RunWithoutEncoder
            &&& modes[3] == RunMode::RunWithoutEncoder
            &&& (run_mode == RunMode::RunUsingEncoder || run_mode == RunMode::RunToPosition)
        },
{
    if modes[0] == RunMode::RunWithoutEncoder && modes[1] == RunMode::RunWithoutEncoder
        && modes[2] == RunMode::RunWithoutEncoder && modes[3] == RunMode::RunWithoutEncoder {
        assert forall|i: int| 0 <= i < 4 implies modes[i] == RunMode::RunWithoutEncoder by {
            assert(i == 0 || i == 1 || i == 2 || i == 3);
        }
    }
}

} // verus!

//! Decision logic of the BlazeFTC quickstart op modes.
//!
//! Everything that talks to the robot (hubs, packets, channels, telemetry, timers) and all
//! floating-point control math lives outside this library; what is here are the rules that
//! decide what those parts do: which op mode runs, how the drive sticks are mixed onto the
//! wheels, when the brake and auto handlers act, and how the neutrino proxy treats each
//! packet that the SDK sends to the hardware.
pub mod auto;
pub mod brake;
pub mod drive;
pub mod neutrino;
pub mod opmode;
pub mod proxy;

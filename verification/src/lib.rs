//! ThermalAI: thermal, charging and game-performance management for Android
//! devices, as a verified library. The daemon in `app/` reads the device,
//! hands the readings to these functions and carries out what they decide.
use vstd::prelude::*;

/// Text handling on character sequences: trimming, splitting, parsing.
pub mod text;
/// The tunables of `profiles.conf` and the game list, with their rules.
pub mod config;
/// The learned offset between reported and felt temperatures.
pub mod calibration;
/// The thermal policy engine: scoring, debounce and transitions.
pub mod policy;
/// Remembering sysfs nodes that refuse writes.
pub mod logger;
/// Charge-current control: modes, states, targets and ramps.
pub mod charging;
/// What the hardware probe finds, and the rules it applies to it.
pub mod hardware;
/// Per-game runtime optimisations and what they learn per game.
pub mod game_turbo;
/// Game detection from process scans and the foreground cgroup.
pub mod gaming;
/// Network quality classes and interface types.
pub mod network_diag;
/// Governor selection, throttling, sleep and the context weights.
pub mod orchestrator;
/// Frame statistics from frame timing dumps.
pub mod monitor;
/// The temperature prediction window.
pub mod prediction;
/// The daemon's run state.
pub mod daemon;
/// What each policy writes: GPU levels, governors, cpusets.
pub mod actuation;
/// Parsers for the counters and pressure figures the kernel reports.
pub mod readings;
/// Reading screen, charger, network and touch state from raw values.
pub mod sensing;
/// Frequency tables and the nodes governors and levels are written to.
pub mod governors;
/// Kernel configuration and the capabilities it implies.
pub mod kernel;
/// The orchestrator's bookkeeping from one tick to the next.
pub mod session;
/// Scalar entries of small JSON state files.
pub mod json;

verus! {

} // verus!

//! Game turbo: the runtime-only gaming optimizations, switched on when a game
//! is detected and fully reversed when it exits. The engine decides which
//! features to switch and when, and keeps the state of each feature; the
//! caller performs each [`TurboStep`] on the system.
//!
//! Above `temp_hot` the engine eases the aggressive constraints (background
//! lockdown, big-core affinity) so the SoC can shed heat, and re-applies them
//! once the temperature is three degrees below `temp_hot`.
use vstd::prelude::*;
use crate::game_turbo::combat_boost::{boost_step, boost_trigger, BoostEffect, CombatBoost};
use crate::game_turbo::combat_detector::{reading_spec, CombatDetector, CombatReading};
use crate::game_turbo::fps_cap::{cap_spec, FpsCapManager};
use crate::game_turbo::profiles::{fps_cap_update, or_empty, session_update, GameProfileManager};
use crate::game_turbo::states::{
    AffinityState, BackgroundState, CpuIdleControl, GpuBusyHints, GpuFreqState, IoSchedulerState,
    MemoryManager, NetworkQoS, NetworkState, PerfHintState, PriorityState, SchedDeadlineManager,
    TouchState,
};

pub mod combat_boost;
pub mod combat_detector;
pub mod states;
pub mod fps_cap;
pub mod profiles;

verus! {

/// Which game-turbo features are on, and the big-core mask.
#[derive(Debug, Clone, Copy, PartialEq, Eq, Structural)]
pub struct GameTurboSettings {
    pub thread_affinity: bool,
    pub priority_elevator: bool,
    pub background_lockdown: bool,
    pub wifi_ps_disable: bool,
    pub network_buffers: bool,
    pub touch_boost: bool,
    pub io_scheduler_boost: bool,
    pub gpu_freq_boost: bool,
    pub thermal_throttle_enabled: bool,
    pub big_core_mask: u64,
}

impl Default for GameTurboSettings {
    fn default() -> (r: Self)
        ensures
            r == (GameTurboSettings {
                thread_affinity: true,
                priority_elevator: true,
                background_lockdown: true,
                wifi_ps_disable: true,
                network_buffers: true,
                touch_boost: true,
                io_scheduler_boost: true,
                gpu_freq_boost: true,
                thermal_throttle_enabled: true,
                big_core_mask: 0xF0,
            }),
    {
        GameTurboSettings {
            thread_affinity: true,
            priority_elevator: true,
            background_lockdown: true,
            wifi_ps_disable: true,
            network_buffers: true,
            touch_boost: true,
            io_scheduler_boost: true,
            gpu_freq_boost: true,
            thermal_throttle_enabled: true,
            big_core_mask: 0xF0,
        }
    }
}

/// The settings of the running session, with the mask used while thermally
/// throttled (all eight cores).
#[derive(Debug, Clone, Copy, PartialEq, Eq, Structural)]
pub struct GameTurboSnapshot {
    pub settings: GameTurboSettings,
    pub thermal_throttle_mask: u64,
}

/// One thing for the caller to do on the system.
#[derive(Debug, Clone, Copy, PartialEq, Eq, Structural)]
pub enum TurboStep {
    AffinityActivate { pid: u32, mask: u64 },
    AffinityTick { pid: u32, mask: u64 },
    AffinityUpdateMask { pid: u32, mask: u64 },
    AffinityDeactivate,
    PriorityActivate { pid: u32 },
    PriorityTick { pid: u32 },
    PriorityDeactivate,
    BackgroundActivate { pid: u32 },
    BackgroundDeactivate,
    WifiPsActivate,
    WifiPsDeactivate,
    RpsActivate,
    RpsDeactivate,
    BuffersActivate,
    BuffersDeactivate,
    IoSchedulerActivate,
    IoSchedulerDeactivate,
    TouchActivate,
    TouchTick,
    TouchDeactivate,
    /// Write this level to the GPU power-level node held by the GPU state.
    GpuLevel { level: u32 },
    PerfHintActivate,
    /// Write this `uclamp.min` for the top app.
    PerfHintLevel { level: u32 },
    PerfHintDeactivate,
    CpuIdleActivate,
    CpuIdleDeactivate,
    GpuHintsActivate,
    /// Hold this GPU idle timer, in milliseconds.
    GpuIdleTimer { ms: u32 },
    GpuHintsDeactivate,
    MemoryActivate { pid: u32 },
    MemoryDeactivate,
    NetworkQosActivate,
    NetworkQosDeactivate,
    /// Read the battery and temperature and start the frame-rate cap.
    FpsCapActivate,
    /// Set `debug.sf.max_fps` to this value.
    FpsCapSet { fps: u32 },
    SchedDeadlineActivate { pid: u32 },
    SchedDeadlineTick { pid: u32 },
    SchedDeadlineDeactivate,
    /// Refresh the network tuning after a hand-off; low-latency WiFi wanted
    /// or not.
    NetworkRefresh { wifi_low_latency: bool },
    /// Release the combat boost.
    CombatExit,
}

/// What one tick of the combat heuristic found and asks for.
#[derive(Debug, Clone, Copy, PartialEq, Eq)]
pub struct CombatOutcome {
    pub reading: CombatReading,
    /// The boost was (re)triggered; `Some(was_active)` then.
    pub triggered: Option<bool>,
    pub effect: BoostEffect,
    pub active: bool,
}

/// The readings one tick needs.
#[derive(Debug, Clone, Copy, PartialEq, Eq)]
pub struct TurboTickInputs {
    pub game_pid: u32,
    pub gpu_load: u32,
    pub thermal_temp: u32,
    pub now_ms: u64,
    /// Received packets so far on the game's interfaces.
    pub rx_packets: u64,
    /// The GPU load read from the GPU, used when `gpu_load` is zero.
    pub fallback_gpu: u32,
    pub battery_percent: u32,
    pub charging: bool,
    pub fps_thermal_temp: u32,
    /// The top app's `uclamp.min`, in percent.
    pub uclamp_min: u32,
}

/// What the kernel offers, found when the engine is built.
#[derive(Debug, Clone, Copy, PartialEq, Eq)]
pub struct TurboAvailability {
    pub cpu_idle: bool,
    pub gpu_hints: bool,
    pub memory: bool,
    pub tc: bool,
    pub uclamp: bool,
    pub sched_deadline: bool,
}

/// Degrees below `temp_hot` at which thermal easing ends.
pub const THERMAL_RELEASE_MARGIN: i32 = 3;

pub struct GameTurboEngine {
    pub active: bool,
    pub config_snapshot: GameTurboSnapshot,
    pub affinity: AffinityState,
    pub priority: PriorityState,
    pub background: BackgroundState,
    pub network: NetworkState,
    pub touch: TouchState,
    pub io_scheduler: IoSchedulerState,
    pub gpu_freq: GpuFreqState,
    pub perf_hint: PerfHintState,
    pub cpu_idle: CpuIdleControl,
    pub gpu_hints: GpuBusyHints,
    pub memory: MemoryManager,
    pub network_qos: NetworkQoS,
    pub fps_cap: FpsCapManager,
    pub sched_deadline: SchedDeadlineManager,
    pub combat_detector: CombatDetector,
    pub combat_boost: CombatBoost,
    /// Whether the constraints are eased for heat.
    pub thermal_throttled: bool,
    pub pending_gpu_power_level_path: Option<String>,
    pub pending_gpu_current_level: Option<u32>,
    pub pending_gpu_best_level: u32,
    pub gpu_load_sum: u64,
    pub gpu_load_samples: u32,
    /// The learned per-game profiles.
    pub profiles: GameProfileManager,
}

/// The average GPU load of a session in hundredths of a percent, capped at
/// `u32::MAX`; 50 % when there are no samples.
pub open spec fn session_load_spec(sum: u64, samples: u32) -> u32 {
    if samples > 0 {
        let avg = sum * 100 / (samples as int);
        if avg > u32::MAX {
            u32::MAX
        } else {
            avg as u32
        }
    } else {
        5000
    }
}

/// Whether the constraints are eased after a reading: easing starts at
/// `temp_hot` and ends below `temp_hot - 3`.
pub open spec fn throttle_next(was: bool, temp: i32, temp_hot: i32) -> bool {
    if was {
        temp >= temp_hot - THERMAL_RELEASE_MARGIN
    } else {
        temp >= temp_hot
    }
}

/// `v` with `step` appended when `cond` holds.
pub open spec fn push_opt(v: Seq<TurboStep>, cond: bool, step: TurboStep) -> Seq<TurboStep> {
    if cond {
        v.push(step)
    } else {
        v
    }
}

/// `v` followed by the first steps of activation: the features that the
/// settings switch.
pub open spec fn feature_steps(v: Seq<TurboStep>, s: GameTurboSettings, pid: u32) -> Seq<TurboStep> {
    let v1 = push_opt(v, s.thread_affinity, TurboStep::AffinityActivate { pid, mask: s.big_core_mask });
    let v2 = push_opt(v1, s.priority_elevator, TurboStep::PriorityActivate { pid });
    let v3 = push_opt(v2, s.background_lockdown, TurboStep::BackgroundActivate { pid });
    let v4 = push_opt(v3, s.wifi_ps_disable, TurboStep::WifiPsActivate);
    let v5 = v4.push(TurboStep::RpsActivate);
    let v6 = push_opt(v5, s.network_buffers, TurboStep::BuffersActivate);
    let v7 = push_opt(v6, s.io_scheduler_boost, TurboStep::IoSchedulerActivate);
    push_opt(v7, s.touch_boost, TurboStep::TouchActivate)
}

/// `v` followed by the last steps of activation, which every session takes.
pub open spec fn common_steps(v: Seq<TurboStep>, pid: u32) -> Seq<TurboStep> {
    v.push(TurboStep::PerfHintActivate).push(TurboStep::CpuIdleActivate).push(
        TurboStep::GpuHintsActivate,
    ).push(TurboStep::MemoryActivate { pid }).push(TurboStep::NetworkQosActivate).push(
        TurboStep::FpsCapActivate,
    ).push(TurboStep::SchedDeadlineActivate { pid })
}

/// The steps of activation, in order: the switched features, the GPU level
/// when one is written, then the common steps.
pub open spec fn activation_steps(s: GameTurboSettings, pid: u32, gpu: Option<u32>) -> Seq<TurboStep> {
    let f = feature_steps(Seq::empty(), s, pid);
    let g = match gpu {
        Some(level) => f.push(TurboStep::GpuLevel { level }),
        None => f,
    };
    common_steps(g, pid)
}

/// What one combat update gives, from the detector and boost before it: a
/// burst triggers the boost, then the boost ticks.
pub open spec fn combat_outcome_spec(
    d: CombatDetector,
    b: CombatBoost,
    gpu_load: u32,
    fallback_gpu: u32,
    rx: u64,
    uclamp_min: u32,
    now: u64,
) -> CombatOutcome {
    let reading = reading_spec(d, gpu_load, fallback_gpu, rx, uclamp_min, now);
    let b1 = if reading.combat {
        boost_trigger(now)
    } else {
        b
    };
    let step = boost_step(b1, reading.combat, now);
    CombatOutcome {
        reading,
        triggered: if reading.combat {
            Some(b.active_spec())
        } else {
            None
        },
        effect: step.1.1,
        active: step.0.active_spec(),
    }
}

/// The boost after one combat update.
pub open spec fn boost_after_update(
    d: CombatDetector,
    b: CombatBoost,
    gpu_load: u32,
    fallback_gpu: u32,
    rx: u64,
    uclamp_min: u32,
    now: u64,
) -> CombatBoost {
    let combat = reading_spec(d, gpu_load, fallback_gpu, rx, uclamp_min, now).combat;
    let b1 = if combat {
        boost_trigger(now)
    } else {
        b
    };
    boost_step(b1, combat, now).0
}

/// The top-app clamp level a tick writes: the target when it differs from
/// the level in force, with uclamp available.
pub open spec fn perf_level_set(p: PerfHintState, gpu_load: u32, thermal_temp: u32) -> Option<u32> {
    let target = if gpu_load >= states::PERF_GPU_LOAD_THRESHOLD || thermal_temp
        >= states::PERF_THERMAL_THRESHOLD_HOT {
        states::UCLAMP_MIN_ELEVATED
    } else {
        states::UCLAMP_MIN_BASELINE
    };
    if p.uclamp_available && target != p.current_level {
        Some(target)
    } else {
        None
    }
}

/// The GPU idle timer a tick holds, with the hints available.
pub open spec fn idle_timer_set(g: GpuBusyHints, gpu_load: u32) -> Option<u32> {
    if g.available {
        Some(states::idle_timer_spec(gpu_load))
    } else {
        None
    }
}

/// The frame-rate cap a tick sets: the cap for the readings when it
/// differs from the one in force, with capping available.
pub open spec fn fps_cap_set(f: FpsCapManager, battery: u32, charging: bool, thermal: u32) -> Option<u32> {
    let cap = cap_spec(battery, charging, thermal);
    if f.available && f.current_cap != Some(cap) {
        Some(cap)
    } else {
        None
    }
}

/// The steps of one tick, in order: the per-thread refreshes the settings
/// switch, the network refresh, the clamp level, the GPU idle timer and
/// the frame-rate cap when they change, then the deadline scheduling.
pub open spec fn tick_steps(
    s: GameTurboSettings,
    pid: u32,
    perf: Option<u32>,
    idle: Option<u32>,
    fps: Option<u32>,
) -> Seq<TurboStep> {
    let v1 = push_opt(Seq::empty(), s.thread_affinity, TurboStep::AffinityTick { pid, mask: s.big_core_mask });
    let v2 = push_opt(v1, s.priority_elevator, TurboStep::PriorityTick { pid });
    let v3 = push_opt(v2, s.touch_boost, TurboStep::TouchTick);
    let v4 = v3.push(TurboStep::NetworkRefresh { wifi_low_latency: s.wifi_ps_disable });
    let v5 = match perf {
        Some(level) => v4.push(TurboStep::PerfHintLevel { level }),
        None => v4,
    };
    let v6 = match idle {
        Some(ms) => v5.push(TurboStep::GpuIdleTimer { ms }),
        None => v5,
    };
    let v7 = match fps {
        Some(f) => v6.push(TurboStep::FpsCapSet { fps: f }),
        None => v6,
    };
    v7.push(TurboStep::SchedDeadlineTick { pid })
}

/// The steps of deactivation, in order: every feature is restored, the
/// frame-rate cap is set back when capping was available, the deadline
/// scheduling is undone, and a running combat boost is released.
pub open spec fn deactivation_steps(fps: Option<u32>, release_boost: bool) -> Seq<TurboStep> {
    let base = seq![
        TurboStep::TouchDeactivate,
        TurboStep::IoSchedulerDeactivate,
        TurboStep::BuffersDeactivate,
        TurboStep::RpsDeactivate,
        TurboStep::WifiPsDeactivate,
        TurboStep::BackgroundDeactivate,
        TurboStep::PriorityDeactivate,
        TurboStep::AffinityDeactivate,
        TurboStep::PerfHintDeactivate,
        TurboStep::CpuIdleDeactivate,
        TurboStep::GpuHintsDeactivate,
        TurboStep::MemoryDeactivate,
        TurboStep::NetworkQosDeactivate,
    ];
    let with_fps = match fps {
        Some(f) => base.push(TurboStep::FpsCapSet { fps: f }),
        None => base,
    };
    push_opt(with_fps.push(TurboStep::SchedDeadlineDeactivate), release_boost, TurboStep::CombatExit)
}

fn push_if(v: &mut Vec<TurboStep>, cond: bool, step: TurboStep)
    ensures
        final(v)@ == push_opt(old(v)@, cond, step),
{
    if cond {
        v.push(step);
    }
}

fn push_feature_steps(v: &mut Vec<TurboStep>, s: GameTurboSettings, pid: u32)
    ensures
        final(v)@ == feature_steps(old(v)@, s, pid),
{
    push_if(v, s.thread_affinity, TurboStep::AffinityActivate { pid, mask: s.big_core_mask });
    push_if(v, s.priority_elevator, TurboStep::PriorityActivate { pid });
    push_if(v, s.background_lockdown, TurboStep::BackgroundActivate { pid });
    push_if(v, s.wifi_ps_disable, TurboStep::WifiPsActivate);
    v.push(TurboStep::RpsActivate);
    push_if(v, s.network_buffers, TurboStep::BuffersActivate);
    push_if(v, s.io_scheduler_boost, TurboStep::IoSchedulerActivate);
    push_if(v, s.touch_boost, TurboStep::TouchActivate);
}

fn push_common_steps(v: &mut Vec<TurboStep>, pid: u32)
    ensures
        final(v)@ == common_steps(old(v)@, pid),
{
    v.push(TurboStep::PerfHintActivate);
    v.push(TurboStep::CpuIdleActivate);
    v.push(TurboStep::GpuHintsActivate);
    v.push(TurboStep::MemoryActivate { pid });
    v.push(TurboStep::NetworkQosActivate);
    v.push(TurboStep::FpsCapActivate);
    v.push(TurboStep::SchedDeadlineActivate { pid });
}

impl GameTurboEngine {
    /// An inactive engine with the default settings and nothing available.
    pub fn new() -> (r: Self)
        ensures
            !r.active,
            !r.thermal_throttled,
            !r.combat_boost.active_spec(),
            r.gpu_load_sum == 0,
            r.gpu_load_samples == 0,
    {
        Self::with_availability(
            TurboAvailability {
                cpu_idle: false,
                gpu_hints: false,
                memory: false,
                tc: false,
                uclamp: false,
                sched_deadline: false,
            },
        )
    }

    /// An inactive engine with the default settings, for what the kernel
    /// offers.
    pub fn with_availability(avail: TurboAvailability) -> (r: Self)
        ensures
            !r.active,
            !r.thermal_throttled,
            !r.combat_boost.active_spec(),
            r.combat_detector.window@.len() == 0,
            r.gpu_load_sum == 0,
            r.gpu_load_samples == 0,
            r.cpu_idle.available == avail.cpu_idle,
            r.gpu_hints.available == avail.gpu_hints,
            r.memory.available == avail.memory,
            r.network_qos.tc_available == avail.tc,
            r.perf_hint.uclamp_available == avail.uclamp,
            r.sched_deadline.available == avail.sched_deadline,
            r.config_snapshot.thermal_throttle_mask == 0xFF,
            r.pending_gpu_power_level_path.is_none(),
            r.pending_gpu_current_level.is_none(),
            r.pending_gpu_best_level == 0,
            r.profiles.wf(),
            forall|p: Seq<char>| #[trigger] r.profiles.profile(p).is_none(),
    {
        GameTurboEngine {
            active: false,
            config_snapshot: GameTurboSnapshot {
                settings: GameTurboSettings::default(),
                thermal_throttle_mask: 0xFF,
            },
            affinity: AffinityState::new(),
            priority: PriorityState::new(),
            background: BackgroundState::new(),
            network: NetworkState::new(),
            touch: TouchState::new(),
            io_scheduler: IoSchedulerState::new(),
            gpu_freq: GpuFreqState::new(),
            perf_hint: PerfHintState::new(avail.uclamp),
            cpu_idle: CpuIdleControl::new(avail.cpu_idle),
            gpu_hints: GpuBusyHints::new(avail.gpu_hints),
            memory: MemoryManager::new(avail.memory),
            network_qos: NetworkQoS::new(avail.tc),
            fps_cap: FpsCapManager::new(),
            sched_deadline: SchedDeadlineManager::new(avail.sched_deadline),
            combat_detector: CombatDetector::new(),
            combat_boost: CombatBoost::new(),
            thermal_throttled: false,
            pending_gpu_power_level_path: None,
            pending_gpu_current_level: None,
            pending_gpu_best_level: 0,
            gpu_load_sum: 0,
            gpu_load_samples: 0,
            profiles: GameProfileManager::new(),
        }
    }

    /// GPU power information for the next activation.
    pub fn set_gpu_power_info(
        &mut self,
        power_level_path: Option<String>,
        current_level: Option<u32>,
        best_level: u32,
    )
        ensures
            final(self).pending_gpu_power_level_path == power_level_path,
            final(self).pending_gpu_current_level == current_level,
            final(self).pending_gpu_best_level == best_level,
            final(self).active == old(self).active,
            final(self).thermal_throttled == old(self).thermal_throttled,
    {
        self.pending_gpu_power_level_path = power_level_path;
        self.pending_gpu_current_level = current_level;
        self.pending_gpu_best_level = best_level;
    }

    pub fn is_active(&self) -> (r: bool)
        ensures
            r == self.active,
    {
        self.active
    }

    /// Whether the constraints were eased for heat in this session.
    pub fn was_thermally_throttled(&self) -> (r: bool)
        ensures
            r == self.thermal_throttled,
    {
        self.thermal_throttled
    }

    pub fn current_fps_cap(&self) -> (r: Option<u32>)
        ensures
            r == self.fps_cap.current_cap,
    {
        self.fps_cap.current_cap()
    }

    /// Adds a GPU load sample to the session average, while active.
    pub fn record_gpu_load(&mut self, gpu_load: u32)
        requires
            old(self).active ==> old(self).gpu_load_sum + gpu_load <= u64::MAX
                && old(self).gpu_load_samples < u32::MAX,
        ensures
            old(self).active ==> final(self).gpu_load_sum == old(self).gpu_load_sum + gpu_load
                && final(self).gpu_load_samples == old(self).gpu_load_samples + 1,
            !old(self).active ==> final(self).gpu_load_sum == old(self).gpu_load_sum
                && final(self).gpu_load_samples == old(self).gpu_load_samples,
            final(self).active == old(self).active,
            *final(self) == (GameTurboEngine {
                gpu_load_sum: final(self).gpu_load_sum,
                gpu_load_samples: final(self).gpu_load_samples,
                ..*old(self)
            }),
    {
        if self.active {
            self.gpu_load_sum = self.gpu_load_sum + gpu_load as u64;
            self.gpu_load_samples = self.gpu_load_samples + 1;
        }
    }

    /// Clears the session's GPU load samples (after the session is recorded).
    pub fn clear_gpu_load(&mut self)
        ensures
            final(self).gpu_load_sum == 0,
            final(self).gpu_load_samples == 0,
            final(self).active == old(self).active,
    {
        self.gpu_load_sum = 0;
        self.gpu_load_samples = 0;
    }

    /// Takes the learned profiles (as loaded from the state directory).
    pub fn init_profiles(&mut self, profiles: GameProfileManager)
        ensures
            final(self).profiles == profiles,
            final(self).active == old(self).active,
            final(self).thermal_throttled == old(self).thermal_throttled,
    {
        self.profiles = profiles;
    }

    /// The learned GPU power level for `package`.
    pub fn recommended_gpu_level(&self, package: &str, gpu_best: u32, gpu_worst: u32) -> (r: Option<u32>)
        ensures
            r == (match self.profiles.profile(package@) {
                Some(e) => crate::game_turbo::profiles::recommend_gpu_spec(e, gpu_best, gpu_worst),
                None => None,
            }),
    {
        self.profiles.recommend_gpu_level(package, gpu_best, gpu_worst)
    }

    /// The learned frame-rate cap for `package`.
    pub fn recommended_fps_cap(&self, package: &str) -> (r: Option<u32>)
        ensures
            r == (match self.profiles.profile(package@) {
                Some(e) => if e.sessions >= profiles::MIN_SESSIONS && e.optimal_fps_cap > 0 {
                    Some(e.optimal_fps_cap)
                } else {
                    None
                },
                None => None,
            }),
    {
        self.profiles.recommend_fps_cap(package)
    }

    /// The learned network profile for `package`.
    pub fn recommended_network_profile(&self, package: &str) -> (r: Option<u8>)
        ensures
            r == (match self.profiles.profile(package@) {
                Some(e) => if e.sessions >= profiles::MIN_SESSIONS && e.preferred_network > 0 {
                    Some(e.preferred_network)
                } else {
                    None
                },
                None => None,
            }),
    {
        self.profiles.recommend_network_profile(package)
    }

    /// The learned thermal policy for `package`.
    pub fn recommended_thermal_policy(&self, package: &str) -> (r: Option<u8>)
        ensures
            r == (match self.profiles.profile(package@) {
                Some(e) => if e.sessions >= profiles::MIN_SESSIONS && e.thermal_policy > 0 {
                    Some(e.thermal_policy)
                } else {
                    None
                },
                None => None,
            }),
    {
        self.profiles.recommend_thermal_policy(package)
    }

    /// Records the frame-rate cap a session of `package` ran at, with its
    /// jank in hundredths of a percent.
    pub fn record_fps_cap(&mut self, package: &str, fps_cap: u32, jank_pct: i64)
        requires
            old(self).profiles.wf(),
        ensures
            final(self).profiles.wf(),
            final(self).profiles.profile(package@) == Some(
                fps_cap_update(or_empty(old(self).profiles.profile(package@)), fps_cap, jank_pct),
            ),
            forall|p: Seq<char>|
                p != package@ ==> #[trigger] final(self).profiles.profile(p) == old(self).profiles.profile(p),
            final(self).active == old(self).active,
    {
        self.profiles.record_fps_cap(package, fps_cap, jank_pct);
    }

    /// Records the network a session of `package` ran on.
    pub fn record_network_profile(&mut self, package: &str, net_type: u8)
        requires
            old(self).profiles.wf(),
        ensures
            final(self).profiles.wf(),
            final(self).profiles.profile(package@) == Some(
                profiles::GameProfileEntry {
                    preferred_network: net_type,
                    ..or_empty(old(self).profiles.profile(package@))
                },
            ),
            forall|p: Seq<char>|
                p != package@ ==> #[trigger] final(self).profiles.profile(p) == old(self).profiles.profile(p),
            final(self).active == old(self).active,
    {
        self.profiles.record_network_profile(package, net_type);
    }

    /// Records the thermal class of a session of `package`.
    pub fn record_thermal_policy(&mut self, package: &str, policy: u8)
        requires
            old(self).profiles.wf(),
        ensures
            final(self).profiles.wf(),
            final(self).profiles.profile(package@) == Some(
                profiles::GameProfileEntry {
                    thermal_policy: policy,
                    ..or_empty(old(self).profiles.profile(package@))
                },
            ),
            forall|p: Seq<char>|
                p != package@ ==> #[trigger] final(self).profiles.profile(p) == old(self).profiles.profile(p),
            final(self).active == old(self).active,
    {
        self.profiles.record_thermal_policy(package, policy);
    }

    /// Records a finished session of `package`: the session's average GPU
    /// load (in hundredths of a percent; 50 % without samples) joins the
    /// profile with the GPU level used and the jank, and the samples are
    /// cleared.
    pub fn record_session(&mut self, package: &str, gpu_level_used: u32, jank_pct: i64, now_secs: u64)
        requires
            old(self).profiles.wf(),
        ensures
            final(self).profiles.wf(),
            final(self).profiles.profile(package@) == Some(
                session_update(
                    or_empty(old(self).profiles.profile(package@)),
                    gpu_level_used,
                    session_load_spec(old(self).gpu_load_sum, old(self).gpu_load_samples),
                    jank_pct,
                    now_secs,
                ),
            ),
            forall|p: Seq<char>|
                p != package@ ==> #[trigger] final(self).profiles.profile(p) == old(self).profiles.profile(p),
            final(self).gpu_load_sum == 0,
            final(self).gpu_load_samples == 0,
            final(self).active == old(self).active,
    {
        let load: u32 = if self.gpu_load_samples > 0 {
            let avg = (self.gpu_load_sum as u128) * 100 / (self.gpu_load_samples as u128);
            if avg > 0xFFFF_FFFF {
                0xFFFF_FFFF
            } else {
                avg as u32
            }
        } else {
            5000
        };
        self.profiles.record_session(package, gpu_level_used, load, jank_pct, now_secs);
        self.gpu_load_sum = 0;
        self.gpu_load_samples = 0;
    }

    pub fn combat_is_active(&self) -> (r: bool)
        ensures
            r == self.combat_boost.active_spec(),
    {
        self.combat_boost.is_active()
    }

    /// Clears the combat heuristic. Returns whether the boost was on, so
    /// that the caller releases it.
    pub fn combat_reset(&mut self) -> (release: bool)
        ensures
            release == old(self).combat_boost.active_spec(),
            !final(self).combat_boost.active_spec(),
            final(self).combat_detector.window@.len() == 0,
            final(self).active == old(self).active,
            final(self).thermal_throttled == old(self).thermal_throttled,
    {
        self.combat_detector.reset();
        self.combat_boost.reset()
    }

    /// One tick of the combat heuristic: a burst (re)triggers the boost and
    /// holds it for another `HOLD_MS`; the boost then runs its hold and
    /// decay.
    pub fn combat_update(
        &mut self,
        gpu_load: u32,
        fallback_gpu: u32,
        rx: u64,
        uclamp_min: u32,
        now_ms: u64,
    ) -> (r: CombatOutcome)
        requires
            now_ms <= u64::MAX - combat_boost::HOLD_MS,
        ensures
            r == combat_outcome_spec(
                old(self).combat_detector,
                old(self).combat_boost,
                gpu_load,
                fallback_gpu,
                rx,
                uclamp_min,
                now_ms,
            ),
            final(self).combat_boost == boost_after_update(
                old(self).combat_detector,
                old(self).combat_boost,
                gpu_load,
                fallback_gpu,
                rx,
                uclamp_min,
                now_ms,
            ),
            r.reading.combat ==> r.active && final(self).combat_boost.extended_until == Some(
                (now_ms + combat_boost::HOLD_MS) as u64,
            ) && !final(self).combat_boost.in_decay,
            r.active == final(self).combat_boost.active_spec(),
            final(self).combat_detector.window@ == combat_detector::window_after(
                old(self).combat_detector.window@,
                combat_detector::sample_gpu(gpu_load, fallback_gpu),
                rx,
                now_ms,
            ),
            *final(self) == (GameTurboEngine {
                combat_detector: final(self).combat_detector,
                combat_boost: final(self).combat_boost,
                ..*old(self)
            }),
    {
        let reading = self.combat_detector.update(gpu_load, fallback_gpu, rx, uclamp_min, now_ms);
        let mut triggered: Option<bool> = None;
        if reading.combat {
            triggered = Some(self.combat_boost.trigger(now_ms));
        }
        let (_, effect) = self.combat_boost.tick(reading.combat, now_ms);
        let active = self.combat_boost.is_active();
        CombatOutcome { reading, triggered, effect, active }
    }

    /// Starts game turbo for `game_pid` with the given settings; nothing when
    /// it is already running. Returns the steps to perform, in order.
    pub fn activate(&mut self, game_pid: u32, settings: &GameTurboSettings) -> (steps: Vec<TurboStep>)
        ensures
            old(self).active ==> steps@.len() == 0 && *final(self) == *old(self),
            !old(self).active ==> {
                &&& final(self).config_snapshot == (GameTurboSnapshot {
                    settings: *settings,
                    thermal_throttle_mask: 0xFF,
                })
                &&& steps@ == activation_steps(
                    *settings,
                    game_pid,
                    if settings.gpu_freq_boost && old(self).pending_gpu_power_level_path.is_some() {
                        Some(old(self).pending_gpu_best_level)
                    } else {
                        None
                    },
                )
                &&& !final(self).combat_boost.active_spec()
                &&& final(self).combat_detector.window@.len() == 0
                &&& final(self).thermal_throttled == old(self).thermal_throttled
            },
            final(self).active,
    {
        let mut steps: Vec<TurboStep> = Vec::new();
        if self.active {
            return steps;
        }
        self.config_snapshot = GameTurboSnapshot { settings: *settings, thermal_throttle_mask: 0xFF };
        let s = *settings;
        push_feature_steps(&mut steps, s, game_pid);
        let mut gpu: Option<u32> = None;
        if s.gpu_freq_boost {
            let path = match &self.pending_gpu_power_level_path {
                Some(p) => Some(p.as_str()),
                None => None,
            };
            match self.gpu_freq.activate(path, self.pending_gpu_current_level, self.pending_gpu_best_level) {
                Some((_, level)) => {
                    gpu = Some(level);
                },
                None => {},
            }
        }
        match gpu {
            Some(level) => steps.push(TurboStep::GpuLevel { level }),
            None => {},
        }
        push_common_steps(&mut steps, game_pid);
        if self.perf_hint.uclamp_available {
            self.perf_hint.current_level = states::UCLAMP_MIN_BASELINE;
        }
        self.combat_detector.reset();
        self.combat_boost.reset();
        self.active = true;
        steps
    }
}

impl GameTurboEngine {
    /// Eases or re-applies the constraints for the composite temperature;
    /// nothing while inactive or with thermal easing off. Entering the eased
    /// state widens the affinity to all cores and lifts the background
    /// lockdown; leaving it re-pins to the big cores and clamps the background
    /// again.
    pub fn thermal_adjust(&mut self, composite_temp: i32, temp_hot: i32, game_pid: u32) -> (steps:
        Vec<TurboStep>)
        requires
            temp_hot >= i32::MIN + THERMAL_RELEASE_MARGIN,
        ensures
            !old(self).active || !old(self).config_snapshot.settings.thermal_throttle_enabled ==> {
                &&& steps@.len() == 0
                &&& final(self).thermal_throttled == old(self).thermal_throttled
            },
            old(self).active && old(self).config_snapshot.settings.thermal_throttle_enabled ==> {
                let s = old(self).config_snapshot.settings;
                let now = throttle_next(old(self).thermal_throttled, composite_temp, temp_hot);
                &&& final(self).thermal_throttled == now
                &&& steps@ == (if now && !old(self).thermal_throttled {
                    push_opt(
                        push_opt(
                            Seq::empty(),
                            s.thread_affinity,
                            TurboStep::AffinityUpdateMask {
                                pid: game_pid,
                                mask: old(self).config_snapshot.thermal_throttle_mask,
                            },
                        ),
                        s.background_lockdown,
                        TurboStep::BackgroundDeactivate,
                    )
                } else if !now && old(self).thermal_throttled {
                    push_opt(
                        push_opt(
                            Seq::empty(),
                            s.thread_affinity,
                            TurboStep::AffinityUpdateMask { pid: game_pid, mask: s.big_core_mask },
                        ),
                        s.background_lockdown,
                        TurboStep::BackgroundActivate { pid: game_pid },
                    )
                } else {
                    Seq::empty()
                })
            },
            final(self).active == old(self).active,
            final(self).config_snapshot == old(self).config_snapshot,
    {
        let mut steps: Vec<TurboStep> = Vec::new();
        if !self.active || !self.config_snapshot.settings.thermal_throttle_enabled {
            return steps;
        }
        let was = self.thermal_throttled;
        self.thermal_throttled = if was {
            composite_temp >= temp_hot - THERMAL_RELEASE_MARGIN
        } else {
            composite_temp >= temp_hot
        };
        let s = self.config_snapshot.settings;
        if self.thermal_throttled && !was {
            push_if(
                &mut steps,
                s.thread_affinity,
                TurboStep::AffinityUpdateMask {
                    pid: game_pid,
                    mask: self.config_snapshot.thermal_throttle_mask,
                },
            );
            push_if(&mut steps, s.background_lockdown, TurboStep::BackgroundDeactivate);
        } else if !self.thermal_throttled && was {
            push_if(
                &mut steps,
                s.thread_affinity,
                TurboStep::AffinityUpdateMask { pid: game_pid, mask: s.big_core_mask },
            );
            push_if(&mut steps, s.background_lockdown, TurboStep::BackgroundActivate { pid: game_pid });
        }
        steps
    }

    /// One tick while a game runs: refreshes the per-thread features, the
    /// network after a hand-off, the top-app clamp, the GPU idle timer, the
    /// frame-rate cap and the render threads, then runs the combat
    /// heuristic. Nothing while inactive.
    pub fn tick(&mut self, inp: &TurboTickInputs) -> (r: (Vec<TurboStep>, Option<CombatOutcome>))
        requires
            inp.now_ms <= u64::MAX - combat_boost::HOLD_MS,
        ensures
            !old(self).active ==> r.0@.len() == 0 && r.1.is_none() && *final(self) == *old(self),
            old(self).active ==> r.0@ == tick_steps(
                old(self).config_snapshot.settings,
                inp.game_pid,
                perf_level_set(old(self).perf_hint, inp.gpu_load, inp.thermal_temp),
                idle_timer_set(old(self).gpu_hints, inp.gpu_load),
                fps_cap_set(old(self).fps_cap, inp.battery_percent, inp.charging, inp.fps_thermal_temp),
            ),
            old(self).active ==> r.1 == Some(
                combat_outcome_spec(
                    old(self).combat_detector,
                    old(self).combat_boost,
                    inp.gpu_load,
                    inp.fallback_gpu,
                    inp.rx_packets,
                    inp.uclamp_min,
                    inp.now_ms,
                ),
            ),
            old(self).active ==> final(self).combat_boost == boost_after_update(
                old(self).combat_detector,
                old(self).combat_boost,
                inp.gpu_load,
                inp.fallback_gpu,
                inp.rx_packets,
                inp.uclamp_min,
                inp.now_ms,
            ),
            final(self).active == old(self).active,
            final(self).thermal_throttled == old(self).thermal_throttled,
            final(self).config_snapshot == old(self).config_snapshot,
            old(self).active ==> {
                let s = old(self).config_snapshot.settings;
                let pid = inp.game_pid;
                &&& r.0@.len() >= 2
                &&& r.0@.contains(TurboStep::NetworkRefresh { wifi_low_latency: s.wifi_ps_disable })
                &&& r.0@.contains(TurboStep::SchedDeadlineTick { pid })
                &&& s.thread_affinity ==> r.0@.contains(
                    TurboStep::AffinityTick { pid, mask: s.big_core_mask },
                )
                &&& s.priority_elevator ==> r.0@.contains(TurboStep::PriorityTick { pid })
                &&& s.touch_boost ==> r.0@.contains(TurboStep::TouchTick)
            },
    {
        let mut steps: Vec<TurboStep> = Vec::new();
        if !self.active {
            return (steps, None);
        }
        let s = self.config_snapshot.settings;
        let pid = inp.game_pid;
        push_if(&mut steps, s.thread_affinity, TurboStep::AffinityTick { pid, mask: s.big_core_mask });
        push_if(&mut steps, s.priority_elevator, TurboStep::PriorityTick { pid });
        push_if(&mut steps, s.touch_boost, TurboStep::TouchTick);
        let ghost k_net = steps@.len();
        steps.push(TurboStep::NetworkRefresh { wifi_low_latency: s.wifi_ps_disable });
        match self.perf_hint.tick(inp.gpu_load, inp.thermal_temp) {
            Some(level) => steps.push(TurboStep::PerfHintLevel { level }),
            None => {},
        }
        match self.gpu_hints.tick(inp.gpu_load) {
            Some(ms) => steps.push(TurboStep::GpuIdleTimer { ms }),
            None => {},
        }
        self.memory.tick();
        self.network_qos.tick();
        match self.fps_cap.tick(inp.battery_percent, inp.charging, inp.fps_thermal_temp) {
            Some(fps) => steps.push(TurboStep::FpsCapSet { fps }),
            None => {},
        }
        let ghost before_sd = steps@;
        steps.push(TurboStep::SchedDeadlineTick { pid });
        proof {
            assert(steps@[steps@.len() - 1] == TurboStep::SchedDeadlineTick { pid });
            assert(steps@[k_net as int] == TurboStep::NetworkRefresh {
                wifi_low_latency: s.wifi_ps_disable,
            });
            if s.thread_affinity {
                assert(steps@[0] == TurboStep::AffinityTick { pid, mask: s.big_core_mask });
            }
            if s.priority_elevator {
                let i: int = if s.thread_affinity { 1 } else { 0 };
                assert(steps@[i] == TurboStep::PriorityTick { pid });
            }
            if s.touch_boost {
                let i: int = (if s.thread_affinity { 1int } else { 0int }) + (if s.priority_elevator { 1int } else { 0int });
                assert(steps@[i] == TurboStep::TouchTick);
            }
        }
        let outcome = self.combat_update(
            inp.gpu_load,
            inp.fallback_gpu,
            inp.rx_packets,
            inp.uclamp_min,
            inp.now_ms,
        );
        (steps, Some(outcome))
    }
}

/// What deactivation returns: the steps in order, and the GPU power level
/// to restore with its node.
pub struct TurboRelease {
    pub steps: Vec<TurboStep>,
    pub gpu_restore: Option<(String, u32)>,
}

impl GameTurboEngine {
    /// Stops game turbo and restores what it changed; nothing when inactive.
    /// Afterwards the engine is inactive, not eased, and the combat boost is
    /// off.
    pub fn deactivate(&mut self) -> (r: TurboRelease)
        ensures
            !old(self).active ==> r.steps@.len() == 0 && r.gpu_restore.is_none() && *final(self)
                == *old(self),
            old(self).active ==> r.steps@ == deactivation_steps(
                if old(self).fps_cap.available {
                    Some(
                        match old(self).fps_cap.original_max_fps {
                            Some(v) => v,
                            None => 0u32,
                        },
                    )
                } else {
                    None
                },
                old(self).combat_boost.active_spec(),
            ),
            old(self).active ==> match (
                old(self).gpu_freq.power_level_path,
                old(self).gpu_freq.saved_power_level,
            ) {
                (Some(p), Some(l)) => r.gpu_restore.is_some() && r.gpu_restore.unwrap().0@ == p@
                    && r.gpu_restore.unwrap().1 == l,
                _ => r.gpu_restore.is_none(),
            },
            old(self).active ==> final(self).perf_hint.current_level == (if old(
                self,
            ).perf_hint.uclamp_available {
                states::UCLAMP_MIN_BASELINE
            } else {
                old(self).perf_hint.current_level
            }),
            old(self).active ==> *final(self) == (GameTurboEngine {
                active: false,
                thermal_throttled: false,
                gpu_freq: final(self).gpu_freq,
                perf_hint: final(self).perf_hint,
                fps_cap: final(self).fps_cap,
                combat_detector: final(self).combat_detector,
                combat_boost: final(self).combat_boost,
                ..*old(self)
            }),
            old(self).active ==> {
                &&& !final(self).thermal_throttled
                &&& !final(self).combat_boost.active_spec()
                &&& final(self).combat_detector.window@.len() == 0
                &&& final(self).gpu_freq.saved_power_level.is_none()
                &&& final(self).fps_cap.current_cap.is_none() || !old(self).fps_cap.available
                &&& r.steps@.contains(TurboStep::AffinityDeactivate)
                &&& r.steps@.contains(TurboStep::BackgroundDeactivate)
                &&& r.steps@.contains(TurboStep::PriorityDeactivate)
                &&& r.steps@.contains(TurboStep::TouchDeactivate)
                &&& r.steps@.contains(TurboStep::WifiPsDeactivate)
                &&& r.steps@.contains(TurboStep::SchedDeadlineDeactivate)
                &&& old(self).combat_boost.active_spec() ==> r.steps@.contains(
                    TurboStep::CombatExit,
                )
            },
            !final(self).active,
            final(self).config_snapshot == old(self).config_snapshot,
    {
        let mut steps: Vec<TurboStep> = Vec::new();
        if !self.active {
            return TurboRelease { steps, gpu_restore: None };
        }
        let gpu_restore = self.gpu_freq.deactivate();
        steps.push(TurboStep::TouchDeactivate);
        steps.push(TurboStep::IoSchedulerDeactivate);
        steps.push(TurboStep::BuffersDeactivate);
        steps.push(TurboStep::RpsDeactivate);
        steps.push(TurboStep::WifiPsDeactivate);
        steps.push(TurboStep::BackgroundDeactivate);
        steps.push(TurboStep::PriorityDeactivate);
        steps.push(TurboStep::AffinityDeactivate);
        steps.push(TurboStep::PerfHintDeactivate);
        if self.perf_hint.uclamp_available {
            self.perf_hint.current_level = states::UCLAMP_MIN_BASELINE;
        }
        steps.push(TurboStep::CpuIdleDeactivate);
        steps.push(TurboStep::GpuHintsDeactivate);
        steps.push(TurboStep::MemoryDeactivate);
        steps.push(TurboStep::NetworkQosDeactivate);
        match self.fps_cap.deactivate() {
            Some(fps) => steps.push(TurboStep::FpsCapSet { fps }),
            None => {},
        }
        let ghost k = steps@.len();
        steps.push(TurboStep::SchedDeadlineDeactivate);
        self.combat_detector.reset();
        let release = self.combat_boost.reset();
        if release {
            steps.push(TurboStep::CombatExit);
        }
        proof {
            assert(steps@[0] == TurboStep::TouchDeactivate);
            assert(steps@[4] == TurboStep::WifiPsDeactivate);
            assert(steps@[5] == TurboStep::BackgroundDeactivate);
            assert(steps@[6] == TurboStep::PriorityDeactivate);
            assert(steps@[7] == TurboStep::AffinityDeactivate);
            assert(steps@[k as int] == TurboStep::SchedDeadlineDeactivate);
            if release {
                assert(steps@[steps@.len() - 1] == TurboStep::CombatExit);
            }
        }
        self.thermal_throttled = false;
        self.active = false;
        TurboRelease { steps, gpu_restore }
    }
}

/// Easing starts at `temp_hot` and holds down to three degrees below it:
/// between the two, the eased state does not change.
pub proof fn law_thermal_hysteresis(was: bool, temp: i32, temp_hot: i32)
    ensures
        temp >= temp_hot ==> throttle_next(was, temp, temp_hot),
        temp < temp_hot - THERMAL_RELEASE_MARGIN ==> !throttle_next(was, temp, temp_hot),
        temp_hot - THERMAL_RELEASE_MARGIN <= temp < temp_hot ==> throttle_next(was, temp, temp_hot)
            == was,
{
}

} // verus!

use std::path::Path;
use thermalai_daemon::game_turbo::combat_boost::{BoostEffect, CombatBoost};
use thermalai_daemon::game_turbo::combat_detector::CombatDetector;
use thermalai_daemon::game_turbo::fps_cap::{battery_percent_from, thermal_temp_from, FpsCapManager};
use thermalai_daemon::game_turbo::profiles::{GameProfileEntry, GameProfileManager};
use thermalai_daemon::game_turbo::states::{
    extract_irq_number, is_critical_thread, normalize_active_scheduler, AffinityState,
    BackgroundState, CpuIdleControl, GpuBusyHints, GpuFreqState, IoSchedulerState, MemoryManager,
    NetworkQoS, NetworkState, PerfHintState, PriorityState, SchedDeadlineManager, TouchState,
    WifiPsStep,
};
use thermalai_daemon::game_turbo::{
    GameTurboEngine, GameTurboSettings, TurboStep, TurboTickInputs,
};

#[test]
fn test_background_state_new() {
    let state = BackgroundState::new();
    assert!(state.saved_uclamp_max.is_empty());
}

#[test]
fn new_inactive() {
    assert!(!CombatBoost::new().is_active());
}

#[test]
fn new_detector_empty() {
    let d = CombatDetector::new();
    assert!(d.window.is_empty());
}

#[test]
fn test_cpu_idle_new() {
    let ctrl = CpuIdleControl::new(Path::new("/sys/devices/system/cpu/cpu0/cpuidle").exists());
    let _ = ctrl.available;
}

#[test]
fn test_fps_cap_new() {
    let mgr = FpsCapManager::new();
    let _ = mgr.available;
}

#[test]
fn test_calculate_cap() {
    let mgr = FpsCapManager::new();
    assert_eq!(mgr.calculate_cap(50, true, 35), 120);
    assert_eq!(mgr.calculate_cap(10, false, 35), 60);
    assert_eq!(mgr.calculate_cap(80, false, 55), 60);
    assert_eq!(mgr.calculate_cap(60, false, 35), 120);
}

#[test]
fn test_gpu_freq_state_new() {
    let state = GpuFreqState::new();
    assert!(state.saved_power_level.is_none());
    assert!(state.power_level_path.is_none());
}

#[test]
fn test_gpu_hints_new() {
    let hints = GpuBusyHints::new(Path::new("/sys/class/kgsl/kgsl-3d0").exists());
    let _ = hints.available;
}

#[test]
fn test_normalize_active_scheduler() {
    assert_eq!(normalize_active_scheduler("none [mq-deadline] kyber"), "mq-deadline");
    assert_eq!(normalize_active_scheduler("none [bfq] mq-deadline"), "bfq");
    assert_eq!(normalize_active_scheduler("[mq-deadline]"), "mq-deadline");
}

#[test]
fn test_io_scheduler_state_new() {
    let state = IoSchedulerState::new();
    assert!(state.saved_schedulers.is_empty());
    assert!(state.saved_read_ahead.is_empty());
}

#[test]
fn test_memory_manager_new() {
    let mgr = MemoryManager::new(Path::new("/sys/block/zram0/compact").exists());
    let _ = mgr.available;
}

#[test]
fn test_game_turbo_new_not_active() {
    let engine = GameTurboEngine::new();
    assert!(!engine.is_active());
    assert!(!engine.thermal_throttled);
}

#[test]
fn test_deactivate_when_not_active_is_noop() {
    let mut engine = GameTurboEngine::new();
    let release = engine.deactivate();
    assert!(!engine.is_active());
    assert!(release.steps.is_empty());
}

#[test]
fn test_thermal_adjust_when_not_active_is_noop() {
    let mut engine = GameTurboEngine::new();
    let steps = engine.thermal_adjust(80, 58, 1234);
    assert!(!engine.thermal_throttled);
    assert!(steps.is_empty());
}

#[test]
fn test_network_state_new() {
    let state = NetworkState::new();
    assert!(state.wifi_ps_original.is_none());
    assert!(state.wifi_ps_path.is_none());
    assert!(state.saved_tunables.is_empty());
    assert!(state.rps_saved.is_empty());
    assert!(!state.wifi_ps_cmd_used);
    assert!(state.rps_flow_original.is_none());
}

#[test]
fn test_network_qos_new() {
    let qos = NetworkQoS::new(false);
    let _ = qos.tc_available;
}

#[test]
fn test_perf_hint_state_new() {
    let available = Path::new("/dev/cpuctl/top-app/cpu.uclamp.min").exists()
        && Path::new("/dev/cpuctl/top-app/cpu.uclamp.max").exists();
    let state = PerfHintState::new(available);
    assert_eq!(state.current_level, 40);
}

#[test]
fn test_priority_state_new() {
    let state = PriorityState::new();
    assert!(state.saved_nice.is_empty());
    assert!(state.saved_policy.is_empty());
    assert!(state.boosted_pids.is_empty());
}

#[test]
fn test_sched_deadline_new() {
    let mgr = SchedDeadlineManager::new(false);
    let _ = mgr.available;
}

#[test]
fn test_is_critical_thread() {
    assert!(is_critical_thread("RenderThread"));
    assert!(is_critical_thread("GLThread"));
    assert!(is_critical_thread("UnityMain"));
    assert!(is_critical_thread("hwuiTask0"));
    assert!(!is_critical_thread("binder"));
    assert!(!is_critical_thread("HeapTaskDaemon"));
}

#[test]
fn test_affinity_state_new() {
    let state = AffinityState::new();
    assert!(state.saved_affinities.is_empty());
    assert!(state.pinned_tids.is_empty());
}

#[test]
fn test_touch_state_new() {
    let state = TouchState::new();
    assert!(state.boosted_tids.is_empty());
}

fn manager_with(entry: GameProfileEntry) -> GameProfileManager {
    let mut manager = GameProfileManager::new();
    manager.set_profile("com.test.game", entry);
    manager
}

#[test]
fn game_profiles_test_recommend_no_profile() {
    let manager = GameProfileManager::new();
    assert_eq!(manager.recommend_gpu_level("com.test.game", 0, 10), None);
}

#[test]
fn game_profiles_test_recommend_insufficient_sessions() {
    let manager = manager_with(GameProfileEntry { best_gpu_level: 2, sessions: 1, ..Default::default() });
    assert_eq!(manager.recommend_gpu_level("com.test.game", 0, 10), None);
}

#[test]
fn game_profiles_test_recommend_gpu_bound() {
    let manager = manager_with(GameProfileEntry {
        best_gpu_level: 3,
        avg_gpu_load: 8500,
        sessions: 5,
        gpu_bound: true,
        last_jank_pct: 500,
        ..Default::default()
    });
    assert_eq!(manager.recommend_gpu_level("com.test.game", 0, 10), Some(3));
}

#[test]
fn game_profiles_test_recommend_not_gpu_bound() {
    let manager = manager_with(GameProfileEntry {
        best_gpu_level: 3,
        avg_gpu_load: 4000,
        sessions: 5,
        gpu_bound: false,
        last_jank_pct: 500,
        ..Default::default()
    });
    assert_eq!(manager.recommend_gpu_level("com.test.game", 0, 10), Some(4));
}

#[test]
fn gpu_profiles_test_recommend_no_profile() {
    let manager = GameProfileManager::new();
    assert_eq!(manager.recommend_gpu_level("com.test.game", 0, 10), None);
}

#[test]
fn gpu_profiles_test_recommend_insufficient_sessions() {
    let manager = manager_with(GameProfileEntry { best_gpu_level: 2, sessions: 1, ..Default::default() });
    assert_eq!(manager.recommend_gpu_level("com.test.game", 0, 10), None);
}

#[test]
fn gpu_profiles_test_recommend_gpu_bound() {
    let manager = manager_with(GameProfileEntry {
        best_gpu_level: 3,
        avg_gpu_load: 8500,
        sessions: 5,
        gpu_bound: true,
        last_jank_pct: 500,
        ..Default::default()
    });
    assert_eq!(manager.recommend_gpu_level("com.test.game", 0, 10), Some(3));
}

#[test]
fn gpu_profiles_test_recommend_not_gpu_bound() {
    let manager = manager_with(GameProfileEntry {
        best_gpu_level: 3,
        avg_gpu_load: 4000,
        sessions: 5,
        gpu_bound: false,
        last_jank_pct: 500,
        ..Default::default()
    });
    assert_eq!(manager.recommend_gpu_level("com.test.game", 0, 10), Some(4));
}

#[test]
fn recommended_level_stays_in_range() {
    let m = manager_with(GameProfileEntry { best_gpu_level: 10, sessions: 5, ..Default::default() });
    assert_eq!(m.recommend_gpu_level("com.test.game", 0, 10), Some(10));
    let m = manager_with(GameProfileEntry { best_gpu_level: 0, sessions: 5, gpu_bound: true, ..Default::default() });
    assert_eq!(m.recommend_gpu_level("com.test.game", 2, 10), Some(2));
    let m = manager_with(GameProfileEntry {
        best_gpu_level: 1,
        sessions: 3,
        gpu_bound: true,
        optimal_fps_cap: 90,
        preferred_network: 2,
        ..Default::default()
    });
    assert_eq!(m.recommend_fps_cap("com.test.game"), Some(90));
    assert_eq!(m.recommend_network_profile("com.test.game"), Some(2));
    assert_eq!(m.recommend_thermal_policy("com.test.game"), None);
    assert_eq!(m.recommend_fps_cap("com.other"), None);
}

#[test]
fn sessions_teach_the_profile() {
    let mut m = GameProfileManager::new();
    // First smooth session at level 4 with 80 % GPU load.
    m.record_session("com.g", 4, 8000, 500, 100);
    let e = m.get("com.g").unwrap();
    assert_eq!((e.sessions, e.best_gpu_level, e.avg_gpu_load, e.gpu_bound), (1, 4, 8000, true));
    // A smooth session at a faster level becomes the best; the load averages.
    m.record_session("com.g", 2, 4000, 900, 200);
    let e = m.get("com.g").unwrap();
    assert_eq!((e.sessions, e.best_gpu_level, e.avg_gpu_load, e.gpu_bound), (2, 2, 6000, false));
    // A janky session moves the best level one step faster.
    m.record_session("com.g", 6, 6000, 2500, 300);
    let e = m.get("com.g").unwrap();
    assert_eq!((e.sessions, e.best_gpu_level, e.last_jank_pct, e.last_session_ts), (3, 1, 2500, 300));
    assert_eq!(m.recommend_gpu_level("com.g", 0, 10), Some(2));
    // Moderate jank changes nothing about the level.
    m.record_session("com.g", 0, 6000, 1500, 400);
    assert_eq!(m.get("com.g").unwrap().best_gpu_level, 1);
    assert!(m.get("com.h").is_none());
}

#[test]
fn fps_cap_network_and_thermal_records() {
    let mut m = GameProfileManager::new();
    m.record_fps_cap("com.g", 90, 500);
    assert_eq!(m.get("com.g").unwrap().optimal_fps_cap, 90);
    m.record_fps_cap("com.g", 120, 500);
    assert_eq!(m.get("com.g").unwrap().optimal_fps_cap, 90);
    m.record_fps_cap("com.g", 60, 1500);
    assert_eq!(m.get("com.g").unwrap().optimal_fps_cap, 90);
    m.record_fps_cap("com.g", 60, 0);
    assert_eq!(m.get("com.g").unwrap().optimal_fps_cap, 60);
    m.record_network_profile("com.g", 2);
    m.record_thermal_policy("com.h", 1);
    assert_eq!(m.get("com.g").unwrap().preferred_network, 2);
    assert_eq!(m.get("com.h").unwrap().thermal_policy, 1);
    assert_eq!(m.get("com.h").unwrap().sessions, 0);
    assert_eq!(m.get("com.g").unwrap().thermal_policy, 0);
}

#[test]
fn engine_records_session_with_its_average_load() {
    let mut engine = GameTurboEngine::new();
    engine.record_session("com.g", 3, 0, 10);
    let e = engine.profiles.get("com.g").unwrap();
    assert_eq!(e.avg_gpu_load, 5000);
    assert_eq!(engine.recommended_gpu_level("com.g", 0, 10), None);
    engine.record_network_profile("com.g", 1);
    engine.record_thermal_policy("com.g", 2);
    engine.record_session("com.g", 3, 0, 20);
    assert_eq!(engine.recommended_network_profile("com.g"), Some(1));
    assert_eq!(engine.recommended_thermal_policy("com.g"), Some(2));
    assert_eq!(engine.recommended_gpu_level("com.g", 0, 10), Some(4));
    engine.record_fps_cap("com.g", 90, 0);
    assert_eq!(engine.recommended_fps_cap("com.g"), Some(90));
}

#[test]
fn irq_number_from_interrupts_line() {
    assert_eq!(extract_irq_number(" 123:  12345  GICv3  fts_ts"), Some(123));
    assert_eq!(extract_irq_number("IPI0: 1 2 Rescheduling"), None);
    assert_eq!(extract_irq_number("   "), None);
}

#[test]
fn fps_cap_tick_and_restore() {
    let mut mgr = FpsCapManager::new();
    assert_eq!(mgr.activate(Some(144), 80, false, 30), Some(120));
    assert_eq!(mgr.tick(80, false, 30), None);
    assert_eq!(mgr.tick(80, false, 49), Some(90));
    assert_eq!(mgr.current_cap(), Some(90));
    assert_eq!(mgr.deactivate(), Some(144));
    assert_eq!(mgr.current_cap(), None);
    assert_eq!(mgr.deactivate(), Some(0));
    assert_eq!(battery_percent_from(Some(" 57\n")), 57);
    assert_eq!(battery_percent_from(Some("x")), 100);
    assert_eq!(battery_percent_from(None), 100);
    assert_eq!(thermal_temp_from(Some("45123\n")), 45);
    assert_eq!(thermal_temp_from(None), 40);
}

#[test]
fn gpu_freq_saves_and_restores() {
    let mut s = GpuFreqState::new();
    let w = s.activate(Some("/sys/class/kgsl/kgsl-3d0/default_pwrlevel"), Some(5), 0);
    assert_eq!(w, Some(("/sys/class/kgsl/kgsl-3d0/default_pwrlevel".to_string(), 0)));
    let r = s.deactivate();
    assert_eq!(r, Some(("/sys/class/kgsl/kgsl-3d0/default_pwrlevel".to_string(), 5)));
    assert!(s.deactivate().is_none());
}

#[test]
fn perf_hint_elevates_under_load() {
    let mut s = PerfHintState::new(true);
    assert_eq!(s.tick(60, 30), Some(70));
    assert_eq!(s.tick(60, 30), None);
    assert_eq!(s.tick(10, 30), Some(40));
    let mut off = PerfHintState::new(false);
    assert_eq!(off.tick(90, 60), None);
    let hints = GpuBusyHints::new(true);
    assert_eq!(hints.tick(80), Some(5));
    assert_eq!(hints.tick(50), Some(10));
    assert_eq!(hints.tick(10), Some(20));
}

#[test]
fn wifi_refresh_follows_interface() {
    let mut s = NetworkState::new();
    assert_eq!(s.refresh_for_network_handoff(true, true), WifiPsStep::Activate);
    s.wifi_ps_cmd_used = true;
    assert_eq!(s.refresh_for_network_handoff(true, true), WifiPsStep::Keep);
    assert_eq!(s.refresh_for_network_handoff(true, false), WifiPsStep::Deactivate);
}

#[test]
fn combat_boost_holds_then_decays() {
    let mut b = CombatBoost::new();
    assert!(!b.trigger(1000));
    assert!(b.is_active());
    assert_eq!(b.tick(false, 2000), (true, BoostEffect::Keep));
    assert_eq!(b.tick(false, 5000), (true, BoostEffect::Keep));
    assert!(b.in_decay);
    assert_eq!(b.tick(false, 5500), (true, BoostEffect::Keep));
    assert_eq!(b.tick(false, 5800), (false, BoostEffect::Exit));
    assert!(!b.is_active());
}

#[test]
fn combat_boost_reenters_from_decay() {
    let mut b = CombatBoost::new();
    b.trigger(0);
    assert_eq!(b.tick(false, 4000), (true, BoostEffect::Keep));
    assert!(b.in_decay);
    assert_eq!(b.tick(true, 4100), (true, BoostEffect::Enter));
    assert!(!b.in_decay);
    // Re-entered from decay, the hold is not restarted: only a new trigger
    // holds the boost again.
    assert!(!b.is_active());
    assert!(!b.reset());
}

#[test]
fn combat_detector_needs_two_of_three_proxies() {
    // A GPU spike alone is no combat.
    let mut d = CombatDetector::new();
    assert!(!d.update(20, 0, 1000, 40, 0).combat);
    assert!(!d.update(20, 0, 1000, 40, 500).combat);
    assert!(!d.update(20, 0, 1000, 40, 1000).combat);
    let r = d.update(60, 0, 1000, 40, 1500);
    assert!(r.gpu_spike && !r.net_spike && !r.uclamp_high);
    assert!(!r.combat);
    assert!(!r.log_burst);
    // The same spike with a high top-app demand is.
    let mut d = CombatDetector::new();
    d.update(20, 0, 1000, 70, 0);
    d.update(20, 0, 1000, 70, 500);
    d.update(20, 0, 1000, 70, 1000);
    let r = d.update(60, 0, 1000, 70, 1500);
    assert!(r.gpu_spike && r.uclamp_high);
    assert!(r.combat);
    assert!(r.log_burst);
    let again = d.update(70, 0, 1000, 70, 2000);
    assert!(again.combat);
    assert!(!again.log_burst);
}

#[test]
fn combat_detector_gpu_spike_needs_twenty_points() {
    let mut d = CombatDetector::new();
    d.update(30, 0, 0, 90, 0);
    d.update(30, 0, 0, 90, 300);
    d.update(30, 0, 0, 90, 600);
    let r = d.update(45, 0, 0, 90, 900);
    assert!(!r.gpu_spike);
    assert!(!r.net_spike);
    assert!(!r.combat);
}

#[test]
fn combat_detector_sees_packet_burst() {
    let mut d = CombatDetector::new();
    d.update(10, 0, 0, 40, 0);
    d.update(10, 0, 100, 40, 1000);
    d.update(10, 0, 200, 40, 1500);
    let r = d.update(10, 0, 600, 40, 2000);
    assert_eq!(r.short_pps, 800);
    assert_eq!(r.base_pps, 300);
    assert!(r.net_spike);
    assert!(!r.combat);
    let mut d = CombatDetector::new();
    d.update(10, 0, 0, 80, 0);
    d.update(10, 0, 100, 80, 1000);
    d.update(10, 0, 200, 80, 1500);
    let r = d.update(10, 0, 600, 80, 2000);
    assert!(r.net_spike && r.uclamp_high && r.combat);
}

#[test]
fn combat_detector_prunes_old_samples() {
    let mut d = CombatDetector::new();
    d.update(10, 0, 0, 40, 0);
    d.update(10, 0, 0, 40, 1000);
    d.update(10, 0, 0, 40, 5000);
    assert_eq!(d.window.len(), 1);
}

#[test]
fn engine_activation_plan() {
    let mut e = GameTurboEngine::new();
    e.set_gpu_power_info(Some("/sys/class/kgsl/kgsl-3d0/default_pwrlevel".to_string()), Some(4), 0);
    let settings = GameTurboSettings::default();
    let steps = e.activate(4242, &settings);
    assert!(e.is_active());
    assert_eq!(steps[0], TurboStep::AffinityActivate { pid: 4242, mask: 0xF0 });
    assert!(steps.contains(&TurboStep::GpuLevel { level: 0 }));
    assert_eq!(steps[steps.len() - 1], TurboStep::SchedDeadlineActivate { pid: 4242 });
    assert!(e.activate(4242, &settings).is_empty());

    let eased = e.thermal_adjust(60, 58, 4242);
    assert!(e.was_thermally_throttled());
    assert_eq!(eased, vec![TurboStep::AffinityUpdateMask { pid: 4242, mask: 0xFF }, TurboStep::BackgroundDeactivate]);
    assert!(e.thermal_adjust(56, 58, 4242).is_empty());
    assert!(e.was_thermally_throttled());
    let back = e.thermal_adjust(54, 58, 4242);
    assert!(!e.was_thermally_throttled());
    assert_eq!(back, vec![TurboStep::AffinityUpdateMask { pid: 4242, mask: 0xF0 }, TurboStep::BackgroundActivate { pid: 4242 }]);

    let inputs = TurboTickInputs {
        game_pid: 4242,
        gpu_load: 40,
        thermal_temp: 40,
        now_ms: 10_000,
        rx_packets: 0,
        fallback_gpu: 0,
        battery_percent: 80,
        charging: false,
        fps_thermal_temp: 40,
        uclamp_min: 40,
    };
    let (tick_steps, combat) = e.tick(&inputs);
    assert_eq!(
        tick_steps,
        vec![
            TurboStep::AffinityTick { pid: 4242, mask: 0xF0 },
            TurboStep::PriorityTick { pid: 4242 },
            TurboStep::TouchTick,
            TurboStep::NetworkRefresh { wifi_low_latency: true },
            TurboStep::FpsCapSet { fps: 120 },
            TurboStep::SchedDeadlineTick { pid: 4242 },
        ]
    );
    let combat = combat.unwrap();
    assert!(!combat.reading.combat && combat.triggered.is_none() && !combat.active);

    e.record_gpu_load(70);
    assert_eq!(e.gpu_load_sum, 70);
    let release = e.deactivate();
    assert!(!e.is_active());
    assert_eq!(
        release.steps,
        vec![
            TurboStep::TouchDeactivate,
            TurboStep::IoSchedulerDeactivate,
            TurboStep::BuffersDeactivate,
            TurboStep::RpsDeactivate,
            TurboStep::WifiPsDeactivate,
            TurboStep::BackgroundDeactivate,
            TurboStep::PriorityDeactivate,
            TurboStep::AffinityDeactivate,
            TurboStep::PerfHintDeactivate,
            TurboStep::CpuIdleDeactivate,
            TurboStep::GpuHintsDeactivate,
            TurboStep::MemoryDeactivate,
            TurboStep::NetworkQosDeactivate,
            TurboStep::FpsCapSet { fps: 0 },
            TurboStep::SchedDeadlineDeactivate,
        ]
    );
    assert!(e.deactivate().steps.is_empty());
    assert_eq!(release.gpu_restore, Some(("/sys/class/kgsl/kgsl-3d0/default_pwrlevel".to_string(), 4)));
    e.record_gpu_load(70);
    assert_eq!(e.gpu_load_sum, 70);
}

#[test]
fn engine_combat_burst_holds_the_boost() {
    let mut e = GameTurboEngine::new();
    e.activate(7, &GameTurboSettings::default());
    e.combat_update(10, 0, 0, 80, 0);
    e.combat_update(10, 0, 100, 80, 1000);
    let first = e.combat_update(10, 0, 200, 80, 1500);
    assert!(first.reading.combat);
    assert_eq!(first.triggered, Some(false));
    assert_eq!(e.combat_boost.extended_until, Some(5500));
    let o = e.combat_update(10, 0, 600, 80, 2000);
    assert!(o.reading.combat);
    assert_eq!(o.triggered, Some(true));
    assert!(o.active);
    assert_eq!(e.combat_boost.extended_until, Some(6000));
    assert!(e.combat_is_active());
    // One proxy alone does not renew it.
    let quiet = e.combat_update(10, 0, 600, 40, 3000);
    assert!(!quiet.reading.combat);
    assert!(quiet.active);
    assert_eq!(e.combat_boost.extended_until, Some(6000));
}

#[test]
fn feature_restores() {
    let mut g = thermalai_daemon::game_turbo::states::GpuBusyHints::new(true);
    g.saved_idle_timer = Some("80".to_string());
    let w = g.restore_writes();
    assert_eq!(
        w,
        vec![
            ("idle_timer", "80".to_string()),
            ("force_bus_on", "0".to_string()),
            ("force_clk_on", "0".to_string()),
            ("rt_bus_hint", "0".to_string()),
        ]
    );
    assert_eq!(g.saved_idle_timer, None);
    assert!(thermalai_daemon::game_turbo::states::GpuBusyHints::new(false).restore_writes().is_empty());

    let mut n = thermalai_daemon::game_turbo::states::NetworkState::new();
    n.wifi_ps_path = Some("/sys/module/wlan/parameters/power_save".to_string());
    n.wifi_ps_original = Some("1".to_string());
    assert_eq!(
        n.deactivate_wifi_ps(),
        thermalai_daemon::game_turbo::states::WifiPsRestore::Write {
            path: "/sys/module/wlan/parameters/power_save".to_string(),
            value: "1".to_string()
        }
    );
    assert_eq!(n.deactivate_wifi_ps(), thermalai_daemon::game_turbo::states::WifiPsRestore::Nothing);
    n.wifi_ps_cmd_used = true;
    assert_eq!(n.deactivate_wifi_ps(), thermalai_daemon::game_turbo::states::WifiPsRestore::DisableLowLatencyCommand);
    assert!(!n.wifi_ps_cmd_used);
}

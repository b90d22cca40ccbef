use thermalai_daemon::session::{composite_temp, push_history, session_fps_cap, settle_prediction, turbo_activation_due};
use thermalai_daemon::gaming::GameDetector;
use thermalai_daemon::hardware::{CapabilityNode, CpuCluster, CpuTopology, GpuProfile};
use thermalai_daemon::orchestrator::{
    actuation_allowed, calculate_adaptive_sleep, check_throttle_limit, compute_comfort_weight,
    compute_game_modifier, get_context_score, get_cooling_efficiency, plugged_from_status,
    policy_state_name, select_cpu_governor, select_gpu_governor, GameContext, SleepInputs,
};
use thermalai_daemon::policy::PolicyState;

fn node(path: &str, valid: bool, writable: bool) -> CapabilityNode {
    CapabilityNode {
        path: path.to_string(),
        name: String::new(),
        readable: valid,
        writable,
        valid,
        supported_values: Vec::new(),
    }
}

fn gpu(current: &str, available: Vec<&str>) -> GpuProfile {
    GpuProfile {
        path: String::new(),
        max_freq: 0,
        has_devfreq: false,
        is_kgsl: false,
        devfreq_path: String::new(),
        devfreq_governor_node: node("", false, false),
        devfreq_freq_node: node("", false, false),
        current_governor: current.to_string(),
        governor_node: node("", false, false),
        available_governors: available.into_iter().map(|s| s.to_string()).collect(),
        current_frequency: 0,
        freq_node: node("", false, false),
        available_frequencies: Vec::new(),
        busy_time: None,
        total_time: None,
        power_level_path: None,
        current_power_level: None,
        min_power_level: None,
        max_power_level: None,
        has_bus_split: false,
        has_force_clk_on: false,
    }
}

fn cluster(id: usize, governors: Vec<&str>) -> CpuCluster {
    CpuCluster {
        name: format!("policy{}", id),
        min_freq: 0,
        max_freq: 0,
        cpus: Vec::new(),
        policy_path: String::new(),
        policy_node: node("", false, false),
        current_governor: String::new(),
        governor_node: node(
            &format!("/sys/devices/system/cpu/cpufreq/policy{}/scaling_governor", id),
            true,
            true,
        ),
        available_governors: governors.into_iter().map(|s| s.to_string()).collect(),
        current_frequency: 0,
        freq_node: node("", false, false),
        min_freq_node: node("", false, false),
        max_freq_node: node("", false, false),
        available_frequencies: Vec::new(),
        cpuinfo_min_freq: 0,
        cpuinfo_max_freq: 0,
        related_cpus: Vec::new(),
    }
}

#[test]
fn gpu_policy_uses_supported_governor_before_preferred_name() {
    let g = gpu("msm-adreno-tz", vec!["msm-adreno-tz"]);
    assert_eq!(select_gpu_governor(&g, &["performance", "msm-adreno-tz"]), Some("msm-adreno-tz".to_string()));
}

#[test]
fn gpu_policy_falls_back_to_current_valid_governor() {
    let g = gpu("vendor-safe", vec!["vendor-safe"]);
    assert_eq!(select_gpu_governor(&g, &["performance"]), Some("vendor-safe".to_string()));
}

#[test]
fn gpu_policy_falls_back_to_first_offered() {
    let g = gpu("gone", vec!["simple_ondemand", "performance"]);
    assert_eq!(select_gpu_governor(&g, &["powersave"]), Some("simple_ondemand".to_string()));
    assert_eq!(select_gpu_governor(&gpu("", vec![]), &["powersave"]), None);
}

#[test]
fn cpu_policy_prefers_walt_only_when_all_clusters_support_it() {
    let t = CpuTopology {
        is_walt: false,
        is_eas: false,
        has_uclamp: false,
        clusters: vec![
            cluster(0, vec!["walt", "performance", "schedutil"]),
            cluster(1, vec!["walt", "performance", "schedutil"]),
        ],
    };
    assert_eq!(select_cpu_governor(&t, &["walt", "performance", "schedutil"]), Some("walt".to_string()));
}

#[test]
fn cpu_policy_falls_back_when_walt_is_partial() {
    let t = CpuTopology {
        is_walt: false,
        is_eas: false,
        has_uclamp: false,
        clusters: vec![cluster(0, vec!["walt", "performance"]), cluster(1, vec!["performance", "schedutil"])],
    };
    assert_eq!(select_cpu_governor(&t, &["walt", "performance", "schedutil"]), Some("performance".to_string()));
}

#[test]
fn cpu_policy_needs_writable_nodes() {
    let mut c = cluster(0, vec!["walt"]);
    c.governor_node.writable = false;
    let t = CpuTopology { is_walt: false, is_eas: false, has_uclamp: false, clusters: vec![c] };
    assert_eq!(select_cpu_governor(&t, &["walt"]), None);
}

fn sleep_inputs() -> SleepInputs {
    SleepInputs {
        trend_score: 0,
        is_screen_off: false,
        is_gaming: false,
        gpu_load: 0,
        plugged: false,
        screen_off_secs: None,
        prev_hot_trend: false,
        poll_interval_secs: 2,
        game_poll_interval_secs: 1,
    }
}

#[test]
fn adaptive_sleep_choices() {
    let base = calculate_adaptive_sleep(&sleep_inputs());
    assert_eq!(base.sleep_ms, 2000);
    let mut i = sleep_inputs();
    i.trend_score = 1;
    let first = calculate_adaptive_sleep(&i);
    assert_eq!(first.clamped_trend, 50);
    assert!(first.hot_trend);
    assert_eq!(first.sleep_ms, 1500);
    i.prev_hot_trend = true;
    assert_eq!(calculate_adaptive_sleep(&i).sleep_ms, 750);
    i.is_gaming = true;
    i.gpu_load = 70;
    assert_eq!(calculate_adaptive_sleep(&i).sleep_ms, 500);
    let mut idle = sleep_inputs();
    idle.is_screen_off = true;
    idle.screen_off_secs = Some(31);
    let d = calculate_adaptive_sleep(&idle);
    assert!(d.long_idle);
    assert_eq!(d.sleep_ms, 30_000);
    idle.plugged = true;
    assert_eq!(calculate_adaptive_sleep(&idle).sleep_ms, 8000);
    let mut menu = sleep_inputs();
    menu.is_gaming = true;
    menu.gpu_load = 10;
    assert_eq!(calculate_adaptive_sleep(&menu).sleep_ms, 3000);
    menu.gpu_load = 50;
    assert_eq!(calculate_adaptive_sleep(&menu).sleep_ms, 1000);
}

#[test]
fn actuation_throttle() {
    assert!(check_throttle_limit(Some(1000), 1500, 0, false));
    assert!(!check_throttle_limit(Some(1000), 3000, 2500, false));
    assert!(check_throttle_limit(Some(1000), 3500, 2500, false));
    assert!(!check_throttle_limit(Some(1000), 3500, 2500, true));
    assert!(check_throttle_limit(Some(1000), 4000, 2500, true));
    assert!(check_throttle_limit(None, 0, 2500, true));
    assert!(!actuation_allowed(Some(10_000), None, 5_000, 2500, false));
    assert!(actuation_allowed(Some(10_000), None, 10_000, 2500, false));
}

#[test]
fn weights_in_hundredths() {
    assert_eq!(get_context_score(true, 90, 40, true, false), -4000);
    assert_eq!(get_context_score(false, 50, 20, false, true), 1500);
    assert_eq!(get_cooling_efficiency(10, 90, false), 20);
    assert_eq!(get_cooling_efficiency(0, 0, true), 150);
    assert_eq!(compute_comfort_weight(46, 43, true, 9000), 2500);
    assert_eq!(compute_comfort_weight(30, 30, false, 0), 500);
}

#[test]
fn game_modifier_for_profiled_game() {
    let mut d = GameDetector::new(vec!["com.game".to_string()], 45, 3, 0);
    d.is_gaming = true;
    let ctx = GameContext {
        is_gaming: true,
        stutter: true,
        known_hot: Some(true),
        is_screen_off: false,
        active_secs: 5400,
        current_policy: Some(PolicyState::Powersave),
    };
    // -15 stutter, -12 hot, +10 (priority 100 / 10), -10 for the third half
    // hour, -5 under Powersave.
    assert_eq!(compute_game_modifier(&ctx, &d), -3200);
    let idle = GameContext { is_gaming: false, ..ctx };
    assert_eq!(compute_game_modifier(&idle, &d), 0);
}

#[test]
fn names_and_status() {
    assert_eq!(policy_state_name(&PolicyState::EmergencyCool), "EmergencyCool");
    assert!(plugged_from_status("Not charging"));
    assert!(plugged_from_status("Full"));
    assert!(!plugged_from_status("Discharging"));
}

#[test]
fn tick_decisions() {
    assert_eq!(composite_temp(41, 47, 39), 47);
    assert_eq!(composite_temp(50, 47, 39), 50);
    let mut h = vec![40, 41, 42];
    push_history(&mut h, 43, 3);
    assert_eq!(h, vec![41, 42, 43]);
    push_history(&mut h, 44, 5);
    assert_eq!(h, vec![41, 42, 43, 44]);
    push_history(&mut h, 45, 0);
    assert_eq!(h, vec![45]);
    assert_eq!(settle_prediction(40, Some((46, 3, 80))), (46, 3));
    assert_eq!(settle_prediction(40, Some((46, 3, 50))), (40, 3));
    assert_eq!(settle_prediction(40, None), (40, 0));
    assert!(turbo_activation_due(true, false, Some(7)));
    assert!(!turbo_activation_due(true, false, None));
    assert!(!turbo_activation_due(true, true, Some(7)));
    assert!(!turbo_activation_due(false, false, Some(7)));
    assert_eq!(session_fps_cap(Some(90), Some(60)), Some(90));
    assert_eq!(session_fps_cap(None, Some(60)), Some(60));
    assert_eq!(session_fps_cap(None, Some(0)), None);
    assert_eq!(session_fps_cap(None, None), None);
}

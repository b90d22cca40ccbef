use thermalai_daemon::actuation::{
    battery_temp_c, can_actuate, cooldown_holds, cpu_governor_preferences, cpuset_for_policy,
    drop_cache_request, final_policy, gpu_exit_level, gpu_governor_preferences, gpu_level_bounds,
    gpu_level_for_policy, probe_due, session_thermal_class, stock_thermal_step, telemetry_due,
    tuning_policy, StockThermalAction,
};
use thermalai_daemon::policy::PolicyState;

#[test]
fn gpu_bounds_follow_inverted_kgsl_levels() {
    // This device reports min=10, max=0: the best level is 0, the worst 10.
    assert_eq!(gpu_level_bounds(Some(10), Some(0)), (0, 10));
    assert_eq!(gpu_level_bounds(Some(3), None), (3, 3));
    assert_eq!(gpu_level_bounds(None, Some(7)), (0, 4));
}

#[test]
fn gpu_level_per_policy() {
    assert_eq!(gpu_level_for_policy(PolicyState::Performance, false, 0, 10), 0);
    assert_eq!(gpu_level_for_policy(PolicyState::Balanced, true, 0, 10), 0);
    assert_eq!(gpu_level_for_policy(PolicyState::Balanced, false, 0, 10), 9);
    assert_eq!(gpu_level_for_policy(PolicyState::Conservative, true, 0, 10), 9);
    assert_eq!(gpu_level_for_policy(PolicyState::Powersave, false, 0, 10), 10);
    assert_eq!(gpu_level_for_policy(PolicyState::EmergencyCool, true, 0, 10), 10);
    assert_eq!(gpu_level_for_policy(PolicyState::Suspend, false, 0, 10), 10);
    assert_eq!(gpu_level_for_policy(PolicyState::Conservative, false, 0, 0), 0);
}

#[test]
fn gpu_exit_level_needs_a_max_level() {
    assert_eq!(gpu_exit_level(Some(10), Some(0)), Some(9));
    assert_eq!(gpu_exit_level(None, Some(6)), Some(5));
    assert_eq!(gpu_exit_level(Some(10), None), None);
    assert_eq!(gpu_exit_level(Some(0), Some(0)), Some(0));
}

#[test]
fn emergency_wins_over_cooldown_and_recovery() {
    assert_eq!(final_policy(PolicyState::EmergencyCool, true, true), PolicyState::EmergencyCool);
    assert_eq!(final_policy(PolicyState::Performance, true, false), PolicyState::Conservative);
    assert_eq!(final_policy(PolicyState::Suspend, false, true), PolicyState::Conservative);
    assert_eq!(final_policy(PolicyState::Balanced, false, false), PolicyState::Balanced);
}

#[test]
fn cooldown_releases_below_warm() {
    assert!(cooldown_holds(true, false, 48, 48));
    assert!(!cooldown_holds(true, false, 47, 48));
    assert!(!cooldown_holds(true, true, 60, 48));
    assert!(!cooldown_holds(false, false, 60, 48));
}

#[test]
fn governor_preferences_per_policy() {
    assert_eq!(cpu_governor_preferences(PolicyState::Performance), vec!["walt", "performance", "schedutil"]);
    assert_eq!(cpu_governor_preferences(PolicyState::Balanced), vec!["walt", "schedutil"]);
    assert_eq!(cpu_governor_preferences(PolicyState::Conservative), vec!["schedutil"]);
    assert_eq!(cpu_governor_preferences(PolicyState::EmergencyCool), vec!["schedutil"]);
    assert_eq!(cpu_governor_preferences(PolicyState::Suspend), vec!["powersave", "schedutil"]);
    assert_eq!(gpu_governor_preferences(PolicyState::Performance), vec!["performance", "msm-adreno-tz"]);
    assert_eq!(gpu_governor_preferences(PolicyState::Conservative), vec!["msm-adreno-tz", "simple_ondemand"]);
    assert_eq!(
        gpu_governor_preferences(PolicyState::Suspend),
        vec!["powersave", "msm-adreno-tz", "simple_ondemand"]
    );
    assert_eq!(cpuset_for_policy(PolicyState::Conservative), "balanced");
    assert_eq!(cpuset_for_policy(PolicyState::Suspend), "powersave");
}

#[test]
fn tuning_uses_recovery_clamp_while_gaming_under_pressure() {
    assert_eq!(tuning_policy(PolicyState::Powersave, false, false, true), "Recovery");
    assert_eq!(tuning_policy(PolicyState::Performance, false, false, true), "Performance");
    assert_eq!(tuning_policy(PolicyState::Performance, true, false, false), "Recovery");
    assert_eq!(tuning_policy(PolicyState::Balanced, false, true, false), "Recovery");
    assert_eq!(tuning_policy(PolicyState::Balanced, false, false, false), "Balanced");
}

#[test]
fn stock_thermal_is_handed_back_after_the_hot_exit() {
    assert_eq!(stock_thermal_step(true, None, false), (StockThermalAction::Disable, Some(true)));
    assert_eq!(stock_thermal_step(true, Some(true), false), (StockThermalAction::Keep, Some(true)));
    assert_eq!(stock_thermal_step(false, Some(true), true), (StockThermalAction::Keep, Some(true)));
    assert_eq!(stock_thermal_step(false, Some(true), false), (StockThermalAction::Restore, Some(false)));
    assert_eq!(stock_thermal_step(false, None, false), (StockThermalAction::Keep, Some(false)));
}

#[test]
fn drop_cache_by_policy_and_pressure() {
    assert_eq!(drop_cache_request(PolicyState::EmergencyCool, 0), Some(true));
    assert_eq!(drop_cache_request(PolicyState::Powersave, 4001), Some(false));
    assert_eq!(drop_cache_request(PolicyState::Powersave, 4000), None);
    assert_eq!(drop_cache_request(PolicyState::Balanced, 9000), None);
}

#[test]
fn actuation_is_immediate_for_hard_transitions() {
    assert!(can_actuate(false, false, PolicyState::EmergencyCool, Some(PolicyState::Balanced), false));
    assert!(can_actuate(false, false, PolicyState::Suspend, None, false));
    assert!(can_actuate(false, false, PolicyState::Balanced, None, true));
    assert!(!can_actuate(false, true, PolicyState::Balanced, Some(PolicyState::Powersave), false));
    assert!(can_actuate(false, true, PolicyState::Balanced, Some(PolicyState::Suspend), false));
    assert!(!can_actuate(false, false, PolicyState::Balanced, Some(PolicyState::Suspend), false));
}

#[test]
fn session_classes() {
    assert_eq!(session_thermal_class(58, 58), 2);
    assert_eq!(session_thermal_class(57, 58), 1);
    assert_eq!(session_thermal_class(50, 58), 1);
    assert_eq!(session_thermal_class(49, 58), 0);
}

#[test]
fn battery_temperature_sources() {
    assert_eq!(battery_temp_c(&vec![None, Some(0), Some(351)], Some(40)), 35);
    assert_eq!(battery_temp_c(&vec![Some(-5), None], Some(41)), 41);
    assert_eq!(battery_temp_c(&vec![], None), 35);
    assert_eq!(battery_temp_c(&vec![Some(429)], None), 42);
}

#[test]
fn probes_and_telemetry_fall_due() {
    assert!(!probe_due(None, 1000, 0));
    assert!(probe_due(None, 1000, 30));
    assert!(!probe_due(Some(1000), 30_999, 30));
    assert!(probe_due(Some(1000), 31_000, 30));
    assert!(telemetry_due(None, 0, None, PolicyState::Balanced, false));
    assert!(!telemetry_due(Some(1000), 2999, Some(PolicyState::Balanced), PolicyState::Balanced, false));
    assert!(telemetry_due(Some(1000), 3000, Some(PolicyState::Balanced), PolicyState::Balanced, false));
    assert!(telemetry_due(Some(1000), 1500, Some(PolicyState::Performance), PolicyState::Balanced, false));
    assert!(telemetry_due(Some(1000), 1500, Some(PolicyState::Balanced), PolicyState::Balanced, true));
}

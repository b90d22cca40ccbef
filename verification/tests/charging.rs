use thermalai_daemon::charging::{
    check_overrides, next_state, select_charge_mode, soc_target_ma, voter_value, ChargeMode,
    ChargeState, ChargingEngine, ChargingInputs, LimitRequest, LimitWriteOutcome,
};
use thermalai_daemon::hardware::ChargingProfile;
use thermalai_daemon::logger::SysfsBlacklist;

fn profile(limit_nodes: Vec<&str>, voter_nodes: Vec<&str>) -> ChargingProfile {
    ChargingProfile {
        path: "/sys/class/power_supply/usb".to_string(),
        is_fast_charge: false,
        capability_nodes: Vec::new(),
        current_limit_nodes: limit_nodes.into_iter().map(|s| s.to_string()).collect(),
        input_current_limit_nodes: Vec::new(),
        charge_enable_nodes: Vec::new(),
        fast_charge_nodes: Vec::new(),
        qcom_battery_root: None,
        voter_nodes: voter_nodes.into_iter().map(|s| s.to_string()).collect(),
        cycle_count: None,
        cycle_count_path: None,
    }
}

fn inputs(soc: u8, bat: i32, plugged: bool) -> ChargingInputs {
    ChargingInputs {
        battery_temp: bat,
        charger_temp: 30,
        usb_temp: 30,
        pmic_temp: 30,
        soc,
        is_plugged: plugged,
        plug_state_reliable: true,
        is_gaming: false,
        screen_off: false,
        gpu_load: 0,
        urgent: false,
        seconds_since_plugged: 0,
        charger_id: String::new(),
        current_now_ua: Some(-1_500_000),
        voltage_now_uv: Some(4_000_000),
        charge_counter_uah: None,
        composite_temp: 40,
    }
}

#[test]
fn soc_targets_fall_as_battery_fills() {
    assert_eq!(soc_target_ma(10, &ChargeMode::Adaptive), 14000);
    assert_eq!(soc_target_ma(96, &ChargeMode::Adaptive), 2200);
    assert_eq!(soc_target_ma(100, &ChargeMode::Adaptive), 1500);
    assert_eq!(soc_target_ma(50, &ChargeMode::UnderLoad), 8400);
    assert_eq!(soc_target_ma(85, &ChargeMode::MaxSpeed), 3500);
    assert_eq!(soc_target_ma(85, &ChargeMode::BatteryCare), 1000);
}

#[test]
fn hot_battery_never_charges_fast() {
    let mut i = inputs(30, 43, true);
    i.screen_off = true;
    i.urgent = true;
    assert_eq!(select_charge_mode(&i, &None), ChargeMode::Adaptive);
    i.is_gaming = true;
    assert_eq!(select_charge_mode(&i, &Some(ChargeMode::MaxSpeed)), ChargeMode::UnderLoad);
    let cool = inputs(30, 35, true);
    let mut off = cool.clone();
    off.screen_off = true;
    assert_eq!(select_charge_mode(&off, &None), ChargeMode::MaxSpeed);
    assert_eq!(select_charge_mode(&inputs(30, 35, false), &Some(ChargeMode::MaxSpeed)), ChargeMode::Adaptive);
}

#[test]
fn charge_states_by_temperature() {
    assert_eq!(next_state(&inputs(50, 30, false), &ChargeMode::Adaptive), ChargeState::Disconnected);
    assert_eq!(next_state(&inputs(50, 50, true), &ChargeMode::Adaptive), ChargeState::Emergency);
    assert_eq!(next_state(&inputs(50, 45, true), &ChargeMode::Adaptive), ChargeState::ThermalThrottle);
    assert_eq!(next_state(&inputs(50, 45, true), &ChargeMode::Urgent), ChargeState::Normal);
    assert_eq!(next_state(&inputs(50, 30, true), &ChargeMode::UnderLoad), ChargeState::UnderLoad);
    let mut unreliable = inputs(0, 30, true);
    unreliable.plug_state_reliable = false;
    assert_eq!(next_state(&unreliable, &ChargeMode::Adaptive), ChargeState::Disconnected);
}

#[test]
fn voter_values_per_mode() {
    assert_eq!(voter_value("/sys/class/qcom-battery/restrict_cur", &ChargeMode::BatteryCare, 4000, 40, 48, 58), Some(3_000_000));
    assert_eq!(voter_value("/sys/class/qcom-battery/restrict_cur", &ChargeMode::BatteryCare, 100, 40, 48, 58), Some(500_000));
    assert_eq!(voter_value("/sys/class/qcom-battery/restrict_chg", &ChargeMode::BatteryCare, 100, 40, 48, 58), Some(1));
    assert_eq!(voter_value("/sys/class/qcom-battery/restrict_cur", &ChargeMode::UnderLoad, 0, 50, 48, 58), Some(2_500_000));
    assert_eq!(voter_value("/sys/class/qcom-battery/restrict_cur", &ChargeMode::Adaptive, 0, 50, 48, 58), None);
    assert_eq!(voter_value("/sys/class/qcom-battery/input_suspend", &ChargeMode::Adaptive, 0, 50, 48, 58), Some(0));
    assert_eq!(voter_value("/sys/class/other/node", &ChargeMode::MaxSpeed, 0, 50, 48, 58), None);
}

#[test]
fn overrides_from_file() {
    let mut i = inputs(50, 30, true);
    let mut forced = None;
    assert!(!check_overrides(&mut i, Some("{\"mode\": \"MaxSpeed\"}"), 100, &mut forced));
    assert_eq!(forced, Some(ChargeMode::MaxSpeed));
    assert!(!i.urgent);

    assert!(!check_overrides(&mut i, Some("{\"urgent\": true, \"expires_at\": 200}"), 100, &mut forced));
    assert!(i.urgent);
    assert_eq!(forced, None);

    assert!(check_overrides(&mut i, Some("{\"urgent\": true, \"expires_at\": 50, \"mode\": \"BatteryCare\"}"), 100, &mut forced));
    assert!(!i.urgent);
    assert_eq!(forced, None);

    assert!(!check_overrides(&mut i, Some("mode=Urgent"), 100, &mut forced));
    assert!(i.urgent);

    i.urgent = true;
    assert!(!check_overrides(&mut i, None, 100, &mut forced));
    assert!(i.urgent);
}

#[test]
fn session_ramp_and_limit() {
    let p = profile(vec!["/sys/class/power_supply/battery/constant_charge_current_max"], vec![
        "/sys/class/qcom-battery/restrict_chg",
        "/sys/class/qcom-battery/restrict_cur",
        "/sys/class/qcom-battery/input_suspend",
        "/sys/class/other/thing",
    ]);
    let mut e = ChargingEngine::new(&p, 48, 58, 0);
    let i = inputs(50, 30, true);
    assert!(e.can_record(&i, Some(6_000_000)));
    let start = e.begin_tick(&i, 1_000, Some(6_000_000));
    assert!(start.session_started);
    assert_eq!(start.state, ChargeState::Normal);
    assert_eq!(start.base_target, 12000);
    assert_eq!(start.final_target, 12000);
    assert_eq!(start.voter_writes.len(), 1);
    assert_eq!(start.voter_writes[0].path, "/sys/class/qcom-battery/input_suspend");
    assert_eq!(start.voter_writes[0].value, 0);
    assert_eq!(e.sample_count, 1);
    assert_eq!(e.total_current_ua_samples, 1_500_000);

    // Not settled yet (session began at 1 s).
    let plan = e.plan_limit(start.final_target, start.base_target, 2_000);
    assert_eq!(plan.target_ma, 3200);
    assert!(!plan.attempt);
    assert_eq!(e.end_tick(plan.target_ma, plan.attempt, 2_000), 3200);

    let plan2 = e.plan_limit(12000, 12000, 5_000);
    assert_eq!(plan2.target_ma, 3400);
    assert!(plan2.attempt);
    let mut bl = SysfsBlacklist::new();
    let req = e.prepare_limit(plan2.target_ma, &bl);
    assert_eq!(req, LimitRequest::Write { rounded_ma: 3400, micro_amps: 3_400_000 });
    assert!(e.finish_limit(3400, LimitWriteOutcome::Written, &mut bl));
    assert_eq!(e.active_limit_ma, 3400);
    assert_eq!(e.record_attempt(3400, true), None);
    assert_eq!(e.last_known_good_ma, Some(3400));
    e.end_tick(3400, true, 5_000);

    let summary = e.session_summary(60, 61_000).clone();
    assert_eq!(summary.duration_sec, 60);
    assert_eq!(summary.avg_current_ua, 1_500_000);
    assert_eq!(summary.avg_power_uw, 6_000_000);

    let off = e.begin_tick(&inputs(60, 30, false), 62_000, None);
    assert_eq!(off.state, ChargeState::Disconnected);
    assert_eq!(off.final_target, 0);
    assert!(off.session_finished.is_some());
    let released = e.release_voters_on_shutdown();
    assert_eq!(released, vec![
        "/sys/class/qcom-battery/restrict_chg".to_string(),
        "/sys/class/qcom-battery/input_suspend".to_string(),
    ]);
}

#[test]
fn limit_rounding_and_rejection() {
    let p = profile(vec!["/a/current_max", "/b/current_max"], vec![]);
    let mut e = ChargingEngine::new(&p, 48, 58, 0);
    let mut bl = SysfsBlacklist::new();
    assert_eq!(e.prepare_limit(1249, &bl), LimitRequest::Write { rounded_ma: 1200, micro_amps: 1_200_000 });
    assert_eq!(e.prepare_limit(1250, &bl), LimitRequest::Write { rounded_ma: 1300, micro_amps: 1_300_000 });
    assert_eq!(e.prepare_limit(100, &bl), LimitRequest::Write { rounded_ma: 500, micro_amps: 500_000 });
    assert_eq!(e.prepare_limit(99_999, &bl), LimitRequest::Write { rounded_ma: 9000, micro_amps: 9_000_000 });

    assert!(!e.finish_limit(1200, LimitWriteOutcome::HardRejected, &mut bl));
    assert!(e.limit_write_disabled);
    assert_eq!(e.rejected_ceiling, Some(1200));
    assert!(bl.is_sysfs_blacklisted("/a/current_max"));
    assert_eq!(e.prepare_limit(1200, &bl), LimitRequest::Disabled);
    assert_eq!(e.limit_nodes, vec!["/b/current_max".to_string()]);
    bl.blacklist_sysfs_node("/b/current_max");
    assert_eq!(e.prepare_limit(1200, &bl), LimitRequest::NoNodes { first_warning: true });
    assert_eq!(e.prepare_limit(1200, &bl), LimitRequest::NoNodes { first_warning: false });
}

#[test]
fn five_failures_fall_back() {
    let p = profile(vec!["/a/current_max"], vec![]);
    let mut e = ChargingEngine::new(&p, 48, 58, 0);
    assert_eq!(e.record_attempt(2000, true), None);
    for _ in 0..4 {
        assert_eq!(e.record_attempt(3000, false), None);
    }
    assert_eq!(e.record_attempt(3000, false), Some(2000));
    assert_eq!(e.rejected_ceiling, Some(3000));
    assert_eq!(e.record_fallback(3000, 2000, true), 2000);
    assert_eq!(e.consecutive_failures, 0);
    // At the rejected ceiling, the ramp falls back to the accepted value.
    e.previous_target = 2900;
    let plan = e.plan_limit(5000, 5000, 10_000);
    assert_eq!(plan.target_ma, 2000);
}

#[test]
fn thermal_throttle_counts() {
    let p = profile(vec![], vec![]);
    let mut e = ChargingEngine::new(&p, 48, 58, 0);
    e.begin_tick(&inputs(50, 30, true), 0, None);
    let t = e.begin_tick(&inputs(50, 46, true), 1_000, None);
    assert_eq!(t.state, ChargeState::ThermalThrottle);
    assert_eq!(t.final_target, 7000);
    assert_eq!(e.thermal_reduction_count, 1);
    let n = e.begin_tick(&inputs(50, 30, true), 2_000, None);
    assert_eq!(n.state, ChargeState::Normal);
    assert_eq!(e.recovery_count, 1);
    let hot = e.begin_tick(&inputs(50, 51, true), 3_000, None);
    assert_eq!(hot.state, ChargeState::Emergency);
    assert_eq!(hot.final_target, 500);
}

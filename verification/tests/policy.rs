use thermalai_daemon::config::ProfilesConfig;
use thermalai_daemon::policy::{policy_rank, threshold_for_rank, PolicyEngine, PolicyInputs, PolicyState};

const NOW: u64 = 1_000_000;

fn inputs(composite: i32, predicted: i32, trend: i32, gaming: bool, screen_off: bool, context: i64) -> PolicyInputs {
    PolicyInputs {
        composite_temp: composite,
        predicted_temp: predicted,
        trend_score: trend,
        is_gaming: gaming,
        is_screen_off: screen_off,
        context_weight: context,
        game_modifier: 0,
        comfort_weight: 0,
        cpu_pressure: 0,
        io_pressure: 0,
    }
}

#[test]
fn test_policy_evaluation_and_debounce() {
    let mut engine = PolicyEngine::new(10, 2, NOW);
    engine.startup_grace_secs = 0;
    let config = ProfilesConfig::default();

    engine.last_change_at_ms = NOW - 11_000;
    assert_eq!(engine.evaluate(&inputs(30, 30, 0, false, true, -1000), &config, NOW), PolicyState::Suspend);

    assert_eq!(engine.evaluate(&inputs(80, 80, 2, false, false, 0), &config, NOW), PolicyState::EmergencyCool);

    assert_eq!(engine.evaluate(&inputs(30, 30, 0, false, false, 0), &config, NOW), PolicyState::EmergencyCool);

    engine.last_change_at_ms = NOW - 10_000;
    assert_eq!(engine.evaluate(&inputs(30, 30, 0, false, false, 0), &config, NOW), PolicyState::Balanced);

    engine.last_change_at_ms = NOW - 10_000;
    let _res = engine.evaluate(&inputs(50, 50, 0, false, false, 0), &config, NOW);
}

#[test]
fn warm_stable_interactive_use_stays_balanced() {
    let mut engine = PolicyEngine::new(1, 2, NOW);
    engine.startup_grace_secs = 0;
    engine.last_change_at_ms = NOW - 2_000;
    let config = ProfilesConfig::default();
    let mut inp = inputs(config.temp_warm, config.temp_warm, 0, false, false, 500);
    inp.comfort_weight = 1000;
    inp.cpu_pressure = 2000;
    assert_eq!(engine.evaluate(&inp, &config, NOW), PolicyState::Balanced);
}

#[test]
fn startup_grace_holds_balanced() {
    let mut engine = PolicyEngine::new(10, 2, NOW);
    let config = ProfilesConfig::default();
    // Score 41.5 asks for Conservative, but the grace period holds Balanced.
    let warm = inputs(55, 55, 0, false, false, 0);
    assert_eq!(engine.evaluate(&warm, &config, NOW + 5_000), PolicyState::Balanced);
    assert_eq!(engine.last_score(), 4150);
    assert_eq!(engine.evaluate(&inputs(76, 70, 0, false, false, 0), &config, NOW + 6_000), PolicyState::EmergencyCool);
}

#[test]
fn powersave_needs_two_requests() {
    let mut engine = PolicyEngine::new(1, 2, 0);
    engine.startup_grace_secs = 0;
    let config = ProfilesConfig::default();
    // 60 degrees: (60-42)*2 + (60-42)*1.5 = 63, minus 4 for no pressure,
    // plus the ordinary-use guard of 12 gives 71 > 65, below temp_powersave.
    let hot = inputs(60, 60, 0, false, false, 0);
    let first = engine.evaluate(&hot, &config, 100_000);
    assert_eq!(first, PolicyState::Conservative);
    assert_eq!(engine.powersave_arm_count, 1);
    let second = engine.evaluate(&hot, &config, 200_000);
    assert_eq!(second, PolicyState::Powersave);
    assert_eq!(engine.powersave_arm_count, 0);
    assert_eq!(engine.last_score(), 7100);
}

#[test]
fn ranks_and_thresholds() {
    assert_eq!(policy_rank(&PolicyState::Performance), 0);
    assert_eq!(policy_rank(&PolicyState::Suspend), 4);
    assert_eq!(policy_rank(&PolicyState::EmergencyCool), 5);
    assert_eq!(threshold_for_rank(0), None);
    assert_eq!(threshold_for_rank(2), Some(4000));
    assert_eq!(threshold_for_rank(5), None);
}

#[test]
fn relaxing_needs_hysteresis_margin() {
    let mut engine = PolicyEngine::new(1, 2, 0);
    engine.startup_grace_secs = 0;
    engine.current_policy = PolicyState::Conservative;
    // Score 35 is below Conservative's threshold of 40 but within the margin
    // of 8: the policy stays.
    assert_eq!(engine.apply_transition(PolicyState::Balanced, 3500, 10_000), PolicyState::Conservative);
    // Score 31 clears the margin.
    assert_eq!(engine.apply_transition(PolicyState::Balanced, 3100, 20_000), PolicyState::Balanced);
    assert_eq!(engine.last_change_at_ms, 20_000);
}

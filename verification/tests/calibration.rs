use thermalai_daemon::calibration::{CalibrationManager, CalibrationState};

#[test]
fn sustained_heat_moves_offset_down() {
    let mut m = CalibrationManager::new("/data/adb/thermal");
    for _ in 0..60 {
        assert!(!m.apply_calibration(true));
    }
    assert_eq!(m.hot_ticks, 60);
    assert!(m.apply_calibration(true));
    assert_eq!(m.active_offset, -1);
    assert_eq!(m.hot_ticks, 0);
}

#[test]
fn offset_bounded_below() {
    let mut m = CalibrationManager::new("/tmp");
    m.active_offset = -6;
    m.hot_ticks = 60;
    assert!(!m.apply_calibration(true));
    assert_eq!(m.active_offset, -6);
    assert_eq!(m.hot_ticks, 0);
}

#[test]
fn negative_offset_decays_when_cool() {
    let mut m = CalibrationManager::new("/tmp");
    m.active_offset = -2;
    m.hot_ticks = 3;
    for _ in 0..120 {
        assert!(!m.apply_calibration(false));
    }
    assert_eq!(m.hot_ticks, 0);
    assert!(m.apply_calibration(false));
    assert_eq!(m.active_offset, -1);
    assert_eq!(m.cool_ticks, 0);
}

#[test]
fn restore_clamps_offset() {
    let mut m = CalibrationManager::new("/tmp");
    m.restore(CalibrationState {
        active_offset: -40,
        hot_ticks: 5,
        cool_ticks: 6,
        slow_cooler_persistent: true,
        consecutive_cool_sessions: 2,
    });
    assert_eq!(m.active_offset, -6);
    assert_eq!(m.snapshot().hot_ticks, 5);
    m.restore(CalibrationState { active_offset: 9, ..CalibrationState::default() });
    assert_eq!(m.active_offset, 6);
    m.active_offset = 20;
    m.apply_calibration(false);
    assert_eq!(m.active_offset, 6);
}

#[test]
fn post_game_cooling_learning() {
    let mut m = CalibrationManager::new("/tmp");
    assert!(m.evaluate_post_game_cooling(50, 50));
    assert!(m.slow_cooler_persistent);
    assert!(!m.evaluate_post_game_cooling(50, 48));
    assert!(!m.evaluate_post_game_cooling(40, 30));
    assert!(!m.evaluate_post_game_cooling(50, 47));
    assert!(!m.evaluate_post_game_cooling(50, 45));
    assert_eq!(m.consecutive_cool_sessions, 2);
    assert!(m.evaluate_post_game_cooling(50, 40));
    assert!(!m.slow_cooler_persistent);
    assert_eq!(m.consecutive_cool_sessions, 0);
}

use thermalai_daemon::daemon::{netlink_screen_state_fresh, RuntimeState};
use thermalai_daemon::gaming::{cmdline_matches_package, is_known_game, GameDetector, ScanDecision};
use thermalai_daemon::hardware::{
    battery_path, classify_thermal_zones, get_any_property, probe_services, temp_c_from_raw,
    unsupported_block_device,
    valid_thermal_temp_raw, validate_profile_metadata, validate_storage_devices,
    validate_thermal_mapping, CacheMetadata, ServiceProps, HARDWARE_PROFILE_SCHEMA_VERSION,
};
use thermalai_daemon::logger::SysfsBlacklist;
use thermalai_daemon::monitor::{jank_and_worst, FrameStats, LoadSample};
use thermalai_daemon::network_diag::{network_type_for, BulletRegQuality, JitterTier, RomType};
use thermalai_daemon::prediction::PredictionEngine;

#[test]
fn test_quality_score() {
    assert_eq!(BulletRegQuality::Excellent.score(), 100);
    assert_eq!(BulletRegQuality::Good.score(), 80);
    assert_eq!(BulletRegQuality::Fair.score(), 60);
    assert_eq!(BulletRegQuality::Poor.score(), 40);
    assert_eq!(BulletRegQuality::Bad.score(), 20);
    assert_eq!(BulletRegQuality::Unknown.score(), 50);
}

#[test]
fn test_jitter_tier() {
    assert_eq!(JitterTier::from_whole_ms(2.0f64 as i64), JitterTier::SPlus);
    assert_eq!(JitterTier::from_whole_ms(4.0f64 as i64), JitterTier::S);
    assert_eq!(JitterTier::from_whole_ms(6.0f64 as i64), JitterTier::A);
    assert_eq!(JitterTier::from_whole_ms(10.0f64 as i64), JitterTier::B);
    assert_eq!(JitterTier::from_whole_ms(15.0f64 as i64), JitterTier::C);
    assert_eq!(JitterTier::from_whole_ms(25.0f64 as i64), JitterTier::D);
}

#[test]
fn rom_detection() {
    assert_eq!(RomType::detect("Xiaomi", "OS1.0.5", ""), RomType::HyperOS);
    assert_eq!(RomType::detect("POCO", "", "V140"), RomType::HyperOS);
    assert_eq!(RomType::detect("Redmi", "", ""), RomType::Aosp);
    assert_eq!(RomType::detect("google", "x", "y"), RomType::Aosp);
    assert_eq!(network_type_for("wlan0"), "wifi");
    assert_eq!(network_type_for("rmnet_data1"), "mobile");
    assert_eq!(network_type_for("ccmni0"), "mobile");
    assert_eq!(network_type_for("eth0"), "other");
}

#[test]
fn detector_waits_then_latches() {
    let mut d = GameDetector::new(vec!["com.game".to_string()], 45, 3, 0);
    assert_eq!(d.scan_due(10_000), ScanDecision::Startup);
    assert!(!d.tick(10_000, Some((Some("com.game".to_string()), Some(7))), Some(true)));
    assert_eq!(d.scan_due(31_000), ScanDecision::Scan);
    assert!(d.tick(31_000, Some((Some("com.game".to_string()), Some(7))), Some(true)));
    assert_eq!(d.confirmed_package(), Some("com.game"));
    assert_eq!(d.confirmed_pid, Some(7));
    assert_eq!(d.scan_due(32_000), ScanDecision::Cached);
    assert_eq!(d.candidate(ScanDecision::Cached, &None), Some("com.game".to_string()));
    // The cgroup contradicts the cached detection: still latched.
    assert!(d.tick(32_000, None, Some(false)));
    // A scan that finds nothing, within the latch.
    assert!(d.tick(40_000, None, None));
    // After the latch runs out.
    assert!(!d.tick(80_000, None, None));
    assert_eq!(d.confirmed_pid, None);
}

#[test]
fn unreadable_cgroup_keeps_detection() {
    let mut d = GameDetector::new(vec![], 45, 3, 0);
    assert!(d.tick(40_000, Some((Some("com.game".to_string()), None)), None));
    assert_eq!(d.foreground_priority(true, false), 100);
    assert_eq!(d.foreground_priority(false, true), 50);
}

#[test]
fn cmdline_matching() {
    assert!(cmdline_matches_package("com.game\0--flag\0", "com.game"));
    assert!(cmdline_matches_package("com.game:remote\0", "com.game"));
    assert!(!cmdline_matches_package("com.gamex\0", "com.game"));
    assert!(is_known_game(&vec!["a".to_string(), "com.game".to_string()], "com.game"));
    assert!(!is_known_game(&vec![], "com.game"));
}

#[test]
fn thermal_readings() {
    assert!(valid_thermal_temp_raw(45000));
    assert!(!valid_thermal_temp_raw(0));
    assert!(!valid_thermal_temp_raw(200000));
    assert!(!valid_thermal_temp_raw(-50000));
    assert_eq!(temp_c_from_raw(45123), Some(45));
    assert_eq!(temp_c_from_raw(38), Some(38));
    assert_eq!(temp_c_from_raw(0), None);
}

#[test]
fn properties_and_services() {
    let values = vec![String::new(), "peridot".to_string(), "other".to_string()];
    assert_eq!(get_any_property(&values, "Unknown"), "peridot");
    assert_eq!(get_any_property(&vec![String::new()], "Unknown"), "Unknown");
    let props = ServiceProps {
        thermal_hal_2_0: false,
        thermal_engine: true,
        mi_thermald: false,
        power_hal_1_0: false,
        health_hal_2_1: true,
        perfservice: false,
        vendor_perfservice: false,
        perf_daemon: true,
        perf_service: false,
        vendor_performance_daemon: false,
        vendor_perf_hal_1_0: false,
    };
    let s = probe_services(&props);
    assert!(s.thermal_hal && s.vendor_thermal_engine && s.health_hal && s.perf_service);
    assert!(!s.power_hal && !s.vendor_performance_daemon);
    assert_eq!(battery_path(&[false, true, true]), Some("/sys/class/power_supply/bms"));
    assert_eq!(battery_path(&[false, false, false]), None);
}

#[test]
fn rejects_unsupported_cached_block_devices() {
    assert!(validate_storage_devices(&vec!["sda".to_string(), "dm-0".to_string()]).is_err());
    assert_eq!(
        validate_storage_devices(&vec!["loop3".to_string()]),
        Err("Hardware profile cache invalidated: unsupported block device cached: loop3".to_string())
    );
    assert!(validate_storage_devices(&vec!["sda".to_string()]).is_ok());
    assert!(unsupported_block_device("zram0"));
    assert!(!unsupported_block_device("mmcblk0"));
}

fn current_metadata() -> CacheMetadata {
    CacheMetadata {
        product_device: "peridot".to_string(),
        boot_hardware: "qcom".to_string(),
        device_identity: "24069PC21G".to_string(),
        board_platform: "pineapple".to_string(),
        hardware: "qcom".to_string(),
        schema_version: HARDWARE_PROFILE_SCHEMA_VERSION,
        timestamp: 1_700_000_000,
        android_version: "14".to_string(),
        build_fingerprint: "POCO/peridot/peridot:14/UKQ1/V816.0:user/release-keys".to_string(),
        kernel_version: "Linux version 6.1.57".to_string(),
        vendor_fingerprint: "POCO/peridot/peridot:14/UKQ1/V816.0:user/release-keys".to_string(),
    }
}

#[test]
fn rejects_old_schema_cache() {
    let current = current_metadata();
    let mut cached = current_metadata();
    cached.schema_version = HARDWARE_PROFILE_SCHEMA_VERSION - 1;
    assert!(validate_profile_metadata(&cached, &current).is_err());
}

#[test]
fn rejects_reversed_thermal_cache_map() {
    assert!(validate_thermal_mapping("thermal_zone60", "battery").is_err());
}

#[test]
fn cache_metadata_must_match_the_device() {
    let current = current_metadata();
    assert_eq!(validate_profile_metadata(&current_metadata(), &current), Ok(()));
    let mut cached = current_metadata();
    cached.timestamp = 1;
    assert_eq!(validate_profile_metadata(&cached, &current), Ok(()));
    cached.kernel_version = "Linux version 6.1.99".to_string();
    cached.hardware = "mtk".to_string();
    assert_eq!(
        validate_profile_metadata(&cached, &current),
        Err("Hardware profile cache invalidated: kernel version mismatch".to_string())
    );
    assert_eq!(
        validate_thermal_mapping("battery", "/sys/class/thermal/thermal_zone60/temp"),
        Ok(())
    );
    assert_eq!(
        validate_thermal_mapping("battery", "/sys/class/thermal/thermal_zone60/type"),
        Err("Hardware profile cache invalidated: malformed thermal mapping battery -> /sys/class/thermal/thermal_zone60/type".to_string())
    );
}

#[test]
fn blacklist_remembers_nodes() {
    let mut b = SysfsBlacklist::new();
    assert!(!b.is_sysfs_blacklisted("/a"));
    b.blacklist_sysfs_node("/a");
    assert!(b.is_sysfs_blacklisted("/a"));
    assert!(!b.is_sysfs_blacklisted("/b"));
}

#[test]
fn frames_and_samples() {
    let stats = FrameStats { sample_count: 12, janky_frames: 2, p90_frame_ns: 1, worst_frame_ns: 2, captured_at_ms: None };
    assert_eq!(stats.frame_count(), 12);
    assert_eq!(jank_and_worst(&vec![10, 20_000_000, 5, 17_000_000], 16_666_667), (2, 20_000_000));
    assert_eq!(jank_and_worst(&vec![], 16_666_667), (0, 0));
    let s = LoadSample { idle: 1, total: 2 };
    assert_eq!(s.total, 2);
    let p = PredictionEngine::new(10, 5);
    assert_eq!(p.samples_used(1), None);
    assert_eq!(p.samples_used(7), Some(7));
    assert_eq!(p.samples_used(70), Some(10));
    assert_eq!(RuntimeState::default().poll_count, 0);
    assert!(netlink_screen_state_fresh(100, 50));
    assert!(!netlink_screen_state_fresh(100, 30));
    assert!(!netlink_screen_state_fresh(10, 30));
}

#[test]
fn thermal_zone_roles_take_the_first_match() {
    let types: Vec<String> = [
        "aoss0-usr", "cpu-0-0-usr", "soc", "gpuss-0-usr", "battery", "bms", "skin-msm-therm",
        "pmih010x_tz", "pm8550b-chg-therm", "usb_conn_therm", "cpu-1-0-usr",
    ]
    .iter()
    .map(|s| s.to_string())
    .collect();
    let r = classify_thermal_zones(&types);
    assert_eq!(r.cpu, Some(1));
    assert_eq!(r.gpu, Some(3));
    assert_eq!(r.battery, Some(4));
    assert_eq!(r.skin, Some(6));
    assert_eq!(r.pmic, None);
    assert_eq!(r.charger, Some(8));
    assert_eq!(r.usbc, Some(9));
    let r = classify_thermal_zones(&vec!["xo-therm".to_string(), "bms".to_string(), "socd".to_string()]);
    assert_eq!(r.cpu, Some(2));
    assert_eq!(r.battery, Some(1));
    assert_eq!(r.gpu, None);
}

#[test]
fn three_cgroup_misses_cancel_a_detection() {
    let mut d = GameDetector::new(vec!["com.game".to_string()], 5, 60, 0);
    let scan = || Some((Some("com.game".to_string()), Some(9)));
    assert!(d.tick(31_000, scan(), Some(true)));
    assert_eq!(d.latch_time_ms, Some(31_000));
    // Two misses in a row still count as a detection: the latch is renewed.
    assert!(d.tick(32_000, None, Some(false)));
    assert!(d.tick(33_000, None, Some(false)));
    assert_eq!(d.latch_time_ms, Some(33_000));
    assert_eq!(d.cgroup_negative_streak, 2);
    // The third cancels it; the latch still holds for its duration.
    assert!(d.tick(34_000, None, Some(false)));
    assert_eq!(d.latch_time_ms, Some(33_000));
    assert!(!d.tick(39_000, None, Some(false)));
    // A confirmation resets the streak.
    assert!(d.tick(40_000, None, Some(true)));
    assert_eq!(d.cgroup_negative_streak, 0);
}

#[test]
fn startup_hold_changes_nothing() {
    let mut d = GameDetector::new(vec!["com.game".to_string()], 45, 3, 0);
    assert!(!d.tick(29_000, Some((Some("com.game".to_string()), Some(7))), Some(true)));
    assert_eq!(d.cached_package, None);
    assert_eq!(d.cached_pid, None);
    assert_eq!(d.confirmed_package, None);
    assert_eq!(d.last_proc_scan_ms, None);
}

#[test]
fn frame_stutter_after_a_minute_of_play() {
    let mut d = GameDetector::new(vec!["com.game".to_string()], 45, 3, 0);
    assert!(!d.detect_frame_stutter(Some(120), Some((96, 100)), None, 8));
    assert!(d.tick(31_000, Some((Some("com.game".to_string()), Some(7))), Some(true)));
    assert!(d.detect_frame_stutter(Some(120), Some((96, 100)), None, 8));
    assert!(!d.detect_frame_stutter(Some(120), Some((95, 100)), None, 8));
    assert!(!d.detect_frame_stutter(Some(30), Some((96, 100)), None, 8));
    assert!(!d.detect_frame_stutter(None, Some((96, 100)), None, 8));
    assert!(!d.detect_frame_stutter(Some(120), Some((96, 0)), None, 8));
    assert!(d.detect_frame_stutter(Some(120), None, Some(1201), 8));
    assert!(!d.detect_frame_stutter(Some(120), None, Some(1200), 8));
}

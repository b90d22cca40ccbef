use thermalai_daemon::config::{AppConfig, GameListConfig, ProfilesConfig};

#[test]
fn test_missing_files() {
    let (config, warnings) = AppConfig::load_or_default(
        Err("File does not exist: \"missing.toml\"".to_string()),
        Err("File does not exist: \"missing_games.txt\"".to_string()),
    );
    assert_eq!(config.profiles, ProfilesConfig::default());
    assert_eq!(config.games, GameListConfig::default());
    assert_eq!(warnings.len(), 2);
    assert_eq!(
        warnings[0],
        "Failed to load profiles config (File does not exist: \"missing.toml\"), using embedded defaults."
    );
    assert_eq!(
        warnings[1],
        "Failed to load game list config (File does not exist: \"missing_games.txt\"), using embedded defaults."
    );
}

#[test]
fn test_threshold_validation_fallback() {
    let mut parsed = ProfilesConfig::default();
    parsed.temp_cool = 90;
    parsed.temp_critical = 80;
    let (config, warnings) = AppConfig::validate_profiles(parsed);
    assert_eq!(config.temp_cool, ProfilesConfig::default().temp_cool);
    assert_eq!(
        warnings,
        vec!["Invalid configuration thresholds or bounds: temp_cool >= temp_warm. Falling back to defaults.".to_string()]
    );
}

#[test]
fn test_interval_validation_fallback() {
    let mut parsed = ProfilesConfig::default();
    parsed.poll_interval = 0;
    let (config, _) = AppConfig::validate_profiles(parsed);
    assert_eq!(config.poll_interval, ProfilesConfig::default().poll_interval);
}

#[test]
fn test_game_list_parsing() {
    let content = "\n        # comment\n\n        com.test.game1\n        com.test.game1 # duplicate\n        com.test.game2\n        ";
    let config = GameListConfig::from_text(content);
    assert_eq!(config.packages.len(), 2);
    assert!(config.packages.contains(&"com.test.game1".to_string()));
    assert!(config.packages.contains(&"com.test.game2".to_string()));
}

#[test]
fn test_empty_game_list() {
    let config = GameListConfig::from_text("\n# just comments\n");
    assert_eq!(config.packages, GameListConfig::default().packages);
}

#[test]
fn game_list_is_sorted_without_repeats() {
    let config = GameListConfig::from_text("zeta\r\nalpha\n  beta #x\nalpha\n#only\n");
    assert_eq!(config.packages, vec!["alpha".to_string(), "beta".to_string(), "zeta".to_string()]);
}

#[test]
fn default_game_list_has_fifteen_packages() {
    let d = GameListConfig::default();
    assert_eq!(d.packages.len(), 15);
    assert_eq!(d.packages[0], "com.miHoYo.GenshinImpact");
    assert_eq!(d.packages[14], "com.roblox.client.vnggames");
}

#[test]
fn validity_errors_in_order() {
    let d = ProfilesConfig::default();
    assert_eq!(d.is_valid(), Ok(()));
    let mut c = d.clone();
    c.temp_hot = c.temp_powersave;
    assert_eq!(c.is_valid(), Err("temp_hot >= temp_powersave"));
    let mut c = d.clone();
    c.game_latch_sec = 0;
    assert_eq!(c.is_valid(), Err("game_latch_sec == 0"));
    let mut c = d.clone();
    c.log_retain_count = 0;
    c.temp_warm = c.temp_cool;
    assert_eq!(c.is_valid(), Err("temp_cool >= temp_warm"));
}

#[test]
fn loaded_profiles_kept_when_valid() {
    let mut parsed = ProfilesConfig::default();
    parsed.temp_cool = 35;
    parsed.temp_warm = 40;
    parsed.log_level = "DEBUG".to_string();
    let (config, warnings) = AppConfig::load_or_default(Ok(parsed.clone()), Ok("com.a\n".to_string()));
    assert_eq!(config.profiles, parsed);
    assert_eq!(config.profiles.temp_hot, 58);
    assert_eq!(config.games.packages, vec!["com.a".to_string()]);
    assert!(warnings.is_empty());
}

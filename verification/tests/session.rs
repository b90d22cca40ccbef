use thermalai_daemon::policy::PolicyState;
use thermalai_daemon::session::{wake_capped_sleep, SessionChange, TickState};

#[test]
fn wake_defers_actuation_and_long_sleep_is_reported() {
    let mut s = TickState::new();
    let c = s.observe_screen(true, 1_000);
    assert!(c.went_off && !c.just_woke);
    assert_eq!(s.screen_off_since_ms, Some(1_000));
    let c = s.observe_screen(true, 5_000);
    assert!(!c.went_off && !c.just_woke);
    assert_eq!(s.screen_off_since_ms, Some(1_000));
    let c = s.observe_screen(false, 20_000);
    assert!(c.just_woke && c.long_sleep);
    assert_eq!(s.wake_defer_until_ms, Some(20_800));
    assert_eq!(s.screen_off_since_ms, None);

    let mut t = TickState::new();
    t.observe_screen(true, 1_000);
    let c = t.observe_screen(false, 4_000);
    assert!(c.just_woke && !c.long_sleep);
}

#[test]
fn session_starts_peaks_and_ends_into_cooldown() {
    let mut s = TickState::new();
    assert_eq!(s.observe_gaming(false, None, 0), SessionChange::Idle);
    let c = s.observe_gaming(true, Some("com.game"), 1_000);
    assert_eq!(c, SessionChange::Started);
    assert_eq!(s.session_started_ms, Some(1_000));
    s.record_peak(c, 41);
    let c = s.observe_gaming(true, Some("com.game"), 2_000);
    assert_eq!(c, SessionChange::Ongoing);
    s.record_peak(c, 47);
    s.record_peak(c, 44);
    assert_eq!(s.session_peak, 47);
    assert_eq!(s.session_secs(6_500), 5);
    let c = s.observe_gaming(false, None, 9_000);
    assert_eq!(c, SessionChange::Ended);
    s.current_policy = Some(PolicyState::Balanced);
    s.last_applied = Some(PolicyState::Balanced);
    s.end_session(9_000, 90);
    assert_eq!(s.last_session_peak, 47);
    assert_eq!(s.session_peak, 0);
    assert_eq!(s.session_started_ms, None);
    assert_eq!(s.last_applied, None);
    assert_eq!(s.cooldown_until_ms, Some(99_000));
    assert_eq!(s.session_secs(10_000), 0);
}

#[test]
fn cooldown_holds_while_warm_and_expires_once() {
    let mut s = TickState::new();
    s.observe_gaming(true, Some("com.game"), 0);
    s.observe_gaming(false, None, 1_000);
    s.end_session(1_000, 90);
    let o = s.settle_cooldown(50_000, false, 45, 42);
    assert!(o.active && !o.expired);
    let o = s.settle_cooldown(60_000, false, 40, 42);
    assert!(!o.active && !o.expired);
    assert!(s.cooldown_until_ms.is_some());
    let o = s.settle_cooldown(91_000, false, 45, 42);
    assert!(!o.active && o.expired);
    assert_eq!(s.cooldown_until_ms, None);
    assert_eq!(s.cooldown_source, None);
    let o = s.settle_cooldown(92_000, false, 45, 42);
    assert!(!o.active && !o.expired);
}

#[test]
fn another_game_drops_the_cooldown() {
    let mut s = TickState::new();
    s.observe_gaming(true, Some("com.a"), 0);
    s.observe_gaming(false, None, 1_000);
    s.end_session(1_000, 90);
    s.observe_gaming(true, Some("com.a"), 2_000);
    assert_eq!(s.cooldown_until_ms, Some(91_000));
    s.observe_gaming(false, None, 3_000);
    s.observe_gaming(true, Some("com.b"), 4_000);
    assert_eq!(s.cooldown_until_ms, None);
    assert_eq!(s.cooldown_source.as_deref(), Some("com.b"));
}

#[test]
fn actuation_plan_gates_and_commit() {
    let mut s = TickState::new();
    let plan = s.plan_actuation(PolicyState::Balanced, 10_000, 1_500, false, false, false);
    assert!(plan.needs_apply && plan.can_actuate && plan.apply_governors && plan.apply_tuning && plan.housekeeping);
    s.commit(PolicyState::Balanced, plan, 10_000);
    assert_eq!(s.current_policy, Some(PolicyState::Balanced));
    assert_eq!(s.last_applied, Some(PolicyState::Balanced));
    assert_eq!(s.last_actuation_ms, Some(10_000));

    let again = s.plan_actuation(PolicyState::Balanced, 20_000, 1_500, false, false, false);
    assert!(!again.needs_apply && !again.apply_governors && !again.housekeeping);

    // Within the throttle a change waits, but an emergency does not.
    let wait = s.plan_actuation(PolicyState::Powersave, 10_500, 1_500, false, false, false);
    assert!(wait.needs_apply && !wait.can_actuate && !wait.apply_tuning && wait.housekeeping);
    s.commit(PolicyState::Powersave, wait, 10_500);
    assert_eq!(s.current_policy, Some(PolicyState::Powersave));
    assert_eq!(s.last_applied, Some(PolicyState::Balanced));
    assert_eq!(s.last_actuation_ms, Some(10_000));
    let retry = s.plan_actuation(PolicyState::Powersave, 12_000, 1_500, false, false, false);
    assert!(retry.needs_apply && retry.can_actuate);
    let hot = s.plan_actuation(PolicyState::EmergencyCool, 10_600, 1_500, false, false, false);
    assert!(hot.can_actuate && hot.apply_governors);

    // Tweaks disabled: nothing is written.
    let off = s.plan_actuation(PolicyState::Performance, 50_000, 1_500, false, true, false);
    assert!(off.needs_apply && !off.apply_governors && !off.apply_tuning && !off.housekeeping);
}

#[test]
fn performance_waits_out_the_game_grace() {
    let mut s = TickState::new();
    s.observe_gaming(true, Some("com.game"), 100_000);
    let early = s.plan_actuation(PolicyState::Performance, 101_000, 1_500, true, false, false);
    assert!(early.can_actuate && !early.apply_governors && early.apply_tuning);
    let later = s.plan_actuation(PolicyState::Performance, 102_000, 1_500, true, false, false);
    assert!(later.apply_governors);
    let balanced = s.plan_actuation(PolicyState::Balanced, 101_000, 1_500, true, false, false);
    assert!(balanced.apply_governors);
}

#[test]
fn wake_deferral_and_leaving_suspend() {
    let mut s = TickState::new();
    s.commit(PolicyState::Suspend, s.plan_actuation(PolicyState::Suspend, 0, 1_500, false, false, false), 0);
    s.observe_screen(true, 1_000);
    s.observe_screen(false, 30_000);
    assert_eq!(s.wake_defer_until_ms, Some(30_800));
    // Leaving Suspend bypasses the wake deferral.
    let wake = s.plan_actuation(PolicyState::Balanced, 30_100, 1_500, false, false, false);
    assert!(wake.can_actuate);
    s.commit(PolicyState::Balanced, wake, 30_100);
    // Another change inside the deferral waits.
    let mut t = s.clone();
    t.last_actuation_ms = None;
    let tighter = t.plan_actuation(PolicyState::Powersave, 30_200, 1_500, false, false, false);
    assert!(!tighter.can_actuate);
    assert_eq!(wake_capped_sleep(5_000, true), 400);
    assert_eq!(wake_capped_sleep(300, true), 300);
    assert_eq!(wake_capped_sleep(5_000, false), 5_000);
}

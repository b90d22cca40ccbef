//! What one control-loop tick decides once the policy engine has spoken: the
//! policy actually put in force, the GPU power level and the governor
//! preferences for it, whether actuation may run, how the stock thermal
//! service is handed over, and the small readings the tick derives.
//!
//! KGSL power levels count down: a lower level is a faster GPU.
use vstd::prelude::*;
use crate::policy::PolicyState;
use crate::text::{chars_of, has_prefix, starts_with_chars};

verus! {

/// The fastest power level of the discovered pair (the smaller one); 0
/// when nothing was discovered.
pub open spec fn gpu_best_spec(min_level: Option<u32>, max_level: Option<u32>) -> u32 {
    match min_level {
        Some(m) => match max_level {
            Some(x) => if x < m {
                x
            } else {
                m
            },
            None => m,
        },
        None => 0,
    }
}

/// The slowest power level of the discovered pair (the larger one); 4 when
/// nothing was discovered.
pub open spec fn gpu_worst_spec(min_level: Option<u32>, max_level: Option<u32>) -> u32 {
    match min_level {
        Some(m) => match max_level {
            Some(x) => if x > m {
                x
            } else {
                m
            },
            None => m,
        },
        None => 4,
    }
}

/// The best and worst GPU power levels, in that order.
pub fn gpu_level_bounds(min_level: Option<u32>, max_level: Option<u32>) -> (r: (u32, u32))
    ensures
        r == (gpu_best_spec(min_level, max_level), gpu_worst_spec(min_level, max_level)),
{
    match min_level {
        Some(m) => match max_level {
            Some(x) => {
                let best = if x < m {
                    x
                } else {
                    m
                };
                let worst = if x > m {
                    x
                } else {
                    m
                };
                (best, worst)
            },
            None => (m, m),
        },
        None => (0, 4),
    }
}

pub open spec fn one_slower_than_worst(worst: u32) -> u32 {
    if worst == 0 {
        0
    } else {
        (worst - 1) as u32
    }
}

/// The power level for a policy: the best for `Performance` and for a game
/// under `Balanced`, one step short of the worst for `Balanced` without a
/// game and for `Conservative`, the worst otherwise.
pub open spec fn gpu_level_spec(policy: PolicyState, is_gaming: bool, best: u32, worst: u32) -> u32 {
    match policy {
        PolicyState::Performance => best,
        PolicyState::Balanced => if is_gaming {
            best
        } else {
            one_slower_than_worst(worst)
        },
        PolicyState::Conservative => one_slower_than_worst(worst),
        _ => worst,
    }
}

pub fn gpu_level_for_policy(policy: PolicyState, is_gaming: bool, best: u32, worst: u32) -> (r: u32)
    ensures
        r == gpu_level_spec(policy, is_gaming, best, worst),
{
    match policy {
        PolicyState::Performance => best,
        PolicyState::Balanced => if is_gaming {
            best
        } else {
            worst.saturating_sub(1)
        },
        PolicyState::Conservative => worst.saturating_sub(1),
        _ => worst,
    }
}

/// The mild clamp after a game: one step short of the larger of the
/// discovered levels (0 and 4 standing in for missing ones), and only when
/// a maximum level was discovered.
pub fn gpu_exit_level(min_level: Option<u32>, max_level: Option<u32>) -> (r: Option<u32>)
    ensures
        r == (match max_level {
            Some(x) => {
                let m: u32 = match min_level {
                    Some(v) => v,
                    None => 0,
                };
                Some(one_slower_than_worst(if m > x { m } else { x }))
            },
            None => None,
        }),
{
    match max_level {
        Some(x) => {
            let m: u32 = match min_level {
                Some(v) => v,
                None => 0,
            };
            let worst = if m > x {
                m
            } else {
                x
            };
            Some(worst.saturating_sub(1))
        },
        None => None,
    }
}

/// The policy put in force: an emergency always wins; otherwise a running
/// cooldown or recovery holds `Conservative`; otherwise the engine's choice.
pub fn final_policy(desired: PolicyState, cooldown_active: bool, recovery_mode: bool) -> (r: PolicyState)
    ensures
        desired == PolicyState::EmergencyCool ==> r == PolicyState::EmergencyCool,
        desired != PolicyState::EmergencyCool && (cooldown_active || recovery_mode) ==> r
            == PolicyState::Conservative,
        desired != PolicyState::EmergencyCool && !cooldown_active && !recovery_mode ==> r == desired,
{
    if desired == PolicyState::EmergencyCool {
        PolicyState::EmergencyCool
    } else if cooldown_active || recovery_mode {
        PolicyState::Conservative
    } else {
        desired
    }
}

/// The post-game cooldown holds its clamp only while no game runs and the
/// device is still at `temp_warm` or above.
pub fn cooldown_holds(is_cooldown: bool, is_gaming: bool, adj_temp: i32, temp_warm: i32) -> (r: bool)
    ensures
        r == (is_cooldown && !is_gaming && adj_temp >= temp_warm),
{
    is_cooldown && !is_gaming && adj_temp >= temp_warm
}

/// The views of a list of string slices.
pub open spec fn views_of(s: Seq<&str>) -> Seq<Seq<char>> {
    s.map_values(|x: &str| x@)
}

/// The CPU governors to try for a policy, in order of preference.
pub open spec fn cpu_preferences_spec(policy: PolicyState) -> Seq<Seq<char>> {
    match policy {
        PolicyState::Performance => seq!["walt"@, "performance"@, "schedutil"@],
        PolicyState::Balanced => seq!["walt"@, "schedutil"@],
        PolicyState::Suspend => seq!["powersave"@, "schedutil"@],
        _ => seq!["schedutil"@],
    }
}

/// The GPU governors to try for a policy, in order of preference.
pub open spec fn gpu_preferences_spec(policy: PolicyState) -> Seq<Seq<char>> {
    match policy {
        PolicyState::Performance => seq!["performance"@, "msm-adreno-tz"@],
        PolicyState::Balanced | PolicyState::Conservative => seq![
            "msm-adreno-tz"@,
            "simple_ondemand"@,
        ],
        _ => seq!["powersave"@, "msm-adreno-tz"@, "simple_ondemand"@],
    }
}

pub fn cpu_governor_preferences(policy: PolicyState) -> (r: Vec<&'static str>)
    ensures
        views_of(r@) == cpu_preferences_spec(policy),
{
    let mut v: Vec<&'static str> = Vec::new();
    match policy {
        PolicyState::Performance => {
            v.push("walt");
            v.push("performance");
            v.push("schedutil");
        },
        PolicyState::Balanced => {
            v.push("walt");
            v.push("schedutil");
        },
        PolicyState::Suspend => {
            v.push("powersave");
            v.push("schedutil");
        },
        _ => {
            v.push("schedutil");
        },
    }
    assert(views_of(v@) =~= cpu_preferences_spec(policy));
    v
}

pub fn gpu_governor_preferences(policy: PolicyState) -> (r: Vec<&'static str>)
    ensures
        views_of(r@) == gpu_preferences_spec(policy),
{
    let mut v: Vec<&'static str> = Vec::new();
    match policy {
        PolicyState::Performance => {
            v.push("performance");
            v.push("msm-adreno-tz");
        },
        PolicyState::Balanced | PolicyState::Conservative => {
            v.push("msm-adreno-tz");
            v.push("simple_ondemand");
        },
        _ => {
            v.push("powersave");
            v.push("msm-adreno-tz");
            v.push("simple_ondemand");
        },
    }
    assert(views_of(v@) =~= gpu_preferences_spec(policy));
    v
}

/// The cpuset layout for a policy.
pub fn cpuset_for_policy(policy: PolicyState) -> (r: &'static str)
    ensures
        r@ == (match policy {
            PolicyState::Performance => "performance"@,
            PolicyState::Balanced | PolicyState::Conservative => "balanced"@,
            _ => "powersave"@,
        }),
{
    match policy {
        PolicyState::Performance => "performance",
        PolicyState::Balanced | PolicyState::Conservative => "balanced",
        _ => "powersave",
    }
}

/// The profile the CPU tuner applies: the gentler `Recovery` clamp during
/// recovery or cooldown, and for a game under any policy but `Performance`;
/// otherwise the policy's own name.
pub fn tuning_policy(policy: PolicyState, recovery_mode: bool, cooldown_active: bool, is_gaming: bool) -> (r:
    &'static str)
    ensures
        (recovery_mode || cooldown_active || (is_gaming && policy != PolicyState::Performance))
            ==> r@ == "Recovery"@,
        !(recovery_mode || cooldown_active || (is_gaming && policy != PolicyState::Performance))
            ==> r@ == crate::orchestrator::policy_name_spec(policy),
{
    if recovery_mode || cooldown_active {
        "Recovery"
    } else if is_gaming && policy != PolicyState::Performance {
        "Recovery"
    } else {
        crate::orchestrator::policy_state_name(&policy)
    }
}

/// What to do with the vendor's stock thermal service this tick.
#[derive(Debug, Clone, Copy, PartialEq, Eq, Structural)]
pub enum StockThermalAction {
    Disable,
    Restore,
    Keep,
}

/// The stock thermal service is off for a whole game session and handed
/// back only once the hot phase after a game has passed. `disabled` is what
/// the daemon believes (`None` before the first tick); the result is the
/// action and the new belief.
pub fn stock_thermal_step(is_gaming: bool, disabled: Option<bool>, in_hot_game_exit: bool) -> (r: (
    StockThermalAction,
    Option<bool>,
))
    ensures
        ({
            let cur = match disabled {
                Some(d) => d,
                None => false,
            };
            if is_gaming && !cur {
                r == (StockThermalAction::Disable, Some(true))
            } else if !is_gaming && cur && !in_hot_game_exit {
                r == (StockThermalAction::Restore, Some(false))
            } else if !is_gaming && disabled.is_none() {
                r == (StockThermalAction::Keep, Some(false))
            } else {
                r == (StockThermalAction::Keep, disabled)
            }
        }),
{
    let cur = match disabled {
        Some(d) => d,
        None => false,
    };
    if is_gaming && !cur {
        (StockThermalAction::Disable, Some(true))
    } else if !is_gaming && cur && !in_hot_game_exit {
        (StockThermalAction::Restore, Some(false))
    } else if !is_gaming && disabled.is_none() {
        (StockThermalAction::Keep, Some(false))
    } else {
        (StockThermalAction::Keep, disabled)
    }
}

/// Whether to drop caches on a policy transition, and how hard: the full
/// drop (`Some(true)`) under `EmergencyCool`, the page-cache drop
/// (`Some(false)`) under `Powersave` with memory pressure above 40 %
/// (in hundredths of a percent).
pub fn drop_cache_request(policy: PolicyState, mem_pressure: i64) -> (r: Option<bool>)
    ensures
        r == (if policy == PolicyState::EmergencyCool {
            Some(true)
        } else if policy == PolicyState::Powersave && mem_pressure > 4000 {
            Some(false)
        } else {
            None
        }),
{
    if policy == PolicyState::EmergencyCool {
        Some(true)
    } else if policy == PolicyState::Powersave && mem_pressure > 4000 {
        Some(false)
    } else {
        None
    }
}

/// Whether this tick may actuate: when the throttle allows it (`allowed`);
/// always for `EmergencyCool`, `Suspend` and recovery; and when leaving
/// `Suspend` for any other policy, as soon as the throttle alone, without
/// the wake deferral, allows it (`allowed_without_wake_defer`).
pub fn can_actuate(
    allowed: bool,
    allowed_without_wake_defer: bool,
    policy: PolicyState,
    current: Option<PolicyState>,
    recovery_mode: bool,
) -> (r: bool)
    ensures
        r == (allowed || policy == PolicyState::EmergencyCool || policy == PolicyState::Suspend
            || recovery_mode || (policy != PolicyState::Suspend && current == Some(
            PolicyState::Suspend,
        ) && allowed_without_wake_defer)),
{
    let hard = policy == PolicyState::EmergencyCool || policy == PolicyState::Suspend
        || recovery_mode;
    let loosening = policy != PolicyState::Suspend && current == Some(PolicyState::Suspend);
    allowed || hard || (loosening && allowed_without_wake_defer)
}

/// How hot a game session ran, for the game's profile: 2 at `temp_hot` or
/// above, 1 from 50 C, else 0.
pub fn session_thermal_class(peak_temp: i32, temp_hot: i32) -> (r: u8)
    ensures
        r == (if peak_temp >= temp_hot {
            2u8
        } else if peak_temp >= 50 {
            1u8
        } else {
            0u8
        }),
{
    if peak_temp >= temp_hot {
        2
    } else if peak_temp >= 50 {
        1
    } else {
        0
    }
}

/// The first reading that is present and positive.
pub open spec fn first_positive(s: Seq<Option<i64>>) -> Option<i64>
    decreases s.len(),
{
    if s.len() == 0 {
        None
    } else {
        match s[0] {
            Some(v) if v > 0 => Some(v),
            _ => first_positive(s.drop_first()),
        }
    }
}

/// Division by ten that rounds towards zero, as the machine divides.
pub open spec fn div10_toward_zero(x: int) -> int {
    if x >= 0 {
        x / 10
    } else {
        -((-x) / 10)
    }
}

/// The battery temperature in whole degrees: the first power-supply
/// reading (in tenths of a degree, taken as an `i32`) that is present and
/// positive; without one, the battery sensor; without that, 35 C.
pub fn battery_temp_c(readings: &Vec<Option<i64>>, sensor: Option<i32>) -> (r: i32)
    ensures
        r == (match first_positive(readings@) {
            Some(v) => div10_toward_zero((v as i32) as int),
            None => match sensor {
                Some(t) => t as int,
                None => 35,
            },
        }),
{
    let mut i: usize = 0;
    assert(readings@.skip(0) =~= readings@);
    while i < readings.len()
        invariant
            0 <= i <= readings.len(),
            first_positive(readings@) == first_positive(readings@.skip(i as int)),
        decreases readings.len() - i,
    {
        assert(readings@.skip(i as int)[0] == readings@[i as int]);
        match readings[i] {
            Some(v) => {
                if v > 0 {
                    #[verifier::truncate]
                    let t: i32 = v as i32;
                    if t >= 0 {
                        return t / 10;
                    } else {
                        let n: i64 = 0 - (t as i64);
                        return (0 - n / 10) as i32;
                    }
                }
            },
            None => {},
        }
        assert(readings@.skip(i as int).drop_first() =~= readings@.skip(i + 1));
        i = i + 1;
    }
    assert(readings@.skip(i as int).len() == 0);
    match sensor {
        Some(t) => t,
        None => 35,
    }
}

/// Whether a periodic probe is due: never with a zero interval; otherwise
/// when it never ran or the interval (in seconds) has passed since it did.
pub fn probe_due(last_ms: Option<u64>, now_ms: u64, interval_secs: u64) -> (r: bool)
    ensures
        r == (interval_secs > 0 && match last_ms {
            None => true,
            Some(t) => crate::orchestrator::since_ms(t, now_ms) >= interval_secs * 1000,
        }),
{
    if interval_secs == 0 {
        return false;
    }
    match last_ms {
        None => true,
        Some(t) => {
            let since = now_ms.saturating_sub(t);
            since / 1000 >= interval_secs
        },
    }
}

/// Whether telemetry is written this tick: two seconds after the last
/// write, on a change of the policy shown, and on every tick in recovery.
pub fn telemetry_due(
    last_write_ms: Option<u64>,
    now_ms: u64,
    last_policy: Option<PolicyState>,
    policy: PolicyState,
    recovery_mode: bool,
) -> (r: bool)
    ensures
        r == (match last_write_ms {
            None => true,
            Some(t) => crate::orchestrator::since_ms(t, now_ms) >= 2000,
        } || last_policy != Some(policy) || recovery_mode),
{
    let due = match last_write_ms {
        None => true,
        Some(t) => now_ms.saturating_sub(t) >= 2000,
    };
    due || last_policy != Some(policy) || recovery_mode
}

/// The network a game session ran on, for its profile, from the interface
/// of the last network probe: 2 (cellular) for an `rmnet` interface, 1
/// (WiFi) for `wlan0`, 0 otherwise.
pub fn session_network_type(iface: Option<&str>) -> (r: u8)
    ensures
        r == (match iface {
            Some(i) => if has_prefix(i@, "rmnet"@) {
                2u8
            } else if i@ == "wlan0"@ {
                1u8
            } else {
                0u8
            },
            None => 0u8,
        }),
{
    match iface {
        Some(i) => {
            let c = chars_of(i);
            if starts_with_chars(&c, &chars_of("rmnet")) {
                2
            } else if crate::text::chars_equal(&c, &chars_of("wlan0")) {
                1
            } else {
                0
            }
        },
        None => 0,
    }
}

} // verus!

//! The decisions of the system orchestrator's control loop: which governors
//! to use, how long to sleep between ticks, when actuation is allowed, and
//! the context, comfort and game weights that feed the policy engine (in
//! hundredths of a score point). The loop itself, with its reads and writes,
//! is the caller's part.
use vstd::prelude::*;
use crate::hardware::{CpuCluster, CpuTopology, GpuProfile};
use crate::policy::PolicyState;
use crate::text::{chars_of, has_infix};

verus! {

/// Whether `name` is among the governors `govs`.
pub open spec fn offers(govs: Seq<Seq<char>>, name: Seq<char>) -> bool {
    govs.contains(name)
}

fn offers_exec(govs: &Vec<String>, name: &str) -> (r: bool)
    ensures
        r == offers(govs.deep_view(), name@),
{
    crate::gaming::is_known_game(govs, name)
}

/// The first preferred governor that satisfies `ok`, by index.
pub open spec fn first_preferred(preferred: Seq<Seq<char>>, ok: spec_fn(Seq<char>) -> bool) -> Option<
    Seq<char>,
>
    decreases preferred.len(),
{
    if preferred.len() == 0 {
        None
    } else if ok(preferred[0]) {
        Some(preferred[0])
    } else {
        first_preferred(preferred.drop_first(), ok)
    }
}

/// The GPU governor to use: the first preferred one the GPU offers, else the
/// current one when it is offered, else the first one offered.
pub open spec fn gpu_governor_spec(
    available: Seq<Seq<char>>,
    current: Seq<char>,
    preferred: Seq<Seq<char>>,
) -> Option<Seq<char>> {
    match first_preferred(preferred, |g: Seq<char>| offers(available, g)) {
        Some(g) => Some(g),
        None => if current.len() > 0 && offers(available, current) {
            Some(current)
        } else if available.len() > 0 {
            Some(available[0])
        } else {
            None
        },
    }
}

/// The views of string slices.
pub open spec fn str_views(s: Seq<&str>) -> Seq<Seq<char>> {
    s.map_values(|x: &str| x@)
}

pub fn select_gpu_governor(gpu: &GpuProfile, preferred: &[&str]) -> (r: Option<String>)
    ensures
        match r {
            Some(s) => gpu_governor_spec(
                gpu.available_governors.deep_view(),
                gpu.current_governor@,
                str_views(preferred@),
            ) == Some(s@),
            None => gpu_governor_spec(
                gpu.available_governors.deep_view(),
                gpu.current_governor@,
                str_views(preferred@),
            ).is_none(),
        },
{
    let ghost pv = str_views(preferred@);
    let ghost ok = |g: Seq<char>| offers(gpu.available_governors.deep_view(), g);
    let mut i: usize = 0;
    assert(pv.skip(0) =~= pv);
    while i < preferred.len()
        invariant
            0 <= i <= preferred.len(),
            pv == str_views(preferred@),
            ok == (|g: Seq<char>| offers(gpu.available_governors.deep_view(), g)),
            first_preferred(pv, ok) == first_preferred(pv.skip(i as int), ok),
        decreases preferred.len() - i,
    {
        let gov = preferred[i];
        assert(pv.skip(i as int)[0] == gov@);
        if offers_exec(&gpu.available_governors, gov) {
            return Some(gov.to_owned());
        }
        assert(pv.skip(i as int).drop_first() =~= pv.skip(i + 1));
        i = i + 1;
    }
    assert(pv.skip(preferred.len() as int).len() == 0);
    let cur = gpu.current_governor.as_str();
    if chars_of(cur).len() > 0 && offers_exec(&gpu.available_governors, cur) {
        return Some(gpu.current_governor.clone());
    }
    if gpu.available_governors.len() > 0 {
        assert(gpu.available_governors.deep_view()[0] == gpu.available_governors@[0]@);
        return Some(gpu.available_governors[0].clone());
    }
    None
}

/// Whether every cluster can take governor `g`: its governor node is valid
/// and writable and it offers `g`.
pub open spec fn all_clusters_take(clusters: Seq<CpuCluster>, g: Seq<char>) -> bool {
    forall|k: int|
        0 <= k < clusters.len() ==> {
            &&& (#[trigger] clusters[k]).governor_node.valid
            &&& clusters[k].governor_node.writable
            &&& offers(clusters[k].available_governors.deep_view(), g)
        }
}

pub(crate) fn all_clusters_take_exec(clusters: &Vec<CpuCluster>, g: &str) -> (r: bool)
    ensures
        r == all_clusters_take(clusters@, g@),
{
    let mut i: usize = 0;
    while i < clusters.len()
        invariant
            0 <= i <= clusters.len(),
            forall|k: int|
                0 <= k < i ==> {
                    &&& (#[trigger] clusters@[k]).governor_node.valid
                    &&& clusters@[k].governor_node.writable
                    &&& offers(clusters@[k].available_governors.deep_view(), g@)
                },
        decreases clusters.len() - i,
    {
        let c = &clusters[i];
        if !(c.governor_node.valid && c.governor_node.writable && offers_exec(
            &c.available_governors,
            g,
        )) {
            return false;
        }
        i = i + 1;
    }
    true
}

/// The CPU governor to use: the first preferred one that every cluster can
/// take, if any.
pub fn select_cpu_governor(topology: &CpuTopology, preferred: &[&str]) -> (r: Option<String>)
    ensures
        match r {
            Some(s) => first_preferred(
                str_views(preferred@),
                |g: Seq<char>| all_clusters_take(topology.clusters@, g),
            ) == Some(s@),
            None => first_preferred(
                str_views(preferred@),
                |g: Seq<char>| all_clusters_take(topology.clusters@, g),
            ).is_none(),
        },
{
    let ghost pv = str_views(preferred@);
    let ghost ok = |g: Seq<char>| all_clusters_take(topology.clusters@, g);
    let mut i: usize = 0;
    assert(pv.skip(0) =~= pv);
    while i < preferred.len()
        invariant
            0 <= i <= preferred.len(),
            pv == str_views(preferred@),
            ok == (|g: Seq<char>| all_clusters_take(topology.clusters@, g)),
            first_preferred(pv, ok) == first_preferred(pv.skip(i as int), ok),
        decreases preferred.len() - i,
    {
        let gov = preferred[i];
        assert(pv.skip(i as int)[0] == gov@);
        if all_clusters_take_exec(&topology.clusters, gov) {
            return Some(gov.to_owned());
        }
        assert(pv.skip(i as int).drop_first() =~= pv.skip(i + 1));
        i = i + 1;
    }
    assert(pv.skip(preferred.len() as int).len() == 0);
    None
}

/// What the loop knows when it picks its sleep.
#[derive(Debug, Clone, Copy, PartialEq, Eq)]
pub struct SleepInputs {
    pub trend_score: i32,
    pub is_screen_off: bool,
    pub is_gaming: bool,
    pub gpu_load: u32,
    /// Whether a charger has been plugged in since the screen went off.
    pub plugged: bool,
    /// Seconds since the screen went off, when it is off.
    pub screen_off_secs: Option<u64>,
    /// Whether the last tick was trending hot.
    pub prev_hot_trend: bool,
    pub poll_interval_secs: u64,
    pub game_poll_interval_secs: u64,
}

/// The sleep decision.
#[derive(Debug, Clone, Copy, PartialEq, Eq)]
pub struct SleepDecision {
    /// The trend score scaled by 50 and clamped to `[-50, 50]`.
    pub clamped_trend: i32,
    /// Whether this tick trends hot (for the next tick).
    pub hot_trend: bool,
    pub sleep_ms: u64,
    /// The device is idle: screen off for over 30 s, no game, no charger, not
    /// heating.
    pub long_idle: bool,
}

pub open spec fn sat_mul(a: u64, b: u64) -> u64 {
    if a * b > u64::MAX {
        u64::MAX
    } else {
        (a * b) as u64
    }
}

pub(crate) fn sat_mul_exec(a: u64, b: u64) -> (r: u64)
    requires
        b > 0,
    ensures
        r == sat_mul(a, b),
{
    if a > u64::MAX / b {
        assert(a * b > u64::MAX) by (nonlinear_arith)
            requires
                a > u64::MAX / b,
                b > 0,
        ;
        u64::MAX
    } else {
        assert(a * b <= u64::MAX) by (nonlinear_arith)
            requires
                a <= u64::MAX / b,
                b > 0,
        ;
        a * b
    }
}

pub open spec fn sleep_spec(i: SleepInputs) -> SleepDecision {
    let t50 = i.trend_score * 50;
    let ct: int = if t50 < -50 {
        -50
    } else if t50 > 50 {
        50
    } else {
        t50
    };
    let long_idle = i.is_screen_off && !i.is_gaming && !i.plugged && match i.screen_off_secs {
        Some(s) => s > 30,
        None => false,
    } && ct <= 0;
    let hot_now = ct > 30;
    let sustained = hot_now && i.prev_hot_trend;
    let sleep: u64 = if i.is_gaming {
        if sustained && i.gpu_load > 60 {
            500
        } else if sustained {
            1000
        } else if ct > 15 {
            1500
        } else if i.gpu_load < 30 && -5 <= ct <= 5 {
            3000
        } else {
            sat_mul(i.game_poll_interval_secs, 1000)
        }
    } else if sustained {
        750
    } else if ct > 15 {
        1500
    } else if long_idle {
        30_000
    } else if i.is_screen_off && -2 <= ct <= 2 {
        sat_mul(i.poll_interval_secs, 4000)
    } else {
        sat_mul(i.poll_interval_secs, 1000)
    };
    SleepDecision { clamped_trend: ct as i32, hot_trend: hot_now, sleep_ms: sleep, long_idle }
}

/// How long the loop sleeps: fast while a game heats up under GPU load,
/// slow when idle and stable, 30 s when the device is idle with the screen
/// off. A hot trend must hold two ticks before the loop speeds up.
pub fn calculate_adaptive_sleep(i: &SleepInputs) -> (r: SleepDecision)
    requires
        -42949672 <= i.trend_score <= 42949672,
    ensures
        r == sleep_spec(*i),
{
    let t50: i32 = i.trend_score * 50;
    let ct: i32 = if t50 < -50 {
        -50
    } else if t50 > 50 {
        50
    } else {
        t50
    };
    let long_idle = i.is_screen_off && !i.is_gaming && !i.plugged && match i.screen_off_secs {
        Some(s) => s > 30,
        None => false,
    } && ct <= 0;
    let hot_now = ct > 30;
    let sustained = hot_now && i.prev_hot_trend;
    let sleep: u64 = if i.is_gaming {
        if sustained && i.gpu_load > 60 {
            500
        } else if sustained {
            1000
        } else if ct > 15 {
            1500
        } else if i.gpu_load < 30 && -5 <= ct && ct <= 5 {
            3000
        } else {
            sat_mul_exec(i.game_poll_interval_secs, 1000)
        }
    } else if sustained {
        750
    } else if ct > 15 {
        1500
    } else if long_idle {
        30_000
    } else if i.is_screen_off && -2 <= ct && ct <= 2 {
        sat_mul_exec(i.poll_interval_secs, 4000)
    } else {
        sat_mul_exec(i.poll_interval_secs, 1000)
    };
    SleepDecision { clamped_trend: ct, hot_trend: hot_now, sleep_ms: sleep, long_idle }
}

pub open spec fn since_ms(at: u64, now: u64) -> int {
    if now >= at {
        now - at
    } else {
        0
    }
}

/// Whether an actuation burst may run: always with no minimum interval;
/// otherwise once the minimum (at least 3 s while gaming) has passed since
/// the last burst.
pub open spec fn throttle_spec(last: Option<u64>, now: u64, base_ms: u64, gaming: bool) -> bool {
    if base_ms == 0 {
        true
    } else {
        let min = if gaming && base_ms < 3000 {
            3000
        } else {
            base_ms as int
        };
        match last {
            None => true,
            Some(t) => since_ms(t, now) >= min,
        }
    }
}

pub fn check_throttle_limit(last_actuation_ms: Option<u64>, now_ms: u64, base_ms: u64, is_gaming: bool) -> (r:
    bool)
    ensures
        r == throttle_spec(last_actuation_ms, now_ms, base_ms, is_gaming),
{
    if base_ms == 0 {
        return true;
    }
    let min_ms = if is_gaming && base_ms < 3000 {
        3000
    } else {
        base_ms
    };
    match last_actuation_ms {
        None => true,
        Some(t) => now_ms.saturating_sub(t) >= min_ms,
    }
}

/// Whether actuation is allowed: not while a wake deferral runs, and
/// otherwise as [`check_throttle_limit`] says.
pub fn actuation_allowed(
    wake_defer_until_ms: Option<u64>,
    last_actuation_ms: Option<u64>,
    now_ms: u64,
    min_actuation_interval_ms: u64,
    is_gaming: bool,
) -> (r: bool)
    ensures
        r == (match wake_defer_until_ms {
            Some(d) => now_ms >= d,
            None => true,
        } && throttle_spec(last_actuation_ms, now_ms, min_actuation_interval_ms, is_gaming)),
{
    match wake_defer_until_ms {
        Some(d) => {
            if now_ms < d {
                return false;
            }
        },
        None => {},
    }
    check_throttle_limit(last_actuation_ms, now_ms, min_actuation_interval_ms, is_gaming)
}

/// The context weight in hundredths: -30 with the screen off, +15 while
/// gaming, +5 otherwise; -2 for active WiFi, -3 above 80% brightness, -5
/// above 35 degrees ambient.
pub open spec fn context_score_spec(
    wifi_active: bool,
    brightness: i32,
    ambient: i32,
    screen_off: bool,
    gaming: bool,
) -> i64 {
    ((if screen_off {
        -3000int
    } else if gaming {
        1500int
    } else {
        500int
    }) + (if wifi_active {
        -200int
    } else {
        0int
    }) + (if brightness > 80 {
        -300int
    } else {
        0int
    }) + (if ambient > 35 {
        -500int
    } else {
        0int
    })) as i64
}

pub fn get_context_score(
    wifi_active: bool,
    screen_brightness: i32,
    ambient_temp: i32,
    is_screen_off: bool,
    is_gaming: bool,
) -> (r: i64)
    ensures
        r == context_score_spec(wifi_active, screen_brightness, ambient_temp, is_screen_off, is_gaming),
{
    let mut score: i64 = 0;
    if is_screen_off {
        score = score - 3000;
    } else if is_gaming {
        score = score + 1500;
    } else {
        score = score + 500;
    }
    if wifi_active {
        score = score - 200;
    }
    if screen_brightness > 80 {
        score = score - 300;
    }
    if ambient_temp > 35 {
        score = score - 500;
    }
    score
}

/// Cooling efficiency in hundredths: 100, +50 while cooling, -50 when
/// heating fast, -30 above 80% GPU load, at least 10.
pub open spec fn cooling_efficiency_spec(ema_trend: i32, gpu_load: u32, cooling: bool) -> i64 {
    let e: int = 100 + (if cooling {
        50int
    } else {
        0int
    }) - (if ema_trend > 5 {
        50int
    } else {
        0int
    }) - (if gpu_load > 80 {
        30int
    } else {
        0int
    });
    (if e < 10 {
        10
    } else {
        e
    }) as i64
}

pub fn get_cooling_efficiency(ema_trend: i32, gpu_load: u32, is_cooling: bool) -> (r: i64)
    ensures
        r == cooling_efficiency_spec(ema_trend, gpu_load, is_cooling),
{
    let mut e: i64 = 100;
    if is_cooling {
        e = e + 50;
    }
    if ema_trend > 5 {
        e = e - 50;
    }
    if gpu_load > 80 {
        e = e - 30;
    }
    if e < 10 {
        10
    } else {
        e
    }
}

/// The comfort weight in hundredths: 5, plus 10 (skin at 45) or 5 (at 42),
/// plus 8 (battery at 45) or 4 (at 42), plus 3 when cooling slowly, plus 3
/// above 80% memory pressure (given in hundredths of a percent).
pub open spec fn comfort_weight_spec(skin: i32, bat: i32, slow: bool, mem_pressure: i64) -> i64 {
    (500 + (if skin >= 45 {
        1000int
    } else if skin >= 42 {
        500int
    } else {
        0int
    }) + (if bat >= 45 {
        800int
    } else if bat >= 42 {
        400int
    } else {
        0int
    }) + (if slow {
        300int
    } else {
        0int
    }) + (if mem_pressure > 8000 {
        300int
    } else {
        0int
    })) as i64
}

pub fn compute_comfort_weight(skin_temp: i32, bat_temp: i32, is_cooling_slowly: bool, mem_pressure: i64) -> (r:
    i64)
    ensures
        r == comfort_weight_spec(skin_temp, bat_temp, is_cooling_slowly, mem_pressure),
{
    let mut base: i64 = 500;
    if skin_temp >= 45 {
        base = base + 1000;
    } else if skin_temp >= 42 {
        base = base + 500;
    }
    if bat_temp >= 45 {
        base = base + 800;
    } else if bat_temp >= 42 {
        base = base + 400;
    }
    if is_cooling_slowly {
        base = base + 300;
    }
    if mem_pressure > 8000 {
        base = base + 300;
    }
    base
}

/// What the game modifier depends on besides the detector.
#[derive(Debug, Clone, Copy, PartialEq, Eq)]
pub struct GameContext {
    pub is_gaming: bool,
    /// The frame-stutter check fired.
    pub stutter: bool,
    /// The game's profile, when it has one: whether it is known to run hot.
    pub known_hot: Option<bool>,
    pub is_screen_off: bool,
    /// Seconds since the game session started.
    pub active_secs: u64,
    /// The policy in force.
    pub current_policy: Option<PolicyState>,
}

/// The game modifier in hundredths: zero without a game; -15 for stutter;
/// for a profiled game -12 when known hot, plus a tenth of the foreground
/// priority, and after each further half hour of play -5, with -5 more
/// under `EmergencyCool` or `Powersave` and +5 under `Performance`.
pub open spec fn game_modifier_spec(c: GameContext, fg_priority: i32) -> int {
    if !c.is_gaming {
        0
    } else {
        (if c.stutter {
            -1500int
        } else {
            0int
        }) + match c.known_hot {
            None => 0int,
            Some(hot) => (if hot {
                -1200int
            } else {
                0int
            }) + fg_priority * 10 + (if c.active_secs >= 1800 {
                -(((c.active_secs / 1800) - 1) * 500) + match c.current_policy {
                    Some(PolicyState::EmergencyCool) | Some(PolicyState::Powersave) => -500int,
                    Some(PolicyState::Performance) => 500int,
                    _ => 0int,
                }
            } else {
                0int
            }),
        }
    }
}

pub fn compute_game_modifier(ctx: &GameContext, detector: &crate::gaming::GameDetector) -> (r: i64)
    ensures
        r == game_modifier_spec(
            *ctx,
            crate::gaming::foreground_priority_spec(
                detector.is_gaming,
                match ctx.known_hot {
                    Some(h) => h,
                    None => false,
                },
                ctx.is_screen_off,
            ),
        ),
{
    if !ctx.is_gaming {
        return 0;
    }
    let mut m: i64 = 0;
    if ctx.stutter {
        m = m - 1500;
    }
    match ctx.known_hot {
        Some(hot) => {
            if hot {
                m = m - 1200;
            }
            let fg = detector.foreground_priority(hot, ctx.is_screen_off);
            m = m + fg as i64 * 10;
            if ctx.active_secs >= 1800 {
                let halves: u64 = ctx.active_secs / 1800 - 1;
                m = m - halves as i64 * 500;
                match ctx.current_policy {
                    Some(PolicyState::EmergencyCool) | Some(PolicyState::Powersave) => {
                        m = m - 500;
                    },
                    Some(PolicyState::Performance) => {
                        m = m + 500;
                    },
                    _ => {},
                }
            }
        },
        None => {},
    }
    m
}

/// The name of a policy.
pub open spec fn policy_name_spec(policy: PolicyState) -> Seq<char> {
    match policy {
        PolicyState::Performance => "Performance"@,
        PolicyState::Balanced => "Balanced"@,
        PolicyState::Conservative => "Conservative"@,
        PolicyState::Powersave => "Powersave"@,
        PolicyState::EmergencyCool => "EmergencyCool"@,
        PolicyState::Suspend => "Suspend"@,
    }
}

/// The name of a policy.
pub fn policy_state_name(policy: &PolicyState) -> (r: &'static str)
    ensures
        r@ == policy_name_spec(*policy),
{
    match policy {
        PolicyState::Performance => "Performance",
        PolicyState::Balanced => "Balanced",
        PolicyState::Conservative => "Conservative",
        PolicyState::Powersave => "Powersave",
        PolicyState::EmergencyCool => "EmergencyCool",
        PolicyState::Suspend => "Suspend",
    }
}

/// Whether a battery `status` reads as plugged in: it mentions `Charging`,
/// `Full` or `Not charging`.
pub fn plugged_from_status(status: &str) -> (r: bool)
    ensures
        r == (has_infix(status@, "Charging"@) || has_infix(status@, "Full"@) || has_infix(
            status@,
            "Not charging"@,
        )),
{
    crate::text::contains_str(status, "Charging") || crate::text::contains_str(status, "Full")
        || crate::text::contains_str(status, "Not charging")
}


/// A heating trend speeds the loop up only once it has held for two ticks:
/// without a hot trend on the previous tick the sleep is at least 1500 ms
/// or else the plain poll interval (the game poll interval while gaming,
/// the poll interval, or four times it with the screen off, otherwise);
/// the fast 500, 750 and 1000 ms paces need the hot trend on both ticks.
pub proof fn law_fast_pace_needs_two_hot_ticks(i: SleepInputs)
    requires
        !i.prev_hot_trend,
    ensures
        ({
            let sleep = sleep_spec(i).sleep_ms;
            ||| sleep >= 1500
            ||| i.is_gaming && sleep == sat_mul(i.game_poll_interval_secs, 1000)
            ||| !i.is_gaming && sleep == sat_mul(i.poll_interval_secs, 1000)
            ||| !i.is_gaming && sleep == sat_mul(i.poll_interval_secs, 4000)
        }),
{
}

/// With the hot trend held over two ticks, a game under heavy GPU load runs
/// the loop at 500 ms, and any other game at 1000 ms; off-game the loop runs
/// at 750 ms.
pub proof fn law_sustained_heat_paces(i: SleepInputs)
    requires
        i.prev_hot_trend,
        i.trend_score * 50 > 30,
    ensures
        i.is_gaming && i.gpu_load > 60 ==> sleep_spec(i).sleep_ms == 500,
        i.is_gaming && i.gpu_load <= 60 ==> sleep_spec(i).sleep_ms == 1000,
        !i.is_gaming ==> sleep_spec(i).sleep_ms == 750,
{
}
} // verus!

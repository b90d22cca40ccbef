//! The thermal policy engine: from temperatures, trend and context it scores
//! the thermal pressure and picks a policy, with an immediate path for
//! emergencies, a startup grace period, debounce and hysteresis.
//!
//! Scores are fixed-point numbers in hundredths of a point (a score of
//! `65.0` is `6500`), so every comparison is exact; pressures are hundredths
//! of a percent; times are milliseconds on a monotonic clock.
use vstd::prelude::*;
use std::collections::VecDeque;
use crate::config::ProfilesConfig;

verus! {

#[derive(Debug, Clone, Copy, PartialEq, Eq, Structural)]
pub enum PolicyState {
    Performance,
    Balanced,
    Conservative,
    Powersave,
    EmergencyCool,
    Suspend,
}

pub open spec fn rank_of(p: PolicyState) -> u8 {
    match p {
        PolicyState::Performance => 0,
        PolicyState::Balanced => 1,
        PolicyState::Conservative => 2,
        PolicyState::Powersave => 3,
        PolicyState::Suspend => 4,
        PolicyState::EmergencyCool => 5,
    }
}

/// How conservative a policy is, from `Performance` (0) to `EmergencyCool` (5).
pub fn policy_rank(policy: &PolicyState) -> (r: u8)
    ensures
        r == rank_of(*policy),
{
    match policy {
        PolicyState::Performance => 0,
        PolicyState::Balanced => 1,
        PolicyState::Conservative => 2,
        PolicyState::Powersave => 3,
        PolicyState::Suspend => 4,
        PolicyState::EmergencyCool => 5,
    }
}

pub open spec fn threshold_spec(rank: u8) -> Option<i64> {
    if rank == 1 {
        Some(1500)
    } else if rank == 2 {
        Some(4000)
    } else if rank == 3 {
        Some(6500)
    } else {
        None
    }
}

/// The score above which a policy of the given rank is entered; `None` for
/// the ranks that have no finite threshold (`Performance` below every
/// score, `Suspend` and `EmergencyCool` above every score).
pub fn threshold_for_rank(rank: u8) -> (r: Option<i64>)
    ensures
        r == threshold_spec(rank),
{
    match rank {
        1 => Some(1500),
        2 => Some(4000),
        3 => Some(6500),
        _ => None,
    }
}

/// Score margin that a relaxing transition must clear.
pub const HYSTERESIS_MARGIN: i64 = 800;
/// How many trend samples are averaged.
pub const TREND_WINDOW: usize = 5;
/// Seconds after start during which ordinary transitions hold `Balanced`.
pub const STARTUP_GRACE_SECS: u64 = 30;

pub open spec fn seq_sum(s: Seq<i32>) -> int
    decreases s.len(),
{
    if s.len() == 0 {
        0
    } else {
        seq_sum(s.drop_last()) + s.last()
    }
}

/// `x / d` rounded to the nearest integer, halves away from zero, as
/// `f64::round` does.
pub open spec fn round_div(x: int, d: int) -> int {
    if x >= 0 {
        (2 * x + d) / (2 * d)
    } else {
        -((-2 * x + d) / (2 * d))
    }
}

pub open spec fn max0(x: int) -> int {
    if x < 0 {
        0
    } else {
        x
    }
}

pub open spec fn clamp10(x: int) -> int {
    if x < -10 {
        -10
    } else if x > 10 {
        10
    } else {
        x
    }
}

/// What the caller measures for one evaluation; the weights are scores in
/// hundredths, the pressures hundredths of a percent.
#[derive(Debug, Clone, Copy, PartialEq, Eq)]
pub struct PolicyInputs {
    pub composite_temp: i32,
    pub predicted_temp: i32,
    pub trend_score: i32,
    pub is_gaming: bool,
    pub is_screen_off: bool,
    pub context_weight: i64,
    pub game_modifier: i64,
    pub comfort_weight: i64,
    pub cpu_pressure: i64,
    pub io_pressure: i64,
}

/// The pressure score in hundredths: temperature above `temp_cool` (twice),
/// the prediction above it (one and a half times), the gaming boost, the
/// clamped smoothed trend (two and a half times), the caller's weights, the
/// pressure dampener and the guard for ordinary use.
pub open spec fn total_score(inp: PolicyInputs, cfg: ProfilesConfig, smoothed: int) -> int {
    let s_temp = max0(inp.composite_temp - cfg.temp_cool) * 200;
    let s_pred = max0(inp.predicted_temp - cfg.temp_cool) * 150;
    let s_game: int = if inp.is_gaming {
        -(cfg.gaming_score_boost * 100)
    } else {
        0
    };
    let s_trend = clamp10(smoothed) * 250;
    let psi: int = if inp.cpu_pressure < 500 && inp.io_pressure < 500 {
        -400
    } else if (inp.cpu_pressure > 5000 || inp.io_pressure > 3000) && inp.composite_temp
        >= cfg.temp_warm {
        300
    } else {
        0
    };
    let guard: int = if !inp.is_gaming && !inp.is_screen_off {
        if inp.composite_temp >= cfg.temp_hot - 2 || smoothed > 18 {
            1200
        } else if inp.composite_temp >= cfg.temp_warm && smoothed > 9 {
            600
        } else {
            0
        }
    } else {
        0
    };
    s_temp + s_pred + s_game + s_trend + inp.context_weight + inp.game_modifier
        + inp.comfort_weight + psi + guard
}

/// The policy that the score alone asks for.
pub open spec fn tentative_policy(
    inp: PolicyInputs,
    cfg: ProfilesConfig,
    score: int,
    secs_since_change: int,
) -> PolicyState {
    if inp.composite_temp >= cfg.temp_critical || inp.predicted_temp >= cfg.temp_critical || score
        > 9000 {
        PolicyState::EmergencyCool
    } else if inp.is_screen_off && !inp.is_gaming && score < -500 && secs_since_change > 10 {
        PolicyState::Suspend
    } else if score > 6500 {
        PolicyState::Powersave
    } else if score > 4000 {
        PolicyState::Conservative
    } else if score > 1500 {
        PolicyState::Balanced
    } else if inp.is_gaming {
        PolicyState::Performance
    } else {
        PolicyState::Balanced
    }
}

pub open spec fn is_heavy(p: PolicyState) -> bool {
    p == PolicyState::Powersave || p == PolicyState::EmergencyCool || p == PolicyState::Suspend
}

/// Whether hysteresis lets an ordinary transition from `current` to
/// `desired` happen at this score.
pub open spec fn transition_allowed(desired: PolicyState, current: PolicyState, score: int) -> bool {
    let dr = rank_of(desired);
    let cr = rank_of(current);
    if dr > cr {
        match threshold_spec(dr) {
            Some(t) => score > t + HYSTERESIS_MARGIN / 2,
            None => false,
        }
    } else if dr < cr {
        match threshold_spec(cr) {
            Some(t) => score < t - HYSTERESIS_MARGIN,
            None => true,
        }
    } else {
        true
    }
}

/// Milliseconds from `since` to `now`, zero when `now` is earlier.
pub open spec fn elapsed_ms(since: u64, now: u64) -> int {
    if now >= since {
        now - since
    } else {
        0
    }
}

pub struct PolicyEngine {
    pub current_policy: PolicyState,
    /// Minimum time between two ordinary transitions.
    pub debounce_ms: u64,
    /// When the policy last changed.
    pub last_change_at_ms: u64,
    pub powersave_arm_count: u8,
    pub startup_time_ms: u64,
    pub startup_grace_secs: u64,
    /// The score of the last evaluation, in hundredths.
    pub last_total_score: i128,
    /// The last trend samples, oldest first.
    pub trend_history: VecDeque<i32>,
}

impl PolicyEngine {
    /// The policy in force and the time of the last change after a request
    /// for `desired` at the given score and time.
    pub open spec fn transition(&self, desired: PolicyState, score: int, now_ms: u64) -> (
        PolicyState,
        u64,
    ) {
        if desired == PolicyState::EmergencyCool || desired == PolicyState::Suspend {
            (
                desired,
                if self.current_policy != desired {
                    now_ms
                } else {
                    self.last_change_at_ms
                },
            )
        } else if elapsed_ms(self.startup_time_ms, now_ms) / 1000 < self.startup_grace_secs {
            (PolicyState::Balanced, self.last_change_at_ms)
        } else if desired != self.current_policy && elapsed_ms(self.last_change_at_ms, now_ms)
            >= self.debounce_ms && transition_allowed(desired, self.current_policy, score) {
            (desired, now_ms)
        } else {
            (self.current_policy, self.last_change_at_ms)
        }
    }

    /// One evaluation before the transition: the new trend window, the
    /// score, the policy to request and the new arm count.
    pub open spec fn evaluation(&self, inp: PolicyInputs, cfg: ProfilesConfig, now_ms: u64) -> (
        Seq<i32>,
        int,
        PolicyState,
        u8,
    ) {
        let hist = next_history(self.trend_history@, inp.trend_score);
        let smoothed = round_div(seq_sum(hist), hist.len() as int);
        let score = total_score(inp, cfg, smoothed);
        let tentative = tentative_policy(
            inp,
            cfg,
            score,
            elapsed_ms(self.last_change_at_ms, now_ms) / 1000,
        );
        let (desired, arm) = arm_powersave(
            tentative,
            self.current_policy,
            inp.composite_temp >= cfg.temp_powersave,
            self.powersave_arm_count,
        );
        (hist, score, desired, arm)
    }

    /// The policy in force after one evaluation.
    pub open spec fn evaluated_policy(&self, inp: PolicyInputs, cfg: ProfilesConfig, now_ms: u64) -> PolicyState {
        let (hist, score, desired, arm) = self.evaluation(inp, cfg, now_ms);
        self.transition(desired, score, now_ms).0
    }

    pub open spec fn wf(&self) -> bool {
        self.trend_history.len() <= TREND_WINDOW
    }

    /// A fresh engine at `Balanced`, started at `now_ms`; the debounce is at
    /// least one second.
    pub fn new(debounce_sec: u64, _poll_interval_sec: u64, now_ms: u64) -> (r: Self)
        ensures
            r.wf(),
            r.current_policy == PolicyState::Balanced,
            r.debounce_ms == (if debounce_sec < 1 {
                1000
            } else if debounce_sec * 1000 > u64::MAX {
                u64::MAX as int
            } else {
                debounce_sec * 1000
            }),
            r.last_change_at_ms == now_ms,
            r.startup_time_ms == now_ms,
            r.startup_grace_secs == STARTUP_GRACE_SECS,
            r.powersave_arm_count == 0,
            r.last_total_score == 0,
            r.trend_history@.len() == 0,
    {
        let secs = if debounce_sec < 1 {
            1
        } else {
            debounce_sec
        };
        PolicyEngine {
            current_policy: PolicyState::Balanced,
            debounce_ms: if secs > u64::MAX / 1000 {
                u64::MAX
            } else {
                secs * 1000
            },
            last_change_at_ms: now_ms,
            powersave_arm_count: 0,
            startup_time_ms: now_ms,
            startup_grace_secs: STARTUP_GRACE_SECS,
            last_total_score: 0,
            trend_history: VecDeque::new(),
        }
    }

    /// The score of the last evaluation, in hundredths.
    pub fn last_score(&self) -> (r: i128)
        ensures
            r == self.last_total_score,
    {
        self.last_total_score
    }

    /// Moves towards `desired`: `EmergencyCool` and `Suspend` are taken at
    /// once; during the startup grace period every other request holds
    /// `Balanced`; otherwise a change needs the debounce time to have passed
    /// since the last change and the score to clear the hysteresis margin.
    /// Returns the policy now in force.
    pub fn apply_transition(&mut self, desired: PolicyState, total_score: i128, now_ms: u64) -> (r:
        PolicyState)
        ensures
            r == final(self).current_policy,
            final(self).last_total_score == total_score,
            final(self).trend_history == old(self).trend_history,
            final(self).powersave_arm_count == old(self).powersave_arm_count,
            final(self).debounce_ms == old(self).debounce_ms,
            final(self).startup_time_ms == old(self).startup_time_ms,
            final(self).startup_grace_secs == old(self).startup_grace_secs,
            (r, final(self).last_change_at_ms) == old(self).transition(desired, total_score as int, now_ms),
    {
        self.last_total_score = total_score;
        if desired == PolicyState::EmergencyCool || desired == PolicyState::Suspend {
            if self.current_policy != desired {
                self.current_policy = desired;
                self.last_change_at_ms = now_ms;
            }
            return desired;
        }
        let since_start = now_ms.saturating_sub(self.startup_time_ms) / 1000;
        if since_start < self.startup_grace_secs {
            self.current_policy = PolicyState::Balanced;
            return self.current_policy;
        }
        let since_change = now_ms.saturating_sub(self.last_change_at_ms);
        if desired != self.current_policy && since_change >= self.debounce_ms {
            let desired_rank = policy_rank(&desired);
            let current_rank = policy_rank(&self.current_policy);
            let allowed = if desired_rank > current_rank {
                match threshold_for_rank(desired_rank) {
                    Some(t) => total_score > t as i128 + (HYSTERESIS_MARGIN / 2) as i128,
                    None => false,
                }
            } else if desired_rank < current_rank {
                match threshold_for_rank(current_rank) {
                    Some(t) => total_score < t as i128 - HYSTERESIS_MARGIN as i128,
                    None => true,
                }
            } else {
                true
            };
            if allowed {
                self.current_policy = desired;
                self.last_change_at_ms = now_ms;
            }
        }
        self.current_policy
    }
}

/// The trend window after a new sample: the sample is appended and the
/// oldest dropped once there are more than [`TREND_WINDOW`].
pub open spec fn next_history(h: Seq<i32>, sample: i32) -> Seq<i32> {
    if h.push(sample).len() > TREND_WINDOW {
        h.push(sample).drop_first()
    } else {
        h.push(sample)
    }
}

/// The step that arms `Powersave`: entered at once from a lighter policy
/// only when the temperature is at `temp_powersave`; otherwise only on the
/// second consecutive request, with `Conservative` in between. Returns the
/// policy to request and the new arm count.
pub open spec fn arm_powersave(
    tentative: PolicyState,
    current: PolicyState,
    hot_enough: bool,
    arm: u8,
) -> (PolicyState, u8) {
    if tentative == PolicyState::Powersave && !is_heavy(current) {
        if hot_enough {
            (PolicyState::Powersave, 0)
        } else {
            let a: u8 = if arm == u8::MAX {
                u8::MAX
            } else {
                (arm + 1) as u8
            };
            if a >= 2 {
                (PolicyState::Powersave, 0)
            } else {
                (PolicyState::Conservative, a)
            }
        }
    } else {
        (tentative, if tentative != PolicyState::Powersave { 0 } else { arm })
    }
}

fn sum_history(h: &VecDeque<i32>) -> (r: i64)
    requires
        h.len() <= TREND_WINDOW,
    ensures
        r == seq_sum(h@),
        -(h.len() as int) * 0x8000_0000 <= r <= (h.len() as int) * 0x7FFF_FFFF,
{
    let mut total: i64 = 0;
    let mut i: usize = 0;
    while i < h.len()
        invariant
            0 <= i <= h.len() <= TREND_WINDOW,
            total == seq_sum(h@.take(i as int)),
            -(i as int) * 0x8000_0000 <= total <= (i as int) * 0x7FFF_FFFF,
        decreases h.len() - i,
    {
        assert(h@.take(i + 1).drop_last() =~= h@.take(i as int));
        total = total + h[i] as i64;
        i = i + 1;
    }
    assert(h@.take(h.len() as int) =~= h@);
    total
}

/// `x / d` rounded half away from zero.
fn round_div_exec(x: i64, d: i64) -> (r: i64)
    requires
        1 <= d <= 5,
        -0x10_0000_0000 <= x <= 0x10_0000_0000,
    ensures
        r == round_div(x as int, d as int),
{
    if x >= 0 {
        (2 * x + d) / (2 * d)
    } else {
        let n: i64 = -x;
        let q: i64 = (2 * n + d) / (2 * d);
        assert(0 <= q <= 2 * n + d) by (nonlinear_arith)
            requires
                q == (2 * n + d) / (2 * d),
                n > 0,
                d >= 1,
        ;
        -q
    }
}

/// The pressure score, as [`total_score`] defines it.
fn score_exec(inp: &PolicyInputs, config: &ProfilesConfig, smoothed: i64) -> (r: i128)
    requires
        -0x10_0000_0000 <= smoothed <= 0x10_0000_0000,
    ensures
        r == total_score(*inp, *config, smoothed as int),
{
    let cool = config.temp_cool as i64;
    let d_temp = inp.composite_temp as i64 - cool;
    let s_temp: i128 = if d_temp < 0 { 0 } else { d_temp as i128 * 200 };
    let d_pred = inp.predicted_temp as i64 - cool;
    let s_pred: i128 = if d_pred < 0 { 0 } else { d_pred as i128 * 150 };
    let s_game: i128 = if inp.is_gaming {
        -(config.gaming_score_boost as i128 * 100)
    } else {
        0
    };
    let clamped: i64 = if smoothed < -10 {
        -10
    } else if smoothed > 10 {
        10
    } else {
        smoothed
    };
    let s_trend = clamped as i128 * 250;
    let psi: i128 = if inp.cpu_pressure < 500 && inp.io_pressure < 500 {
        -400
    } else if (inp.cpu_pressure > 5000 || inp.io_pressure > 3000) && inp.composite_temp
        >= config.temp_warm {
        300
    } else {
        0
    };
    let mut guard: i128 = 0;
    if !inp.is_gaming && !inp.is_screen_off {
        if inp.composite_temp as i64 >= config.temp_hot as i64 - 2 || smoothed > 18 {
            guard = 1200;
        } else if inp.composite_temp >= config.temp_warm && smoothed > 9 {
            guard = 600;
        }
    }
    s_temp + s_pred + s_game + s_trend + inp.context_weight as i128 + inp.game_modifier as i128
        + inp.comfort_weight as i128 + psi + guard
}

/// The policy that the score asks for, as [`tentative_policy`] defines it.
fn tentative_exec(inp: &PolicyInputs, config: &ProfilesConfig, total: i128, secs_since_change: u64) -> (r: PolicyState)
    ensures
        r == tentative_policy(*inp, *config, total as int, secs_since_change as int),
{
    if inp.composite_temp >= config.temp_critical || inp.predicted_temp >= config.temp_critical
        || total > 9000 {
        PolicyState::EmergencyCool
    } else if inp.is_screen_off && !inp.is_gaming && total < -500 && secs_since_change > 10 {
        PolicyState::Suspend
    } else if total > 6500 {
        PolicyState::Powersave
    } else if total > 4000 {
        PolicyState::Conservative
    } else if total > 1500 {
        PolicyState::Balanced
    } else if inp.is_gaming {
        PolicyState::Performance
    } else {
        PolicyState::Balanced
    }
}

impl PolicyEngine {
    /// Applies [`arm_powersave`] to the engine's arm counter and returns the
    /// policy to request.
    fn arm_step(&mut self, tentative: PolicyState, hot_enough: bool) -> (r: PolicyState)
        ensures
            (r, final(self).powersave_arm_count) == arm_powersave(
                tentative,
                old(self).current_policy,
                hot_enough,
                old(self).powersave_arm_count,
            ),
            final(self).current_policy == old(self).current_policy,
            final(self).debounce_ms == old(self).debounce_ms,
            final(self).last_change_at_ms == old(self).last_change_at_ms,
            final(self).startup_time_ms == old(self).startup_time_ms,
            final(self).startup_grace_secs == old(self).startup_grace_secs,
            final(self).last_total_score == old(self).last_total_score,
            final(self).trend_history == old(self).trend_history,
    {
        let current = self.current_policy;
        if tentative == PolicyState::Powersave && !(current == PolicyState::Powersave || current
            == PolicyState::EmergencyCool || current == PolicyState::Suspend) {
            if hot_enough {
                self.powersave_arm_count = 0;
                PolicyState::Powersave
            } else {
                if self.powersave_arm_count < u8::MAX {
                    self.powersave_arm_count = self.powersave_arm_count + 1;
                }
                if self.powersave_arm_count >= 2 {
                    self.powersave_arm_count = 0;
                    PolicyState::Powersave
                } else {
                    PolicyState::Conservative
                }
            }
        } else {
            if tentative != PolicyState::Powersave {
                self.powersave_arm_count = 0;
            }
            tentative
        }
    }
}

impl PolicyEngine {
    /// Evaluates the inputs and moves the policy: the trend is smoothed over
    /// the last five samples, the pressure score computed, the policy that
    /// the score asks for armed towards `Powersave` and handed to
    /// [`PolicyEngine::apply_transition`]. No side effect beyond the engine.
    pub fn evaluate(&mut self, inp: &PolicyInputs, config: &ProfilesConfig, now_ms: u64) -> (r:
        PolicyState)
        requires
            old(self).wf(),
        ensures
            final(self).wf(),
            r == final(self).current_policy,
            ({
                let (hist, score, desired, arm) = old(self).evaluation(*inp, *config, now_ms);
                &&& final(self).trend_history@ == hist
                &&& final(self).powersave_arm_count == arm
                &&& final(self).last_total_score == score
                &&& (r, final(self).last_change_at_ms) == old(self).transition(desired, score, now_ms)
                &&& final(self).debounce_ms == old(self).debounce_ms
                &&& final(self).startup_time_ms == old(self).startup_time_ms
                &&& final(self).startup_grace_secs == old(self).startup_grace_secs
            }),
    {
        let ghost old_hist = self.trend_history@;
        self.trend_history.push_back(inp.trend_score);
        if self.trend_history.len() > TREND_WINDOW {
            self.trend_history.pop_front();
        }
        assert(self.trend_history@ =~= next_history(old_hist, inp.trend_score));
        assert(1 <= self.trend_history.len() <= TREND_WINDOW);
        let sum = sum_history(&self.trend_history);
        let len = self.trend_history.len() as i64;
        let smoothed = round_div_exec(sum, len);
        let total = score_exec(inp, config, smoothed);
        let secs_since_change = now_ms.saturating_sub(self.last_change_at_ms) / 1000;
        let tentative = tentative_exec(inp, config, total, secs_since_change);
        let next_state = self.arm_step(tentative, inp.composite_temp >= config.temp_powersave);
        self.apply_transition(next_state, total, now_ms)
    }
}

/// A temperature or prediction at `temp_critical` puts the engine into
/// `EmergencyCool` at once, whatever the state, score, grace period or
/// debounce.
pub proof fn law_critical_is_immediate_emergency(
    e: PolicyEngine,
    inp: PolicyInputs,
    cfg: ProfilesConfig,
    now_ms: u64,
)
    requires
        inp.composite_temp >= cfg.temp_critical || inp.predicted_temp >= cfg.temp_critical,
    ensures
        e.evaluated_policy(inp, cfg, now_ms) == PolicyState::EmergencyCool,
{
}

/// During the startup grace period every evaluation that does not ask for
/// `EmergencyCool` or `Suspend` holds `Balanced`.
pub proof fn law_startup_grace_holds_balanced(
    e: PolicyEngine,
    inp: PolicyInputs,
    cfg: ProfilesConfig,
    now_ms: u64,
)
    requires
        elapsed_ms(e.startup_time_ms, now_ms) / 1000 < e.startup_grace_secs,
    ensures
        ({
            let p = e.evaluated_policy(inp, cfg, now_ms);
            p == PolicyState::Balanced || p == PolicyState::EmergencyCool || p
                == PolicyState::Suspend
        }),
{
}

/// After the grace period, within the debounce time of the last change only
/// `EmergencyCool` and `Suspend` can replace the policy in force.
pub proof fn law_debounce_holds_policy(
    e: PolicyEngine,
    inp: PolicyInputs,
    cfg: ProfilesConfig,
    now_ms: u64,
)
    requires
        elapsed_ms(e.startup_time_ms, now_ms) / 1000 >= e.startup_grace_secs,
        elapsed_ms(e.last_change_at_ms, now_ms) < e.debounce_ms,
    ensures
        ({
            let p = e.evaluated_policy(inp, cfg, now_ms);
            p == e.current_policy || p == PolicyState::EmergencyCool || p == PolicyState::Suspend
        }),
{
}

/// Below `temp_powersave`, a single request does not take a lighter policy to
/// `Powersave`: with the arm counter clear, the first request yields at most
/// `Conservative`.
pub proof fn law_powersave_needs_sustained_pressure(
    e: PolicyEngine,
    inp: PolicyInputs,
    cfg: ProfilesConfig,
    now_ms: u64,
)
    requires
        !is_heavy(e.current_policy),
        e.powersave_arm_count == 0,
        inp.composite_temp < cfg.temp_powersave,
    ensures
        e.evaluated_policy(inp, cfg, now_ms) != PolicyState::Powersave,
{
}

/// A transition takes the requested policy, keeps the one in force, or holds
/// `Balanced`; `EmergencyCool` and `Suspend` are always taken.
pub proof fn law_transition_outcomes(
    e: PolicyEngine,
    desired: PolicyState,
    score: int,
    now_ms: u64,
)
    ensures
        desired == PolicyState::EmergencyCool || desired == PolicyState::Suspend ==> e.transition(
            desired,
            score,
            now_ms,
        ).0 == desired,
        e.transition(desired, score, now_ms).0 == desired || e.transition(desired, score, now_ms).0
            == e.current_policy || e.transition(desired, score, now_ms).0
            == PolicyState::Balanced,
{
}


/// Rounding to the nearest integer keeps the order of the numerators.
proof fn lemma_round_div_monotone(x1: int, x2: int, d: int)
    requires
        x1 <= x2,
        d > 0,
    ensures
        round_div(x1, d) <= round_div(x2, d),
{
    if x1 >= 0 {
        vstd::arithmetic::div_mod::lemma_div_is_ordered(2 * x1 + d, 2 * x2 + d, 2 * d);
    } else if x2 < 0 {
        vstd::arithmetic::div_mod::lemma_div_is_ordered(-2 * x2 + d, -2 * x1 + d, 2 * d);
    } else {
        vstd::arithmetic::div_mod::lemma_div_pos_is_pos(-2 * x1 + d, 2 * d);
        vstd::arithmetic::div_mod::lemma_div_pos_is_pos(2 * x2 + d, 2 * d);
    }
}

/// A larger smoothed trend never lowers the score.
proof fn lemma_score_monotone_in_trend(inp: PolicyInputs, cfg: ProfilesConfig, s1: int, s2: int)
    requires
        s1 <= s2,
    ensures
        total_score(inp, cfg, s1) <= total_score(inp, cfg, s2),
{
}

/// The window before the newest sample is appended.
spec fn history_base(h: Seq<i32>) -> Seq<i32> {
    if h.len() + 1 > TREND_WINDOW {
        h.drop_first()
    } else {
        h
    }
}

proof fn lemma_next_history_appends(h: Seq<i32>, t: i32)
    ensures
        next_history(h, t) == history_base(h).push(t),
        seq_sum(next_history(h, t)) == seq_sum(history_base(h)) + t,
{
    if h.len() + 1 > TREND_WINDOW {
        assert(h.push(t).drop_first() =~= h.drop_first().push(t));
    }
    assert(history_base(h).push(t).drop_last() =~= history_base(h));
}

/// A hotter trend sample never lowers the score of an evaluation: with every
/// other input the same, a larger `trend_score` gives a score at least as
/// high.
pub proof fn law_heating_trend_never_lowers_score(
    e: PolicyEngine,
    inp: PolicyInputs,
    cfg: ProfilesConfig,
    now_ms: u64,
    hotter: i32,
)
    requires
        inp.trend_score <= hotter,
    ensures
        e.evaluation(inp, cfg, now_ms).1 <= e.evaluation(
            PolicyInputs { trend_score: hotter, ..inp },
            cfg,
            now_ms,
        ).1,
{
    let h = e.trend_history@;
    let inp2 = PolicyInputs { trend_score: hotter, ..inp };
    lemma_next_history_appends(h, inp.trend_score);
    lemma_next_history_appends(h, hotter);
    let n: int = history_base(h).len() as int + 1;
    lemma_round_div_monotone(
        seq_sum(history_base(h)) + inp.trend_score,
        seq_sum(history_base(h)) + hotter,
        n,
    );
    let s1 = round_div(seq_sum(next_history(h, inp.trend_score)), n);
    let s2 = round_div(seq_sum(next_history(h, hotter)), n);
    lemma_score_monotone_in_trend(inp, cfg, s1, s2);
    assert(total_score(inp, cfg, s2) == total_score(inp2, cfg, s2));
}

/// Each point of smoothed trend between -10 and 9 weighs 250 in the score:
/// heating raises it, cooling lowers it, by exactly that much a point.
pub proof fn law_trend_weighs_250_a_point(inp: PolicyInputs, cfg: ProfilesConfig, s1: int, s2: int)
    requires
        -10 <= s1 <= s2 <= 9,
    ensures
        total_score(inp, cfg, s2) - total_score(inp, cfg, s1) == 250 * (s2 - s1),
        total_score(inp, cfg, s2) - total_score(inp, cfg, 0) == 250 * s2,
{
}

} // verus!

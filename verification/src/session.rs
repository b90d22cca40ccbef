//! What the orchestrator remembers from one tick to the next: the screen
//! and wake state, the game session with its peak temperature, the
//! post-game cooldown, and which policy was settled and actually applied.
//! Each step takes what the tick observed and says what to do; the daemon
//! loop carries it out.
use vstd::prelude::*;
use crate::charging::str_eq;
use crate::orchestrator::{sat_mul, sat_mul_exec, throttle_spec};
use crate::orchestrator::{actuation_allowed, check_throttle_limit};
use crate::actuation::{can_actuate, cooldown_holds};
use crate::policy::PolicyState;

verus! {

/// How long actuation waits after the screen wakes, in milliseconds.
pub const WAKE_DEFER_MS: u64 = 800;

/// A wake after at least this long with the screen off, in milliseconds,
/// counts as a long sleep.
pub const LONG_SLEEP_MS: u64 = 10_000;

/// How long after a session starts a `Performance` burst waits, in
/// milliseconds.
pub const GAME_GRACE_MS: u64 = 2000;

/// The longest sleep right after a wake, in milliseconds.
pub const WAKE_SLEEP_CAP_MS: u64 = 400;

#[derive(Debug, Clone)]
pub struct TickState {
    pub was_gaming: bool,
    pub session_started_ms: Option<u64>,
    pub session_peak: i32,
    pub last_session_peak: i32,
    pub cooldown_until_ms: Option<u64>,
    pub cooldown_source: Option<String>,
    pub current_policy: Option<PolicyState>,
    pub last_applied: Option<PolicyState>,
    pub last_actuation_ms: Option<u64>,
    pub wake_defer_until_ms: Option<u64>,
    pub screen_off_since_ms: Option<u64>,
}

/// What the screen did since the last tick.
#[derive(Debug, Clone, Copy, PartialEq, Eq)]
pub struct ScreenChange {
    /// The screen was off and is on now.
    pub just_woke: bool,
    /// It woke after at least `LONG_SLEEP_MS` off.
    pub long_sleep: bool,
    /// The screen was on and is off now.
    pub went_off: bool,
}

/// What the game state did since the last tick.
#[derive(Debug, Clone, Copy, PartialEq, Eq, Structural)]
pub enum SessionChange {
    Idle,
    Started,
    Ongoing,
    Ended,
}

/// The post-game cooldown as of this tick.
#[derive(Debug, Clone, Copy, PartialEq, Eq)]
pub struct CooldownOutcome {
    /// The cooldown holds the `Conservative` floor this tick.
    pub active: bool,
    /// The cooldown ran out this tick: time to judge how the device cooled.
    pub expired: bool,
}

/// What this tick may do about the settled policy.
#[derive(Debug, Clone, Copy, PartialEq, Eq)]
pub struct ActuationPlan {
    /// The policy differs from the one settled or the one last applied.
    pub needs_apply: bool,
    /// The throttle, the wake deferral or the policy's urgency let it act.
    pub can_actuate: bool,
    /// Write the governors, the GPU level and the cpuset now.
    pub apply_governors: bool,
    /// Run the runtime tuning for the policy now.
    pub apply_tuning: bool,
    /// Settle the stock thermal service and the page cache.
    pub housekeeping: bool,
}

pub open spec fn elapsed_ms(at: u64, now: u64) -> int {
    if now >= at {
        now - at
    } else {
        0
    }
}

pub open spec fn sat_add_spec(a: u64, b: u64) -> u64 {
    if a + b > u64::MAX {
        u64::MAX
    } else {
        (a + b) as u64
    }
}

pub open spec fn str_opt_view(s: Option<String>) -> Option<Seq<char>> {
    match s {
        Some(t) => Some(t@),
        None => None,
    }
}

pub open spec fn strref_opt_view(s: Option<&str>) -> Option<Seq<char>> {
    match s {
        Some(t) => Some(t@),
        None => None,
    }
}

/// Whether a `Performance` burst may run: the session, if any, is at least
/// `GAME_GRACE_MS` old.
pub open spec fn grace_elapsed_spec(started: Option<u64>, now: u64) -> bool {
    match started {
        Some(s) => elapsed_ms(s, now) >= GAME_GRACE_MS,
        None => true,
    }
}

pub open spec fn plan_spec(
    s: TickState,
    policy: PolicyState,
    now: u64,
    min_interval_ms: u64,
    is_gaming: bool,
    disable_tweaks: bool,
    recovery_mode: bool,
) -> ActuationPlan {
    let needs = s.current_policy != Some(policy) || s.last_applied != Some(policy);
    let allowed = match s.wake_defer_until_ms {
        Some(d) => now >= d,
        None => true,
    } && throttle_spec(s.last_actuation_ms, now, min_interval_ms, is_gaming);
    let bypass = throttle_spec(s.last_actuation_ms, now, min_interval_ms, is_gaming);
    let can = allowed || policy == PolicyState::EmergencyCool || policy == PolicyState::Suspend
        || recovery_mode || (policy != PolicyState::Suspend && s.current_policy == Some(
        PolicyState::Suspend,
    ) && bypass);
    ActuationPlan {
        needs_apply: needs,
        can_actuate: can,
        apply_governors: !disable_tweaks && needs && can && (policy != PolicyState::Performance
            || grace_elapsed_spec(s.session_started_ms, now)),
        apply_tuning: !disable_tweaks && needs && can,
        housekeeping: !disable_tweaks && needs,
    }
}

impl TickState {
    /// The state before the first tick: no game, no policy, nothing applied.
    pub fn new() -> (r: Self)
        ensures
            !r.was_gaming,
            r.session_started_ms.is_none(),
            r.session_peak == 0,
            r.last_session_peak == 0,
            r.cooldown_until_ms.is_none(),
            r.cooldown_source.is_none(),
            r.current_policy.is_none(),
            r.last_applied.is_none(),
            r.last_actuation_ms.is_none(),
            r.wake_defer_until_ms.is_none(),
            r.screen_off_since_ms.is_none(),
    {
        TickState {
            was_gaming: false,
            session_started_ms: None,
            session_peak: 0,
            last_session_peak: 0,
            cooldown_until_ms: None,
            cooldown_source: None,
            current_policy: None,
            last_applied: None,
            last_actuation_ms: None,
            wake_defer_until_ms: None,
            screen_off_since_ms: None,
        }
    }

    /// Takes in the screen state. A wake (off before, on now) defers
    /// actuation for `WAKE_DEFER_MS`; the screen-off time starts when the
    /// screen goes off and is forgotten when it comes on.
    pub fn observe_screen(&mut self, screen_off: bool, now_ms: u64) -> (r: ScreenChange)
        ensures
            r.just_woke == (old(self).screen_off_since_ms.is_some() && !screen_off),
            r.long_sleep == (r.just_woke && elapsed_ms(old(self).screen_off_since_ms.unwrap(), now_ms)
                >= LONG_SLEEP_MS),
            r.went_off == (screen_off && old(self).screen_off_since_ms.is_none()),
            final(self).wake_defer_until_ms == (if r.just_woke {
                Some(sat_add_spec(now_ms, WAKE_DEFER_MS))
            } else {
                old(self).wake_defer_until_ms
            }),
            final(self).screen_off_since_ms == (if !screen_off {
                None
            } else if old(self).screen_off_since_ms.is_some() {
                old(self).screen_off_since_ms
            } else {
                Some(now_ms)
            }),
            final(self).was_gaming == old(self).was_gaming,
            final(self).session_started_ms == old(self).session_started_ms,
            final(self).session_peak == old(self).session_peak,
            final(self).last_session_peak == old(self).last_session_peak,
            final(self).cooldown_until_ms == old(self).cooldown_until_ms,
            final(self).cooldown_source == old(self).cooldown_source,
            final(self).current_policy == old(self).current_policy,
            final(self).last_applied == old(self).last_applied,
            final(self).last_actuation_ms == old(self).last_actuation_ms,
    {
        let (just_woke, long_sleep) = match self.screen_off_since_ms {
            Some(since) => {
                let woke = !screen_off;
                let long = woke && now_ms >= since && now_ms - since >= LONG_SLEEP_MS;
                (woke, long)
            },
            None => (false, false),
        };
        let went_off = screen_off && self.screen_off_since_ms.is_none();
        if just_woke {
            self.wake_defer_until_ms = Some(now_ms.saturating_add(WAKE_DEFER_MS));
        }
        if !screen_off {
            self.screen_off_since_ms = None;
        } else if self.screen_off_since_ms.is_none() {
            self.screen_off_since_ms = Some(now_ms);
        }
        ScreenChange { just_woke, long_sleep, went_off }
    }

    /// Takes in whether a game runs, and which. A session starts on the
    /// first gaming tick (its start time is now) and ends on the first tick
    /// without. While gaming, a game other than the one the cooldown came
    /// from drops the cooldown.
    pub fn observe_gaming(&mut self, is_gaming: bool, package: Option<&str>, now_ms: u64) -> (r:
        SessionChange)
        ensures
            r == (if is_gaming && !old(self).was_gaming {
                SessionChange::Started
            } else if is_gaming {
                SessionChange::Ongoing
            } else if old(self).was_gaming {
                SessionChange::Ended
            } else {
                SessionChange::Idle
            }),
            final(self).was_gaming == is_gaming,
            final(self).session_started_ms == (if r == SessionChange::Started {
                Some(now_ms)
            } else {
                old(self).session_started_ms
            }),
            is_gaming && str_opt_view(old(self).cooldown_source) != strref_opt_view(package) ==> (
            str_opt_view(final(self).cooldown_source) == strref_opt_view(package)
                && final(self).cooldown_until_ms.is_none()),
            !(is_gaming && str_opt_view(old(self).cooldown_source) != strref_opt_view(package)) ==> (
            final(self).cooldown_source == old(self).cooldown_source
                && final(self).cooldown_until_ms == old(self).cooldown_until_ms),
            final(self).session_peak == old(self).session_peak,
            final(self).last_session_peak == old(self).last_session_peak,
            final(self).current_policy == old(self).current_policy,
            final(self).last_applied == old(self).last_applied,
            final(self).last_actuation_ms == old(self).last_actuation_ms,
            final(self).wake_defer_until_ms == old(self).wake_defer_until_ms,
            final(self).screen_off_since_ms == old(self).screen_off_since_ms,
    {
        let was = self.was_gaming;
        self.was_gaming = is_gaming;
        if is_gaming {
            let same = match (&self.cooldown_source, package) {
                (Some(a), Some(b)) => str_eq(a.as_str(), b),
                (None, None) => true,
                _ => false,
            };
            if !same {
                self.cooldown_source = match package {
                    Some(p) => Some(p.to_owned()),
                    None => None,
                };
                self.cooldown_until_ms = None;
            }
        }
        if is_gaming && !was {
            self.session_started_ms = Some(now_ms);
            SessionChange::Started
        } else if is_gaming {
            SessionChange::Ongoing
        } else if was {
            SessionChange::Ended
        } else {
            SessionChange::Idle
        }
    }

    /// Keeps the session's peak temperature: the first gaming tick sets
    /// it, later ones raise it.
    pub fn record_peak(&mut self, change: SessionChange, adj_temp: i32)
        ensures
            final(self).session_peak == (if change == SessionChange::Started {
                adj_temp
            } else if change == SessionChange::Ongoing {
                if adj_temp > old(self).session_peak {
                    adj_temp
                } else {
                    old(self).session_peak
                }
            } else {
                old(self).session_peak
            }),
            final(self).was_gaming == old(self).was_gaming,
            final(self).session_started_ms == old(self).session_started_ms,
            final(self).last_session_peak == old(self).last_session_peak,
            final(self).cooldown_until_ms == old(self).cooldown_until_ms,
            final(self).cooldown_source == old(self).cooldown_source,
            final(self).current_policy == old(self).current_policy,
            final(self).last_applied == old(self).last_applied,
            final(self).last_actuation_ms == old(self).last_actuation_ms,
            final(self).wake_defer_until_ms == old(self).wake_defer_until_ms,
            final(self).screen_off_since_ms == old(self).screen_off_since_ms,
    {
        match change {
            SessionChange::Started => {
                self.session_peak = adj_temp;
            },
            SessionChange::Ongoing => {
                if adj_temp > self.session_peak {
                    self.session_peak = adj_temp;
                }
            },
            _ => {},
        }
    }

    /// Closes a session: its peak becomes the last session's peak, the
    /// cooldown runs for `cooldown_secs` from now, and the policy must be
    /// applied afresh.
    pub fn end_session(&mut self, now_ms: u64, cooldown_secs: u64)
        ensures
            final(self).last_session_peak == old(self).session_peak,
            final(self).session_peak == 0,
            final(self).session_started_ms.is_none(),
            final(self).last_applied.is_none(),
            final(self).cooldown_until_ms == Some(sat_add_spec(now_ms, sat_mul(cooldown_secs, 1000))),
            final(self).was_gaming == old(self).was_gaming,
            final(self).cooldown_source == old(self).cooldown_source,
            final(self).current_policy == old(self).current_policy,
            final(self).last_actuation_ms == old(self).last_actuation_ms,
            final(self).wake_defer_until_ms == old(self).wake_defer_until_ms,
            final(self).screen_off_since_ms == old(self).screen_off_since_ms,
    {
        self.last_session_peak = self.session_peak;
        self.session_peak = 0;
        self.session_started_ms = None;
        self.last_applied = None;
        self.cooldown_until_ms = Some(now_ms.saturating_add(sat_mul_exec(cooldown_secs, 1000)));
    }

    /// How long the current session has run, in whole seconds; 0 without
    /// one.
    pub fn session_secs(&self, now_ms: u64) -> (r: u64)
        ensures
            r == (match self.session_started_ms {
                Some(s) => elapsed_ms(s, now_ms) / 1000,
                None => 0,
            }),
    {
        match self.session_started_ms {
            Some(s) => now_ms.saturating_sub(s) / 1000,
            None => 0,
        }
    }

    /// Settles the cooldown for this tick. It runs while its end lies
    /// ahead; once that has passed it is cleared, with its source, and
    /// reported as expired. It holds the floor only off-game and while the
    /// device is still at `temp_warm` or above.
    pub fn settle_cooldown(&mut self, now_ms: u64, is_gaming: bool, adj_temp: i32, temp_warm: i32) -> (r:
        CooldownOutcome)
        ensures
            ({
                let running = old(self).cooldown_until_ms matches Some(t) && t > now_ms;
                &&& r.expired == (!running && old(self).cooldown_until_ms.is_some())
                &&& r.active == (running && !is_gaming && adj_temp >= temp_warm)
            }),
            r.expired ==> final(self).cooldown_until_ms.is_none() && final(self).cooldown_source.is_none(),
            !r.expired ==> final(self).cooldown_until_ms == old(self).cooldown_until_ms
                && final(self).cooldown_source == old(self).cooldown_source,
            final(self).was_gaming == old(self).was_gaming,
            final(self).session_started_ms == old(self).session_started_ms,
            final(self).session_peak == old(self).session_peak,
            final(self).last_session_peak == old(self).last_session_peak,
            final(self).current_policy == old(self).current_policy,
            final(self).last_applied == old(self).last_applied,
            final(self).last_actuation_ms == old(self).last_actuation_ms,
            final(self).wake_defer_until_ms == old(self).wake_defer_until_ms,
            final(self).screen_off_since_ms == old(self).screen_off_since_ms,
    {
        let running = match self.cooldown_until_ms {
            Some(t) => t > now_ms,
            None => false,
        };
        let expired = !running && self.cooldown_until_ms.is_some();
        if expired {
            self.cooldown_until_ms = None;
            self.cooldown_source = None;
        }
        CooldownOutcome { active: cooldown_holds(running, is_gaming, adj_temp, temp_warm), expired }
    }

    /// What this tick may do about `policy`: it needs applying when it is
    /// not the settled policy or not the one last applied; it may act as
    /// `can_actuate` says; governors wait out the first `GAME_GRACE_MS` of
    /// a session before a `Performance` burst; nothing is written with the
    /// tweaks disabled.
    pub fn plan_actuation(
        &self,
        policy: PolicyState,
        now_ms: u64,
        min_interval_ms: u64,
        is_gaming: bool,
        disable_tweaks: bool,
        recovery_mode: bool,
    ) -> (r: ActuationPlan)
        ensures
            r == plan_spec(*self, policy, now_ms, min_interval_ms, is_gaming, disable_tweaks, recovery_mode),
    {
        let needs = self.current_policy != Some(policy) || self.last_applied != Some(policy);
        let allowed = actuation_allowed(
            self.wake_defer_until_ms,
            self.last_actuation_ms,
            now_ms,
            min_interval_ms,
            is_gaming,
        );
        let bypass = check_throttle_limit(self.last_actuation_ms, now_ms, min_interval_ms, is_gaming);
        let can = can_actuate(allowed, bypass, policy, self.current_policy, recovery_mode);
        let grace = match self.session_started_ms {
            Some(s) => now_ms >= s && now_ms - s >= GAME_GRACE_MS,
            None => true,
        };
        ActuationPlan {
            needs_apply: needs,
            can_actuate: can,
            apply_governors: !disable_tweaks && needs && can && (policy != PolicyState::Performance
                || grace),
            apply_tuning: !disable_tweaks && needs && can,
            housekeeping: !disable_tweaks && needs,
        }
    }

    /// Records the tick's outcome: an actuation burst, when the tuning ran,
    /// starts the throttle now; the policy counts as applied when it could
    /// act on a needed change; and it is the settled policy from now on.
    pub fn commit(&mut self, policy: PolicyState, plan: ActuationPlan, now_ms: u64)
        ensures
            final(self).current_policy == Some(policy),
            final(self).last_applied == (if plan.can_actuate && plan.needs_apply {
                Some(policy)
            } else {
                old(self).last_applied
            }),
            final(self).last_actuation_ms == (if plan.apply_tuning {
                Some(now_ms)
            } else {
                old(self).last_actuation_ms
            }),
            final(self).was_gaming == old(self).was_gaming,
            final(self).session_started_ms == old(self).session_started_ms,
            final(self).session_peak == old(self).session_peak,
            final(self).last_session_peak == old(self).last_session_peak,
            final(self).cooldown_until_ms == old(self).cooldown_until_ms,
            final(self).cooldown_source == old(self).cooldown_source,
            final(self).wake_defer_until_ms == old(self).wake_defer_until_ms,
            final(self).screen_off_since_ms == old(self).screen_off_since_ms,
    {
        if plan.apply_tuning {
            self.last_actuation_ms = Some(now_ms);
        }
        if plan.can_actuate && plan.needs_apply {
            self.last_applied = Some(policy);
        }
        self.current_policy = Some(policy);
    }
}

/// The sleep after this tick: at most `WAKE_SLEEP_CAP_MS` right after a
/// wake.
pub fn wake_capped_sleep(sleep_ms: u64, just_woke: bool) -> (r: u64)
    ensures
        r == (if just_woke && sleep_ms > WAKE_SLEEP_CAP_MS {
            WAKE_SLEEP_CAP_MS
        } else {
            sleep_ms
        }),
{
    if just_woke && sleep_ms > WAKE_SLEEP_CAP_MS {
        WAKE_SLEEP_CAP_MS
    } else {
        sleep_ms
    }
}

/// The composite temperature of a tick: the hottest of the CPU, GPU and
/// skin zones.
pub fn composite_temp(cpu_temp: i32, gpu_temp: i32, skin_temp: i32) -> (r: i32)
    ensures
        r >= cpu_temp && r >= gpu_temp && r >= skin_temp,
        r == cpu_temp || r == gpu_temp || r == skin_temp,
{
    let a = if cpu_temp > gpu_temp {
        cpu_temp
    } else {
        gpu_temp
    };
    if a > skin_temp {
        a
    } else {
        skin_temp
    }
}

/// How many readings the temperature history keeps: `size`, at least one.
pub open spec fn history_keep(size: usize) -> int {
    if size == 0 {
        1
    } else {
        size as int
    }
}

/// Appends a reading to the temperature history and keeps only the newest
/// `size` readings (at least one).
pub fn push_history(history: &mut Vec<i32>, temp: i32, size: usize)
    ensures
        ({
            let all = old(history)@.push(temp);
            final(history)@ == (if all.len() > history_keep(size) {
                all.skip(all.len() - history_keep(size))
            } else {
                all
            })
        }),
{
    let ghost all = history@.push(temp);
    history.push(temp);
    let keep: usize = if size == 0 {
        1
    } else {
        size
    };
    if history.len() > keep {
        let excess = history.len() - keep;
        let mut dropped: usize = 0;
        while dropped < excess
            invariant
                0 <= dropped <= excess,
                excess == all.len() - keep,
                history@ == all.skip(dropped as int),
            decreases excess - dropped,
        {
            let ghost before = history@;
            history.remove(0);
            assert(history@ =~= all.skip(dropped + 1)) by {
                assert(before == all.skip(dropped as int));
                assert(history@ =~= before.drop_first());
            }
            dropped = dropped + 1;
        }
    }
}

/// The predicted temperature and trend the policy uses: the prediction's
/// when its confidence is over 50 percent; otherwise the measured
/// temperature with the prediction's trend (0 without a prediction).
/// `prediction` is (predicted temperature, trend score, confidence).
pub fn settle_prediction(adj_temp: i32, prediction: Option<(i32, i32, i32)>) -> (r: (i32, i32))
    ensures
        r == (match prediction {
            Some((p, t, c)) => if c > 50 {
                (p, t)
            } else {
                (adj_temp, t)
            },
            None => (adj_temp, 0i32),
        }),
{
    match prediction {
        Some((p, t, c)) => if c > 50 {
            (p, t)
        } else {
            (adj_temp, t)
        },
        None => (adj_temp, 0),
    }
}

/// Whether game turbo starts this tick: a game runs, turbo is not yet on
/// and the game's pid is known (activation waits for it otherwise).
pub fn turbo_activation_due(is_gaming: bool, turbo_active: bool, pid: Option<u32>) -> (r: bool)
    ensures
        r == (is_gaming && !turbo_active && pid.is_some()),
{
    is_gaming && !turbo_active && pid.is_some()
}

/// The frame-rate cap a finished session records for its game: the learned
/// cap when there is one, otherwise the cap in force when it is set.
pub fn session_fps_cap(recommended: Option<u32>, current: Option<u32>) -> (r: Option<u32>)
    ensures
        r == (match recommended {
            Some(c) => Some(c),
            None => match current {
                Some(c) => if c > 0 {
                    Some(c)
                } else {
                    None
                },
                None => None,
            },
        }),
{
    match recommended {
        Some(c) => Some(c),
        None => match current {
            Some(c) => if c > 0 {
                Some(c)
            } else {
                None
            },
            None => None,
        },
    }
}

/// An emergency always gets to act, whatever the throttle and the wake
/// deferral say, and a needed change is then applied.
pub proof fn law_emergency_always_acts(
    s: TickState,
    now: u64,
    min_interval_ms: u64,
    is_gaming: bool,
    recovery_mode: bool,
)
    ensures
        plan_spec(s, PolicyState::EmergencyCool, now, min_interval_ms, is_gaming, false, recovery_mode).can_actuate,
        plan_spec(s, PolicyState::EmergencyCool, now, min_interval_ms, is_gaming, false, recovery_mode).needs_apply
            ==> plan_spec(s, PolicyState::EmergencyCool, now, min_interval_ms, is_gaming, false, recovery_mode).apply_governors,
{
}

/// With the tweaks disabled, a tick writes nothing.
pub proof fn law_disabled_tweaks_write_nothing(
    s: TickState,
    policy: PolicyState,
    now: u64,
    min_interval_ms: u64,
    is_gaming: bool,
    recovery_mode: bool,
)
    ensures
        !plan_spec(s, policy, now, min_interval_ms, is_gaming, true, recovery_mode).apply_governors,
        !plan_spec(s, policy, now, min_interval_ms, is_gaming, true, recovery_mode).apply_tuning,
        !plan_spec(s, policy, now, min_interval_ms, is_gaming, true, recovery_mode).housekeeping,
{
}

/// A policy that was settled and applied is not applied again: once a
/// commit records it as applied, the next plan for the same policy needs
/// nothing.
pub proof fn law_applied_policy_is_not_reapplied(
    s: TickState,
    policy: PolicyState,
    now: u64,
    min_interval_ms: u64,
    is_gaming: bool,
    disable_tweaks: bool,
    recovery_mode: bool,
)
    requires
        s.current_policy == Some(policy),
        s.last_applied == Some(policy),
    ensures
        !plan_spec(s, policy, now, min_interval_ms, is_gaming, disable_tweaks, recovery_mode).needs_apply,
        !plan_spec(s, policy, now, min_interval_ms, is_gaming, disable_tweaks, recovery_mode).apply_governors,
{
}

} // verus!

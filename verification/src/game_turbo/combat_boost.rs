//! Combat boost: a hard boost held four seconds after the combat detector
//! fires, extended while combat goes on, then decayed over 800 ms.
//!
//! Writing the boost to the CPU, uclamp and bus nodes is the caller's part:
//! each operation reports whether the boost is to be applied or released.
use vstd::prelude::*;

verus! {

/// How long a boost is held after the last combat tick.
pub const HOLD_MS: u64 = 4000;
/// How long the boost decays before it is released.
pub const DECAY_MS: u64 = 800;

pub struct CombatBoost {
    /// End of the hold, while holding.
    pub active_until: Option<u64>,
    pub extended_until: Option<u64>,
    pub in_decay: bool,
    pub decay_start: Option<u64>,
}

/// What a tick of the boost asks of the caller.
#[derive(Debug, Clone, Copy, PartialEq, Eq, Structural)]
pub enum BoostEffect {
    /// Nothing to write.
    Keep,
    /// Apply the boost (entered again from decay).
    Enter,
    /// Release the boost.
    Exit,
}

/// The boost right after a trigger at `now`: held until `now + HOLD_MS`.
pub open spec fn boost_trigger(now: u64) -> CombatBoost {
    CombatBoost {
        active_until: Some((now + HOLD_MS) as u64),
        extended_until: Some((now + HOLD_MS) as u64),
        in_decay: false,
        decay_start: None,
    }
}

/// One tick of the boost at `now`: the boost afterwards, whether it is
/// still on, and what to write. Combat renews the hold (and enters again
/// from decay); without combat a running hold is kept, an expired one
/// starts the decay, and a decay of `DECAY_MS` releases the boost.
pub open spec fn boost_step(b: CombatBoost, combat: bool, now: u64) -> (CombatBoost, (bool, BoostEffect)) {
    if combat {
        let ext = Some((now + HOLD_MS) as u64);
        let au = if b.active_until.is_some() {
            ext
        } else {
            None
        };
        if b.in_decay {
            (
                CombatBoost { active_until: au, extended_until: ext, in_decay: false, decay_start: None },
                (true, BoostEffect::Enter),
            )
        } else {
            (
                CombatBoost {
                    active_until: au,
                    extended_until: ext,
                    in_decay: false,
                    decay_start: b.decay_start,
                },
                (true, BoostEffect::Keep),
            )
        }
    } else {
        let holding = match b.active_until {
            Some(u) => now < u,
            None => false,
        };
        let expired = b.active_until.is_some() && !holding;
        let decaying = b.in_decay || expired;
        let start = if expired {
            Some(now)
        } else {
            b.decay_start
        };
        let done = decaying && match start {
            Some(s) => now >= s && now - s >= DECAY_MS,
            None => false,
        };
        if holding {
            (b, (true, BoostEffect::Keep))
        } else if done {
            (
                CombatBoost {
                    active_until: None,
                    extended_until: b.extended_until,
                    in_decay: false,
                    decay_start: None,
                },
                (false, BoostEffect::Exit),
            )
        } else {
            (
                CombatBoost {
                    active_until: None,
                    extended_until: b.extended_until,
                    in_decay: decaying,
                    decay_start: start,
                },
                (decaying, BoostEffect::Keep),
            )
        }
    }
}

impl CombatBoost {
    pub open spec fn active_spec(&self) -> bool {
        self.active_until.is_some() || self.in_decay
    }

    /// An idle boost.
    pub fn new() -> (r: Self)
        ensures
            !r.active_spec(),
            r.active_until.is_none(),
            r.extended_until.is_none(),
            r.decay_start.is_none(),
    {
        CombatBoost { active_until: None, extended_until: None, in_decay: false, decay_start: None }
    }

    /// Whether the boost is held or decaying.
    pub fn is_active(&self) -> (r: bool)
        ensures
            r == self.active_spec(),
    {
        self.active_until.is_some() || self.in_decay
    }

    /// Starts (or restarts) the hold at `now_ms`; the caller applies the
    /// boost. Returns whether the boost was already on.
    pub fn trigger(&mut self, now_ms: u64) -> (was_active: bool)
        requires
            now_ms <= u64::MAX - HOLD_MS,
        ensures
            was_active == old(self).active_spec(),
            final(self).active_until == Some((now_ms + HOLD_MS) as u64),
            final(self).extended_until == final(self).active_until,
            !final(self).in_decay,
            final(self).decay_start.is_none(),
            final(self).active_spec(),
            *final(self) == boost_trigger(now_ms),
    {
        let was_active = self.is_active();
        self.active_until = Some(now_ms + HOLD_MS);
        self.extended_until = self.active_until;
        self.in_decay = false;
        self.decay_start = None;
        was_active
    }

    /// One tick at `now_ms`. Combat extends the hold (and enters the boost
    /// again from decay); without combat an expired hold starts the decay,
    /// and a decay of [`DECAY_MS`] releases the boost. Returns whether the
    /// boost is still on and what to write.
    pub fn tick(&mut self, combat: bool, now_ms: u64) -> (r: (bool, BoostEffect))
        requires
            now_ms <= u64::MAX - HOLD_MS,
        ensures
            *final(self) == boost_step(*old(self), combat, now_ms).0,
            r == boost_step(*old(self), combat, now_ms).1,
            combat ==> {
                &&& r.0
                &&& final(self).extended_until == Some((now_ms + HOLD_MS) as u64)
                &&& final(self).active_until == (if old(self).active_until.is_some() {
                    Some((now_ms + HOLD_MS) as u64)
                } else {
                    None
                })
                &&& !final(self).in_decay
                &&& r.1 == (if old(self).in_decay {
                    BoostEffect::Enter
                } else {
                    BoostEffect::Keep
                })
                &&& final(self).decay_start == (if old(self).in_decay {
                    None
                } else {
                    old(self).decay_start
                })
            },
            !combat ==> {
                let expired = match old(self).active_until {
                    Some(u) => now_ms >= u,
                    None => false,
                };
                let holding = match old(self).active_until {
                    Some(u) => now_ms < u,
                    None => false,
                };
                let decaying = old(self).in_decay || expired;
                let start = if expired {
                    Some(now_ms)
                } else {
                    old(self).decay_start
                };
                let done = decaying && match start {
                    Some(s) => now_ms >= s && now_ms - s >= DECAY_MS,
                    None => false,
                };
                &&& final(self).extended_until == old(self).extended_until
                &&& if holding {
                    &&& r == (true, BoostEffect::Keep)
                    &&& final(self).active_until == old(self).active_until
                    &&& final(self).in_decay == old(self).in_decay
                    &&& final(self).decay_start == old(self).decay_start
                } else if done {
                    &&& r == (false, BoostEffect::Exit)
                    &&& final(self).active_until.is_none()
                    &&& !final(self).in_decay
                    &&& final(self).decay_start.is_none()
                } else {
                    &&& r == (decaying, BoostEffect::Keep)
                    &&& final(self).active_until.is_none()
                    &&& final(self).in_decay == decaying
                    &&& final(self).decay_start == start
                }
            },
    {
        if combat {
            self.extended_until = Some(now_ms + HOLD_MS);
            if self.active_until.is_some() {
                self.active_until = self.extended_until;
            }
            if self.in_decay {
                self.in_decay = false;
                self.decay_start = None;
                return (true, BoostEffect::Enter);
            }
            return (true, BoostEffect::Keep);
        }
        match self.active_until {
            Some(until) => {
                if now_ms < until {
                    return (true, BoostEffect::Keep);
                }
                self.active_until = None;
                self.in_decay = true;
                self.decay_start = Some(now_ms);
            },
            None => {},
        }
        if self.in_decay {
            match self.decay_start {
                Some(start) => {
                    if now_ms >= start && now_ms - start >= DECAY_MS {
                        self.in_decay = false;
                        self.decay_start = None;
                        return (false, BoostEffect::Exit);
                    }
                },
                None => {},
            }
            return (true, BoostEffect::Keep);
        }
        (false, BoostEffect::Keep)
    }

    /// Clears the boost. Returns whether it was on, so that the caller
    /// releases it.
    pub fn reset(&mut self) -> (was_active: bool)
        ensures
            was_active == old(self).active_spec(),
            !final(self).active_spec(),
            final(self).active_until.is_none(),
            final(self).extended_until.is_none(),
            final(self).decay_start.is_none(),
    {
        let was = self.is_active();
        self.active_until = None;
        self.extended_until = None;
        self.in_decay = false;
        self.decay_start = None;
        was
    }
}

} // verus!

verus! {

/// Combat keeps the boost on and holds it for `HOLD_MS` from now; without
/// combat the boost is reported on exactly when it still is; and a release
/// (`Exit`) comes only from a tick without combat, which reports the boost
/// off.
pub proof fn law_boost_tick(b: CombatBoost, combat: bool, now: u64)
    requires
        now <= u64::MAX - HOLD_MS,
    ensures
        combat ==> boost_step(b, combat, now).1.0 && !boost_step(b, combat, now).0.in_decay
            && boost_step(b, combat, now).0.extended_until == Some((now + HOLD_MS) as u64),
        !combat ==> boost_step(b, combat, now).1.0 == boost_step(b, combat, now).0.active_spec(),
        boost_step(b, combat, now).1.1 == BoostEffect::Exit ==> {
            &&& !combat
            &&& !boost_step(b, combat, now).1.0
            &&& !boost_step(b, combat, now).0.active_spec()
        },
{
}

} // verus!

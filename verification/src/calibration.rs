//! Thermal calibration: a temperature offset in whole degrees, learned from
//! sustained heating and decayed back while the device cools, and the
//! "slow cooler" flag learned from how far a device cools after a game.
//!
//! Reading and writing `calibration.json` is the caller's part: it hands a
//! loaded [`CalibrationState`] to [`CalibrationManager::restore`] and persists
//! [`CalibrationManager::snapshot`] whenever an operation reports a change.
use vstd::prelude::*;

verus! {

/// Lowest calibration offset, in degrees.
pub const MIN_OFFSET: i32 = -6;
/// Highest calibration offset, in degrees.
pub const MAX_OFFSET: i32 = 6;
/// Heating ticks after which the offset moves one degree down.
pub const HOT_TICKS_LIMIT: u32 = 60;
/// Cooling ticks after which a negative offset decays one degree.
pub const COOL_TICKS_LIMIT: u32 = 120;

/// The persisted form of the calibration.
#[derive(Clone, Copy, Debug, PartialEq, Eq)]
pub struct CalibrationState {
    pub active_offset: i32,
    pub hot_ticks: u32,
    pub cool_ticks: u32,
    pub slow_cooler_persistent: bool,
    pub consecutive_cool_sessions: u32,
}

impl Default for CalibrationState {
    fn default() -> (r: Self)
        ensures
            r.active_offset == 0,
            r.hot_ticks == 0,
            r.cool_ticks == 0,
            !r.slow_cooler_persistent,
            r.consecutive_cool_sessions == 0,
    {
        CalibrationState {
            active_offset: 0,
            hot_ticks: 0,
            cool_ticks: 0,
            slow_cooler_persistent: false,
            consecutive_cool_sessions: 0,
        }
    }
}

pub struct CalibrationManager {
    /// The directory that holds `calibration.json`.
    pub state_dir: String,
    pub active_offset: i32,
    pub hot_ticks: u32,
    pub cool_ticks: u32,
    pub slow_cooler_persistent: bool,
    pub consecutive_cool_sessions: u32,
}

pub open spec fn clamp_offset(x: int) -> int {
    if x < MIN_OFFSET {
        MIN_OFFSET as int
    } else if x > MAX_OFFSET {
        MAX_OFFSET as int
    } else {
        x
    }
}

impl CalibrationManager {
    /// A manager with a zero offset and no history, keeping its state under
    /// `state_dir`.
    pub fn new(state_dir: &str) -> (r: Self)
        ensures
            r.state_dir@ == state_dir@,
            r.active_offset == 0,
            r.hot_ticks == 0,
            r.cool_ticks == 0,
            !r.slow_cooler_persistent,
            r.consecutive_cool_sessions == 0,
    {
        CalibrationManager {
            state_dir: state_dir.to_owned(),
            active_offset: 0,
            hot_ticks: 0,
            cool_ticks: 0,
            slow_cooler_persistent: false,
            consecutive_cool_sessions: 0,
        }
    }

    /// Takes over a persisted state; the offset is brought into its bounds.
    pub fn restore(&mut self, state: CalibrationState)
        ensures
            final(self).state_dir@ == old(self).state_dir@,
            final(self).active_offset == clamp_offset(state.active_offset as int),
            final(self).hot_ticks == state.hot_ticks,
            final(self).cool_ticks == state.cool_ticks,
            final(self).slow_cooler_persistent == state.slow_cooler_persistent,
            final(self).consecutive_cool_sessions == state.consecutive_cool_sessions,
    {
        self.active_offset = clamp_i32(state.active_offset, MIN_OFFSET, MAX_OFFSET);
        self.hot_ticks = state.hot_ticks;
        self.cool_ticks = state.cool_ticks;
        self.slow_cooler_persistent = state.slow_cooler_persistent;
        self.consecutive_cool_sessions = state.consecutive_cool_sessions;
    }

    /// The state to persist.
    pub fn snapshot(&self) -> (r: CalibrationState)
        ensures
            r.active_offset == self.active_offset,
            r.hot_ticks == self.hot_ticks,
            r.cool_ticks == self.cool_ticks,
            r.slow_cooler_persistent == self.slow_cooler_persistent,
            r.consecutive_cool_sessions == self.consecutive_cool_sessions,
    {
        CalibrationState {
            active_offset: self.active_offset,
            hot_ticks: self.hot_ticks,
            cool_ticks: self.cool_ticks,
            slow_cooler_persistent: self.slow_cooler_persistent,
            consecutive_cool_sessions: self.consecutive_cool_sessions,
        }
    }

    /// Learns from how far the device cooled after a game that peaked above
    /// 45 degrees: a drop under one degree marks a slow cooler; three good
    /// sessions (a drop of three degrees or more) in a row clear the mark.
    /// Returns whether the state changed in a way that is to be persisted.
    pub fn evaluate_post_game_cooling(&mut self, peak_temp: i32, current_temp: i32) -> (save: bool)
        requires
            peak_temp > 45 && peak_temp - current_temp >= 3 ==> old(
                self,
            ).consecutive_cool_sessions < u32::MAX,
        ensures
            final(self).state_dir@ == old(self).state_dir@,
            final(self).active_offset == old(self).active_offset,
            final(self).hot_ticks == old(self).hot_ticks,
            final(self).cool_ticks == old(self).cool_ticks,
            peak_temp <= 45 || (1 <= peak_temp - current_temp < 3) ==> {
                &&& final(self).slow_cooler_persistent == old(self).slow_cooler_persistent
                &&& final(self).consecutive_cool_sessions == old(
                    self,
                ).consecutive_cool_sessions
                &&& !save
            },
            peak_temp > 45 && peak_temp - current_temp < 1 ==> {
                &&& final(self).slow_cooler_persistent
                &&& final(self).consecutive_cool_sessions == 0
                &&& save
            },
            peak_temp > 45 && peak_temp - current_temp >= 3 ==> if old(
                self,
            ).consecutive_cool_sessions + 1 >= 3 {
                &&& !final(self).slow_cooler_persistent
                &&& final(self).consecutive_cool_sessions == 0
                &&& save
            } else {
                &&& final(self).slow_cooler_persistent == old(self).slow_cooler_persistent
                &&& final(self).consecutive_cool_sessions == old(self).consecutive_cool_sessions
                    + 1
                &&& !save
            },
    {
        if peak_temp > 45 {
            let drop: i64 = peak_temp as i64 - current_temp as i64;
            if drop < 1 {
                self.slow_cooler_persistent = true;
                self.consecutive_cool_sessions = 0;
                return true;
            } else if drop >= 3 {
                self.consecutive_cool_sessions = self.consecutive_cool_sessions + 1;
                if self.consecutive_cool_sessions >= 3 {
                    self.slow_cooler_persistent = false;
                    self.consecutive_cool_sessions = 0;
                    return true;
                }
            }
        }
        false
    }

    /// One tick of offset learning. Sustained heating (more than
    /// [`HOT_TICKS_LIMIT`] net heating ticks) moves the offset one degree
    /// down; while not heating, a negative offset decays one degree up after
    /// more than [`COOL_TICKS_LIMIT`] cooling ticks. The offset always ends in
    /// `[MIN_OFFSET, MAX_OFFSET]`. Returns whether the offset moved, so that
    /// the state is to be persisted.
    pub fn apply_calibration(&mut self, is_heating_or_flat: bool) -> (changed: bool)
        requires
            is_heating_or_flat ==> old(self).hot_ticks < u32::MAX,
            !is_heating_or_flat && old(self).active_offset < 0 ==> old(self).cool_ticks
                < u32::MAX,
        ensures
            final(self).state_dir@ == old(self).state_dir@,
            final(self).slow_cooler_persistent == old(self).slow_cooler_persistent,
            final(self).consecutive_cool_sessions == old(self).consecutive_cool_sessions,
            MIN_OFFSET <= final(self).active_offset <= MAX_OFFSET,
            MIN_OFFSET <= old(self).active_offset <= MAX_OFFSET ==> -1 <= final(self).active_offset
                - old(self).active_offset <= 1,
            is_heating_or_flat ==> {
                &&& final(self).cool_ticks == 0
                &&& if old(self).hot_ticks + 1 > HOT_TICKS_LIMIT {
                    &&& final(self).hot_ticks == 0
                    &&& changed == (old(self).active_offset > MIN_OFFSET)
                    &&& final(self).active_offset == clamp_offset(
                        if changed {
                            old(self).active_offset - 1
                        } else {
                            old(self).active_offset as int
                        },
                    )
                } else {
                    &&& final(self).hot_ticks == old(self).hot_ticks + 1
                    &&& !changed
                    &&& final(self).active_offset == clamp_offset(old(self).active_offset as int)
                }
            },
            !is_heating_or_flat ==> {
                &&& final(self).hot_ticks == if old(self).hot_ticks > 0 {
                    old(self).hot_ticks - 1
                } else {
                    0
                }
                &&& if old(self).active_offset < 0 {
                    if old(self).cool_ticks + 1 > COOL_TICKS_LIMIT {
                        &&& changed
                        &&& final(self).cool_ticks == 0
                        &&& final(self).active_offset == clamp_offset(
                            old(self).active_offset + 1,
                        )
                    } else {
                        &&& !changed
                        &&& final(self).cool_ticks == old(self).cool_ticks + 1
                        &&& final(self).active_offset == clamp_offset(
                            old(self).active_offset as int,
                        )
                    }
                } else {
                    &&& !changed
                    &&& final(self).cool_ticks == 0
                    &&& final(self).active_offset == clamp_offset(old(self).active_offset as int)
                }
            },
    {
        let mut changed = false;
        if is_heating_or_flat {
            self.hot_ticks = self.hot_ticks + 1;
            self.cool_ticks = 0;
            if self.hot_ticks > HOT_TICKS_LIMIT {
                if self.active_offset > MIN_OFFSET {
                    self.active_offset = self.active_offset - 1;
                    changed = true;
                }
                self.hot_ticks = 0;
            }
        } else {
            if self.hot_ticks > 0 {
                self.hot_ticks = self.hot_ticks - 1;
            }
            if self.active_offset < 0 {
                self.cool_ticks = self.cool_ticks + 1;
                if self.cool_ticks > COOL_TICKS_LIMIT {
                    self.active_offset = self.active_offset + 1;
                    self.cool_ticks = 0;
                    changed = true;
                }
            } else {
                self.cool_ticks = 0;
            }
        }
        self.active_offset = clamp_i32(self.active_offset, MIN_OFFSET, MAX_OFFSET);
        changed
    }
}

/// `i32::clamp`.
pub fn clamp_i32(x: i32, lo: i32, hi: i32) -> (r: i32)
    requires
        lo <= hi,
    ensures
        r == (if x < lo {
            lo
        } else if x > hi {
            hi
        } else {
            x
        }),
{
    if x < lo {
        lo
    } else if x > hi {
        hi
    } else {
        x
    }
}

} // verus!

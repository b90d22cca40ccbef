//! Battery- and temperature-aware frame-rate cap. Reading the battery, the
//! charger status and the temperature, and setting `debug.sf.max_fps`, is
//! the caller's part.
use vstd::prelude::*;
use crate::text::{chars_of, parse_u32, parse_u32_spec, trim, trim_chars};

verus! {

/// Battery level at or below which the cap is 60 fps.
pub const BATTERY_CRITICAL: u32 = 15;
/// Battery level at or below which the cap is 90 fps.
pub const BATTERY_LOW: u32 = 30;
/// Temperature from which the cap is 90 fps.
pub const THERMAL_WARM: u32 = 48;
/// Temperature from which the cap is 60 fps.
pub const THERMAL_HOT: u32 = 50;

/// The cap for a battery level, charger status and temperature: 120 while
/// charging below [`THERMAL_HOT`]; otherwise the lower of the battery cap and
/// the thermal cap.
pub open spec fn cap_spec(battery: u32, charging: bool, thermal: u32) -> u32 {
    if charging && thermal < THERMAL_HOT {
        120
    } else {
        let b: u32 = if battery <= BATTERY_CRITICAL {
            60
        } else if battery <= BATTERY_LOW {
            90
        } else {
            120
        };
        let t: u32 = if thermal >= THERMAL_HOT {
            60
        } else if thermal >= THERMAL_WARM {
            90
        } else {
            120
        };
        if b <= t {
            b
        } else {
            t
        }
    }
}

pub struct FpsCapManager {
    pub available: bool,
    /// The cap in force before the game, to restore.
    pub original_max_fps: Option<u32>,
    pub current_cap: Option<u32>,
}

impl FpsCapManager {
    pub fn new() -> (r: Self)
        ensures
            r.available,
            r.original_max_fps.is_none(),
            r.current_cap.is_none(),
    {
        FpsCapManager { available: true, original_max_fps: None, current_cap: None }
    }

    /// The cap for the battery level, charger status and temperature.
    pub fn calculate_cap(&self, battery: u32, charging: bool, thermal: u32) -> (r: u32)
        ensures
            r == cap_spec(battery, charging, thermal),
    {
        if charging && thermal < THERMAL_HOT {
            return 120;
        }
        let battery_cap: u32 = if battery <= BATTERY_CRITICAL {
            60
        } else if battery <= BATTERY_LOW {
            90
        } else {
            120
        };
        let thermal_cap: u32 = if thermal >= THERMAL_HOT {
            60
        } else if thermal >= THERMAL_WARM {
            90
        } else {
            120
        };
        if battery_cap <= thermal_cap {
            battery_cap
        } else {
            thermal_cap
        }
    }

    /// Starts capping: remembers the cap in force (`original`, the value of
    /// `debug.sf.max_fps` when it is set and not `0`) and returns the cap to
    /// set.
    pub fn activate(&mut self, original: Option<u32>, battery: u32, charging: bool, thermal: u32) -> (r:
        Option<u32>)
        ensures
            old(self).available ==> {
                &&& r == Some(cap_spec(battery, charging, thermal))
                &&& final(self).current_cap == r
                &&& final(self).original_max_fps == (match original {
                    Some(v) => Some(v),
                    None => old(self).original_max_fps,
                })
            },
            !old(self).available ==> r.is_none() && final(self).current_cap == old(
                self,
            ).current_cap && final(self).original_max_fps == old(self).original_max_fps,
            final(self).available == old(self).available,
    {
        if !self.available {
            return None;
        }
        if original.is_some() {
            self.original_max_fps = original;
        }
        let cap = self.calculate_cap(battery, charging, thermal);
        self.current_cap = Some(cap);
        Some(cap)
    }

    /// Re-evaluates the cap; returns the cap to set when it changed.
    pub fn tick(&mut self, battery: u32, charging: bool, thermal: u32) -> (r: Option<u32>)
        ensures
            ({
                let cap = cap_spec(battery, charging, thermal);
                if old(self).available && old(self).current_cap != Some(cap) {
                    r == Some(cap) && final(self).current_cap == Some(cap)
                } else {
                    r.is_none() && final(self).current_cap == old(self).current_cap
                }
            }),
            final(self).available == old(self).available,
            final(self).original_max_fps == old(self).original_max_fps,
    {
        if !self.available {
            return None;
        }
        let cap = self.calculate_cap(battery, charging, thermal);
        if self.current_cap != Some(cap) {
            self.current_cap = Some(cap);
            Some(cap)
        } else {
            None
        }
    }

    /// The cap in force.
    pub fn current_cap(&self) -> (r: Option<u32>)
        ensures
            r == self.current_cap,
    {
        self.current_cap
    }

    /// Stops capping: returns the value to restore (the remembered cap, or
    /// `0` for no cap).
    pub fn deactivate(&mut self) -> (r: Option<u32>)
        ensures
            old(self).available ==> {
                &&& r == Some(
                    match old(self).original_max_fps {
                        Some(v) => v,
                        None => 0u32,
                    },
                )
                &&& final(self).original_max_fps.is_none()
                &&& final(self).current_cap.is_none()
            },
            !old(self).available ==> r.is_none() && final(self).current_cap == old(
                self,
            ).current_cap && final(self).original_max_fps == old(self).original_max_fps,
            final(self).available == old(self).available,
    {
        if !self.available {
            return None;
        }
        let v = match self.original_max_fps {
            Some(v) => v,
            None => 0,
        };
        self.original_max_fps = None;
        self.current_cap = None;
        Some(v)
    }
}

/// The battery level in a `capacity` file; 100 when it cannot be read.
pub open spec fn battery_percent_spec(content: Option<Seq<char>>) -> u32 {
    match content {
        Some(c) => match parse_u32_spec(trim(c)) {
            Some(v) => v,
            None => 100,
        },
        None => 100,
    }
}

pub fn battery_percent_from(content: Option<&str>) -> (r: u32)
    ensures
        r == battery_percent_spec(
            match content {
                Some(c) => Some(c@),
                None => None,
            },
        ),
{
    match content {
        Some(c) => {
            let t = trim_chars(&chars_of(c));
            match parse_u32(&t) {
                Some(v) => v,
                None => 100,
            }
        },
        None => 100,
    }
}

/// The temperature in degrees from a thermal zone reading in millidegrees;
/// 40 when it cannot be read.
pub open spec fn thermal_temp_spec(content: Option<Seq<char>>) -> u32 {
    match content {
        Some(c) => match parse_u32_spec(trim(c)) {
            Some(v) => v / 1000,
            None => 40,
        },
        None => 40,
    }
}

pub fn thermal_temp_from(content: Option<&str>) -> (r: u32)
    ensures
        r == thermal_temp_spec(
            match content {
                Some(c) => Some(c@),
                None => None,
            },
        ),
{
    match content {
        Some(c) => {
            let t = trim_chars(&chars_of(c));
            match parse_u32(&t) {
                Some(v) => v / 1000,
                None => 40,
            }
        },
        None => 40,
    }
}

/// On a charger below [`THERMAL_HOT`] the cap is the full 120 fps; cool and
/// with the battery above [`BATTERY_LOW`] it is 120 fps without a charger
/// too.
pub proof fn law_charging_cool_is_uncapped(battery: u32, thermal: u32)
    requires
        thermal < THERMAL_HOT,
    ensures
        cap_spec(battery, true, thermal) == 120,
        cap_spec(battery, false, thermal) <= 120,
        thermal < THERMAL_WARM && battery > BATTERY_LOW ==> cap_spec(battery, false, thermal)
            == 120,
{
}

/// At [`THERMAL_HOT`] or above the cap is 60 fps, charger or not.
pub proof fn law_hot_caps_at_sixty(battery: u32, charging: bool, thermal: u32)
    requires
        thermal >= THERMAL_HOT,
    ensures
        cap_spec(battery, charging, thermal) == 60,
{
}


/// Without a charger (or at [`THERMAL_HOT`] and above) the battery caps the
/// frame rate: at most 90 fps at [`BATTERY_LOW`] or below, at most 60 fps at
/// [`BATTERY_CRITICAL`] or below; heat caps it at 90 fps from
/// [`THERMAL_WARM`] and 60 fps from [`THERMAL_HOT`]; the cap never exceeds
/// 120 fps. A lower battery or a hotter device never raises the cap.
pub proof fn law_cap_tiers(battery: u32, lower_battery: u32, charging: bool, thermal: u32, hotter: u32)
    requires
        lower_battery <= battery,
        thermal <= hotter,
    ensures
        cap_spec(battery, charging, thermal) <= 120,
        (!charging || thermal >= THERMAL_HOT) && battery <= BATTERY_LOW ==> cap_spec(
            battery,
            charging,
            thermal,
        ) <= 90,
        (!charging || thermal >= THERMAL_HOT) && battery <= BATTERY_CRITICAL ==> cap_spec(
            battery,
            charging,
            thermal,
        ) <= 60,
        thermal >= THERMAL_HOT ==> cap_spec(battery, charging, thermal) <= 60,
        !charging && thermal >= THERMAL_WARM ==> cap_spec(battery, charging, thermal) <= 90,
        cap_spec(lower_battery, charging, thermal) <= cap_spec(battery, charging, thermal),
        cap_spec(battery, charging, hotter) <= cap_spec(battery, charging, thermal),
{
}
} // verus!

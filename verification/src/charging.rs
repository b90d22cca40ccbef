//! The charging engine: picks a charge mode and state from temperatures,
//! state of charge and context, derives the charge current target, ramps
//! towards it and keeps the charger's current-limit and voter nodes in line.
//!
//! Reading the charger's nodes and writing them is the caller's part. One
//! tick goes: [`ChargingEngine::check_overrides`] on the override file,
//! [`ChargingEngine::begin_tick`], the battery-age taper on the target,
//! [`ChargingEngine::plan_limit`], then, when it asks for an attempt,
//! [`ChargingEngine::prepare_limit`] and [`ChargingEngine::finish_limit`]
//! around the write, [`ChargingEngine::record_attempt`] (with one fallback
//! write when it returns a value) and [`ChargingEngine::end_tick`].
//! Times are milliseconds on a monotonic clock.
use vstd::prelude::*;
use crate::json::{as_bool, as_str, as_u64, get_bool, get_str, get_u64, json_entries, json_get, parse_json_entries};
use crate::text::{contains_str, ends_with_str, has_infix, has_suffix};
use crate::logger::SysfsBlacklist;

verus! {

#[derive(Debug, Clone, Copy, PartialEq, Eq, Structural)]
pub enum ChargeState {
    Disconnected,
    Normal,
    UnderLoad,
    ThermalThrottle,
    Emergency,
}

#[derive(Debug, Clone, Copy, PartialEq, Eq, Structural)]
pub enum ChargeMode {
    Adaptive,
    Urgent,
    BatteryCare,
    UnderLoad,
    MaxSpeed,
}

/// What the caller measured for one charging tick.
#[derive(Debug, Clone)]
pub struct ChargingInputs {
    pub battery_temp: i32,
    pub charger_temp: i32,
    pub usb_temp: i32,
    pub pmic_temp: i32,
    pub soc: u8,
    pub is_plugged: bool,
    pub plug_state_reliable: bool,
    pub is_gaming: bool,
    pub screen_off: bool,
    pub gpu_load: u32,
    pub urgent: bool,
    pub seconds_since_plugged: u64,
    pub charger_id: String,
    pub current_now_ua: Option<i64>,
    pub voltage_now_uv: Option<i64>,
    pub charge_counter_uah: Option<i64>,
    pub composite_temp: i32,
}

/// The mode for this tick. A battery at 42 degrees or more never gets
/// `MaxSpeed` or `Urgent`: it falls back to `UnderLoad` while gaming and to
/// `Adaptive` otherwise.
pub open spec fn select_mode_spec(i: ChargingInputs, forced: Option<ChargeMode>) -> ChargeMode {
    let chosen = if !i.is_plugged && i.plug_state_reliable {
        ChargeMode::Adaptive
    } else if forced.is_some() {
        forced.unwrap()
    } else if i.urgent {
        ChargeMode::Urgent
    } else if i.is_gaming {
        ChargeMode::UnderLoad
    } else if i.screen_off && i.soc > 80 {
        ChargeMode::BatteryCare
    } else if i.screen_off && i.soc < 50 && i.battery_temp < 40 {
        ChargeMode::MaxSpeed
    } else {
        ChargeMode::Adaptive
    };
    if i.battery_temp >= 42 && (chosen == ChargeMode::MaxSpeed || chosen == ChargeMode::Urgent) {
        if i.is_gaming {
            ChargeMode::UnderLoad
        } else {
            ChargeMode::Adaptive
        }
    } else {
        chosen
    }
}

/// The current target in mA for a state of charge and mode, before any
/// thermal cap.
pub open spec fn soc_target_spec(soc: u8, mode: ChargeMode) -> i64 {
    match mode {
        ChargeMode::UnderLoad => if soc < 20 {
            9000
        } else if soc < 40 {
            8750
        } else if soc < 51 {
            8400
        } else if soc < 55 {
            8000
        } else if soc < 60 {
            7000
        } else if soc < 65 {
            6600
        } else if soc < 73 {
            6300
        } else if soc < 76 {
            5600
        } else if soc < 80 {
            4900
        } else if soc < 83 {
            4500
        } else if soc < 86 {
            3800
        } else if soc < 89 {
            3100
        } else if soc < 91 {
            2800
        } else if soc < 93 {
            2500
        } else if soc < 95 {
            2100
        } else if soc < 97 {
            1500
        } else {
            1000
        },
        ChargeMode::MaxSpeed | ChargeMode::Urgent => if soc < 40 {
            9000
        } else if soc < 51 {
            8500
        } else if soc < 60 {
            7500
        } else if soc < 80 {
            6000
        } else {
            3500
        },
        ChargeMode::BatteryCare => if soc < 50 {
            5000
        } else if soc < 80 {
            3000
        } else {
            1000
        },
        ChargeMode::Adaptive => if soc < 20 {
            14000
        } else if soc < 40 {
            12500
        } else if soc < 51 {
            12000
        } else if soc < 55 {
            11500
        } else if soc < 60 {
            10000
        } else if soc < 65 {
            9500
        } else if soc < 73 {
            9000
        } else if soc < 76 {
            8000
        } else if soc < 80 {
            7000
        } else if soc < 83 {
            6500
        } else if soc < 86 {
            5500
        } else if soc < 89 {
            4500
        } else if soc < 91 {
            4000
        } else if soc < 93 {
            3600
        } else if soc < 95 {
            3000
        } else if soc < 97 {
            2200
        } else {
            1500
        },
    }
}

/// The charge state for this tick.
pub open spec fn next_state_spec(i: ChargingInputs, mode: ChargeMode) -> ChargeState {
    if (i.plug_state_reliable && !i.is_plugged) || (!i.plug_state_reliable && i.soc == 0) {
        ChargeState::Disconnected
    } else if i.battery_temp >= 50 || i.charger_temp >= 70 || i.usb_temp >= 65 || i.pmic_temp
        >= 70 {
        ChargeState::Emergency
    } else if (i.battery_temp >= 44 && mode != ChargeMode::Urgent) || (i.battery_temp >= 48
        && mode == ChargeMode::Urgent) || i.charger_temp >= 60 || i.usb_temp >= 55 || i.pmic_temp
        >= 60 {
        ChargeState::ThermalThrottle
    } else if mode == ChargeMode::UnderLoad {
        ChargeState::UnderLoad
    } else {
        ChargeState::Normal
    }
}

pub open spec fn min_i64(a: i64, b: i64) -> i64 {
    if a <= b {
        a
    } else {
        b
    }
}

/// The cap that battery heat puts on the target while throttling.
pub open spec fn thermal_cap_spec(bat_temp: i32, base: i64) -> i64 {
    if bat_temp >= 50 {
        2000
    } else if bat_temp >= 48 {
        4000
    } else if bat_temp >= 46 {
        7000
    } else if bat_temp >= 44 {
        9000
    } else {
        base
    }
}

/// The target for the state, before the battery-age taper.
pub open spec fn final_target_spec(
    state: ChargeState,
    base: i64,
    bat_temp: i32,
    composite: i32,
    warm: i32,
    hot: i32,
) -> i64 {
    match state {
        ChargeState::Normal => base,
        ChargeState::UnderLoad => min_i64(
            base,
            if composite >= hot {
                1500
            } else if composite >= warm {
                2500
            } else {
                5000
            },
        ),
        ChargeState::ThermalThrottle => min_i64(base, thermal_cap_spec(bat_temp, base)),
        ChargeState::Emergency => min_i64(500, base),
        ChargeState::Disconnected => 0,
    }
}

/// One ramp step from the previous target: a lower target is taken at once,
/// a higher one approached by at most 200 mA per tick.
pub open spec fn ramp_spec(previous: i64, target: i64) -> int {
    if target < previous {
        target as int
    } else if target > previous {
        if previous + 200 > target {
            target as int
        } else {
            previous + 200
        }
    } else {
        previous as int
    }
}

pub fn select_charge_mode(inputs: &ChargingInputs, forced_mode: &Option<ChargeMode>) -> (r:
    ChargeMode)
    ensures
        r == select_mode_spec(*inputs, *forced_mode),
{
    let hot = inputs.battery_temp >= 42;
    let chosen = if !inputs.is_plugged && inputs.plug_state_reliable {
        ChargeMode::Adaptive
    } else if let Some(fm) = forced_mode {
        *fm
    } else if inputs.urgent {
        ChargeMode::Urgent
    } else if inputs.is_gaming {
        ChargeMode::UnderLoad
    } else if inputs.screen_off && inputs.soc > 80 {
        ChargeMode::BatteryCare
    } else if inputs.screen_off && inputs.soc < 50 && inputs.battery_temp < 40 {
        ChargeMode::MaxSpeed
    } else {
        ChargeMode::Adaptive
    };
    if hot && (chosen == ChargeMode::MaxSpeed || chosen == ChargeMode::Urgent) {
        return if inputs.is_gaming {
            ChargeMode::UnderLoad
        } else {
            ChargeMode::Adaptive
        };
    }
    chosen
}

/// The current target in mA for the state of charge and mode.
pub fn soc_target_ma(soc: u8, mode: &ChargeMode) -> (r: i64)
    ensures
        r == soc_target_spec(soc, *mode),
{
    match mode {
        ChargeMode::UnderLoad => {
            if soc < 20 {
                9000
            } else if soc < 40 {
                8750
            } else if soc < 51 {
                8400
            } else if soc < 55 {
                8000
            } else if soc < 60 {
                7000
            } else if soc < 65 {
                6600
            } else if soc < 73 {
                6300
            } else if soc < 76 {
                5600
            } else if soc < 80 {
                4900
            } else if soc < 83 {
                4500
            } else if soc < 86 {
                3800
            } else if soc < 89 {
                3100
            } else if soc < 91 {
                2800
            } else if soc < 93 {
                2500
            } else if soc < 95 {
                2100
            } else if soc < 97 {
                1500
            } else {
                1000
            }
        },
        ChargeMode::MaxSpeed | ChargeMode::Urgent => {
            if soc < 40 {
                9000
            } else if soc < 51 {
                8500
            } else if soc < 60 {
                7500
            } else if soc < 80 {
                6000
            } else {
                3500
            }
        },
        ChargeMode::BatteryCare => {
            if soc < 50 {
                5000
            } else if soc < 80 {
                3000
            } else {
                1000
            }
        },
        ChargeMode::Adaptive => {
            if soc < 20 {
                14000
            } else if soc < 40 {
                12500
            } else if soc < 51 {
                12000
            } else if soc < 55 {
                11500
            } else if soc < 60 {
                10000
            } else if soc < 65 {
                9500
            } else if soc < 73 {
                9000
            } else if soc < 76 {
                8000
            } else if soc < 80 {
                7000
            } else if soc < 83 {
                6500
            } else if soc < 86 {
                5500
            } else if soc < 89 {
                4500
            } else if soc < 91 {
                4000
            } else if soc < 93 {
                3600
            } else if soc < 95 {
                3000
            } else if soc < 97 {
                2200
            } else {
                1500
            }
        },
    }
}

/// The charge state for the inputs and mode.
pub fn next_state(inputs: &ChargingInputs, mode: &ChargeMode) -> (r: ChargeState)
    ensures
        r == next_state_spec(*inputs, *mode),
{
    if inputs.plug_state_reliable {
        if !inputs.is_plugged {
            return ChargeState::Disconnected;
        }
    } else if inputs.soc == 0 {
        return ChargeState::Disconnected;
    }
    if inputs.battery_temp >= 50 || inputs.charger_temp >= 70 || inputs.usb_temp >= 65
        || inputs.pmic_temp >= 70 {
        ChargeState::Emergency
    } else if (inputs.battery_temp >= 44 && *mode != ChargeMode::Urgent) || (inputs.battery_temp
        >= 48 && *mode == ChargeMode::Urgent) || inputs.charger_temp >= 60 || inputs.usb_temp >= 55
        || inputs.pmic_temp >= 60 {
        ChargeState::ThermalThrottle
    } else if *mode == ChargeMode::UnderLoad {
        ChargeState::UnderLoad
    } else {
        ChargeState::Normal
    }
}

/// The target for the state, before the battery-age taper.
pub fn final_target_ma(
    state: ChargeState,
    base: i64,
    bat_temp: i32,
    composite: i32,
    warm: i32,
    hot: i32,
) -> (r: i64)
    ensures
        r == final_target_spec(state, base, bat_temp, composite, warm, hot),
{
    match state {
        ChargeState::Normal => base,
        ChargeState::UnderLoad => {
            let cap: i64 = if composite >= hot {
                1500
            } else if composite >= warm {
                2500
            } else {
                5000
            };
            if base <= cap {
                base
            } else {
                cap
            }
        },
        ChargeState::ThermalThrottle => {
            let cap: i64 = if bat_temp >= 50 {
                2000
            } else if bat_temp >= 48 {
                4000
            } else if bat_temp >= 46 {
                7000
            } else if bat_temp >= 44 {
                9000
            } else {
                base
            };
            if base <= cap {
                base
            } else {
                cap
            }
        },
        ChargeState::Emergency => if 500 <= base {
            500
        } else {
            base
        },
        ChargeState::Disconnected => 0,
    }
}

/// The target never rises as the battery fills, in every mode.
pub proof fn law_soc_target_non_increasing(s1: u8, s2: u8, mode: ChargeMode)
    requires
        s1 <= s2,
    ensures
        soc_target_spec(s2, mode) <= soc_target_spec(s1, mode),
        1000 <= soc_target_spec(s2, mode) <= 14000,
{
}

/// The mode never drives a battery at 42 degrees or more at `MaxSpeed` or
/// `Urgent`.
pub proof fn law_hot_battery_never_fast(i: ChargingInputs, forced: Option<ChargeMode>)
    requires
        i.battery_temp >= 42,
    ensures
        select_mode_spec(i, forced) != ChargeMode::MaxSpeed,
        select_mode_spec(i, forced) != ChargeMode::Urgent,
{
}

/// A ramp step moves down to the target at once and up by at most 200 mA,
/// never past the target.
pub proof fn law_ramp_bounded(previous: i64, target: i64)
    ensures
        ramp_spec(previous, target) <= previous + 200,
        ramp_spec(previous, target) <= target,
        target < previous ==> ramp_spec(previous, target) == target,
        target >= previous ==> ramp_spec(previous, target) >= previous,
{
}

/// Under load the composite temperature caps the target: at most 2500 mA
/// from `temp_warm`, at most 1500 mA from `temp_hot`, and below both the
/// base target up to 5000 mA. The target never exceeds the base, and a
/// hotter device never gets a higher target.
pub proof fn law_under_load_composite_caps(
    base: i64,
    bat_temp: i32,
    composite: i32,
    hotter: i32,
    warm: i32,
    hot: i32,
)
    requires
        composite <= hotter,
    ensures
        final_target_spec(ChargeState::UnderLoad, base, bat_temp, composite, warm, hot) <= base,
        composite >= warm ==> final_target_spec(ChargeState::UnderLoad, base, bat_temp, composite, warm, hot)
            <= 2500,
        composite >= hot ==> final_target_spec(ChargeState::UnderLoad, base, bat_temp, composite, warm, hot)
            <= 1500,
        composite < warm && composite < hot ==> final_target_spec(
            ChargeState::UnderLoad,
            base,
            bat_temp,
            composite,
            warm,
            hot,
        ) == (if base < 5000 {
            base
        } else {
            5000
        }),
        final_target_spec(ChargeState::UnderLoad, base, bat_temp, hotter, warm, hot)
            <= final_target_spec(ChargeState::UnderLoad, base, bat_temp, composite, warm, hot),
{
}

/// In `Emergency` the target is at most 500 mA, and disconnected it is zero.
pub proof fn law_emergency_and_disconnected_targets(
    base: i64,
    bat_temp: i32,
    composite: i32,
    warm: i32,
    hot: i32,
)
    ensures
        final_target_spec(ChargeState::Emergency, base, bat_temp, composite, warm, hot) <= 500,
        final_target_spec(ChargeState::Disconnected, base, bat_temp, composite, warm, hot) == 0,
        final_target_spec(ChargeState::ThermalThrottle, base, bat_temp, composite, warm, hot)
            <= base,
        final_target_spec(ChargeState::UnderLoad, base, bat_temp, composite, warm, hot) <= 5000,
{
}

/// What the text of `charging_mode.json` holds: `None` when it is not
/// JSON; otherwise the boolean under `urgent`, the string under `mode` and
/// the unsigned integer under `expires_at`, each `None` where the key is
/// missing or holds another kind of value.
pub open spec fn override_fields(content: Seq<char>) -> Option<
    (Option<bool>, Option<Seq<char>>, Option<u64>),
> {
    match json_entries(content) {
        Some(es) => Some(
            (
                as_bool(json_get(es, "urgent"@)),
                as_str(json_get(es, "mode"@)),
                as_u64(json_get(es, "expires_at"@)),
            ),
        ),
        None => None,
    }
}

/// Reads `urgent`, `mode` and `expires_at` from the override file's text.
fn parse_override_fields(content: &str) -> (r: Option<(Option<bool>, Option<String>, Option<u64>)>)
    ensures
        r.deep_view() == override_fields(content@),
{
    match parse_json_entries(content) {
        Some(es) => Some((get_bool(&es, "urgent"), get_str(&es, "mode"), get_u64(&es, "expires_at"))),
        None => None,
    }
}

/// Equality of two string slices.
pub fn str_eq(a: &str, b: &str) -> (r: bool)
    ensures
        r == (a@ == b@),
{
    let x = crate::text::chars_of(a);
    let y = crate::text::chars_of(b);
    crate::text::chars_equal(&x, &y)
}

/// The mode an override file forces, from its `mode` value.
pub open spec fn forced_from(mode: Option<Seq<char>>) -> Option<ChargeMode> {
    match mode {
        Some(m) => if m == "MaxSpeed"@ {
            Some(ChargeMode::MaxSpeed)
        } else if m == "BatteryCare"@ {
            Some(ChargeMode::BatteryCare)
        } else {
            None
        },
        None => None,
    }
}

/// The outcome of an override file with the given text at the given time:
/// the urgent flag (`None`: left as measured), the forced mode, and whether
/// the file has expired and is to be removed.
pub open spec fn override_outcome(content: Option<Seq<char>>, now_secs: u64) -> (
    Option<bool>,
    Option<ChargeMode>,
    bool,
) {
    match content {
        None => (None, None, false),
        Some(c) => match override_fields(c) {
            Some((u, m, e)) => {
                let urgent = u == Some(true);
                if urgent {
                    match e {
                        Some(exp) => if now_secs > exp {
                            (Some(false), None, true)
                        } else {
                            (Some(true), forced_from(m), false)
                        },
                        None => (Some(true), forced_from(m), false),
                    }
                } else {
                    (Some(false), forced_from(m), false)
                }
            },
            None => (
                Some(has_infix(c, "\"urgent\": true"@) || has_infix(c, "Urgent"@)),
                None,
                false,
            ),
        },
    }
}

/// Applies the override file: `content` is its text, `None` when it could
/// not be read. Sets the urgent flag and the forced mode, and returns whether
/// the file has expired and is to be removed.
pub fn check_overrides(
    inputs: &mut ChargingInputs,
    content: Option<&str>,
    now_unix_secs: u64,
    forced_mode: &mut Option<ChargeMode>,
) -> (remove_file: bool)
    ensures
        ({
            let c = match content {
                Some(t) => Some(t@),
                None => None,
            };
            let (u, f, rm) = override_outcome(c, now_unix_secs);
            &&& final(inputs).urgent == (match u {
                Some(b) => b,
                None => old(inputs).urgent,
            })
            &&& *final(forced_mode) == f
            &&& remove_file == rm
        }),
        final(inputs).battery_temp == old(inputs).battery_temp,
        final(inputs).charger_temp == old(inputs).charger_temp,
        final(inputs).usb_temp == old(inputs).usb_temp,
        final(inputs).pmic_temp == old(inputs).pmic_temp,
        final(inputs).soc == old(inputs).soc,
        final(inputs).is_plugged == old(inputs).is_plugged,
        final(inputs).plug_state_reliable == old(inputs).plug_state_reliable,
        final(inputs).is_gaming == old(inputs).is_gaming,
        final(inputs).screen_off == old(inputs).screen_off,
        final(inputs).gpu_load == old(inputs).gpu_load,
        final(inputs).seconds_since_plugged == old(inputs).seconds_since_plugged,
        final(inputs).charger_id == old(inputs).charger_id,
        final(inputs).current_now_ua == old(inputs).current_now_ua,
        final(inputs).voltage_now_uv == old(inputs).voltage_now_uv,
        final(inputs).charge_counter_uah == old(inputs).charge_counter_uah,
        final(inputs).composite_temp == old(inputs).composite_temp,
{
    *forced_mode = None;
    let text = match content {
        Some(t) => t,
        None => {
            return false;
        },
    };
    match parse_override_fields(text) {
        Some((u, m, e)) => {
            let ghost gm = m;
            match m {
                Some(ms) => {
                    if str_eq(ms.as_str(), "MaxSpeed") {
                        *forced_mode = Some(ChargeMode::MaxSpeed);
                    } else if str_eq(ms.as_str(), "BatteryCare") {
                        *forced_mode = Some(ChargeMode::BatteryCare);
                    }
                },
                None => {},
            }
            assert(*forced_mode == forced_from(gm.deep_view()));
            let urgent = match u {
                Some(b) => b,
                None => false,
            };
            if urgent {
                match e {
                    Some(exp) => {
                        if now_unix_secs > exp {
                            inputs.urgent = false;
                            *forced_mode = None;
                            return true;
                        } else {
                            inputs.urgent = true;
                        }
                    },
                    None => {
                        inputs.urgent = true;
                    },
                }
            } else {
                inputs.urgent = false;
            }
            false
        },
        None => {
            inputs.urgent = contains_str(text, "\"urgent\": true") || contains_str(text, "Urgent");
            false
        },
    }
}

/// The value a voter node should hold in a mode, by the node's name:
/// `restrict_chg`, `restrict_cur` (in µA), `input_suspend` and
/// `night_charging`; `None` for a node that the mode leaves alone.
pub open spec fn voter_value_spec(
    node: Seq<char>,
    mode: ChargeMode,
    target_ma: i64,
    composite: i32,
    warm: i32,
    hot: i32,
) -> Option<i64> {
    let (restrict, cur_ua, suspend, night): (Option<i64>, Option<i64>, Option<i64>, Option<i64>) =
        match mode {
        ChargeMode::MaxSpeed | ChargeMode::Urgent => (Some(0), Some(0), Some(0), Some(0)),
        ChargeMode::BatteryCare => {
            let cap = if target_ma < 500 {
                500
            } else if target_ma > 3000 {
                3000
            } else {
                target_ma as int
            };
            (Some(1), Some((cap * 1000) as i64), Some(0), Some(0))
        },
        ChargeMode::UnderLoad => {
            let ua: i64 = if composite >= hot {
                1_500_000
            } else if composite >= warm {
                2_500_000
            } else {
                0
            };
            (Some(0), Some(ua), Some(0), Some(0))
        },
        ChargeMode::Adaptive => (None, None, Some(0), None),
    };
    if has_suffix(node, "/restrict_chg"@) {
        restrict
    } else if has_suffix(node, "/restrict_cur"@) {
        cur_ua
    } else if has_suffix(node, "/input_suspend"@) {
        suspend
    } else if has_suffix(node, "/night_charging"@) {
        night
    } else {
        None
    }
}

/// Whether a voter node is reset to `0` on shutdown or disconnect.
pub open spec fn released_on_shutdown(node: Seq<char>) -> bool {
    has_suffix(node, "/restrict_chg"@) || has_suffix(node, "/input_suspend"@) || has_suffix(
        node,
        "/night_charging"@,
    )
}

/// The Qualcomm node that enforces `restrict_cur` when it holds `1`.
pub const RESTRICT_CHG_PATH: &'static str = "/sys/class/qcom-battery/restrict_chg";
/// The Qualcomm node that caps the charge current, in µA.
pub const RESTRICT_CUR_PATH: &'static str = "/sys/class/qcom-battery/restrict_cur";

/// The value one voter node should hold.
pub fn voter_value(
    node: &str,
    mode: &ChargeMode,
    target_ma: i64,
    composite: i32,
    warm: i32,
    hot: i32,
) -> (r: Option<i64>)
    ensures
        r == voter_value_spec(node@, *mode, target_ma, composite, warm, hot),
{
    let (restrict, cur_ua, suspend, night): (Option<i64>, Option<i64>, Option<i64>, Option<i64>) =
        match mode {
        ChargeMode::MaxSpeed | ChargeMode::Urgent => (Some(0), Some(0), Some(0), Some(0)),
        ChargeMode::BatteryCare => {
            let cap: i64 = if target_ma < 500 {
                500
            } else if target_ma > 3000 {
                3000
            } else {
                target_ma
            };
            (Some(1), Some(cap * 1000), Some(0), Some(0))
        },
        ChargeMode::UnderLoad => {
            let ua: i64 = if composite >= hot {
                1_500_000
            } else if composite >= warm {
                2_500_000
            } else {
                0
            };
            (Some(0), Some(ua), Some(0), Some(0))
        },
        ChargeMode::Adaptive => (None, None, Some(0), None),
    };
    if ends_with_str(node, "/restrict_chg") {
        restrict
    } else if ends_with_str(node, "/restrict_cur") {
        cur_ua
    } else if ends_with_str(node, "/input_suspend") {
        suspend
    } else if ends_with_str(node, "/night_charging") {
        night
    } else {
        None
    }
}

/// A write of a whole number to a sysfs node.
#[derive(Debug, Clone)]
pub struct NodeWrite {
    pub path: String,
    pub value: i64,
}

/// How a write of the current limit went.
#[derive(Debug, Clone, Copy, PartialEq, Eq, Structural)]
pub enum LimitWriteOutcome {
    Written,
    /// The node refused the value.
    Rejected,
    /// Permission denied or the node is gone.
    HardRejected,
}

/// What the caller is to do for a current-limit request.
#[derive(Debug, Clone, Copy, PartialEq, Eq, Structural)]
pub enum LimitRequest {
    /// No writable limit node is left; `first_warning` is set the first time.
    NoNodes { first_warning: bool },
    /// Writing the limit has been switched off for this session.
    Disabled,
    /// Write `micro_amps` to the first limit node that takes it.
    Write { rounded_ma: i64, micro_amps: i64 },
}

/// `ma` clamped to `[500, 9000]` and rounded to the nearest 100 mA.
pub open spec fn rounded_limit_spec(ma: i64) -> int {
    let c = if ma < 500 {
        500
    } else if ma > 9000 {
        9000
    } else {
        ma as int
    };
    ((c + 50) / 100) * 100
}

/// A limit request is always within `[500, 9000]` mA and a multiple of
/// 100 mA.
pub proof fn law_limit_in_range(ma: i64)
    ensures
        500 <= rounded_limit_spec(ma) <= 9000,
        rounded_limit_spec(ma) % 100 == 0,
{
    let c = if ma < 500 {
        500
    } else if ma > 9000 {
        9000
    } else {
        ma as int
    };
    assert(((c + 50) / 100) * 100 <= c + 50) by (nonlinear_arith)
        requires
            500 <= c <= 9000,
    ;
    assert(((c + 50) / 100) * 100 >= c - 50) by (nonlinear_arith)
        requires
            500 <= c <= 9000,
    ;
    assert((((c + 50) / 100) * 100) % 100 == 0) by (nonlinear_arith);
}

/// The figures of a finished charging session.
#[derive(Debug, Clone, Copy, PartialEq, Eq)]
pub struct SessionSummary {
    pub start_soc: u8,
    pub end_soc: u8,
    pub duration_sec: u64,
    pub peak_batt_temp: i32,
    pub peak_usb_temp: i32,
    pub peak_pmic_temp: i32,
    pub thermal_reductions: u32,
    pub thermal_recoveries: u32,
    pub avg_current_ua: i64,
    pub avg_power_uw: i64,
    pub samples: u32,
}

/// What the first step of a tick found.
#[derive(Debug, Clone)]
pub struct TickStart {
    /// The charge state now in force.
    pub state: ChargeState,
    /// The voter writes the mode asks for, to be made where a node differs.
    pub voter_writes: Vec<NodeWrite>,
    /// The session that the disconnect ended.
    pub session_finished: Option<SessionSummary>,
    /// A session began: the caller dumps the charger diagnostics once and
    /// clears `restrict_chg`/`restrict_cur` once.
    pub session_started: bool,
    /// The target before thermal caps.
    pub base_target: i64,
    /// The target after thermal caps, before the battery-age taper; zero
    /// when disconnected, in which case the tick ends here.
    pub final_target: i64,
}

/// The step of a tick that sets the current target.
#[derive(Debug, Clone, Copy, PartialEq, Eq)]
pub struct LimitPlan {
    pub target_ma: i64,
    /// Whether to write the limit now.
    pub attempt: bool,
}

/// The writes as (path, value) pairs.
pub open spec fn writes_view(w: Seq<NodeWrite>) -> Seq<(Seq<char>, i64)> {
    w.map_values(|x: NodeWrite| (x.path@, x.value))
}

/// The voter writes for a list of nodes: each node with a value, in order.
pub open spec fn voter_plan_spec(
    nodes: Seq<Seq<char>>,
    mode: ChargeMode,
    target_ma: i64,
    composite: i32,
    warm: i32,
    hot: i32,
) -> Seq<(Seq<char>, i64)>
    decreases nodes.len(),
{
    if nodes.len() == 0 {
        Seq::empty()
    } else {
        let rest = voter_plan_spec(nodes.drop_last(), mode, target_ma, composite, warm, hot);
        match voter_value_spec(nodes.last(), mode, target_ma, composite, warm, hot) {
            Some(v) => rest.push((nodes.last(), v)),
            None => rest,
        }
    }
}

/// The contents of a sequence of strings.
pub open spec fn string_views(s: Seq<String>) -> Seq<Seq<char>> {
    s.map_values(|x: String| x@)
}

pub struct ChargingEngine {
    pub limit_nodes: Vec<String>,
    pub active_limit_ma: i64,
    pub previous_target: i64,
    pub current_state: ChargeState,
    pub learned_stable_current: i64,
    pub session_start_soc: u8,
    pub taper_started_at_ms: Option<u64>,
    pub re_enforce_at_ms: u64,
    pub charge_mode: ChargeMode,
    pub session_peak_temp: i32,
    pub session_start_ms: Option<u64>,
    pub session_peak_usb_temp: i32,
    pub session_peak_pmic_temp: i32,
    pub thermal_reduction_count: u32,
    pub recovery_count: u32,
    pub total_current_ua_samples: i64,
    pub total_power_uw_samples: i64,
    pub sample_count: u32,
    pub consecutive_failures: u32,
    pub last_known_good_ma: Option<i64>,
    pub rejected_ceiling: Option<i64>,
    pub last_apply_attempt_ms: Option<u64>,
    pub limit_write_failure_count: u32,
    pub limit_write_disabled: bool,
    pub no_nodes_warned: bool,
    pub voter_nodes: Vec<String>,
    pub voter_dump_done: bool,
    pub forced_mode: Option<ChargeMode>,
    pub thermal_temp_warm: i32,
    pub thermal_temp_hot: i32,
}

pub open spec fn abs_spec(x: i64) -> int {
    if x < 0 {
        -x
    } else {
        x as int
    }
}

/// `a / b` rounded towards zero, as integer division does.
pub open spec fn trunc_div(a: int, b: int) -> int {
    if a >= 0 {
        a / b
    } else {
        -((-a) / b)
    }
}

/// The figures of the session an engine holds, ended at `final_soc` and
/// `now`: averages are over the samples, rounded towards zero (zero
/// without samples).
pub open spec fn summary_spec(e: ChargingEngine, final_soc: u8, now: u64) -> SessionSummary {
    SessionSummary {
        start_soc: e.session_start_soc,
        end_soc: final_soc,
        duration_sec: (match e.session_start_ms {
            Some(t) => since_ms(t, now) / 1000,
            None => 0,
        }) as u64,
        peak_batt_temp: e.session_peak_temp,
        peak_usb_temp: e.session_peak_usb_temp,
        peak_pmic_temp: e.session_peak_pmic_temp,
        thermal_reductions: e.thermal_reduction_count,
        thermal_recoveries: e.recovery_count,
        avg_current_ua: if e.sample_count > 0 {
            trunc_div(e.total_current_ua_samples as int, e.sample_count as int) as i64
        } else {
            0
        },
        avg_power_uw: if e.sample_count > 0 {
            trunc_div(e.total_power_uw_samples as int, e.sample_count as int) as i64
        } else {
            0
        },
        samples: e.sample_count,
    }
}

pub open spec fn max_i32(a: i32, b: i32) -> i32 {
    if a > b {
        a
    } else {
        b
    }
}

/// The engine after the first step of a tick. The battery peak rises to the
/// reading. Disconnected: the mode and state are set, and ending a session
/// re-arms the limit writes. Connected: a session that begins resets its
/// figures (start, peaks, counters, sums, learned current); the USB and PMIC
/// peaks rise to the readings; a current reading adds its magnitude, the
/// power and one sample to the sums; entering `ThermalThrottle` counts a
/// reduction, and leaving it for `Normal` a recovery.
pub open spec fn begin_state_spec(e: ChargingEngine, i: ChargingInputs, now: u64, power_uw: Option<i64>) -> ChargingEngine {
    let peak0 = max_i32(e.session_peak_temp, i.battery_temp);
    let mode = select_mode_spec(i, e.forced_mode);
    let next = next_state_spec(i, mode);
    if next == ChargeState::Disconnected {
        let finished = e.current_state != ChargeState::Disconnected;
        ChargingEngine {
            session_peak_temp: peak0,
            charge_mode: mode,
            current_state: next,
            limit_write_failure_count: if finished {
                0
            } else {
                e.limit_write_failure_count
            },
            limit_write_disabled: if finished {
                false
            } else {
                e.limit_write_disabled
            },
            ..e
        }
    } else {
        let started = e.current_state == ChargeState::Disconnected;
        let e1 = if started {
            ChargingEngine {
                learned_stable_current: soc_target_spec(i.soc, mode),
                session_start_soc: i.soc,
                session_peak_temp: i.battery_temp,
                session_start_ms: Some(now),
                session_peak_usb_temp: i.usb_temp,
                session_peak_pmic_temp: i.pmic_temp,
                thermal_reduction_count: 0,
                recovery_count: 0,
                total_current_ua_samples: 0,
                total_power_uw_samples: 0,
                sample_count: 0,
                voter_dump_done: true,
                charge_mode: mode,
                ..e
            }
        } else {
            ChargingEngine { session_peak_temp: peak0, charge_mode: mode, ..e }
        };
        let throttled = next == ChargeState::ThermalThrottle && e.current_state
            != ChargeState::ThermalThrottle;
        let recovered = !throttled && e.current_state == ChargeState::ThermalThrottle && next
            == ChargeState::Normal;
        ChargingEngine {
            session_peak_usb_temp: max_i32(e1.session_peak_usb_temp, i.usb_temp),
            session_peak_pmic_temp: max_i32(e1.session_peak_pmic_temp, i.pmic_temp),
            total_current_ua_samples: match i.current_now_ua {
                Some(c) => (e1.total_current_ua_samples + abs_spec(c)) as i64,
                None => e1.total_current_ua_samples,
            },
            total_power_uw_samples: match (i.current_now_ua, power_uw) {
                (Some(_), Some(p)) => (e1.total_power_uw_samples + p) as i64,
                _ => e1.total_power_uw_samples,
            },
            sample_count: match i.current_now_ua {
                Some(_) => (e1.sample_count + 1) as u32,
                None => e1.sample_count,
            },
            thermal_reduction_count: if throttled {
                (e1.thermal_reduction_count + 1) as u32
            } else {
                e1.thermal_reduction_count
            },
            recovery_count: if recovered {
                (e1.recovery_count + 1) as u32
            } else {
                e1.recovery_count
            },
            current_state: next,
            ..e1
        }
    }
}

/// Milliseconds from `since` to `now`, zero when `now` is earlier.
pub open spec fn since_ms(since: u64, now: u64) -> int {
    if now >= since {
        now - since
    } else {
        0
    }
}

impl ChargingEngine {
    /// A disconnected engine at 3000 mA that drives the given nodes.
    pub fn new(
        profile: &crate::hardware::ChargingProfile,
        thermal_temp_warm: i32,
        thermal_temp_hot: i32,
        now_ms: u64,
    ) -> (r: Self)
        ensures
            r.limit_nodes.deep_view() == profile.current_limit_nodes.deep_view(),
            r.voter_nodes.deep_view() == profile.voter_nodes.deep_view(),
            r.current_state == ChargeState::Disconnected,
            r.charge_mode == ChargeMode::Adaptive,
            r.active_limit_ma == 0,
            r.previous_target == 3000,
            r.learned_stable_current == 3000,
            r.re_enforce_at_ms == now_ms,
            r.session_start_ms.is_none(),
            r.last_known_good_ma.is_none(),
            r.rejected_ceiling.is_none(),
            r.last_apply_attempt_ms.is_none(),
            r.forced_mode.is_none(),
            r.consecutive_failures == 0,
            r.limit_write_failure_count == 0,
            !r.limit_write_disabled,
            !r.no_nodes_warned,
            !r.voter_dump_done,
            r.sample_count == 0,
            r.total_current_ua_samples == 0,
            r.total_power_uw_samples == 0,
            r.thermal_reduction_count == 0,
            r.recovery_count == 0,
            r.session_peak_temp == 0,
            r.thermal_temp_warm == thermal_temp_warm,
            r.thermal_temp_hot == thermal_temp_hot,
    {
        ChargingEngine {
            limit_nodes: crate::hardware::clone_strings(&profile.current_limit_nodes),
            active_limit_ma: 0,
            previous_target: 3000,
            current_state: ChargeState::Disconnected,
            learned_stable_current: 3000,
            session_start_soc: 0,
            taper_started_at_ms: None,
            re_enforce_at_ms: now_ms,
            charge_mode: ChargeMode::Adaptive,
            session_peak_temp: 0,
            session_start_ms: None,
            session_peak_usb_temp: 0,
            session_peak_pmic_temp: 0,
            thermal_reduction_count: 0,
            recovery_count: 0,
            total_current_ua_samples: 0,
            total_power_uw_samples: 0,
            sample_count: 0,
            consecutive_failures: 0,
            last_known_good_ma: None,
            rejected_ceiling: None,
            last_apply_attempt_ms: None,
            limit_write_failure_count: 0,
            limit_write_disabled: false,
            no_nodes_warned: false,
            voter_nodes: crate::hardware::clone_strings(&profile.voter_nodes),
            voter_dump_done: false,
            forced_mode: None,
            thermal_temp_warm,
            thermal_temp_hot,
        }
    }

    /// The voter writes the mode asks for: every voter node with a value,
    /// in the order of the nodes.
    pub fn voter_plan(&self, mode: &ChargeMode, target_ma: i64, composite_temp: i32) -> (r: Vec<
        NodeWrite,
    >)
        ensures
            writes_view(r@) == voter_plan_spec(
                self.voter_nodes.deep_view(),
                *mode,
                target_ma,
                composite_temp,
                self.thermal_temp_warm,
                self.thermal_temp_hot,
            ),
    {
        let ghost nodes = self.voter_nodes.deep_view();
        let mut out: Vec<NodeWrite> = Vec::new();
        let mut i: usize = 0;
        while i < self.voter_nodes.len()
            invariant
                0 <= i <= self.voter_nodes.len(),
                nodes == self.voter_nodes.deep_view(),
                writes_view(out@) == voter_plan_spec(
                    nodes.take(i as int),
                    *mode,
                    target_ma,
                    composite_temp,
                    self.thermal_temp_warm,
                    self.thermal_temp_hot,
                ),
            decreases self.voter_nodes.len() - i,
        {
            let node = &self.voter_nodes[i];
            proof {
                assert(nodes.take(i + 1).drop_last() =~= nodes.take(i as int));
                assert(nodes.take(i + 1).last() == node@);
            }
            match voter_value(
                node.as_str(),
                mode,
                target_ma,
                composite_temp,
                self.thermal_temp_warm,
                self.thermal_temp_hot,
            ) {
                Some(v) => {
                    let w = NodeWrite { path: node.clone(), value: v };
                    let ghost before = out@;
                    out.push(w);
                    assert(writes_view(out@) =~= writes_view(before).push((node@, v)));
                },
                None => {},
            }
            i = i + 1;
        }
        assert(nodes.take(self.voter_nodes.len() as int) =~= nodes);
        out
    }

    /// The voter nodes reset to `0` on shutdown, in order: those named
    /// `restrict_chg`, `input_suspend` or `night_charging`. The caller also
    /// writes `0` to [`RESTRICT_CHG_PATH`] and [`RESTRICT_CUR_PATH`] where
    /// they exist.
    pub fn release_voters_on_shutdown(&self) -> (r: Vec<String>)
        ensures
            r.deep_view() == self.voter_nodes.deep_view().filter(|n: Seq<char>| released_on_shutdown(n)),
    {
        let ghost nodes = self.voter_nodes.deep_view();
        let mut out: Vec<String> = Vec::new();
        let mut i: usize = 0;
        while i < self.voter_nodes.len()
            invariant
                0 <= i <= self.voter_nodes.len(),
                nodes == self.voter_nodes.deep_view(),
                out.deep_view() == nodes.take(i as int).filter(|n: Seq<char>| released_on_shutdown(n)),
            decreases self.voter_nodes.len() - i,
        {
            let node = &self.voter_nodes[i];
            let s = node.as_str();
            proof {
                assert(nodes.take(i + 1).drop_last() =~= nodes.take(i as int));
                assert(nodes.take(i + 1).last() == node@);
                nodes.take(i as int).lemma_filter_push(node@, |n: Seq<char>| released_on_shutdown(n));
                assert(nodes.take(i as int).push(node@) =~= nodes.take(i + 1));
            }
            if ends_with_str(s, "/restrict_chg") || ends_with_str(s, "/input_suspend")
                || ends_with_str(s, "/night_charging") {
                let c = node.clone();
                let ghost before = out@;
                out.push(c);
                assert(out.deep_view() =~= string_views(before).push(node@)) by {
                    assert forall|k: int| 0 <= k < out.len() implies out.deep_view()[k] == string_views(before).push(node@)[k] by {
                        if k < before.len() {
                            assert(out@[k] == before[k]);
                        }
                    }
                }
            }
            i = i + 1;
        }
        assert(nodes.take(self.voter_nodes.len() as int) =~= nodes);
        out
    }
}

impl ChargingEngine {
    /// Whether the counters of this tick stay in range: the current and power
    /// sums, the sample count and the throttle counters. The caller checks
    /// it before [`ChargingEngine::begin_tick`].
    pub open spec fn tick_fits(&self, inputs: ChargingInputs, power_uw: Option<i64>) -> bool {
        &&& match inputs.current_now_ua {
            Some(c) => {
                &&& c != i64::MIN
                &&& self.total_current_ua_samples + abs_spec(c) <= i64::MAX
                &&& self.sample_count < u32::MAX
                &&& match power_uw {
                    Some(p) => i64::MIN <= self.total_power_uw_samples + p <= i64::MAX,
                    None => true,
                }
            },
            None => true,
        }
        &&& self.thermal_reduction_count < u32::MAX
        &&& self.recovery_count < u32::MAX
    }

    /// [`ChargingEngine::tick_fits`] for the caller.
    pub fn can_record(&self, inputs: &ChargingInputs, power_uw: Option<i64>) -> (r: bool)
        ensures
            r == self.tick_fits(*inputs, power_uw),
    {
        let counters = self.thermal_reduction_count < u32::MAX && self.recovery_count < u32::MAX;
        match inputs.current_now_ua {
            Some(c) => {
                if c == i64::MIN || self.sample_count == u32::MAX {
                    return false;
                }
                let a: i64 = if c < 0 {
                    -c
                } else {
                    c
                };
                if self.total_current_ua_samples > i64::MAX - a {
                    return false;
                }
                match power_uw {
                    Some(p) => {
                        let t = self.total_power_uw_samples as i128 + p as i128;
                        counters && i64::MIN as i128 <= t && t <= i64::MAX as i128
                    },
                    None => counters,
                }
            },
            None => counters,
        }
    }

    /// The figures of the session so far, ended at `final_soc` at `now_ms`.
    pub fn session_summary(&self, final_soc: u8, now_ms: u64) -> (r: SessionSummary)
        ensures
            r.start_soc == self.session_start_soc,
            r.end_soc == final_soc,
            r.duration_sec == (match self.session_start_ms {
                Some(t) => since_ms(t, now_ms) / 1000,
                None => 0,
            }),
            r.peak_batt_temp == self.session_peak_temp,
            r.peak_usb_temp == self.session_peak_usb_temp,
            r.peak_pmic_temp == self.session_peak_pmic_temp,
            r.thermal_reductions == self.thermal_reduction_count,
            r.thermal_recoveries == self.recovery_count,
            r.samples == self.sample_count,
            r == summary_spec(*self, final_soc, now_ms),
            self.sample_count == 0 ==> r.avg_current_ua == 0 && r.avg_power_uw == 0,
            self.sample_count > 0 ==> r.avg_current_ua == trunc_div(
                self.total_current_ua_samples as int,
                self.sample_count as int,
            ) && r.avg_power_uw == trunc_div(
                self.total_power_uw_samples as int,
                self.sample_count as int,
            ),
    {
        let duration = match self.session_start_ms {
            Some(t) => now_ms.saturating_sub(t) / 1000,
            None => 0,
        };
        let mut avg_current: i64 = 0;
        let mut avg_power: i64 = 0;
        if self.sample_count > 0 {
            avg_current = self.total_current_ua_samples / (self.sample_count as i64);
            avg_power = self.total_power_uw_samples / (self.sample_count as i64);
        }
        SessionSummary {
            start_soc: self.session_start_soc,
            end_soc: final_soc,
            duration_sec: duration,
            peak_batt_temp: self.session_peak_temp,
            peak_usb_temp: self.session_peak_usb_temp,
            peak_pmic_temp: self.session_peak_pmic_temp,
            thermal_reductions: self.thermal_reduction_count,
            thermal_recoveries: self.recovery_count,
            avg_current_ua: avg_current,
            avg_power_uw: avg_power,
            samples: self.sample_count,
        }
    }

    /// The first step of a tick, on inputs that already carry the override:
    /// tracks the peak battery temperature, picks the mode, plans the voter
    /// writes, moves the charge state, ends or starts a session, records the
    /// current and power samples and the throttle counters, and computes the
    /// target. `power_uw` is the power of this sample when both current and
    /// voltage were read.
    pub fn begin_tick(&mut self, inputs: &ChargingInputs, now_ms: u64, power_uw: Option<i64>) -> (r:
        TickStart)
        requires
            old(self).tick_fits(*inputs, power_uw),
        ensures
            *final(self) == begin_state_spec(*old(self), *inputs, now_ms, power_uw),
            r.session_finished == (if r.state == ChargeState::Disconnected && old(self).current_state
                != ChargeState::Disconnected {
                Some(
                    summary_spec(
                        ChargingEngine {
                            session_peak_temp: max_i32(old(self).session_peak_temp, inputs.battery_temp),
                            ..*old(self)
                        },
                        inputs.soc,
                        now_ms,
                    ),
                )
            } else {
                None
            }),
            final(self).charge_mode == select_mode_spec(*inputs, old(self).forced_mode),
            r.state == next_state_spec(*inputs, final(self).charge_mode),
            final(self).current_state == r.state,
            writes_view(r.voter_writes@) == voter_plan_spec(
                old(self).voter_nodes.deep_view(),
                final(self).charge_mode,
                old(self).learned_stable_current,
                inputs.composite_temp,
                old(self).thermal_temp_warm,
                old(self).thermal_temp_hot,
            ),
            final(self).voter_nodes == old(self).voter_nodes,
            final(self).limit_nodes == old(self).limit_nodes,
            final(self).previous_target == old(self).previous_target,
            final(self).forced_mode == old(self).forced_mode,
            r.state == ChargeState::Disconnected ==> {
                &&& r.final_target == 0
                &&& !r.session_started
                &&& (old(self).current_state != ChargeState::Disconnected) == r.session_finished.is_some()
                &&& old(self).current_state != ChargeState::Disconnected ==> {
                    &&& !final(self).limit_write_disabled
                    &&& final(self).limit_write_failure_count == 0
                }
            },
            r.state != ChargeState::Disconnected ==> {
                &&& r.session_finished.is_none()
                &&& r.session_started == (old(self).current_state == ChargeState::Disconnected)
                &&& r.base_target == soc_target_spec(inputs.soc, final(self).charge_mode)
                &&& r.final_target == final_target_spec(
                    r.state,
                    r.base_target,
                    inputs.battery_temp,
                    inputs.composite_temp,
                    old(self).thermal_temp_warm,
                    old(self).thermal_temp_hot,
                )
                &&& r.session_started ==> {
                    &&& final(self).session_start_ms == Some(now_ms)
                    &&& final(self).session_start_soc == inputs.soc
                    &&& final(self).learned_stable_current == r.base_target
                    &&& final(self).voter_dump_done
                }
                &&& !r.session_started ==> final(self).learned_stable_current
                    == old(self).learned_stable_current
                &&& final(self).session_peak_usb_temp >= inputs.usb_temp
                &&& final(self).session_peak_pmic_temp >= inputs.pmic_temp
                &&& final(self).session_peak_temp >= inputs.battery_temp
            },
    {
        let soc = inputs.soc;
        let bat_temp = inputs.battery_temp;
        if bat_temp > self.session_peak_temp {
            self.session_peak_temp = bat_temp;
        }
        self.charge_mode = select_charge_mode(inputs, &self.forced_mode);
        let mode = self.charge_mode;
        let voter_writes = self.voter_plan(&mode, self.learned_stable_current, inputs.composite_temp);
        let next = next_state(inputs, &mode);
        if next == ChargeState::Disconnected {
            let mut finished: Option<SessionSummary> = None;
            if self.current_state != ChargeState::Disconnected {
                finished = Some(self.session_summary(soc, now_ms));
                self.limit_write_failure_count = 0;
                self.limit_write_disabled = false;
            }
            self.current_state = next;
            return TickStart {
                state: next,
                voter_writes,
                session_finished: finished,
                session_started: false,
                base_target: 0,
                final_target: 0,
            };
        }
        let started = self.current_state == ChargeState::Disconnected;
        if started {
            self.learned_stable_current = soc_target_ma(soc, &mode);
            self.session_start_soc = soc;
            self.session_peak_temp = bat_temp;
            self.session_start_ms = Some(now_ms);
            self.session_peak_usb_temp = inputs.usb_temp;
            self.session_peak_pmic_temp = inputs.pmic_temp;
            self.thermal_reduction_count = 0;
            self.recovery_count = 0;
            self.total_current_ua_samples = 0;
            self.total_power_uw_samples = 0;
            self.sample_count = 0;
            self.voter_dump_done = true;
        }
        if inputs.usb_temp > self.session_peak_usb_temp {
            self.session_peak_usb_temp = inputs.usb_temp;
        }
        if inputs.pmic_temp > self.session_peak_pmic_temp {
            self.session_peak_pmic_temp = inputs.pmic_temp;
        }
        match inputs.current_now_ua {
            Some(c) => {
                let a: i64 = if c < 0 {
                    -c
                } else {
                    c
                };
                self.total_current_ua_samples = self.total_current_ua_samples + a;
                match power_uw {
                    Some(p) => {
                        self.total_power_uw_samples = self.total_power_uw_samples + p;
                    },
                    None => {},
                }
                self.sample_count = self.sample_count + 1;
            },
            None => {},
        }
        if next == ChargeState::ThermalThrottle && self.current_state
            != ChargeState::ThermalThrottle {
            self.thermal_reduction_count = self.thermal_reduction_count + 1;
        } else if self.current_state == ChargeState::ThermalThrottle && next
            == ChargeState::Normal {
            self.recovery_count = self.recovery_count + 1;
        }
        self.current_state = next;
        let base_target = soc_target_ma(soc, &mode);
        let final_target = final_target_ma(
            next,
            base_target,
            bat_temp,
            inputs.composite_temp,
            self.thermal_temp_warm,
            self.thermal_temp_hot,
        );
        TickStart {
            state: next,
            voter_writes,
            session_finished: None,
            session_started: started,
            base_target,
            final_target,
        }
    }
}

/// The target after the ramp and the rejected ceiling: at or above a
/// ceiling that the node rejected, the target falls back to the last value
/// that was accepted, when that is lower.
pub open spec fn ceiling_spec(ramped: int, ceiling: Option<i64>, good: Option<i64>) -> int {
    match ceiling {
        Some(c) => if ramped >= c {
            match good {
                Some(g) => if g <= ramped {
                    g as int
                } else {
                    ramped
                },
                None => ramped,
            }
        } else {
            ramped
        },
        None => ramped,
    }
}

impl ChargingEngine {
    /// Whether a limit write may be attempted at `now_ms`: the session has
    /// run three seconds and the last attempt is 2.5 s old.
    pub open spec fn ready_spec(&self, now_ms: u64) -> bool {
        &&& match self.session_start_ms {
            Some(t) => since_ms(t, now_ms) / 1000 >= 3,
            None => true,
        }
        &&& match self.last_apply_attempt_ms {
            Some(last) => since_ms(last, now_ms) >= 2500,
            None => true,
        }
    }

    /// The second step of a tick, after the battery-age taper: ramps from
    /// the previous target towards `final_target`, respects a rejected
    /// ceiling, raises the learned stable current, and decides whether to
    /// write the limit now (when ready and the limit differs or was last
    /// enforced more than 30 s ago).
    pub fn plan_limit(&mut self, final_target: i64, base_target: i64, now_ms: u64) -> (r: LimitPlan)
        ensures
            r.target_ma == ceiling_spec(
                ramp_spec(old(self).previous_target, final_target),
                old(self).rejected_ceiling,
                old(self).last_known_good_ma,
            ),
            final(self).learned_stable_current == (if final_target > old(
                self,
            ).learned_stable_current {
                if min_i64(final_target, base_target) > old(self).learned_stable_current {
                    min_i64(final_target, base_target)
                } else {
                    old(self).learned_stable_current
                }
            } else {
                old(self).learned_stable_current
            }),
            r.attempt == (old(self).ready_spec(now_ms) && (old(self).active_limit_ma
                != r.target_ma || since_ms(old(self).re_enforce_at_ms, now_ms) / 1000 > 30)),
            final(self).last_apply_attempt_ms == (if r.attempt {
                Some(now_ms)
            } else {
                old(self).last_apply_attempt_ms
            }),
            final(self).previous_target == old(self).previous_target,
            final(self).limit_nodes == old(self).limit_nodes,
            final(self).voter_nodes == old(self).voter_nodes,
            final(self).consecutive_failures == old(self).consecutive_failures,
            final(self).last_known_good_ma == old(self).last_known_good_ma,
            final(self).rejected_ceiling == old(self).rejected_ceiling,
            final(self).re_enforce_at_ms == old(self).re_enforce_at_ms,
            final(self).active_limit_ma == old(self).active_limit_ma,
            final(self).limit_write_disabled == old(self).limit_write_disabled,
            final(self).limit_write_failure_count == old(self).limit_write_failure_count,
    {
        let prev = self.previous_target;
        let mut target: i64 = prev;
        if final_target < prev {
            target = final_target;
        } else if final_target > prev {
            if (final_target as i128 - prev as i128) < 200 {
                target = final_target;
            } else {
                target = prev + 200;
            }
        }
        match self.rejected_ceiling {
            Some(ceiling) => {
                if target >= ceiling {
                    match self.last_known_good_ma {
                        Some(g) => {
                            if g <= target {
                                target = g;
                            }
                        },
                        None => {},
                    }
                }
            },
            None => {},
        }
        if final_target > self.learned_stable_current {
            let m = if final_target <= base_target {
                final_target
            } else {
                base_target
            };
            if m > self.learned_stable_current {
                self.learned_stable_current = m;
            }
        }
        let settled = match self.session_start_ms {
            Some(t) => now_ms.saturating_sub(t) / 1000 >= 3,
            None => true,
        };
        let ready = settled && match self.last_apply_attempt_ms {
            Some(last) => now_ms.saturating_sub(last) >= 2500,
            None => true,
        };
        let attempt = ready && (self.active_limit_ma != target || now_ms.saturating_sub(
            self.re_enforce_at_ms,
        ) / 1000 > 30);
        if attempt {
            self.last_apply_attempt_ms = Some(now_ms);
        }
        LimitPlan { target_ma: target, attempt }
    }

    /// Prepares writing the limit `ma`: drops the limit nodes that are
    /// blacklisted, and asks for a write of `ma` clamped to `[500, 9000]` mA
    /// and rounded to 100 mA, unless no node is left or writing is off.
    pub fn prepare_limit(&mut self, ma: i64, blacklist: &SysfsBlacklist) -> (r: LimitRequest)
        ensures
            final(self).limit_nodes.deep_view() == old(self).limit_nodes.deep_view().filter(
                |n: Seq<char>| !blacklist.paths().contains(n),
            ),
            final(self).limit_nodes.len() == 0 ==> {
                &&& r == LimitRequest::NoNodes { first_warning: !old(self).no_nodes_warned }
                &&& final(self).no_nodes_warned
            },
            final(self).limit_nodes.len() > 0 ==> {
                &&& final(self).no_nodes_warned == old(self).no_nodes_warned
                &&& if old(self).limit_write_disabled {
                    r == LimitRequest::Disabled
                } else {
                    r == LimitRequest::Write {
                        rounded_ma: rounded_limit_spec(ma) as i64,
                        micro_amps: (rounded_limit_spec(ma) * 1000) as i64,
                    }
                }
            },
            final(self).limit_write_disabled == old(self).limit_write_disabled,
            final(self).limit_write_failure_count == old(self).limit_write_failure_count,
            final(self).active_limit_ma == old(self).active_limit_ma,
            final(self).rejected_ceiling == old(self).rejected_ceiling,
            final(self).voter_nodes == old(self).voter_nodes,
    {
        let ghost nodes = self.limit_nodes.deep_view();
        let mut kept: Vec<String> = Vec::new();
        let mut i: usize = 0;
        while i < self.limit_nodes.len()
            invariant
                0 <= i <= self.limit_nodes.len(),
                nodes == self.limit_nodes.deep_view(),
                kept.deep_view() == nodes.take(i as int).filter(
                    |n: Seq<char>| !blacklist.paths().contains(n),
                ),
            decreases self.limit_nodes.len() - i,
        {
            let node = &self.limit_nodes[i];
            proof {
                assert(nodes.take(i + 1).drop_last() =~= nodes.take(i as int));
                nodes.take(i as int).lemma_filter_push(
                    node@,
                    |n: Seq<char>| !blacklist.paths().contains(n),
                );
                assert(nodes.take(i as int).push(node@) =~= nodes.take(i + 1));
            }
            if !blacklist.is_sysfs_blacklisted(node.as_str()) {
                let c = node.clone();
                let ghost before = kept@;
                kept.push(c);
                assert(kept.deep_view() =~= string_views(before).push(node@)) by {
                    assert forall|k: int| 0 <= k < kept.len() implies kept.deep_view()[k]
                        == string_views(before).push(node@)[k] by {
                        if k < before.len() {
                            assert(kept@[k] == before[k]);
                        }
                    }
                }
            }
            i = i + 1;
        }
        assert(nodes.take(self.limit_nodes.len() as int) =~= nodes);
        self.limit_nodes = kept;
        if self.limit_nodes.len() == 0 {
            let first = !self.no_nodes_warned;
            self.no_nodes_warned = true;
            return LimitRequest::NoNodes { first_warning: first };
        }
        if self.limit_write_disabled {
            return LimitRequest::Disabled;
        }
        let clamped: i64 = if ma < 500 {
            500
        } else if ma > 9000 {
            9000
        } else {
            ma
        };
        let rounded = ((clamped + 50) / 100) * 100;
        proof {
            law_limit_in_range(ma);
        }
        LimitRequest::Write { rounded_ma: rounded, micro_amps: rounded * 1000 }
    }

    /// Takes the outcome of writing `rounded_ma`: a success makes it the
    /// active limit; five failures in a row (or one hard rejection) switch
    /// writing off for the session, blacklist the first node and record the
    /// value as a rejected ceiling. Returns whether the limit was applied.
    pub fn finish_limit(
        &mut self,
        rounded_ma: i64,
        outcome: LimitWriteOutcome,
        blacklist: &mut SysfsBlacklist,
    ) -> (ok: bool)
        requires
            old(self).limit_nodes.len() > 0,
        ensures
            ok == (outcome == LimitWriteOutcome::Written),
            ok ==> {
                &&& final(self).limit_write_failure_count == 0
                &&& final(self).active_limit_ma == rounded_ma
                &&& final(self).limit_write_disabled == old(self).limit_write_disabled
                &&& final(self).rejected_ceiling == old(self).rejected_ceiling
                &&& final(blacklist).paths() == old(blacklist).paths()
            },
            !ok ==> {
                let count: int = if outcome == LimitWriteOutcome::HardRejected {
                    5
                } else if old(self).limit_write_failure_count == u32::MAX {
                    u32::MAX as int
                } else {
                    old(self).limit_write_failure_count + 1
                };
                &&& final(self).limit_write_failure_count == count
                &&& final(self).active_limit_ma == old(self).active_limit_ma
                &&& if count >= 5 {
                    &&& final(self).limit_write_disabled
                    &&& final(self).rejected_ceiling == Some(rounded_ma)
                    &&& final(blacklist).paths() == old(blacklist).paths().insert(
                        old(self).limit_nodes[0]@,
                    )
                } else {
                    &&& final(self).limit_write_disabled == old(self).limit_write_disabled
                    &&& final(self).rejected_ceiling == old(self).rejected_ceiling
                    &&& final(blacklist).paths() == old(blacklist).paths()
                }
            },
            final(self).limit_nodes == old(self).limit_nodes,
            final(self).voter_nodes == old(self).voter_nodes,
            final(self).consecutive_failures == old(self).consecutive_failures,
            final(self).last_known_good_ma == old(self).last_known_good_ma,
            final(self).previous_target == old(self).previous_target,
    {
        match outcome {
            LimitWriteOutcome::Written => {
                self.limit_write_failure_count = 0;
                self.active_limit_ma = rounded_ma;
                true
            },
            _ => {
                if outcome == LimitWriteOutcome::HardRejected {
                    self.limit_write_failure_count = 5;
                } else if self.limit_write_failure_count < u32::MAX {
                    self.limit_write_failure_count = self.limit_write_failure_count + 1;
                }
                if self.limit_write_failure_count >= 5 {
                    self.limit_write_disabled = true;
                    blacklist.blacklist_sysfs_node(self.limit_nodes[0].as_str());
                    self.rejected_ceiling = Some(rounded_ma);
                }
                false
            },
        }
    }

    /// Takes whether the limit for `target_ma` was applied. Five failed
    /// attempts in a row make `target_ma` a rejected ceiling, and return the
    /// last accepted value to try once more.
    pub fn record_attempt(&mut self, target_ma: i64, applied: bool) -> (fallback: Option<i64>)
        requires
            !applied ==> old(self).consecutive_failures < u32::MAX,
        ensures
            applied ==> {
                &&& final(self).consecutive_failures == 0
                &&& final(self).last_known_good_ma == Some(target_ma)
                &&& final(self).rejected_ceiling == old(self).rejected_ceiling
                &&& fallback.is_none()
            },
            !applied ==> {
                &&& final(self).consecutive_failures == old(self).consecutive_failures + 1
                &&& final(self).last_known_good_ma == old(self).last_known_good_ma
                &&& if old(self).consecutive_failures + 1 >= 5 {
                    &&& final(self).rejected_ceiling == Some(target_ma)
                    &&& fallback == old(self).last_known_good_ma
                } else {
                    &&& final(self).rejected_ceiling == old(self).rejected_ceiling
                    &&& fallback.is_none()
                }
            },
            final(self).limit_nodes == old(self).limit_nodes,
            final(self).previous_target == old(self).previous_target,
            final(self).active_limit_ma == old(self).active_limit_ma,
    {
        if applied {
            self.consecutive_failures = 0;
            self.last_known_good_ma = Some(target_ma);
            None
        } else {
            self.consecutive_failures = self.consecutive_failures + 1;
            if self.consecutive_failures >= 5 {
                self.rejected_ceiling = Some(target_ma);
                self.last_known_good_ma
            } else {
                None
            }
        }
    }

    /// Takes whether the fallback to the last accepted value `good` was
    /// applied, and returns the target of this tick: `good` when it was, the
    /// planned target otherwise (and the fallback is then forgotten).
    pub fn record_fallback(&mut self, target_ma: i64, good: i64, applied: bool) -> (r: i64)
        ensures
            applied ==> r == good && final(self).consecutive_failures == 0
                && final(self).last_known_good_ma == old(self).last_known_good_ma,
            !applied ==> r == target_ma && final(self).last_known_good_ma.is_none()
                && final(self).consecutive_failures == old(self).consecutive_failures,
            final(self).rejected_ceiling == old(self).rejected_ceiling,
            final(self).limit_nodes == old(self).limit_nodes,
            final(self).previous_target == old(self).previous_target,
    {
        if applied {
            self.consecutive_failures = 0;
            good
        } else {
            self.last_known_good_ma = None;
            target_ma
        }
    }

    /// Ends a tick that got past [`ChargingEngine::begin_tick`]: an attempt
    /// restarts the re-enforce clock, and `target_ma` becomes the previous
    /// target. Returns the target.
    pub fn end_tick(&mut self, target_ma: i64, attempted: bool, now_ms: u64) -> (r: i64)
        ensures
            r == target_ma,
            final(self).previous_target == target_ma,
            final(self).re_enforce_at_ms == (if attempted {
                now_ms
            } else {
                old(self).re_enforce_at_ms
            }),
            final(self).limit_nodes == old(self).limit_nodes,
            final(self).active_limit_ma == old(self).active_limit_ma,
    {
        if attempted {
            self.re_enforce_at_ms = now_ms;
        }
        self.previous_target = target_ma;
        target_ma
    }
}

} // verus!

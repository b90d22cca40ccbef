//! What the daemon makes of the device's readings: whether the screen is
//! off, the GPU load, whether a charger is plugged in, which network is up,
//! which input devices are touch controllers, and whether a call is active.
//! Reading the nodes is the caller's part; each function here takes what
//! was read (`None` where a node could not be read).
use vstd::prelude::*;
use crate::game_turbo::states::string_views_of;
use crate::network_diag::{ascii_lower, ascii_lower_exec};
use crate::text::{
    chars_of, contains_chars, has_infix, has_prefix, parse_u32, parse_u32_spec, parse_u64,
    parse_u64_spec, split_words, starts_with_chars, trim, trim_chars, words,
};

verus! {

/// The views of optional strings.
pub open spec fn opt_view(o: Option<String>) -> Option<Seq<char>> {
    match o {
        Some(s) => Some(s@),
        None => None,
    }
}

// ---------------------------------------------------------------------------
// Screen
// ---------------------------------------------------------------------------
/// Whether the screen is off, from the backlight and panel readings in
/// order: the first readable one decides when it is `0`, `off` or mentions
/// `sleeping` (off) or is otherwise non-empty (on); empty or unreadable ones
/// are passed over; with none deciding, the screen is on.
pub open spec fn screen_off_spec(rs: Seq<Option<String>>) -> bool
    decreases rs.len(),
{
    if rs.len() == 0 {
        false
    } else {
        match rs[0] {
            Some(c) => {
                let v = trim(c@);
                if v == "0"@ || v == "off"@ || has_infix(v, "sleeping"@) {
                    true
                } else if v.len() > 0 {
                    false
                } else {
                    screen_off_spec(rs.drop_first())
                }
            },
            None => screen_off_spec(rs.drop_first()),
        }
    }
}

pub fn screen_off_from(readings: &Vec<Option<String>>) -> (r: bool)
    ensures
        r == screen_off_spec(readings@),
{
    let mut i: usize = 0;
    assert(readings@.skip(0) =~= readings@);
    while i < readings.len()
        invariant
            0 <= i <= readings.len(),
            screen_off_spec(readings@) == screen_off_spec(readings@.skip(i as int)),
        decreases readings.len() - i,
    {
        assert(readings@.skip(i as int)[0] == readings@[i as int]);
        assert(readings@.skip(i as int).drop_first() =~= readings@.skip(i + 1));
        match &readings[i] {
            Some(c) => {
                let v = trim_chars(&chars_of(c.as_str()));
                if crate::text::chars_equal(&v, &chars_of("0")) || crate::text::chars_equal(
                    &v,
                    &chars_of("off"),
                ) || contains_chars(&v, &chars_of("sleeping")) {
                    return true;
                } else if v.len() > 0 {
                    return false;
                }
            },
            None => {},
        }
        i = i + 1;
    }
    assert(readings@.skip(i as int).len() == 0);
    false
}

// ---------------------------------------------------------------------------
// GPU load
// ---------------------------------------------------------------------------
/// `busy` of `total` in percent, rounded to the nearest (halves up) and at
/// most 100.
pub open spec fn ratio_percent(busy: u64, total: u64) -> u32 {
    let p = (200 * busy + total) / (2 * total as int);
    if p > 100 {
        100
    } else {
        p as u32
    }
}

fn ratio_percent_exec(busy: u64, total: u64) -> (r: u32)
    requires
        total > 0,
    ensures
        r == ratio_percent(busy, total),
{
    let p: u128 = (200 * (busy as u128) + total as u128) / (2 * (total as u128));
    if p > 100 {
        100
    } else {
        p as u32
    }
}

/// The load of a busy/total pair of readings, when both read as numbers
/// (trimmed) and the total is positive.
pub open spec fn pair_load(busy: Option<String>, total: Option<String>) -> Option<u32> {
    match (busy, total) {
        (Some(b), Some(t)) => match (parse_u64_spec(trim(b@)), parse_u64_spec(trim(t@))) {
            (Some(bv), Some(tv)) => if tv > 0 {
                Some(ratio_percent(bv, tv))
            } else {
                None
            },
            _ => None,
        },
        _ => None,
    }
}

/// The first devfreq device whose pair gives a load.
pub open spec fn devfreq_load(pairs: Seq<(Option<String>, Option<String>)>) -> Option<u32>
    decreases pairs.len(),
{
    if pairs.len() == 0 {
        None
    } else {
        match pair_load(pairs[0].0, pairs[0].1) {
            Some(v) => Some(v),
            None => devfreq_load(pairs.drop_first()),
        }
    }
}

/// The GPU load in percent: `gpu_busy_percentage` when it reads as a number
/// (capped at 100); else the `gpubusy` pair (busy and total time) when both
/// read and the total is positive; else the first devfreq device with a
/// readable busy and total time.
pub open spec fn gpu_load_spec(
    busy_percentage: Option<Seq<char>>,
    gpubusy: Option<Seq<char>>,
    devfreq: Seq<(Option<String>, Option<String>)>,
) -> Option<u32> {
    let direct = match busy_percentage {
        Some(t) => parse_u32_spec(trim(t)),
        None => None,
    };
    match direct {
        Some(v) => Some(if v > 100 {
            100
        } else {
            v
        }),
        None => {
            let pair = match gpubusy {
                Some(t) => {
                    let p = words(t, true);
                    if p.len() >= 2 {
                        match (parse_u64_spec(p[0]), parse_u64_spec(p[1])) {
                            (Some(b), Some(tt)) => if tt > 0 {
                                Some(ratio_percent(b, tt))
                            } else {
                                None
                            },
                            _ => None,
                        }
                    } else {
                        None
                    }
                },
                None => None,
            };
            match pair {
                Some(v) => Some(v),
                None => devfreq_load(devfreq),
            }
        },
    }
}

fn pair_load_exec(busy: &Option<String>, total: &Option<String>) -> (r: Option<u32>)
    ensures
        r == pair_load(*busy, *total),
{
    match (busy, total) {
        (Some(b), Some(t)) => {
            let bv = parse_u64(&trim_chars(&chars_of(b.as_str())));
            let tv = parse_u64(&trim_chars(&chars_of(t.as_str())));
            match (bv, tv) {
                (Some(bv), Some(tv)) => if tv > 0 {
                    Some(ratio_percent_exec(bv, tv))
                } else {
                    None
                },
                _ => None,
            }
        },
        _ => None,
    }
}

#[verifier::loop_isolation(false)]
pub fn gpu_load_from(
    busy_percentage: Option<&str>,
    gpubusy: Option<&str>,
    devfreq: &Vec<(Option<String>, Option<String>)>,
) -> (r: Option<u32>)
    ensures
        r == gpu_load_spec(
            match busy_percentage {
                Some(t) => Some(t@),
                None => None,
            },
            match gpubusy {
                Some(t) => Some(t@),
                None => None,
            },
            devfreq@,
        ),
{
    match busy_percentage {
        Some(t) => match parse_u32(&trim_chars(&chars_of(t))) {
            Some(v) => {
                return Some(
                    if v > 100 {
                        100
                    } else {
                        v
                    },
                );
            },
            None => {},
        },
        None => {},
    }
    match gpubusy {
        Some(t) => {
            let p = split_words(&chars_of(t), true);
            if p.len() >= 2 {
                assert(p.deep_view()[0] == p@[0]@);
                assert(p.deep_view()[1] == p@[1]@);
                match (parse_u64(&p[0]), parse_u64(&p[1])) {
                    (Some(b), Some(tt)) => {
                        if tt > 0 {
                            return Some(ratio_percent_exec(b, tt));
                        }
                    },
                    _ => {},
                }
            }
        },
        None => {},
    }
    let mut i: usize = 0;
    assert(devfreq@.skip(0) =~= devfreq@);
    while i < devfreq.len()
        invariant
            0 <= i <= devfreq.len(),
            devfreq_load(devfreq@) == devfreq_load(devfreq@.skip(i as int)),
        decreases devfreq.len() - i,
    {
        assert(devfreq@.skip(i as int)[0] == devfreq@[i as int]);
        assert(devfreq@.skip(i as int).drop_first() =~= devfreq@.skip(i + 1));
        let (b, t) = &devfreq[i];
        match pair_load_exec(b, t) {
            Some(v) => {
                return Some(v);
            },
            None => {},
        }
        i = i + 1;
    }
    assert(devfreq@.skip(i as int).len() == 0);
    None
}

// ---------------------------------------------------------------------------
// Charger
// ---------------------------------------------------------------------------
/// One entry of `/sys/class/power_supply`: its type and its `online` and
/// `present` readings.
pub struct SupplyReading {
    pub kind: String,
    pub online: Option<i64>,
    pub present: Option<i64>,
}

/// A supply that can charge: its type (ASCII case ignored) mentions `usb`,
/// `mains` or `wireless`.
pub open spec fn is_charger_type(t: Seq<char>) -> bool {
    let l = ascii_lower(t);
    has_infix(l, "usb"@) || has_infix(l, "mains"@) || has_infix(l, "wireless"@)
}

/// What the chargers say, from the first on: plugged in at the first one
/// online or present; unplugged (reliably) when there were chargers and
/// none was; `None` without chargers.
pub open spec fn chargers_say(s: Seq<SupplyReading>) -> Option<bool>
    decreases s.len(),
{
    if s.len() == 0 {
        None
    } else if !is_charger_type(s[0].kind@) {
        chargers_say(s.drop_first())
    } else if (s[0].online matches Some(o) && o > 0) || (s[0].present matches Some(p) && p > 0) {
        Some(true)
    } else {
        match chargers_say(s.drop_first()) {
            Some(b) => Some(b),
            None => Some(false),
        }
    }
}

/// Whether a charger is plugged in, and whether that is reliable. The
/// known charger's `online` (else `present`) reading decides first; then
/// the power-supply entries; without chargers, the battery status (taken as
/// `Discharging` when unreadable) decides, unreliably.
pub open spec fn plug_state_spec(
    known: Option<(Option<i64>, Option<i64>)>,
    supplies: Seq<SupplyReading>,
    battery_status: Option<Seq<char>>,
) -> (bool, bool) {
    let from_known: Option<bool> = match known {
        Some((Some(online), _)) => Some(online > 0),
        Some((None, Some(present))) => Some(present > 0),
        _ => None,
    };
    match from_known {
        Some(b) => (b, true),
        None => match chargers_say(supplies) {
            Some(b) => (b, true),
            None => {
                let st = match battery_status {
                    Some(s) => s,
                    None => "Discharging"@,
                };
                (
                    has_infix(st, "Charging"@) || has_infix(st, "Full"@) || has_infix(
                        st,
                        "Not charging"@,
                    ),
                    false,
                )
            },
        },
    }
}

fn is_charger_type_exec(t: &str) -> (r: bool)
    ensures
        r == is_charger_type(t@),
{
    let l = ascii_lower_exec(&chars_of(t));
    contains_chars(&l, &chars_of("usb")) || contains_chars(&l, &chars_of("mains")) || contains_chars(
        &l,
        &chars_of("wireless"),
    )
}

/// `known` holds the `online` and `present` readings of the charger found
/// by the probe, when there is one.
#[verifier::loop_isolation(false)]
pub fn plug_state_from(
    known: Option<(Option<i64>, Option<i64>)>,
    supplies: &Vec<SupplyReading>,
    battery_status: Option<&str>,
) -> (r: (bool, bool))
    ensures
        r == plug_state_spec(
            known,
            supplies@,
            match battery_status {
                Some(s) => Some(s@),
                None => None,
            },
        ),
{
    match known {
        Some((Some(online), _)) => {
            return (online > 0, true);
        },
        Some((None, Some(present))) => {
            return (present > 0, true);
        },
        _ => {},
    }
    let mut saw = false;
    let mut i: usize = 0;
    assert(supplies@.skip(0) =~= supplies@);
    while i < supplies.len()
        invariant
            0 <= i <= supplies.len(),
            chargers_say(supplies@) == (match chargers_say(supplies@.skip(i as int)) {
                Some(b) => Some(b),
                None => if saw {
                    Some(false)
                } else {
                    None
                },
            }),
        decreases supplies.len() - i,
    {
        let ghost rest = supplies@.skip(i as int);
        assert(rest[0] == supplies@[i as int]);
        assert(rest.drop_first() =~= supplies@.skip(i + 1));
        let s = &supplies[i];
        if is_charger_type_exec(s.kind.as_str()) {
            let on = match s.online {
                Some(o) => o > 0,
                None => false,
            };
            let pr = match s.present {
                Some(p) => p > 0,
                None => false,
            };
            if on || pr {
                return (true, true);
            }
            saw = true;
        }
        i = i + 1;
    }
    assert(supplies@.skip(i as int).len() == 0);
    if saw {
        return (false, true);
    }
    let st = match battery_status {
        Some(st) => st,
        None => "Discharging",
    };
    let plugged = crate::orchestrator::plugged_from_status(st);
    (plugged, false)
}

// ---------------------------------------------------------------------------
// Network
// ---------------------------------------------------------------------------
/// One network interface: its name and whether its `operstate` reads `up`.
pub struct IfaceReading {
    pub name: String,
    pub up: bool,
}

/// Whether the named interface is listed and up.
pub open spec fn iface_up(ifaces: Seq<IfaceReading>, name: Seq<char>) -> bool {
    exists|k: int| 0 <= k < ifaces.len() && #[trigger] ifaces[k].name@ == name && ifaces[k].up
}

/// The first listed interface that is up, other than `lo`, `wlan0` and
/// `rmnet_data0`.
pub open spec fn other_up(ifaces: Seq<IfaceReading>) -> Option<Seq<char>>
    decreases ifaces.len(),
{
    if ifaces.len() == 0 {
        None
    } else {
        let n = ifaces[0].name@;
        if n != "lo"@ && n != "wlan0"@ && n != "rmnet_data0"@ && ifaces[0].up {
            Some(n)
        } else {
            other_up(ifaces.drop_first())
        }
    }
}

/// Whether a network is up, with the interface remembered for next time:
/// the remembered one while it stays up; else `wlan0`, then `rmnet_data0`,
/// then any other interface but `lo` that is up.
pub open spec fn wifi_active_spec(cached: Option<Seq<char>>, ifaces: Seq<IfaceReading>) -> (
    bool,
    Option<Seq<char>>,
) {
    if cached matches Some(c) && iface_up(ifaces, c) {
        (true, cached)
    } else if iface_up(ifaces, "wlan0"@) {
        (true, Some("wlan0"@))
    } else if iface_up(ifaces, "rmnet_data0"@) {
        (true, Some("rmnet_data0"@))
    } else {
        match other_up(ifaces) {
            Some(n) => (true, Some(n)),
            None => (false, None),
        }
    }
}

fn iface_up_exec(ifaces: &Vec<IfaceReading>, name: &str) -> (r: bool)
    ensures
        r == iface_up(ifaces@, name@),
{
    let mut i: usize = 0;
    while i < ifaces.len()
        invariant
            0 <= i <= ifaces.len(),
            forall|k: int| 0 <= k < i ==> !(#[trigger] ifaces@[k].name@ == name@ && ifaces@[k].up),
        decreases ifaces.len() - i,
    {
        if ifaces[i].up && crate::charging::str_eq(ifaces[i].name.as_str(), name) {
            return true;
        }
        i = i + 1;
    }
    false
}

#[verifier::loop_isolation(false)]
pub fn wifi_active_from(cached: Option<&str>, ifaces: &Vec<IfaceReading>) -> (r: (bool, Option<String>))
    ensures
        ({
            let (a, c) = wifi_active_spec(
                match cached {
                    Some(c) => Some(c@),
                    None => None,
                },
                ifaces@,
            );
            r.0 == a && opt_view(r.1) == c
        }),
{
    match cached {
        Some(c) => {
            if iface_up_exec(ifaces, c) {
                return (true, Some(c.to_owned()));
            }
        },
        None => {},
    }
    if iface_up_exec(ifaces, "wlan0") {
        return (true, Some("wlan0".to_owned()));
    }
    if iface_up_exec(ifaces, "rmnet_data0") {
        return (true, Some("rmnet_data0".to_owned()));
    }
    let mut i: usize = 0;
    assert(ifaces@.skip(0) =~= ifaces@);
    while i < ifaces.len()
        invariant
            0 <= i <= ifaces.len(),
            other_up(ifaces@) == other_up(ifaces@.skip(i as int)),
        decreases ifaces.len() - i,
    {
        assert(ifaces@.skip(i as int)[0] == ifaces@[i as int]);
        assert(ifaces@.skip(i as int).drop_first() =~= ifaces@.skip(i + 1));
        let n = ifaces[i].name.as_str();
        if ifaces[i].up && !crate::charging::str_eq(n, "lo") && !crate::charging::str_eq(n, "wlan0")
            && !crate::charging::str_eq(n, "rmnet_data0") {
            return (true, Some(n.to_owned()));
        }
        i = i + 1;
    }
    assert(ifaces@.skip(i as int).len() == 0);
    (false, None)
}

// ---------------------------------------------------------------------------
// Input devices and calls
// ---------------------------------------------------------------------------
/// Name parts of input devices that are never touch controllers.
pub open spec fn excluded_input_tokens() -> Seq<Seq<char>> {
    seq![
        "gpio"@,
        "key"@,
        "pwrkey"@,
        "resin"@,
        "haptic"@,
        "jack"@,
        "headset"@,
        "button"@,
        "snd-card"@,
        "uinput"@,
        "virtual"@,
    ]
}

/// Name parts of touch controllers.
pub open spec fn touch_tokens() -> Seq<Seq<char>> {
    seq!["goodix_ts"@, "goodix"@, "touch"@, "fts"@, "focal"@, "synaptics"@, "novatek"@, "himax"@]
}

/// Whether an input device is a touch controller: its trimmed name (ASCII
/// case ignored) mentions a touch controller and nothing excluded.
pub open spec fn touch_controller_spec(name: Seq<char>) -> bool {
    let l = ascii_lower(trim(name));
    &&& !(exists|k: int| 0 <= k < excluded_input_tokens().len() && has_infix(l, #[trigger] excluded_input_tokens()[k]))
    &&& exists|k: int| 0 <= k < touch_tokens().len() && has_infix(l, #[trigger] touch_tokens()[k])
}

fn any_infix(l: &Vec<char>, tokens: &Vec<&'static str>) -> (r: bool)
    ensures
        r == exists|k: int|
            0 <= k < string_views_of(tokens@).len() && has_infix(
                l@,
                #[trigger] string_views_of(tokens@)[k],
            ),
{
    let ghost v = string_views_of(tokens@);
    let mut i: usize = 0;
    while i < tokens.len()
        invariant
            0 <= i <= tokens.len(),
            v == string_views_of(tokens@),
            v.len() == tokens.len(),
            forall|k: int| 0 <= k < i ==> !has_infix(l@, #[trigger] v[k]),
        decreases tokens.len() - i,
    {
        assert(v[i as int] == tokens@[i as int]@);
        if contains_chars(l, &chars_of(tokens[i])) {
            return true;
        }
        i = i + 1;
    }
    false
}

pub fn is_touch_controller_name(name: &str) -> (r: bool)
    ensures
        r == touch_controller_spec(name@),
{
    let l = ascii_lower_exec(&trim_chars(&chars_of(name)));
    let excluded = vec![
        "gpio",
        "key",
        "pwrkey",
        "resin",
        "haptic",
        "jack",
        "headset",
        "button",
        "snd-card",
        "uinput",
        "virtual",
    ];
    let touch = vec!["goodix_ts", "goodix", "touch", "fts", "focal", "synaptics", "novatek", "himax"];
    proof {
        assert(string_views_of(excluded@) =~= excluded_input_tokens());
        assert(string_views_of(touch@) =~= touch_tokens());
    }
    if any_infix(&l, &excluded) {
        return false;
    }
    any_infix(&l, &touch)
}

/// The tuning attributes of a touch controller that the daemon knows.
pub open spec fn touch_tuning_attrs() -> Seq<Seq<char>> {
    seq![
        "touch_report_rate"@,
        "report_rate"@,
        "game_mode"@,
        "touch_boost"@,
        "sensitivity"@,
        "high_touch_rate"@,
        "edge_reject"@,
        "glove_mode"@,
    ]
}

pub fn known_touch_tuning_attr(name: &str) -> (r: bool)
    ensures
        r == touch_tuning_attrs().contains(name@),
{
    let attrs = vec![
        "touch_report_rate",
        "report_rate",
        "game_mode",
        "touch_boost",
        "sensitivity",
        "high_touch_rate",
        "edge_reject",
        "glove_mode",
    ];
    let mut i: usize = 0;
    while i < attrs.len()
        invariant
            0 <= i <= attrs.len(),
            attrs@.len() == 8,
            string_views_of(attrs@) == touch_tuning_attrs(),
            forall|k: int| 0 <= k < i ==> touch_tuning_attrs()[k] != name@,
        decreases attrs.len() - i,
    {
        assert(string_views_of(attrs@)[i as int] == attrs@[i as int]@);
        if crate::charging::str_eq(attrs[i], name) {
            return true;
        }
        i = i + 1;
    }
    assert(!touch_tuning_attrs().contains(name@)) by {
        if touch_tuning_attrs().contains(name@) {
            let k = choose|k: int| 0 <= k < touch_tuning_attrs().len() && touch_tuning_attrs()[k] == name@;
            assert(touch_tuning_attrs()[k] != name@);
        }
    }
    false
}

/// Whether a call is ringing or off the hook, from `dumpsys
/// telephony.registry`: it shows `mCallState=2` or `mCallState=1`.
pub fn call_active_from(registry: &str) -> (r: bool)
    ensures
        r == (has_infix(registry@, "mCallState=2"@) || has_infix(registry@, "mCallState=1"@)),
{
    crate::text::contains_str(registry, "mCallState=2") || crate::text::contains_str(
        registry,
        "mCallState=1",
    )
}

} // verus!

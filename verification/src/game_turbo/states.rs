//! The per-feature state of game turbo: what each feature saved for
//! restoration, whether the kernel offers it, and the decisions each feature
//! makes on what the caller read. The reads and writes themselves are the
//! caller's part.
use vstd::prelude::*;
use std::collections::HashMap;
use crate::text::{chars_of, parse_u32, parse_u32_spec, split_words, string_from_chars, words};

verus! {

/// Background cgroup lockdown: the saved `uclamp.max` of each clamped cgroup.
pub struct BackgroundState {
    pub saved_uclamp_max: HashMap<String, String>,
}

impl BackgroundState {
    pub fn new() -> (r: Self)
        ensures
            r.saved_uclamp_max@ == Map::<String, String>::empty(),
    {
        BackgroundState { saved_uclamp_max: HashMap::new() }
    }
}

/// Deep C-state control: the states disabled for the game and their saved
/// values.
pub struct CpuIdleControl {
    pub disabled_states: Vec<(String, String)>,
    /// Whether the kernel exposes `cpuidle`.
    pub available: bool,
}

impl CpuIdleControl {
    pub fn new(available: bool) -> (r: Self)
        ensures
            r.disabled_states@.len() == 0,
            r.available == available,
    {
        CpuIdleControl { disabled_states: Vec::new(), available }
    }
}

/// GPU power-level boost.
pub struct GpuFreqState {
    pub saved_power_level: Option<u32>,
    pub power_level_path: Option<String>,
    pub best_level: u32,
}

impl GpuFreqState {
    pub fn new() -> (r: Self)
        ensures
            r.saved_power_level.is_none(),
            r.power_level_path.is_none(),
            r.best_level == 0,
    {
        GpuFreqState { saved_power_level: None, power_level_path: None, best_level: 0 }
    }

    /// Saves the current level and asks for the best one to be written to
    /// the power-level node; nothing without a node.
    pub fn activate(
        &mut self,
        power_level_path: Option<&str>,
        current_level: Option<u32>,
        best_level: u32,
    ) -> (write: Option<(String, u32)>)
        ensures
            match power_level_path {
                None => write.is_none() && final(self).saved_power_level == old(
                    self,
                ).saved_power_level && final(self).power_level_path == old(self).power_level_path
                    && final(self).best_level == old(self).best_level,
                Some(p) => {
                    &&& write.is_some()
                    &&& write.unwrap().0@ == p@
                    &&& write.unwrap().1 == best_level
                    &&& final(self).power_level_path.is_some()
                    &&& final(self).power_level_path.unwrap()@ == p@
                    &&& final(self).saved_power_level == current_level
                    &&& final(self).best_level == best_level
                },
            },
    {
        match power_level_path {
            None => None,
            Some(p) => {
                self.power_level_path = Some(p.to_owned());
                self.best_level = best_level;
                self.saved_power_level = current_level;
                Some((p.to_owned(), best_level))
            },
        }
    }

    /// Forgets the saved level and returns the write that restores it, when
    /// both a node and a saved level are known.
    pub fn deactivate(&mut self) -> (write: Option<(String, u32)>)
        ensures
            final(self).saved_power_level.is_none(),
            final(self).power_level_path.is_none(),
            match (old(self).power_level_path, old(self).saved_power_level) {
                (Some(p), Some(l)) => write.is_some() && write.unwrap().0@ == p@ && write.unwrap().1
                    == l,
                _ => write.is_none(),
            },
    {
        let w = match (&self.power_level_path, self.saved_power_level) {
            (Some(p), Some(l)) => Some((p.clone(), l)),
            _ => None,
        };
        self.saved_power_level = None;
        self.power_level_path = None;
        w
    }
}

/// The GPU idle timer, in milliseconds, for a GPU load: 5 above 70%, 10
/// above 30%, 20 otherwise.
pub open spec fn idle_timer_spec(gpu_load: u32) -> u32 {
    if gpu_load > 70 {
        5
    } else if gpu_load > 30 {
        10
    } else {
        20
    }
}

/// A saved value, or the default without one.
pub open spec fn saved_or(saved: Option<String>, default: Seq<char>) -> Seq<char> {
    match saved {
        Some(v) => v@,
        None => default,
    }
}

/// Takes the saved value out, or gives the default.
fn take_or(saved: &mut Option<String>, default: &str) -> (r: String)
    ensures
        r@ == saved_or(*old(saved), default@),
        final(saved).is_none(),
{
    match saved.take() {
        Some(v) => v,
        None => default.to_owned(),
    }
}

/// KGSL hints that keep the GPU clocks responsive.
pub struct GpuBusyHints {
    pub available: bool,
    pub saved_idle_timer: Option<String>,
    pub saved_force_bus_on: Option<String>,
    pub saved_force_clk_on: Option<String>,
    pub saved_rt_bus_hint: Option<String>,
}

impl GpuBusyHints {
    pub fn new(available: bool) -> (r: Self)
        ensures
            r.available == available,
            r.saved_idle_timer.is_none(),
            r.saved_force_bus_on.is_none(),
            r.saved_force_clk_on.is_none(),
            r.saved_rt_bus_hint.is_none(),
    {
        GpuBusyHints {
            available,
            saved_idle_timer: None,
            saved_force_bus_on: None,
            saved_force_clk_on: None,
            saved_rt_bus_hint: None,
        }
    }

    /// Ends the hints: the writes that restore the four KGSL nodes (node
    /// name, value), each the value saved at activation or its default
    /// (`100` ms idle timer, `0` for the others); nothing when the hints are
    /// not available. The saved values are forgotten.
    pub fn restore_writes(&mut self) -> (r: Vec<(&'static str, String)>)
        ensures
            !old(self).available ==> r@.len() == 0 && *final(self) == *old(self),
            old(self).available ==> {
                &&& r@.len() == 4
                &&& r@[0].0@ == "idle_timer"@ && r@[0].1@ == saved_or(old(self).saved_idle_timer, "100"@)
                &&& r@[1].0@ == "force_bus_on"@ && r@[1].1@ == saved_or(old(self).saved_force_bus_on, "0"@)
                &&& r@[2].0@ == "force_clk_on"@ && r@[2].1@ == saved_or(old(self).saved_force_clk_on, "0"@)
                &&& r@[3].0@ == "rt_bus_hint"@ && r@[3].1@ == saved_or(old(self).saved_rt_bus_hint, "0"@)
                &&& final(self).available
                &&& final(self).saved_idle_timer.is_none()
                &&& final(self).saved_force_bus_on.is_none()
                &&& final(self).saved_force_clk_on.is_none()
                &&& final(self).saved_rt_bus_hint.is_none()
            },
    {
        let mut out: Vec<(&'static str, String)> = Vec::new();
        if !self.available {
            return out;
        }
        out.push(("idle_timer", take_or(&mut self.saved_idle_timer, "100")));
        out.push(("force_bus_on", take_or(&mut self.saved_force_bus_on, "0")));
        out.push(("force_clk_on", take_or(&mut self.saved_force_clk_on, "0")));
        out.push(("rt_bus_hint", take_or(&mut self.saved_rt_bus_hint, "0")));
        out
    }

    /// The idle timer to hold for the GPU load, or `None` when the hints are
    /// not available.
    pub fn tick(&self, gpu_load: u32) -> (r: Option<u32>)
        ensures
            r == (if self.available {
                Some(idle_timer_spec(gpu_load))
            } else {
                None::<u32>
            }),
    {
        if !self.available {
            return None;
        }
        if gpu_load > 70 {
            Some(5)
        } else if gpu_load > 30 {
            Some(10)
        } else {
            Some(20)
        }
    }
}

/// I/O scheduler boost: the saved scheduler and read-ahead of each device.
pub struct IoSchedulerState {
    pub saved_schedulers: HashMap<String, String>,
    pub saved_read_ahead: HashMap<String, u64>,
}

impl IoSchedulerState {
    pub fn new() -> (r: Self)
        ensures
            r.saved_schedulers@ == Map::<String, String>::empty(),
            r.saved_read_ahead@ == Map::<String, u64>::empty(),
    {
        IoSchedulerState { saved_schedulers: HashMap::new(), saved_read_ahead: HashMap::new() }
    }
}

/// ZRAM compaction and OOM protection of the game.
pub struct MemoryManager {
    pub available: bool,
    pub game_pid: Option<u32>,
    pub saved_oom_score_adj: Option<i32>,
}

impl MemoryManager {
    pub fn new(available: bool) -> (r: Self)
        ensures
            r.available == available,
            r.game_pid.is_none(),
            r.saved_oom_score_adj.is_none(),
    {
        MemoryManager { available, game_pid: None, saved_oom_score_adj: None }
    }

    /// Nothing to do per tick.
    pub fn tick(&mut self)
        ensures
            final(self).available == old(self).available,
            final(self).game_pid == old(self).game_pid,
            final(self).saved_oom_score_adj == old(self).saved_oom_score_adj,
    {
    }
}

/// WiFi power save, RPS and TCP buffer tuning, with the saved values.
pub struct NetworkState {
    pub wifi_ps_original: Option<String>,
    pub wifi_ps_path: Option<String>,
    pub saved_tunables: HashMap<String, String>,
    pub rps_saved: HashMap<String, String>,
    pub wifi_ps_cmd_used: bool,
    pub rps_flow_original: Option<String>,
}

/// What a network hand-off asks of the WiFi power-save setting.
#[derive(Debug, Clone, Copy, PartialEq, Eq, Structural)]
pub enum WifiPsStep {
    /// Leave it.
    Keep,
    /// Switch low-latency WiFi on.
    Activate,
    /// Restore the saved power save.
    Deactivate,
}

/// How to restore the WiFi power save.
#[derive(Debug, Clone, PartialEq)]
pub enum WifiPsRestore {
    /// Switch the low-latency mode off through `cmd wifi`.
    DisableLowLatencyCommand,
    /// Write the saved value back to the power-save node.
    Write { path: String, value: String },
    /// Nothing was changed.
    Nothing,
}

impl NetworkState {
    pub fn new() -> (r: Self)
        ensures
            r.wifi_ps_original.is_none(),
            r.wifi_ps_path.is_none(),
            r.saved_tunables@ == Map::<String, String>::empty(),
            r.rps_saved@ == Map::<String, String>::empty(),
            !r.wifi_ps_cmd_used,
            r.rps_flow_original.is_none(),
    {
        NetworkState {
            wifi_ps_original: None,
            wifi_ps_path: None,
            saved_tunables: HashMap::new(),
            rps_saved: HashMap::new(),
            wifi_ps_cmd_used: false,
            rps_flow_original: None,
        }
    }

    /// Restores the WiFi power save: through the command when it was used
    /// (the saved node and value are kept then), otherwise by writing the
    /// saved value to its node when both are known, which are forgotten.
    pub fn deactivate_wifi_ps(&mut self) -> (r: WifiPsRestore)
        ensures
            old(self).wifi_ps_cmd_used ==> r == WifiPsRestore::DisableLowLatencyCommand
                && !final(self).wifi_ps_cmd_used
                && final(self).wifi_ps_path == old(self).wifi_ps_path
                && final(self).wifi_ps_original == old(self).wifi_ps_original,
            !old(self).wifi_ps_cmd_used ==> {
                &&& match (old(self).wifi_ps_path, old(self).wifi_ps_original) {
                    (Some(p), Some(v)) => r matches WifiPsRestore::Write { path, value } && path@
                        == p@ && value@ == v@,
                    _ => r == WifiPsRestore::Nothing,
                }
                &&& final(self).wifi_ps_path.is_none()
                &&& final(self).wifi_ps_original.is_none()
                &&& !final(self).wifi_ps_cmd_used
            },
            final(self).saved_tunables == old(self).saved_tunables,
            final(self).rps_saved == old(self).rps_saved,
            final(self).rps_flow_original == old(self).rps_flow_original,
    {
        if self.wifi_ps_cmd_used {
            self.wifi_ps_cmd_used = false;
            return WifiPsRestore::DisableLowLatencyCommand;
        }
        let path = self.wifi_ps_path.take();
        let value = self.wifi_ps_original.take();
        match (path, value) {
            (Some(p), Some(v)) => WifiPsRestore::Write { path: p, value: v },
            _ => WifiPsRestore::Nothing,
        }
    }

    /// Whether the WiFi low-latency setting is applied now.
    pub open spec fn wifi_ps_applied(&self) -> bool {
        self.wifi_ps_cmd_used || self.wifi_ps_path.is_some()
    }

    /// On a network hand-off: with low-latency WiFi wanted and `wlan0`
    /// active, apply it unless applied; otherwise restore it if applied.
    /// (RPS is refreshed every time.)
    pub fn refresh_for_network_handoff(&self, wifi_low_latency_enabled: bool, wlan0_active: bool) -> (r:
        WifiPsStep)
        ensures
            r == (if wifi_low_latency_enabled && wlan0_active {
                if self.wifi_ps_applied() {
                    WifiPsStep::Keep
                } else {
                    WifiPsStep::Activate
                }
            } else if self.wifi_ps_applied() {
                WifiPsStep::Deactivate
            } else {
                WifiPsStep::Keep
            }),
    {
        let applied = self.wifi_ps_cmd_used || self.wifi_ps_path.is_some();
        if wifi_low_latency_enabled && wlan0_active {
            if !applied {
                WifiPsStep::Activate
            } else {
                WifiPsStep::Keep
            }
        } else if applied {
            WifiPsStep::Deactivate
        } else {
            WifiPsStep::Keep
        }
    }
}

/// Traffic-control priority for game traffic.
pub struct NetworkQoS {
    pub active_interface: Option<String>,
    pub tc_available: bool,
}

impl NetworkQoS {
    pub fn new(tc_available: bool) -> (r: Self)
        ensures
            r.active_interface.is_none(),
            r.tc_available == tc_available,
    {
        NetworkQoS { active_interface: None, tc_available }
    }

    /// Nothing to do per tick.
    pub fn tick(&mut self)
        ensures
            final(self).active_interface == old(self).active_interface,
            final(self).tc_available == old(self).tc_available,
    {
    }
}

pub const UCLAMP_MIN_BASELINE: u32 = 40;
pub const UCLAMP_MIN_ELEVATED: u32 = 70;
pub const PERF_THERMAL_THRESHOLD_HOT: u32 = 48;
pub const PERF_GPU_LOAD_THRESHOLD: u32 = 50;

/// Top-app `uclamp.min` for the game.
pub struct PerfHintState {
    pub uclamp_available: bool,
    pub saved_uclamp_min: Option<String>,
    pub saved_uclamp_max: Option<String>,
    pub current_level: u32,
}

impl PerfHintState {
    pub fn new(uclamp_available: bool) -> (r: Self)
        ensures
            r.uclamp_available == uclamp_available,
            r.saved_uclamp_min.is_none(),
            r.saved_uclamp_max.is_none(),
            r.current_level == UCLAMP_MIN_BASELINE,
    {
        PerfHintState {
            uclamp_available,
            saved_uclamp_min: None,
            saved_uclamp_max: None,
            current_level: UCLAMP_MIN_BASELINE,
        }
    }

    /// The `uclamp.min` level for the load and temperature: elevated at a GPU
    /// load of 50% or 48 degrees. Returns the level to write when it changes.
    pub fn tick(&mut self, gpu_load: u32, thermal_temp: u32) -> (set: Option<u32>)
        ensures
            ({
                let target = if gpu_load >= PERF_GPU_LOAD_THRESHOLD || thermal_temp
                    >= PERF_THERMAL_THRESHOLD_HOT {
                    UCLAMP_MIN_ELEVATED
                } else {
                    UCLAMP_MIN_BASELINE
                };
                if old(self).uclamp_available && target != old(self).current_level {
                    set == Some(target) && final(self).current_level == target
                } else {
                    set.is_none() && final(self).current_level == old(self).current_level
                }
            }),
            final(self).uclamp_available == old(self).uclamp_available,
            final(self).saved_uclamp_min == old(self).saved_uclamp_min,
            final(self).saved_uclamp_max == old(self).saved_uclamp_max,
    {
        if !self.uclamp_available {
            return None;
        }
        let target = if gpu_load >= PERF_GPU_LOAD_THRESHOLD || thermal_temp
            >= PERF_THERMAL_THRESHOLD_HOT {
            UCLAMP_MIN_ELEVATED
        } else {
            UCLAMP_MIN_BASELINE
        };
        if target != self.current_level {
            self.current_level = target;
            Some(target)
        } else {
            None
        }
    }
}

/// Priority elevation of the compositor and kernel workers.
pub struct PriorityState {
    pub saved_nice: HashMap<u32, i32>,
    pub saved_policy: HashMap<u32, i32>,
    pub saved_sched_priority: HashMap<u32, i32>,
    pub boosted_pids: Vec<u32>,
}

impl PriorityState {
    pub fn new() -> (r: Self)
        ensures
            r.saved_nice@ == Map::<u32, i32>::empty(),
            r.saved_policy@ == Map::<u32, i32>::empty(),
            r.saved_sched_priority@ == Map::<u32, i32>::empty(),
            r.boosted_pids@.len() == 0,
    {
        PriorityState {
            saved_nice: HashMap::new(),
            saved_policy: HashMap::new(),
            saved_sched_priority: HashMap::new(),
            boosted_pids: Vec::new(),
        }
    }
}

/// `SCHED_DEADLINE` for the game's render threads.
pub struct SchedDeadlineManager {
    pub available: bool,
    pub applied_tids: Vec<u32>,
}

impl SchedDeadlineManager {
    pub fn new(available: bool) -> (r: Self)
        ensures
            r.available == available,
            r.applied_tids@.len() == 0,
    {
        SchedDeadlineManager { available, applied_tids: Vec::new() }
    }
}

/// Big-core pinning of the game's critical threads.
pub struct AffinityState {
    pub saved_affinities: HashMap<u32, u64>,
    pub pinned_tids: HashMap<u32, ()>,
}

impl AffinityState {
    pub fn new() -> (r: Self)
        ensures
            r.saved_affinities@ == Map::<u32, u64>::empty(),
            r.pinned_tids@ == Map::<u32, ()>::empty(),
    {
        AffinityState { saved_affinities: HashMap::new(), pinned_tids: HashMap::new() }
    }
}

/// Boost of the touch controller's IRQ threads.
pub struct TouchState {
    pub saved_policy: HashMap<u32, i32>,
    pub saved_priority: HashMap<u32, i32>,
    pub boosted_tids: Vec<u32>,
}

impl TouchState {
    pub fn new() -> (r: Self)
        ensures
            r.saved_policy@ == Map::<u32, i32>::empty(),
            r.saved_priority@ == Map::<u32, i32>::empty(),
            r.boosted_tids@.len() == 0,
    {
        TouchState { saved_policy: HashMap::new(), saved_priority: HashMap::new(), boosted_tids: Vec::new() }
    }
}

/// A word of the form `[name]`.
pub open spec fn bracketed(t: Seq<char>) -> bool {
    t.len() >= 2 && t[0] == '[' && t.last() == ']'
}

/// The first bracketed word, if any.
pub open spec fn first_bracketed(ws: Seq<Seq<char>>) -> Option<Seq<char>>
    decreases ws.len(),
{
    if ws.len() == 0 {
        None
    } else if bracketed(ws[0]) {
        Some(ws[0])
    } else {
        first_bracketed(ws.drop_first())
    }
}

/// The active scheduler in a `queue/scheduler` line: the name in brackets,
/// or the whole trimmed line when none is bracketed.
pub open spec fn normalize_spec(raw: Seq<char>) -> Seq<char> {
    match first_bracketed(words(raw, false)) {
        Some(t) => t.subrange(1, t.len() - 1),
        None => crate::text::trim(raw),
    }
}

/// The active I/O scheduler named in a `queue/scheduler` line such as
/// `none [mq-deadline] kyber`.
pub fn normalize_active_scheduler(raw: &str) -> (r: String)
    ensures
        r@ == normalize_spec(raw@),
{
    let cs = chars_of(raw);
    let ws = split_words(&cs, false);
    let ghost wv = ws.deep_view();
    let mut i: usize = 0;
    assert(wv.skip(0) =~= wv);
    while i < ws.len()
        invariant
            0 <= i <= ws.len(),
            wv == ws.deep_view(),
            wv == words(raw@, false),
            cs@ == raw@,
            first_bracketed(wv) == first_bracketed(wv.skip(i as int)),
        decreases ws.len() - i,
    {
        let t = &ws[i];
        assert(wv[i as int] == t@);
        assert(wv.skip(i as int)[0] == t@);
        if t.len() >= 2 && t[0] == '[' && t[t.len() - 1] == ']' {
            let inner = crate::text::copy_range(t, 1, t.len() - 1);
            return string_from_chars(&inner);
        }
        assert(wv.skip(i as int).drop_first() =~= wv.skip(i + 1));
        i = i + 1;
    }
    let trimmed = crate::text::trim_chars(&cs);
    string_from_chars(&trimmed)
}

/// `s` without its trailing `c`s (`str::trim_end_matches`).
pub open spec fn trim_end_char(s: Seq<char>, c: char) -> Seq<char>
    decreases s.len(),
{
    if s.len() > 0 && s.last() == c {
        trim_end_char(s.drop_last(), c)
    } else {
        s
    }
}

/// The IRQ number at the start of a `/proc/interrupts` line, such as `123`
/// in ` 123:  12345  GICv3  fts_ts`.
pub open spec fn irq_number_spec(line: Seq<char>) -> Option<u32> {
    let ws = words(line, true);
    if ws.len() == 0 {
        None
    } else {
        parse_u32_spec(trim_end_char(ws[0], ':'))
    }
}

pub fn extract_irq_number(line: &str) -> (r: Option<u32>)
    ensures
        r == irq_number_spec(line@),
{
    let cs = chars_of(line);
    let ws = split_words(&cs, true);
    if ws.len() == 0 {
        return None;
    }
    let first = &ws[0];
    assert(ws.deep_view()[0] == first@);
    let mut k: usize = first.len();
    assert(first@.take(k as int) =~= first@);
    while k > 0 && first[k - 1] == ':'
        invariant
            0 <= k <= first.len(),
            trim_end_char(first@, ':') == trim_end_char(first@.take(k as int), ':'),
        decreases k,
    {
        assert(first@.take(k as int).drop_last() =~= first@.take(k - 1));
        k = k - 1;
    }
    let trimmed = crate::text::copy_range(first, 0, k);
    assert(trimmed@ =~= first@.take(k as int));
    parse_u32(&trimmed)
}

/// The thread names pinned to the big cores.
pub open spec fn critical_thread_names() -> Seq<Seq<char>> {
    seq![
        "RenderThread"@,
        "GLThread"@,
        "hwuiTask0"@,
        "hwuiTask1"@,
        "UnityMain"@,
        "UnityGfxDeviceW"@,
        "UnityMultiRend"@,
        "mali-event-hnd"@,
        "GPU completion"@,
        "sg_main_thread"@,
        "Thread-1"@,
        "Thread-2"@,
    ]
}

/// Whether a thread of this name is pinned to the big cores.
pub fn is_critical_thread(comm: &str) -> (r: bool)
    ensures
        r == critical_thread_names().contains(comm@),
{
    let names = critical_thread_names_exec();
    let mut i: usize = 0;
    while i < names.len()
        invariant
            0 <= i <= names.len(),
            string_views_of(names@) == critical_thread_names(),
            forall|k: int| 0 <= k < i ==> critical_thread_names()[k] != comm@,
        decreases names.len() - i,
    {
        if crate::charging::str_eq(comm, names[i]) {
            assert(critical_thread_names()[i as int] == comm@);
            return true;
        }
        i = i + 1;
    }
    false
}

/// The views of a sequence of string slices.
pub open spec fn string_views_of(s: Seq<&str>) -> Seq<Seq<char>> {
    s.map_values(|x: &str| x@)
}

fn critical_thread_names_exec() -> (r: Vec<&'static str>)
    ensures
        string_views_of(r@) == critical_thread_names(),
{
    let r = vec![
        "RenderThread",
        "GLThread",
        "hwuiTask0",
        "hwuiTask1",
        "UnityMain",
        "UnityGfxDeviceW",
        "UnityMultiRend",
        "mali-event-hnd",
        "GPU completion",
        "sg_main_thread",
        "Thread-1",
        "Thread-2",
    ];
    assert(string_views_of(r@) =~= critical_thread_names());
    r
}

} // verus!

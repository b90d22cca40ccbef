//! The daemon's configuration: the thresholds of `profiles.conf`, the game
//! list of `game_list.conf`, and how a loaded configuration is checked and
//! falls back to the embedded defaults.
use vstd::prelude::*;
use crate::text::{
    before_char, before_char_exec, chars_of, concat3, lemma_split_by_step, lex_compare, lex_lt,
    lemma_lex_trans, split_by, string_from_chars, trim, trim_chars,
};

verus! {

/// The values of `profiles.conf`.
#[derive(Debug, Clone, PartialEq)]
pub struct ProfilesConfig {
    pub temp_cool: i32,
    pub temp_warm: i32,
    pub temp_hot: i32,
    pub temp_powersave: i32,
    pub temp_critical: i32,
    pub poll_interval: u64,
    pub temp_history_size: usize,
    pub prediction_window: usize,
    pub policy_debounce_sec: u64,
    pub log_level: String,
    pub gpu_gaming_threshold: i32,
    pub log_rotate_mb: u64,
    pub log_retain_count: u32,
    pub proc_scan_interval: u64,
    pub game_latch_sec: u64,
    pub gaming_score_boost: i32,
    pub disable_tweaks: bool,
    pub adaptive_governor_enabled: bool,
    pub battery_stats_enabled: bool,
    /// Minimum interval between two consecutive actuation bursts.
    pub min_actuation_interval_ms: u64,
    /// Congestion control algorithm installed while a game is active;
    /// `kernel_default` keeps the kernel's choice.
    pub tcp_congestion_control_gaming: String,
    /// Master switch for every write under `/proc/sys/net/ipv4/tcp_*`.
    pub touch_network_stack: bool,
    /// Consecutive unclean exits that arm safe mode on the next boot.
    pub safe_mode_after_crashes: u32,
    /// Watchdog failures above which a full restore is requested.
    pub watchdog_stall_threshold: u32,
    pub trace_markers_enabled: bool,
}

impl ProfilesConfig {
    /// Every field holds its embedded default.
    pub open spec fn is_default(&self) -> bool {
        &&& self.temp_cool == 42
        &&& self.temp_warm == 48
        &&& self.temp_hot == 58
        &&& self.temp_powersave == 68
        &&& self.temp_critical == 75
        &&& self.poll_interval == 2
        &&& self.temp_history_size == 10
        &&& self.prediction_window == 5
        &&& self.policy_debounce_sec == 10
        &&& self.log_level@ == "INFO"@
        &&& self.gpu_gaming_threshold == 20
        &&& self.log_rotate_mb == 5
        &&& self.log_retain_count == 1
        &&& self.proc_scan_interval == 3
        &&& self.game_latch_sec == 45
        &&& self.gaming_score_boost == 35
        &&& !self.disable_tweaks
        &&& !self.adaptive_governor_enabled
        &&& self.battery_stats_enabled
        &&& self.min_actuation_interval_ms == 2500
        &&& self.tcp_congestion_control_gaming@ == "kernel_default"@
        &&& !self.touch_network_stack
        &&& self.safe_mode_after_crashes == 2
        &&& self.watchdog_stall_threshold == 5
        &&& !self.trace_markers_enabled
    }

    /// The first broken rule, in the order in which the rules are checked.
    pub open spec fn validation_error(&self) -> Option<&'static str> {
        if self.temp_cool >= self.temp_warm {
            Some("temp_cool >= temp_warm")
        } else if self.temp_warm >= self.temp_hot {
            Some("temp_warm >= temp_hot")
        } else if self.temp_hot >= self.temp_powersave {
            Some("temp_hot >= temp_powersave")
        } else if self.temp_powersave >= self.temp_critical {
            Some("temp_powersave >= temp_critical")
        } else if self.poll_interval == 0 {
            Some("poll_interval == 0")
        } else if self.temp_history_size == 0 {
            Some("temp_history_size == 0")
        } else if self.prediction_window == 0 {
            Some("prediction_window == 0")
        } else if self.policy_debounce_sec == 0 {
            Some("policy_debounce_sec == 0")
        } else if self.log_rotate_mb == 0 {
            Some("log_rotate_mb == 0")
        } else if self.log_retain_count == 0 {
            Some("log_retain_count == 0")
        } else if self.proc_scan_interval == 0 {
            Some("proc_scan_interval == 0")
        } else if self.game_latch_sec == 0 {
            Some("game_latch_sec == 0")
        } else {
            None
        }
    }

    /// The thresholds strictly increase from cool to critical and no interval,
    /// size or count is zero.
    pub open spec fn well_ordered(&self) -> bool {
        &&& self.temp_cool < self.temp_warm < self.temp_hot < self.temp_powersave
            < self.temp_critical
        &&& self.poll_interval > 0
        &&& self.temp_history_size > 0
        &&& self.prediction_window > 0
        &&& self.policy_debounce_sec > 0
        &&& self.log_rotate_mb > 0
        &&& self.log_retain_count > 0
        &&& self.proc_scan_interval > 0
        &&& self.game_latch_sec > 0
    }

    /// Checks the thresholds and intervals; the error names the first rule
    /// that is broken.
    pub fn is_valid(&self) -> (r: Result<(), &'static str>)
        ensures
            r == (match self.validation_error() {
                Some(m) => Err(m),
                None => Ok(()),
            }),
            r is Ok <==> self.well_ordered(),
    {
        if self.temp_cool >= self.temp_warm {
            return Err("temp_cool >= temp_warm");
        }
        if self.temp_warm >= self.temp_hot {
            return Err("temp_warm >= temp_hot");
        }
        if self.temp_hot >= self.temp_powersave {
            return Err("temp_hot >= temp_powersave");
        }
        if self.temp_powersave >= self.temp_critical {
            return Err("temp_powersave >= temp_critical");
        }
        if self.poll_interval == 0 {
            return Err("poll_interval == 0");
        }
        if self.temp_history_size == 0 {
            return Err("temp_history_size == 0");
        }
        if self.prediction_window == 0 {
            return Err("prediction_window == 0");
        }
        if self.policy_debounce_sec == 0 {
            return Err("policy_debounce_sec == 0");
        }
        if self.log_rotate_mb == 0 {
            return Err("log_rotate_mb == 0");
        }
        if self.log_retain_count == 0 {
            return Err("log_retain_count == 0");
        }
        if self.proc_scan_interval == 0 {
            return Err("proc_scan_interval == 0");
        }
        if self.game_latch_sec == 0 {
            return Err("game_latch_sec == 0");
        }
        Ok(())
    }
}

impl Default for ProfilesConfig {
    fn default() -> (r: Self)
        ensures
            r.is_default(),
    {
        ProfilesConfig {
            temp_cool: 42,
            temp_warm: 48,
            temp_hot: 58,
            temp_powersave: 68,
            temp_critical: 75,
            poll_interval: 2,
            temp_history_size: 10,
            prediction_window: 5,
            policy_debounce_sec: 10,
            log_level: "INFO".to_owned(),
            gpu_gaming_threshold: 20,
            log_rotate_mb: 5,
            log_retain_count: 1,
            proc_scan_interval: 3,
            game_latch_sec: 45,
            gaming_score_boost: 35,
            disable_tweaks: false,
            adaptive_governor_enabled: false,
            battery_stats_enabled: true,
            min_actuation_interval_ms: 2500,
            tcp_congestion_control_gaming: "kernel_default".to_owned(),
            touch_network_stack: false,
            safe_mode_after_crashes: 2,
            watchdog_stall_threshold: 5,
            trace_markers_enabled: false,
        }
    }
}

/// The defaults satisfy every rule that `is_valid` checks.
pub proof fn lemma_default_profiles_valid(p: ProfilesConfig)
    requires
        p.is_default(),
    ensures
        p.validation_error().is_none(),
        p.well_ordered(),
{
}

} // verus!

verus! {

/// The games of `game_list.conf`, by package name.
#[derive(Debug, Clone, PartialEq)]
pub struct GameListConfig {
    pub packages: Vec<String>,
}

/// The package names that the daemon knows as games without a list.
pub open spec fn default_game_list() -> Seq<Seq<char>> {
    seq![
        "com.miHoYo.GenshinImpact"@,
        "com.miHoYo.hkrpg"@,
        "com.pubg.imobile"@,
        "com.pubg.krmobile"@,
        "com.pubg.newstate"@,
        "com.tencent.ig"@,
        "com.tencent.tmgp.pubgmhd"@,
        "com.krafton.pubgmobile"@,
        "com.activision.callofduty.shooter"@,
        "com.activision.callofduty.warzone"@,
        "com.garena.game.codm"@,
        "com.tencent.tmgp.cod"@,
        "com.tencent.tmgp.kr.codm"@,
        "com.roblox.client"@,
        "com.roblox.client.vnggames"@,
    ]
}

fn default_game_packages() -> (v: Vec<String>)
    ensures
        v.deep_view() == default_game_list(),
{
    let v = vec![
        "com.miHoYo.GenshinImpact".to_owned(),
        "com.miHoYo.hkrpg".to_owned(),
        "com.pubg.imobile".to_owned(),
        "com.pubg.krmobile".to_owned(),
        "com.pubg.newstate".to_owned(),
        "com.tencent.ig".to_owned(),
        "com.tencent.tmgp.pubgmhd".to_owned(),
        "com.krafton.pubgmobile".to_owned(),
        "com.activision.callofduty.shooter".to_owned(),
        "com.activision.callofduty.warzone".to_owned(),
        "com.garena.game.codm".to_owned(),
        "com.tencent.tmgp.cod".to_owned(),
        "com.tencent.tmgp.kr.codm".to_owned(),
        "com.roblox.client".to_owned(),
        "com.roblox.client.vnggames".to_owned(),
    ];
    assert(v.deep_view() =~= default_game_list());
    v
}

impl Default for GameListConfig {
    fn default() -> (r: Self)
        ensures
            r.packages.deep_view() == default_game_list(),
    {
        GameListConfig { packages: default_game_packages() }
    }
}

/// What one line of the game list names: the line without its comment
/// (from the first `#`), with surrounding whitespace removed.
pub open spec fn line_entry(line: Seq<char>) -> Seq<char> {
    trim(before_char(trim(line), '#'))
}

/// The non-empty entries of the given lines.
pub open spec fn entry_set(lines: Seq<Seq<char>>) -> Set<Seq<char>> {
    Set::new(
        |e: Seq<char>|
            e.len() > 0 && exists|i: int| 0 <= i < lines.len() && line_entry(lines[i]) == e,
    )
}

/// Each entry comes strictly before the next one: sorted, without repeats.
pub open spec fn strictly_sorted(v: Seq<Seq<char>>) -> bool {
    forall|i: int, j: int| 0 <= i < j < v.len() ==> lex_lt(#[trigger] v[i], #[trigger] v[j])
}

/// The package list that `game_list.conf` with the given text yields: its
/// entries sorted without repeats, or the default list when it names none.
pub open spec fn game_list_from(lines: Seq<Seq<char>>, packages: Seq<Seq<char>>) -> bool {
    if entry_set(lines) == Set::<Seq<char>>::empty() {
        packages == default_game_list()
    } else {
        &&& strictly_sorted(packages)
        &&& packages.to_set() == entry_set(lines)
    }
}

proof fn lemma_entry_set_push(lines: Seq<Seq<char>>, l: Seq<char>)
    ensures
        entry_set(lines.push(l)) == (if line_entry(l).len() > 0 {
            entry_set(lines).insert(line_entry(l))
        } else {
            entry_set(lines)
        }),
{
    let a = entry_set(lines.push(l));
    let b = if line_entry(l).len() > 0 {
        entry_set(lines).insert(line_entry(l))
    } else {
        entry_set(lines)
    };
    assert forall|e: Seq<char>| a.contains(e) implies b.contains(e) by {
        let i = choose|i: int| 0 <= i < lines.push(l).len() && line_entry(lines.push(l)[i]) == e;
        if i < lines.len() {
            assert(line_entry(lines[i]) == e);
        }
    }
    assert forall|e: Seq<char>| b.contains(e) implies a.contains(e) by {
        if e.len() > 0 && exists|i: int| 0 <= i < lines.len() && line_entry(lines[i]) == e {
            let i = choose|i: int| 0 <= i < lines.len() && line_entry(lines[i]) == e;
            assert(lines.push(l)[i] == lines[i]);
        } else {
            assert(lines.push(l)[lines.len() as int] == l);
        }
    }
    assert(a =~= b);
}

/// Inserts `e` into a strictly sorted list, unless it is there already.
fn insert_sorted(v: &mut Vec<Vec<char>>, e: Vec<char>)
    requires
        strictly_sorted(old(v).deep_view()),
    ensures
        strictly_sorted(final(v).deep_view()),
        final(v).deep_view().to_set() == old(v).deep_view().to_set().insert(e@),
{
    let ghost old_dv = v.deep_view();
    let mut i: usize = 0;
    while i < v.len()
        invariant
            0 <= i <= v.len(),
            v.deep_view() == old_dv,
            old_dv == old(v).deep_view(),
            strictly_sorted(old_dv),
            forall|j: int| 0 <= j < i ==> lex_lt(#[trigger] old_dv[j], e@),
        ensures
            0 <= i <= v.len(),
            v.deep_view() == old_dv,
            forall|j: int| 0 <= j < i ==> lex_lt(#[trigger] old_dv[j], e@),
            i == v.len() || lex_lt(e@, old_dv[i as int]),
        decreases v.len() - i,
    {
        let c = lex_compare(&v[i], &e);
        assert(v[i as int]@ == old_dv[i as int]);
        if c == 0 {
            assert(old_dv.to_set().insert(e@) =~= old_dv.to_set()) by {
                assert(old_dv[i as int] == e@);
                assert(old_dv.to_set().contains(e@));
            }
            return;
        }
        if c > 0 {
            break;
        }
        i = i + 1;
    }
    let ghost pos = i as int;
    proof {
        // Everything from `pos` on comes after `e`.
        assert forall|j: int| pos <= j < old_dv.len() implies lex_lt(e@, #[trigger] old_dv[j]) by {
            if j > pos {
                assert(lex_lt(old_dv[pos], old_dv[j]));
                lemma_lex_trans(e@, old_dv[pos], old_dv[j]);
            }
        }
    }
    let ghost old_v = v@;
    let ghost ev = e@;
    v.insert(i, e);
    let ghost new_dv = v.deep_view();
    proof {
        assert forall|k: int| 0 <= k < new_dv.len() implies new_dv[k] == old_dv.insert(pos, ev)[k] by {
            if k < pos {
                assert(v@[k] == old_v[k]);
            } else if k > pos {
                assert(v@[k] == old_v[k - 1]);
            }
        }
        assert(new_dv =~= old_dv.insert(pos, ev));
        assert forall|a: int, b: int| 0 <= a < b < new_dv.len() implies lex_lt(
            #[trigger] new_dv[a],
            #[trigger] new_dv[b],
        ) by {
            if b < pos {
            } else if a < pos && b == pos {
            } else if a < pos {
                assert(new_dv[b] == old_dv[b - 1]);
            } else if a == pos {
                assert(new_dv[b] == old_dv[b - 1]);
            } else {
                assert(new_dv[a] == old_dv[a - 1]);
                assert(new_dv[b] == old_dv[b - 1]);
            }
        }
        assert(new_dv.to_set() =~= old_dv.to_set().insert(e@)) by {
            assert forall|x: Seq<char>| new_dv.to_set().contains(x) implies old_dv.to_set().insert(
                e@,
            ).contains(x) by {
                let k = choose|k: int| 0 <= k < new_dv.len() && new_dv[k] == x;
                if k < pos {
                    assert(old_dv[k] == x);
                } else if k > pos {
                    assert(old_dv[k - 1] == x);
                }
            }
            assert forall|x: Seq<char>| old_dv.to_set().insert(e@).contains(x) implies new_dv.to_set().contains(
                x,
            ) by {
                if x == e@ {
                    assert(new_dv[pos] == x);
                } else {
                    let k = choose|k: int| 0 <= k < old_dv.len() && old_dv[k] == x;
                    if k < pos {
                        assert(new_dv[k] == x);
                    } else {
                        assert(new_dv[k + 1] == x);
                    }
                }
            }
        }
    }
}

/// Adds the entry of one line, when it names one.
fn add_line_entry(entries: &mut Vec<Vec<char>>, line: &Vec<char>)
    requires
        strictly_sorted(old(entries).deep_view()),
    ensures
        strictly_sorted(final(entries).deep_view()),
        final(entries).deep_view().to_set() == (if line_entry(line@).len() > 0 {
            old(entries).deep_view().to_set().insert(line_entry(line@))
        } else {
            old(entries).deep_view().to_set()
        }),
{
    let trimmed = trim_chars(line);
    let uncommented = before_char_exec(&trimmed, '#');
    let entry = trim_chars(&uncommented);
    if entry.len() > 0 {
        insert_sorted(entries, entry);
    }
}

/// Turns character vectors into strings.
fn strings_of(v: &Vec<Vec<char>>) -> (out: Vec<String>)
    ensures
        out.deep_view() == v.deep_view(),
{
    let mut out: Vec<String> = Vec::new();
    let mut i: usize = 0;
    while i < v.len()
        invariant
            0 <= i <= v.len(),
            out.len() == i,
            forall|k: int| 0 <= k < i ==> (#[trigger] out@[k])@ == v@[k]@,
            out.deep_view() == v.deep_view().take(i as int),
        decreases v.len() - i,
    {
        let s = string_from_chars(&v[i]);
        let ghost before = out@;
        out.push(s);
        assert(out@ == before.push(s));
        assert(before.len() == i);
        assert forall|k: int| 0 <= k < i + 1 implies out.deep_view()[k] == v.deep_view()[k] by {
            if k < i {
                assert(out@[k] == before[k]);
            }
        }
        assert(out.deep_view() =~= v.deep_view().take(i + 1));
        i = i + 1;
    }
    assert(v.deep_view().take(v.len() as int) =~= v.deep_view());
    out
}

impl GameListConfig {
    /// Reads the text of `game_list.conf`: one package per line, `#` starts a
    /// comment, blank lines are skipped. The packages come out sorted and
    /// without repeats; a text that names none gives the default list.
    pub fn from_text(content: &str) -> (r: GameListConfig)
        ensures
            game_list_from(split_by(content@, '\n'), r.packages.deep_view()),
    {
        let chars = chars_of(content);
        let mut entries: Vec<Vec<char>> = Vec::new();
        let mut cur: Vec<char> = Vec::new();
        let ghost mut done: Seq<Seq<char>> = Seq::empty();
        let mut k: usize = 0;
        assert(chars@.take(0) =~= Seq::<char>::empty());
        assert(entries.deep_view().to_set() =~= entry_set(done));
        while k < chars.len()
            invariant
                0 <= k <= chars.len(),
                split_by(chars@.take(k as int), '\n') == done.push(cur@),
                strictly_sorted(entries.deep_view()),
                entries.deep_view().to_set() == entry_set(done),
            decreases chars.len() - k,
        {
            let c = chars[k];
            proof {
                lemma_split_by_step(chars@.take(k as int), '\n', c);
                assert(chars@.take(k + 1) =~= chars@.take(k as int).push(c));
            }
            if c == '\n' {
                add_line_entry(&mut entries, &cur);
                proof {
                    lemma_entry_set_push(done, cur@);
                    done = done.push(cur@);
                }
                cur = Vec::new();
                assert(done.push(cur@) =~= split_by(chars@.take(k + 1), '\n'));
            } else {
                proof {
                    let p = split_by(chars@.take(k as int), '\n');
                    assert(p.last() == cur@);
                }
                cur.push(c);
                assert(done.push(cur@) =~= split_by(chars@.take(k + 1), '\n'));
            }
            k = k + 1;
        }
        add_line_entry(&mut entries, &cur);
        proof {
            lemma_entry_set_push(done, cur@);
            assert(chars@.take(chars.len() as int) =~= chars@);
        }
        let ghost lines = done.push(cur@);
        if entries.len() == 0 {
            proof {
                assert(entries.deep_view().to_set() =~= Set::<Seq<char>>::empty());
            }
            GameListConfig::default()
        } else {
            proof {
                assert(entries.deep_view().to_set().contains(entries.deep_view()[0]));
                assert(entry_set(lines).contains(entries.deep_view()[0]));
            }
            GameListConfig { packages: strings_of(&entries) }
        }
    }
}

/// The whole configuration.
#[derive(Debug, Clone)]
pub struct AppConfig {
    pub profiles: ProfilesConfig,
    pub games: GameListConfig,
}

pub open spec fn invalid_thresholds_warning(reason: &'static str) -> Seq<char> {
    "Invalid configuration thresholds or bounds: "@ + reason@ + ". Falling back to defaults."@
}

pub open spec fn profiles_failure_warning(e: Seq<char>) -> Seq<char> {
    "Failed to load profiles config ("@ + e + "), using embedded defaults."@
}

pub open spec fn games_failure_warning(e: Seq<char>) -> Seq<char> {
    "Failed to load game list config ("@ + e + "), using embedded defaults."@
}

impl AppConfig {
    /// Checks a parsed `profiles.conf`: a configuration that breaks a rule is
    /// replaced by the defaults, with a warning that names the rule.
    pub fn validate_profiles(config: ProfilesConfig) -> (r: (ProfilesConfig, Vec<String>))
        ensures
            match config.validation_error() {
                None => r.0 == config && r.1.len() == 0,
                Some(reason) => r.0.is_default() && r.1.len() == 1 && r.1[0]@
                    == invalid_thresholds_warning(reason),
            },
    {
        let mut warnings: Vec<String> = Vec::new();
        match config.is_valid() {
            Ok(()) => (config, warnings),
            Err(reason) => {
                warnings.push(
                    concat3(
                        "Invalid configuration thresholds or bounds: ",
                        reason,
                        ". Falling back to defaults.",
                    ),
                );
                (ProfilesConfig::default(), warnings)
            },
        }
    }

    /// Builds the configuration from what was read: the parsed
    /// `profiles.conf` and the text of `game_list.conf`, or for each the
    /// message of what went wrong. Nothing here fails: a file that could not
    /// be had gives the defaults and a warning.
    pub fn load_or_default(
        profiles: Result<ProfilesConfig, String>,
        games_text: Result<String, String>,
    ) -> (r: (AppConfig, Vec<String>))
        ensures
            match profiles {
                Ok(p) => match p.validation_error() {
                    None => r.0.profiles == p,
                    Some(_) => r.0.profiles.is_default(),
                },
                Err(_) => r.0.profiles.is_default(),
            },
            match games_text {
                Ok(t) => game_list_from(split_by(t@, '\n'), r.0.games.packages.deep_view()),
                Err(_) => r.0.games.packages.deep_view() == default_game_list(),
            },
            r.1@.map_values(|w: String| w@) == (match profiles {
                Ok(p) => match p.validation_error() {
                    None => Seq::<Seq<char>>::empty(),
                    Some(reason) => seq![invalid_thresholds_warning(reason)],
                },
                Err(e) => seq![profiles_failure_warning(e@)],
            }) + (match games_text {
                Ok(_) => Seq::<Seq<char>>::empty(),
                Err(e) => seq![games_failure_warning(e@)],
            }),
    {
        let ghost gprofiles = profiles;
        let ghost ggames = games_text;
        let mut warnings: Vec<String> = Vec::new();
        let profiles_config = match profiles {
            Ok(p) => {
                let (checked, mut load_warns) = Self::validate_profiles(p);
                warnings.append(&mut load_warns);
                checked
            },
            Err(e) => {
                warnings.push(
                    concat3(
                        "Failed to load profiles config (",
                        e.as_str(),
                        "), using embedded defaults.",
                    ),
                );
                ProfilesConfig::default()
            },
        };
        let ghost after_profiles = warnings@;
        let games = match games_text {
            Ok(t) => GameListConfig::from_text(t.as_str()),
            Err(e) => {
                warnings.push(
                    concat3(
                        "Failed to load game list config (",
                        e.as_str(),
                        "), using embedded defaults.",
                    ),
                );
                GameListConfig::default()
            },
        };
        proof {
            let expected_p = match gprofiles {
                Ok(p) => match p.validation_error() {
                    None => Seq::<Seq<char>>::empty(),
                    Some(reason) => seq![invalid_thresholds_warning(reason)],
                },
                Err(e) => seq![profiles_failure_warning(e@)],
            };
            assert(after_profiles.map_values(|w: String| w@) =~= expected_p);
            assert(warnings@.map_values(|w: String| w@) =~= expected_p + (match ggames {
                Ok(_) => Seq::<Seq<char>>::empty(),
                Err(e) => seq![games_failure_warning(e@)],
            }));
        }
        (AppConfig { profiles: profiles_config, games }, warnings)
    }
}

} // verus!

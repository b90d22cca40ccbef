//! Game detection: which known game is in the foreground, confirmed by the
//! top-app cgroup and latched for a while after it was last seen, so that a
//! flaky read does not end a session.
//!
//! Scanning `/proc` and reading the cgroup is the caller's part; a tick goes
//! [`GameDetector::scan_due`], the scan when it is due, the cgroup check of
//! [`GameDetector::candidate`], then [`GameDetector::tick`]. Times are
//! milliseconds on a monotonic clock.
use vstd::prelude::*;
use crate::text::{
    before_char, before_char_exec, chars_of, copy_range, has_prefix, split_by, split_chars, split_words,
    starts_with_chars, string_from_chars, trim, trim_chars, words,
};

verus! {

/// Seconds after start during which nothing is detected.
pub const STARTUP_HOLD_SECS: u64 = 30;

/// How many consecutive top-app cgroup misses it takes to cancel an
/// otherwise valid process-scan detection, so that one flaky read does not
/// erase a real game.
pub const CGROUP_NEGATIVE_STREAK_THRESHOLD: u32 = 3;

pub struct GameDetector {
    pub known_games: Vec<String>,
    pub is_gaming: bool,
    pub confirmed_package: Option<String>,
    pub confirmed_pid: Option<u32>,
    pub latch_time_ms: Option<u64>,
    pub latch_duration_ms: u64,
    pub last_proc_scan_ms: Option<u64>,
    pub proc_scan_interval_ms: u64,
    pub cached_package: Option<String>,
    pub cached_pid: Option<u32>,
    pub daemon_started_at_ms: u64,
    /// Consecutive ticks whose candidate the top-app cgroup did not hold.
    pub cgroup_negative_streak: u32,
}

/// The miss streak after a tick: one more when there is a candidate and
/// the cgroup does not hold it, zero otherwise.
pub open spec fn next_streak(streak: u32, has_candidate: bool, in_top_app: Option<bool>) -> u32 {
    if has_candidate && in_top_app == Some(false) {
        if streak < u32::MAX {
            (streak + 1) as u32
        } else {
            streak
        }
    } else {
        0
    }
}

/// What a tick does before looking at processes.
#[derive(Debug, Clone, Copy, PartialEq, Eq, Structural)]
pub enum ScanDecision {
    /// Still within the startup hold: nothing is detected.
    Startup,
    /// Scan the processes now.
    Scan,
    /// Use the result of the last scan.
    Cached,
}

pub open spec fn since(at: u64, now: u64) -> int {
    if now >= at {
        now - at
    } else {
        0
    }
}

/// The priority of the foreground for the scheduler: 50 while gaming, plus
/// 30 for a game known to run hot and 20 with the screen on; 10 for the
/// screen on otherwise.
pub open spec fn foreground_priority_spec(gaming: bool, known_hot: bool, screen_off: bool) -> i32 {
    if gaming {
        (50 + (if known_hot {
            30int
        } else {
            0int
        }) + (if !screen_off {
            20int
        } else {
            0int
        })) as i32
    } else if !screen_off {
        10
    } else {
        0
    }
}

pub open spec fn secs_to_ms(secs: u64) -> u64 {
    if secs * 1000 > u64::MAX {
        u64::MAX
    } else {
        (secs * 1000) as u64
    }
}

fn secs_to_ms_exec(secs: u64) -> (r: u64)
    ensures
        r == secs_to_ms(secs),
{
    if secs > u64::MAX / 1000 {
        u64::MAX
    } else {
        secs * 1000
    }
}

impl GameDetector {
    pub fn new(known_games: Vec<String>, latch_sec: u64, proc_scan_interval_sec: u64, now_ms: u64) -> (r:
        Self)
        ensures
            r.known_games == known_games,
            !r.is_gaming,
            r.confirmed_package.is_none(),
            r.confirmed_pid.is_none(),
            r.latch_time_ms.is_none(),
            r.latch_duration_ms == secs_to_ms(latch_sec),
            r.last_proc_scan_ms.is_none(),
            r.proc_scan_interval_ms == secs_to_ms(proc_scan_interval_sec),
            r.cached_package.is_none(),
            r.cached_pid.is_none(),
            r.daemon_started_at_ms == now_ms,
            r.cgroup_negative_streak == 0,
    {
        GameDetector {
            known_games,
            is_gaming: false,
            confirmed_package: None,
            confirmed_pid: None,
            latch_time_ms: None,
            latch_duration_ms: secs_to_ms_exec(latch_sec),
            last_proc_scan_ms: None,
            proc_scan_interval_ms: secs_to_ms_exec(proc_scan_interval_sec),
            cached_package: None,
            cached_pid: None,
            daemon_started_at_ms: now_ms,
            cgroup_negative_streak: 0,
        }
    }

    /// Whether a game that has run for at least a minute stutters: the GPU
    /// was busy more than 95% of the time (`gpu_busy` is busy and total
    /// time, when both were read and the total is positive), or the
    /// one-minute load average (in hundredths) exceeds one and a half per
    /// core. Never without a game or a session start.
    pub fn detect_frame_stutter(
        &self,
        session_secs: Option<u64>,
        gpu_busy: Option<(u64, u64)>,
        load1_hundredths: Option<i64>,
        cores: u64,
    ) -> (r: bool)
        ensures
            r == (self.is_gaming && match session_secs {
                Some(t) => t >= 60,
                None => false,
            } && ((match gpu_busy {
                Some((busy, total)) => total > 0 && busy * 100 > 95 * total,
                None => false,
            }) || (match load1_hundredths {
                Some(l) => l > cores * 150,
                None => false,
            }))),
    {
        if !self.is_gaming {
            return false;
        }
        match session_secs {
            Some(t) => {
                if t < 60 {
                    return false;
                }
            },
            None => {
                return false;
            },
        }
        let gpu_stress = match gpu_busy {
            Some((busy, total)) => total > 0 && (busy as u128) * 100 > 95 * (total as u128),
            None => false,
        };
        let overloaded = match load1_hundredths {
            Some(l) => (l as i128) > (cores as i128) * 150,
            None => false,
        };
        gpu_stress || overloaded
    }

    /// The scheduler priority of the foreground.
    pub fn foreground_priority(&self, known_hot: bool, is_screen_off: bool) -> (r: i32)
        ensures
            r == foreground_priority_spec(self.is_gaming, known_hot, is_screen_off),
    {
        let mut priority: i32 = 0;
        if self.is_gaming {
            priority = priority + 50;
            if known_hot {
                priority = priority + 30;
            }
            if !is_screen_off {
                priority = priority + 20;
            }
        } else if !is_screen_off {
            priority = priority + 10;
        }
        priority
    }

    pub fn confirmed_package(&self) -> (r: Option<&str>)
        ensures
            match self.confirmed_package {
                Some(p) => r.is_some() && r.unwrap()@ == p@,
                None => r.is_none(),
            },
    {
        match &self.confirmed_package {
            Some(p) => Some(p.as_str()),
            None => None,
        }
    }

    pub open spec fn scan_due_spec(&self, now_ms: u64) -> ScanDecision {
        if since(self.daemon_started_at_ms, now_ms) / 1000 < STARTUP_HOLD_SECS {
            ScanDecision::Startup
        } else {
            match self.last_proc_scan_ms {
                Some(last) => if since(last, now_ms) >= self.proc_scan_interval_ms {
                    ScanDecision::Scan
                } else {
                    ScanDecision::Cached
                },
                None => ScanDecision::Scan,
            }
        }
    }

    /// Whether this tick scans the processes.
    pub fn scan_due(&self, now_ms: u64) -> (r: ScanDecision)
        ensures
            r == self.scan_due_spec(now_ms),
    {
        if now_ms.saturating_sub(self.daemon_started_at_ms) / 1000 < STARTUP_HOLD_SECS {
            return ScanDecision::Startup;
        }
        match self.last_proc_scan_ms {
            Some(last) => if now_ms.saturating_sub(last) >= self.proc_scan_interval_ms {
                ScanDecision::Scan
            } else {
                ScanDecision::Cached
            },
            None => ScanDecision::Scan,
        }
    }

    /// The package to check in the top-app cgroup: the scanned one when the
    /// scan ran, the cached one otherwise.
    pub fn candidate(&self, decision: ScanDecision, scanned: &Option<(Option<String>, Option<u32>)>) -> (r:
        Option<String>)
        ensures
            decision == ScanDecision::Scan ==> r == (match *scanned {
                Some(x) => x.0,
                None => None::<String>,
            }),
            decision == ScanDecision::Cached ==> r == self.cached_package,
            decision == ScanDecision::Startup ==> r.is_none(),
    {
        match decision {
            ScanDecision::Startup => None,
            ScanDecision::Scan => match scanned {
                Some((p, _)) => p.clone(),
                None => None,
            },
            ScanDecision::Cached => self.cached_package.clone(),
        }
    }

    /// One tick: `scanned` is the result of the process scan (used when the
    /// scan was due), `in_top_app` whether the candidate was found in the
    /// top-app cgroup (`None` when the cgroup could not be read). A candidate
    /// is not detected once the cgroup has missed it on
    /// `CGROUP_NEGATIVE_STREAK_THRESHOLD` ticks in a row; a detection latches
    /// the game for the latch duration. During the startup hold nothing
    /// changes. Returns whether a game is running.
    pub fn tick(
        &mut self,
        now_ms: u64,
        scanned: Option<(Option<String>, Option<u32>)>,
        in_top_app: Option<bool>,
    ) -> (r: bool)
        ensures
            old(self).scan_due_spec(now_ms) == ScanDecision::Startup ==> !r && *final(self) == *old(
                self,
            ),
            old(self).scan_due_spec(now_ms) != ScanDecision::Startup ==> {
                let scan = old(self).scan_due_spec(now_ms) == ScanDecision::Scan;
                let (pkg, pid) = if scan {
                    match scanned {
                        Some(x) => x,
                        None => (None, None),
                    }
                } else {
                    (old(self).cached_package, old(self).cached_pid)
                };
                let streak = next_streak(old(self).cgroup_negative_streak, pkg.is_some(), in_top_app);
                let detected = pkg.is_some() && !(in_top_app == Some(false) && streak
                    >= CGROUP_NEGATIVE_STREAK_THRESHOLD);
                &&& final(self).cgroup_negative_streak == streak
                &&& r == final(self).is_gaming
                &&& scan ==> final(self).last_proc_scan_ms == Some(now_ms)
                    && final(self).cached_package == pkg && final(self).cached_pid == pid
                &&& !scan ==> final(self).last_proc_scan_ms == old(self).last_proc_scan_ms
                    && final(self).cached_package == old(self).cached_package
                &&& if detected {
                    &&& r
                    &&& final(self).confirmed_package == pkg
                    &&& final(self).confirmed_pid == pid
                    &&& final(self).latch_time_ms == Some(now_ms)
                } else {
                    match old(self).latch_time_ms {
                        Some(t) => if since(t, now_ms) > old(self).latch_duration_ms {
                            !r && final(self).latch_time_ms.is_none()
                                && final(self).confirmed_pid.is_none()
                        } else {
                            r && final(self).latch_time_ms == old(self).latch_time_ms
                        },
                        None => !r && final(self).confirmed_pid.is_none()
                            && final(self).latch_time_ms.is_none(),
                    }
                }
            },
            final(self).known_games == old(self).known_games,
            final(self).latch_duration_ms == old(self).latch_duration_ms,
            final(self).proc_scan_interval_ms == old(self).proc_scan_interval_ms,
            final(self).daemon_started_at_ms == old(self).daemon_started_at_ms,
    {
        let decision = self.scan_due(now_ms);
        if decision == ScanDecision::Startup {
            return false;
        }
        let (pkg, pid) = if decision == ScanDecision::Scan {
            let (p, i) = match scanned {
                Some(x) => x,
                None => (None::<String>, None::<u32>),
            };
            self.last_proc_scan_ms = Some(now_ms);
            self.cached_package = p.clone();
            self.cached_pid = i;
            (p, i)
        } else {
            (self.cached_package.clone(), self.cached_pid)
        };
        if pkg.is_some() && in_top_app == Some(false) {
            if self.cgroup_negative_streak < u32::MAX {
                self.cgroup_negative_streak = self.cgroup_negative_streak + 1;
            }
        } else {
            self.cgroup_negative_streak = 0;
        }
        let detected = pkg.is_some() && !(in_top_app == Some(false) && self.cgroup_negative_streak
            >= CGROUP_NEGATIVE_STREAK_THRESHOLD);
        if detected {
            self.is_gaming = true;
            self.confirmed_package = pkg;
            self.confirmed_pid = pid;
            self.latch_time_ms = Some(now_ms);
        } else {
            match self.latch_time_ms {
                Some(t) => {
                    if now_ms.saturating_sub(t) > self.latch_duration_ms {
                        self.is_gaming = false;
                        self.latch_time_ms = None;
                        self.confirmed_pid = None;
                    } else {
                        self.is_gaming = true;
                    }
                },
                None => {
                    self.is_gaming = false;
                    self.confirmed_pid = None;
                },
            }
        }
        self.is_gaming
    }
}

/// Whether a process whose command line is `cmdline` belongs to `package`:
/// its first NUL-separated part, trimmed, is the package or the package
/// followed by `:` and a process name.
pub open spec fn cmdline_matches_spec(cmdline: Seq<char>, package: Seq<char>) -> bool {
    let name = trim(before_char(cmdline, '\0'));
    name == package || has_prefix(name, package.push(':'))
}

pub fn cmdline_matches_package(cmdline: &str, package: &str) -> (r: bool)
    ensures
        r == cmdline_matches_spec(cmdline@, package@),
{
    let c = chars_of(cmdline);
    let first = before_char_exec(&c, '\0');
    let name = trim_chars(&first);
    let mut p = chars_of(package);
    if crate::text::chars_equal(&name, &p) {
        return true;
    }
    p.push(':');
    starts_with_chars(&name, &p)
}

/// Whether `package` is one of the known games.
pub fn is_known_game(known: &Vec<String>, package: &str) -> (r: bool)
    ensures
        r == known.deep_view().contains(package@),
{
    let mut i: usize = 0;
    while i < known.len()
        invariant
            0 <= i <= known.len(),
            forall|k: int| 0 <= k < i ==> known.deep_view()[k] != package@,
        decreases known.len() - i,
    {
        if crate::charging::str_eq(known[i].as_str(), package) {
            assert(known.deep_view()[i as int] == package@);
            return true;
        }
        i = i + 1;
    }
    false
}

/// `s` without its leading NUL characters.
pub open spec fn skip_nuls(s: Seq<char>) -> Seq<char>
    decreases s.len(),
{
    if s.len() > 0 && s[0] == '\0' {
        skip_nuls(s.drop_first())
    } else {
        s
    }
}

/// The process name a command line gives: its first NUL-separated part,
/// leading NULs skipped.
pub open spec fn cmdline_name_spec(cmdline: Seq<char>) -> Seq<char> {
    before_char(skip_nuls(cmdline), '\0')
}

pub fn cmdline_process_name(cmdline: &str) -> (r: String)
    ensures
        r@ == cmdline_name_spec(cmdline@),
{
    let c = chars_of(cmdline);
    let mut i: usize = 0;
    assert(c@.skip(0) =~= c@);
    while i < c.len() && c[i] == '\0'
        invariant
            0 <= i <= c.len(),
            skip_nuls(c@) == skip_nuls(c@.skip(i as int)),
        decreases c.len() - i,
    {
        assert(c@.skip(i as int).drop_first() =~= c@.skip(i + 1));
        i = i + 1;
    }
    let rest = copy_range(&c, i, c.len());
    assert(rest@ =~= c@.skip(i as int));
    assert(skip_nuls(c@.skip(i as int)) == c@.skip(i as int));
    let first = before_char_exec(&rest, '\0');
    string_from_chars(&first)
}

/// The first of `lines` that starts with `p`.
pub open spec fn first_with_prefix(lines: Seq<Seq<char>>, p: Seq<char>) -> Option<Seq<char>>
    decreases lines.len(),
{
    if lines.len() == 0 {
        None
    } else if has_prefix(lines[0], p) {
        Some(lines[0])
    } else {
        first_with_prefix(lines.drop_first(), p)
    }
}

/// The process name a `/proc/<pid>/status` text gives: the second word of
/// its first `Name:` line, when that line has one.
pub open spec fn status_name_spec(status: Seq<char>) -> Option<Seq<char>> {
    match first_with_prefix(split_by(status, '\n'), "Name:"@) {
        Some(l) => if words(l, true).len() > 1 {
            Some(words(l, true)[1])
        } else {
            None
        },
        None => None,
    }
}

pub fn status_process_name(status: &str) -> (r: Option<String>)
    ensures
        match r {
            Some(n) => status_name_spec(status@) == Some(n@),
            None => status_name_spec(status@).is_none(),
        },
{
    let lines = split_chars(&chars_of(status), '\n');
    let ghost ls = lines.deep_view();
    let prefix = chars_of("Name:");
    let mut i: usize = 0;
    assert(ls.skip(0) =~= ls);
    while i < lines.len()
        invariant
            0 <= i <= lines.len(),
            ls == lines.deep_view(),
            ls == split_by(status@, '\n'),
            prefix@ == "Name:"@,
            first_with_prefix(ls, "Name:"@) == first_with_prefix(ls.skip(i as int), "Name:"@),
        decreases lines.len() - i,
    {
        assert(ls.skip(i as int)[0] == lines@[i as int]@);
        if starts_with_chars(&lines[i], &prefix) {
            let ws = split_words(&lines[i], true);
            if ws.len() > 1 {
                assert(ws.deep_view()[1] == ws@[1]@);
                return Some(string_from_chars(&ws[1]));
            } else {
                return None;
            }
        }
        assert(ls.skip(i as int).drop_first() =~= ls.skip(i + 1));
        i = i + 1;
    }
    assert(ls.skip(i as int).len() == 0);
    None
}

/// Whether a command line that could be read belongs to `package`.
pub open spec fn entry_matches(e: Option<String>, package: Seq<char>) -> bool {
    match e {
        Some(c) => cmdline_matches_spec(c@, package),
        None => false,
    }
}

/// What one readable top-app cgroup says of `package`, from the command
/// lines of its processes (`None` where one could not be read): `Some(true)`
/// when one of them belongs to the package, `Some(false)` when some could be
/// read and none does, `None` when none could be read.
pub open spec fn cgroup_verdict_spec(cmdlines: Seq<Option<String>>, package: Seq<char>) -> Option<
    bool,
> {
    if exists|k: int| 0 <= k < cmdlines.len() && #[trigger] entry_matches(cmdlines[k], package) {
        Some(true)
    } else if exists|k: int| 0 <= k < cmdlines.len() && #[trigger] cmdlines[k] is Some {
        Some(false)
    } else {
        None
    }
}

pub fn cgroup_verdict(cmdlines: &Vec<Option<String>>, package: &str) -> (r: Option<bool>)
    ensures
        r == cgroup_verdict_spec(cmdlines@, package@),
{
    let mut checked_any = false;
    let mut i: usize = 0;
    while i < cmdlines.len()
        invariant
            0 <= i <= cmdlines.len(),
            checked_any == exists|k: int| 0 <= k < i && #[trigger] cmdlines@[k] is Some,
            forall|k: int| 0 <= k < i ==> !#[trigger] entry_matches(cmdlines@[k], package@),
        decreases cmdlines.len() - i,
    {
        match &cmdlines[i] {
            Some(c) => {
                checked_any = true;
                if cmdline_matches_package(c.as_str(), package) {
                    assert(entry_matches(cmdlines@[i as int], package@));
                    return Some(true);
                }
            },
            None => {},
        }
        i = i + 1;
    }
    if checked_any {
        Some(false)
    } else {
        None
    }
}

} // verus!

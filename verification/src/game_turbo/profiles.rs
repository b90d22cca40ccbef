//! Learned per-game profiles: the GPU power level, frame-rate cap, network
//! and thermal preference that worked for each game, and what they
//! recommend once a game has been seen often enough.
//!
//! Loads are kept in hundredths of a percent. Reading and writing the
//! profile file is the caller's part.
use vstd::prelude::*;
use crate::charging::str_eq;

verus! {

/// What was learned about one game.
#[derive(Debug, Clone, Copy, PartialEq, Eq, Structural)]
pub struct GameProfileEntry {
    /// Best GPU power level seen (a lower level is a faster GPU).
    pub best_gpu_level: u32,
    /// Running average of the session GPU loads, in hundredths of a percent.
    pub avg_gpu_load: u64,
    pub sessions: u32,
    /// Jank of the last session, in hundredths of a percent.
    pub last_jank_pct: i64,
    /// The average GPU load is above 70 %.
    pub gpu_bound: bool,
    /// The learned frame-rate cap; 0 for none.
    pub optimal_fps_cap: u32,
    /// 0 automatic, 1 WiFi, 2 cellular.
    pub preferred_network: u8,
    /// 0 balanced, 1 performance, 2 cool.
    pub thermal_policy: u8,
    /// When the last session ended, in seconds since the epoch.
    pub last_session_ts: u64,
}

pub open spec fn empty_entry() -> GameProfileEntry {
    GameProfileEntry {
        best_gpu_level: 0,
        avg_gpu_load: 0,
        sessions: 0,
        last_jank_pct: 0,
        gpu_bound: false,
        optimal_fps_cap: 0,
        preferred_network: 0,
        thermal_policy: 0,
        last_session_ts: 0,
    }
}

impl Default for GameProfileEntry {
    fn default() -> (r: Self)
        ensures
            r == empty_entry(),
    {
        GameProfileEntry {
            best_gpu_level: 0,
            avg_gpu_load: 0,
            sessions: 0,
            last_jank_pct: 0,
            gpu_bound: false,
            optimal_fps_cap: 0,
            preferred_network: 0,
            thermal_policy: 0,
            last_session_ts: 0,
        }
    }
}

/// Sessions needed before a profile is trusted.
pub const MIN_SESSIONS: u32 = 2;

pub open spec fn recommend_gpu_spec(f: GameProfileEntry, gpu_best: u32, gpu_worst: u32) -> Option<u32> {
    if f.sessions < MIN_SESSIONS {
        None
    } else {
        let rec: int = if f.gpu_bound {
            f.best_gpu_level as int
        } else if f.best_gpu_level + 1 <= gpu_worst {
            f.best_gpu_level + 1
        } else {
            gpu_worst as int
        };
        let lo = if rec >= gpu_best {
            rec
        } else {
            gpu_best as int
        };
        Some(
            (if lo <= gpu_worst {
                lo
            } else {
                gpu_worst as int
            }) as u32,
        )
    }
}

impl GameProfileEntry {
    /// The GPU power level for the game: its learned best level when it is
    /// GPU-bound, one level lighter otherwise, kept within `[gpu_best,
    /// gpu_worst]`; nothing before two sessions.
    pub fn gpu_level(&self, gpu_best: u32, gpu_worst: u32) -> (r: Option<u32>)
        ensures
            r == recommend_gpu_spec(*self, gpu_best, gpu_worst),
    {
        if self.sessions < MIN_SESSIONS {
            return None;
        }
        let rec: u64 = if self.gpu_bound {
            self.best_gpu_level as u64
        } else if (self.best_gpu_level as u64) + 1 <= gpu_worst as u64 {
            self.best_gpu_level as u64 + 1
        } else {
            gpu_worst as u64
        };
        let lo: u64 = if rec >= gpu_best as u64 {
            rec
        } else {
            gpu_best as u64
        };
        let r: u64 = if lo <= gpu_worst as u64 {
            lo
        } else {
            gpu_worst as u64
        };
        Some(r as u32)
    }
}

/// The first index of `k` among `keys`, or `keys.len()` when it is absent.
pub open spec fn find_key(keys: Seq<Seq<char>>, k: Seq<char>) -> int
    decreases keys.len(),
{
    if keys.len() == 0 {
        0
    } else if keys[0] == k {
        0
    } else {
        1 + find_key(keys.drop_first(), k)
    }
}

pub proof fn lemma_find_key_bounds(keys: Seq<Seq<char>>, k: Seq<char>)
    ensures
        0 <= find_key(keys, k) <= keys.len(),
        find_key(keys, k) < keys.len() ==> keys[find_key(keys, k)] == k,
        forall|j: int| 0 <= j < find_key(keys, k) ==> keys[j] != k,
    decreases keys.len(),
{
    if keys.len() > 0 && keys[0] != k {
        lemma_find_key_bounds(keys.drop_first(), k);
        assert forall|j: int| 0 <= j < find_key(keys, k) implies keys[j] != k by {
            if j > 0 {
                assert(keys[j] == keys.drop_first()[j - 1]);
            }
        }
    }
}

/// Any index with the properties of the first occurrence is `find_key`.
pub proof fn lemma_find_key_unique(keys: Seq<Seq<char>>, k: Seq<char>, r: int)
    requires
        0 <= r <= keys.len(),
        r < keys.len() ==> keys[r] == k,
        forall|j: int| 0 <= j < r ==> keys[j] != k,
    ensures
        r == find_key(keys, k),
{
    lemma_find_key_bounds(keys, k);
    let f = find_key(keys, k);
    if f < r {
        assert(keys[f] == k);
    }
    if r < f {
        assert(keys[r] == k);
    }
}

/// The learned profiles, one per package.
pub struct GameProfileManager {
    pub packages: Vec<String>,
    pub entries: Vec<GameProfileEntry>,
}

impl GameProfileManager {
    pub open spec fn wf(&self) -> bool {
        self.packages.len() == self.entries.len()
    }

    /// The profile of `package`, if there is one.
    pub open spec fn profile(&self, package: Seq<char>) -> Option<GameProfileEntry> {
        let i = find_key(self.packages.deep_view(), package);
        if 0 <= i < self.entries.len() {
            Some(self.entries@[i])
        } else {
            None
        }
    }

    /// A manager without profiles.
    pub fn new() -> (r: Self)
        ensures
            r.wf(),
            forall|p: Seq<char>| #[trigger] r.profile(p).is_none(),
    {
        GameProfileManager { packages: Vec::new(), entries: Vec::new() }
    }

    fn position(&self, package: &str) -> (r: usize)
        ensures
            r == find_key(self.packages.deep_view(), package@),
    {
        let ghost keys = self.packages.deep_view();
        let mut i: usize = 0;
        while i < self.packages.len()
            invariant
                0 <= i <= self.packages.len(),
                keys == self.packages.deep_view(),
                forall|j: int| 0 <= j < i ==> keys[j] != package@,
            decreases self.packages.len() - i,
        {
            assert(keys[i as int] == self.packages@[i as int]@);
            if str_eq(self.packages[i].as_str(), package) {
                proof {
                    lemma_find_key_unique(keys, package@, i as int);
                }
                return i;
            }
            i = i + 1;
        }
        proof {
            lemma_find_key_unique(keys, package@, i as int);
        }
        i
    }

    /// The profile of `package`, if there is one.
    pub fn get(&self, package: &str) -> (r: Option<GameProfileEntry>)
        ensures
            r == self.profile(package@),
    {
        let i = self.position(package);
        if i < self.entries.len() {
            Some(self.entries[i])
        } else {
            None
        }
    }

    /// The index of the profile of `package`, made empty first when the
    /// package had none. Other packages keep their profiles.
    fn slot(&mut self, package: &str) -> (i: usize)
        requires
            old(self).wf(),
        ensures
            final(self).wf(),
            i < final(self).entries.len(),
            find_key(final(self).packages.deep_view(), package@) == i,
            final(self).entries@[i as int] == (match old(self).profile(package@) {
                Some(e) => e,
                None => empty_entry(),
            }),
            forall|p: Seq<char>|
                p != package@ ==> #[trigger] final(self).profile(p) == old(self).profile(p),
    {
        let i = self.position(package);
        proof {
            lemma_find_key_bounds(self.packages.deep_view(), package@);
        }
        if i < self.packages.len() {
            return i;
        }
        let ghost keys = self.packages.deep_view();
        self.packages.push(package.to_owned());
        self.entries.push(GameProfileEntry::default());
        proof {
            let nk = self.packages.deep_view();
            assert(nk =~= keys.push(package@)) by {
                assert forall|j: int| 0 <= j < nk.len() implies nk[j] == keys.push(package@)[j] by {
                    if j < keys.len() {
                        assert(self.packages@[j] == old(self).packages@[j]);
                    }
                }
            }
            assert forall|j: int| 0 <= j < i implies nk[j] != package@ by {
                assert(nk[j] == keys[j]);
            }
            lemma_find_key_unique(nk, package@, i as int);
            assert forall|p: Seq<char>| p != package@ implies #[trigger] self.profile(p) == old(
                self,
            ).profile(p) by {
                lemma_find_key_bounds(keys, p);
                let f = find_key(keys, p);
                if f < keys.len() {
                    assert(nk[f] == p);
                    assert forall|j: int| 0 <= j < f implies nk[j] != p by {
                        assert(nk[j] == keys[j]);
                    }
                    lemma_find_key_unique(nk, p, f);
                } else {
                    assert forall|j: int| 0 <= j < nk.len() implies nk[j] != p by {
                        if j < keys.len() {
                            assert(nk[j] == keys[j]);
                        }
                    }
                    lemma_find_key_unique(nk, p, nk.len() as int);
                }
            }
        }
        i
    }

    /// Replaces the profile at `i` (the slot of `package`).
    fn put(&mut self, i: usize, package: Ghost<Seq<char>>, e: GameProfileEntry)
        requires
            old(self).wf(),
            i < old(self).entries.len(),
            find_key(old(self).packages.deep_view(), package@) == i,
        ensures
            final(self).wf(),
            final(self).profile(package@) == Some(e),
            forall|p: Seq<char>|
                p != package@ ==> #[trigger] final(self).profile(p) == old(self).profile(p),
    {
        self.entries.set(i, e);
        proof {
            let keys = self.packages.deep_view();
            assert forall|p: Seq<char>| p != package@ implies #[trigger] self.profile(p) == old(
                self,
            ).profile(p) by {
                lemma_find_key_bounds(keys, p);
                lemma_find_key_bounds(keys, package@);
            }
        }
    }

    /// Stores `e` as the profile of `package` (as loading a profile file
    /// does).
    pub fn set_profile(&mut self, package: &str, e: GameProfileEntry)
        requires
            old(self).wf(),
        ensures
            final(self).wf(),
            final(self).profile(package@) == Some(e),
            forall|p: Seq<char>|
                p != package@ ==> #[trigger] final(self).profile(p) == old(self).profile(p),
    {
        let i = self.slot(package);
        self.put(i, Ghost(package@), e);
    }

    /// The recommended GPU power level for `package` (see
    /// [`GameProfileEntry::gpu_level`]); nothing without a profile.
    pub fn recommend_gpu_level(&self, package: &str, gpu_best: u32, gpu_worst: u32) -> (r: Option<u32>)
        ensures
            r == (match self.profile(package@) {
                Some(e) => recommend_gpu_spec(e, gpu_best, gpu_worst),
                None => None,
            }),
    {
        match self.get(package) {
            Some(e) => e.gpu_level(gpu_best, gpu_worst),
            None => None,
        }
    }

    /// The learned frame-rate cap, once trusted and set.
    pub fn recommend_fps_cap(&self, package: &str) -> (r: Option<u32>)
        ensures
            r == (match self.profile(package@) {
                Some(e) => if e.sessions >= MIN_SESSIONS && e.optimal_fps_cap > 0 {
                    Some(e.optimal_fps_cap)
                } else {
                    None
                },
                None => None,
            }),
    {
        match self.get(package) {
            Some(e) => if e.sessions >= MIN_SESSIONS && e.optimal_fps_cap > 0 {
                Some(e.optimal_fps_cap)
            } else {
                None
            },
            None => None,
        }
    }

    /// The learned network profile, once trusted and set.
    pub fn recommend_network_profile(&self, package: &str) -> (r: Option<u8>)
        ensures
            r == (match self.profile(package@) {
                Some(e) => if e.sessions >= MIN_SESSIONS && e.preferred_network > 0 {
                    Some(e.preferred_network)
                } else {
                    None
                },
                None => None,
            }),
    {
        match self.get(package) {
            Some(e) => if e.sessions >= MIN_SESSIONS && e.preferred_network > 0 {
                Some(e.preferred_network)
            } else {
                None
            },
            None => None,
        }
    }

    /// The learned thermal policy, once trusted and set.
    pub fn recommend_thermal_policy(&self, package: &str) -> (r: Option<u8>)
        ensures
            r == (match self.profile(package@) {
                Some(e) => if e.sessions >= MIN_SESSIONS && e.thermal_policy > 0 {
                    Some(e.thermal_policy)
                } else {
                    None
                },
                None => None,
            }),
    {
        match self.get(package) {
            Some(e) => if e.sessions >= MIN_SESSIONS && e.thermal_policy > 0 {
                Some(e.thermal_policy)
            } else {
                None
            },
            None => None,
        }
    }
}

/// The session count after one more session; it stops at `u32::MAX`.
pub open spec fn next_sessions(n: u32) -> u32 {
    if n == u32::MAX {
        n
    } else {
        (n + 1) as u32
    }
}

/// A profile after a session that ran at `level` with the average GPU load
/// `load` and the jank `jank` (both in hundredths of a percent), ended at
/// `now`: the load joins the running average, the game counts as GPU-bound
/// above 70 %, a smooth session (jank under 10 %) makes its level the best
/// when it is the first or faster than the best, and a janky one (over
/// 20 %) moves the best level one step faster.
pub open spec fn session_update(e: GameProfileEntry, level: u32, load: u32, jank: i64, now: u64) -> GameProfileEntry {
    let n = next_sessions(e.sessions);
    let avg = ((e.avg_gpu_load * (n - 1) + load) / (n as int)) as u64;
    let best = if jank < 1000 {
        let b = if n <= 1 {
            level
        } else {
            e.best_gpu_level
        };
        if level < b {
            level
        } else {
            b
        }
    } else if jank > 2000 && e.best_gpu_level > 0 {
        (e.best_gpu_level - 1) as u32
    } else {
        e.best_gpu_level
    };
    GameProfileEntry {
        best_gpu_level: best,
        avg_gpu_load: avg,
        sessions: n,
        last_jank_pct: jank,
        gpu_bound: avg > 7000,
        optimal_fps_cap: e.optimal_fps_cap,
        preferred_network: e.preferred_network,
        thermal_policy: e.thermal_policy,
        last_session_ts: now,
    }
}

/// A profile after a session at the frame-rate cap `cap` with the jank
/// `jank`: a smooth session (under 10 %) with a cap makes it the learned
/// cap when there is none yet or it is lower.
pub open spec fn fps_cap_update(e: GameProfileEntry, cap: u32, jank: i64) -> GameProfileEntry {
    if jank < 1000 && cap > 0 && (e.optimal_fps_cap == 0 || cap < e.optimal_fps_cap) {
        GameProfileEntry { optimal_fps_cap: cap, ..e }
    } else {
        e
    }
}

pub open spec fn or_empty(p: Option<GameProfileEntry>) -> GameProfileEntry {
    match p {
        Some(e) => e,
        None => empty_entry(),
    }
}

fn session_update_exec(e: GameProfileEntry, level: u32, load: u32, jank: i64, now: u64) -> (r: GameProfileEntry)
    ensures
        r == session_update(e, level, load, jank, now),
{
    let n: u32 = if e.sessions == u32::MAX {
        e.sessions
    } else {
        e.sessions + 1
    };
    let a = e.avg_gpu_load as u128;
    let m = (n - 1) as u128;
    proof {
        let mx: int = if e.avg_gpu_load >= load {
            e.avg_gpu_load as int
        } else {
            load as int
        };
        assert(a * m <= 0xFFFF_FFFF_FFFF_FFFF * 0xFFFF_FFFF) by (nonlinear_arith)
            requires
                a <= 0xFFFF_FFFF_FFFF_FFFF,
                m <= 0xFFFF_FFFF,
        ;
        assert((a * m + load) / (n as int) <= mx) by (nonlinear_arith)
            requires
                a <= mx,
                load <= mx,
                m == n - 1,
                n >= 1,
        ;
    }
    let total: u128 = a * m + load as u128;
    let avg = (total / n as u128) as u64;
    let best: u32 = if jank < 1000 {
        let b = if n <= 1 {
            level
        } else {
            e.best_gpu_level
        };
        if level < b {
            level
        } else {
            b
        }
    } else if jank > 2000 && e.best_gpu_level > 0 {
        e.best_gpu_level - 1
    } else {
        e.best_gpu_level
    };
    GameProfileEntry {
        best_gpu_level: best,
        avg_gpu_load: avg,
        sessions: n,
        last_jank_pct: jank,
        gpu_bound: avg > 7000,
        optimal_fps_cap: e.optimal_fps_cap,
        preferred_network: e.preferred_network,
        thermal_policy: e.thermal_policy,
        last_session_ts: now,
    }
}

impl GameProfileManager {
    /// Records a finished session of `package` (see [`session_update`]),
    /// starting an empty profile when it has none.
    pub fn record_session(&mut self, package: &str, gpu_level_used: u32, gpu_load_avg: u32, jank_pct: i64, now_secs: u64)
        requires
            old(self).wf(),
        ensures
            final(self).wf(),
            final(self).profile(package@) == Some(
                session_update(or_empty(old(self).profile(package@)), gpu_level_used, gpu_load_avg, jank_pct, now_secs),
            ),
            forall|p: Seq<char>|
                p != package@ ==> #[trigger] final(self).profile(p) == old(self).profile(p),
    {
        let i = self.slot(package);
        let e = session_update_exec(self.entries[i], gpu_level_used, gpu_load_avg, jank_pct, now_secs);
        self.put(i, Ghost(package@), e);
    }

    /// Records the frame-rate cap a session of `package` ran at (see
    /// [`fps_cap_update`]).
    pub fn record_fps_cap(&mut self, package: &str, fps_cap: u32, jank_pct: i64)
        requires
            old(self).wf(),
        ensures
            final(self).wf(),
            final(self).profile(package@) == Some(
                fps_cap_update(or_empty(old(self).profile(package@)), fps_cap, jank_pct),
            ),
            forall|p: Seq<char>|
                p != package@ ==> #[trigger] final(self).profile(p) == old(self).profile(p),
    {
        let i = self.slot(package);
        let mut e = self.entries[i];
        if jank_pct < 1000 && fps_cap > 0 && (e.optimal_fps_cap == 0 || fps_cap < e.optimal_fps_cap) {
            e.optimal_fps_cap = fps_cap;
        }
        self.put(i, Ghost(package@), e);
    }

    /// Records the network `package` was played on (1 WiFi, 2 cellular).
    pub fn record_network_profile(&mut self, package: &str, network_type: u8)
        requires
            old(self).wf(),
        ensures
            final(self).wf(),
            final(self).profile(package@) == Some(
                GameProfileEntry { preferred_network: network_type, ..or_empty(old(self).profile(package@)) },
            ),
            forall|p: Seq<char>|
                p != package@ ==> #[trigger] final(self).profile(p) == old(self).profile(p),
    {
        let i = self.slot(package);
        let mut e = self.entries[i];
        e.preferred_network = network_type;
        self.put(i, Ghost(package@), e);
    }

    /// Records the thermal class of a session of `package`.
    pub fn record_thermal_policy(&mut self, package: &str, policy: u8)
        requires
            old(self).wf(),
        ensures
            final(self).wf(),
            final(self).profile(package@) == Some(
                GameProfileEntry { thermal_policy: policy, ..or_empty(old(self).profile(package@)) },
            ),
            forall|p: Seq<char>|
                p != package@ ==> #[trigger] final(self).profile(p) == old(self).profile(p),
    {
        let i = self.slot(package);
        let mut e = self.entries[i];
        e.thermal_policy = policy;
        self.put(i, Ghost(package@), e);
    }
}

/// A recommended GPU level is always within `[gpu_best, gpu_worst]` when
/// that range is not empty.
pub proof fn law_recommended_level_in_range(f: GameProfileEntry, gpu_best: u32, gpu_worst: u32)
    requires
        gpu_best <= gpu_worst,
    ensures
        match recommend_gpu_spec(f, gpu_best, gpu_worst) {
            Some(l) => gpu_best <= l <= gpu_worst,
            None => f.sessions < MIN_SESSIONS,
        },
{
}

} // verus!

//! Combat detector: a heuristic for bursts of enemy activity over the last
//! three seconds, from three proxies: the received-packet rate 1.5 times
//! its baseline (and over 100 packets per second), the GPU load 20 points
//! over its baseline (and over 30%), and a top-app `uclamp.min` demand that
//! is already high. Two of the three must agree: one proxy alone never
//! counts as combat.
//!
//! Reading the packet counters and the GPU load, and writing the logs, is
//! the caller's part. Times are milliseconds on a monotonic clock; packet
//! rates are whole packets per second.
use vstd::prelude::*;
use std::collections::VecDeque;

verus! {

pub const WINDOW_SHORT_MS: u64 = 500;
pub const WINDOW_BASELINE_MS: u64 = 2000;
/// Samples older than this leave the window.
pub const WINDOW_KEEP_MS: u64 = 3000;
pub const GPU_SPIKE_PP: u32 = 20;
pub const MIN_PPS: u64 = 100;
/// A top-app `uclamp.min` (in percent) at or above this counts as high
/// demand: the elevated gaming level.
pub const UCLAMP_DEMAND_HIGH: u32 = 70;

#[derive(Debug, Clone, Copy, PartialEq, Eq, Structural)]
pub struct Sample {
    pub at_ms: u64,
    pub rx: u64,
    pub gpu: u32,
}

pub struct CombatDetector {
    /// The samples of the last three seconds, oldest first.
    pub window: VecDeque<Sample>,
    pub last_log_ms: Option<u64>,
    pub last_heartbeat_ms: Option<u64>,
}

/// What one update found.
#[derive(Debug, Clone, Copy, PartialEq, Eq)]
pub struct CombatReading {
    pub combat: bool,
    pub short_pps: u64,
    pub base_pps: u64,
    pub gpu_spike: bool,
    pub net_spike: bool,
    /// The top-app `uclamp.min` demand is high.
    pub uclamp_high: bool,
    /// The GPU load of this sample.
    pub gpu: u32,
    /// Log this burst (at most every two seconds).
    pub log_burst: bool,
    /// Write an idle heartbeat (at most every thirty seconds).
    pub heartbeat: bool,
}

pub open spec fn age_ms(at: u64, now: u64) -> int {
    if now >= at {
        now - at
    } else {
        0
    }
}

/// The window without the samples at its front that are older than three
/// seconds.
pub open spec fn prune(w: Seq<Sample>, now: u64) -> Seq<Sample>
    decreases w.len(),
{
    if w.len() > 0 && age_ms(w[0].at_ms, now) > WINDOW_KEEP_MS {
        prune(w.drop_first(), now)
    } else {
        w
    }
}

/// The first sample of the window within `window_ms` of `now`.
pub open spec fn first_within(w: Seq<Sample>, now: u64, window_ms: u64) -> Option<Sample>
    decreases w.len(),
{
    if w.len() == 0 {
        None
    } else if age_ms(w[0].at_ms, now) <= window_ms {
        Some(w[0])
    } else {
        first_within(w.drop_first(), now, window_ms)
    }
}

/// The last sample of the window within `window_ms` of `now`.
pub open spec fn last_within(w: Seq<Sample>, now: u64, window_ms: u64) -> Option<Sample>
    decreases w.len(),
{
    if w.len() == 0 {
        None
    } else if age_ms(w.last().at_ms, now) <= window_ms {
        Some(w.last())
    } else {
        last_within(w.drop_last(), now, window_ms)
    }
}

/// Packets per second between the oldest and newest samples within the
/// window, at most `u64::MAX`; zero when they are 50 ms apart or less.
pub open spec fn pps_spec(w: Seq<Sample>, now: u64, window_ms: u64) -> int {
    match (first_within(w, now, window_ms), last_within(w, now, window_ms)) {
        (Some(a), Some(b)) => {
            let dt = age_ms(a.at_ms, b.at_ms);
            if dt > 50 {
                let q = (if b.rx >= a.rx {
                    b.rx - a.rx
                } else {
                    0
                }) * 1000 / dt;
                if q > u64::MAX {
                    u64::MAX as int
                } else {
                    q
                }
            } else {
                0
            }
        },
        _ => 0,
    }
}

pub open spec fn gpu_sum(w: Seq<Sample>) -> int
    decreases w.len(),
{
    if w.len() == 0 {
        0
    } else {
        gpu_sum(w.drop_last()) + w.last().gpu
    }
}

/// The latest GPU load is 20 points over the average of the samples before
/// the last two, and over 30%.
pub open spec fn gpu_spike_spec(w: Seq<Sample>) -> bool {
    if w.len() < 4 {
        false
    } else {
        let n = w.len() - 2;
        let baseline = gpu_sum(w.take(n)) / n;
        let recent = w.last().gpu;
        recent > baseline + GPU_SPIKE_PP && recent > 30
    }
}

/// The packet rate over the short window is at least 1.5 times the
/// baseline rate and over [`MIN_PPS`].
pub open spec fn net_spike_spec(short_pps: int, base_pps: int) -> bool {
    2 * short_pps >= 3 * base_pps && short_pps > MIN_PPS
}

/// Two of the three proxies agree.
pub open spec fn vote_spec(net: bool, gpu: bool, uclamp: bool) -> bool {
    (net && gpu) || (net && uclamp) || (gpu && uclamp)
}

/// The GPU load of a sample: the caller's when positive, else the one read
/// from the GPU.
pub open spec fn sample_gpu(gpu_load: u32, fallback_gpu: u32) -> u32 {
    if gpu_load > 0 {
        gpu_load
    } else {
        fallback_gpu
    }
}

/// The window after a sample at `now`.
pub open spec fn window_after(w: Seq<Sample>, gpu: u32, rx: u64, now: u64) -> Seq<Sample> {
    prune(w.push(Sample { at_ms: now, rx, gpu }), now)
}

/// What an update finds, from the detector before it.
pub open spec fn reading_spec(
    d: CombatDetector,
    gpu_load: u32,
    fallback_gpu: u32,
    rx: u64,
    uclamp_min: u32,
    now: u64,
) -> CombatReading {
    let gpu = sample_gpu(gpu_load, fallback_gpu);
    let w = window_after(d.window@, gpu, rx, now);
    let uh = uclamp_min >= UCLAMP_DEMAND_HIGH;
    if w.len() < 3 {
        CombatReading {
            combat: false,
            short_pps: 0,
            base_pps: 0,
            gpu_spike: false,
            net_spike: false,
            uclamp_high: uh,
            gpu,
            log_burst: false,
            heartbeat: false,
        }
    } else {
        let short = pps_spec(w, now, WINDOW_SHORT_MS);
        let base = pps_spec(w, now, WINDOW_BASELINE_MS);
        let gs = gpu_spike_spec(w);
        let ns = net_spike_spec(short, base);
        let combat = vote_spec(ns, gs, uh);
        CombatReading {
            combat,
            short_pps: short as u64,
            base_pps: base as u64,
            gpu_spike: gs,
            net_spike: ns,
            uclamp_high: uh,
            gpu,
            log_burst: combat && may_log(d.last_log_ms, now, 2),
            heartbeat: !combat && may_log(d.last_heartbeat_ms, now, 30),
        }
    }
}

impl CombatDetector {
    pub fn new() -> (r: Self)
        ensures
            r.window@.len() == 0,
            r.last_log_ms.is_none(),
            r.last_heartbeat_ms.is_none(),
    {
        CombatDetector { window: VecDeque::new(), last_log_ms: None, last_heartbeat_ms: None }
    }

    pub fn reset(&mut self)
        ensures
            final(self).window@.len() == 0,
            final(self).last_log_ms.is_none(),
            final(self).last_heartbeat_ms.is_none(),
    {
        self.window = VecDeque::new();
        self.last_log_ms = None;
        self.last_heartbeat_ms = None;
    }

    /// Packets per second over the samples within `window_ms` of `now_ms`.
    pub fn pps_for_window(&self, now_ms: u64, window_ms: u64) -> (r: u64)
        ensures
            r == pps_spec(self.window@, now_ms, window_ms),
    {
        let w = &self.window;
        let ghost ws = w@;
        let mut oldest: Option<Sample> = None;
        let mut i: usize = 0;
        assert(ws.skip(0) =~= ws);
        while i < w.len()
            invariant
                0 <= i <= w.len(),
                ws == w@,
                first_within(ws, now_ms, window_ms) == (if oldest.is_some() {
                    oldest
                } else {
                    first_within(ws.skip(i as int), now_ms, window_ms)
                }),
            decreases w.len() - i,
        {
            assert(ws.skip(i as int).drop_first() =~= ws.skip(i + 1));
            if oldest.is_none() {
                let s = w[i];
                let age = if now_ms >= s.at_ms {
                    now_ms - s.at_ms
                } else {
                    0
                };
                if age <= window_ms {
                    oldest = Some(s);
                }
            }
            i = i + 1;
        }
        assert(ws.skip(w.len() as int).len() == 0);
        let mut newest: Option<Sample> = None;
        let mut k: usize = w.len();
        assert(ws.take(w.len() as int) =~= ws);
        while k > 0
            invariant
                0 <= k <= w.len(),
                ws == w@,
                last_within(ws, now_ms, window_ms) == (if newest.is_some() {
                    newest
                } else {
                    last_within(ws.take(k as int), now_ms, window_ms)
                }),
            decreases k,
        {
            assert(ws.take(k as int).drop_last() =~= ws.take(k - 1));
            if newest.is_none() {
                let s = w[k - 1];
                let age = if now_ms >= s.at_ms {
                    now_ms - s.at_ms
                } else {
                    0
                };
                if age <= window_ms {
                    newest = Some(s);
                }
            }
            k = k - 1;
        }
        assert(ws.take(w.len() as int) =~= ws);
        match (oldest, newest) {
            (Some(a), Some(b)) => {
                let dt = if b.at_ms >= a.at_ms {
                    b.at_ms - a.at_ms
                } else {
                    0
                };
                if dt > 50 {
                    let diff: u64 = if b.rx >= a.rx {
                        b.rx - a.rx
                    } else {
                        0
                    };
                    let q: u128 = (diff as u128 * 1000) / (dt as u128);
                    if q > u64::MAX as u128 {
                        u64::MAX
                    } else {
                        q as u64
                    }
                } else {
                    0
                }
            },
            _ => 0,
        }
    }

    /// Whether the latest GPU load spikes over its baseline.
    pub fn gpu_spike(&self) -> (r: bool)
        ensures
            r == gpu_spike_spec(self.window@),
    {
        let w = &self.window;
        if w.len() < 4 {
            return false;
        }
        let n = w.len() - 2;
        let mut sum: u128 = 0;
        let mut i: usize = 0;
        while i < n
            invariant
                0 <= i <= n,
                n == w.len() - 2,
                sum == gpu_sum(w@.take(i as int)),
                sum <= i * 0xFFFF_FFFF,
            decreases n - i,
        {
            assert(w@.take(i + 1).drop_last() =~= w@.take(i as int));
            sum = sum + w[i].gpu as u128;
            i = i + 1;
        }
        let baseline = sum / (n as u128);
        let recent = w[w.len() - 1].gpu;
        recent as u128 > baseline + GPU_SPIKE_PP as u128 && recent > 30
    }
}

/// Whether a log may be written at `now`: none yet, or the last is at
/// least `secs` seconds old.
pub open spec fn may_log(last: Option<u64>, now: u64, secs: u64) -> bool {
    match last {
        Some(l) => age_ms(l, now) / 1000 >= secs,
        None => true,
    }
}

impl CombatDetector {
    /// One update at `now_ms`, with the caller's GPU load (`fallback_gpu`,
    /// read from the GPU, stands in when it is zero), the received-packet
    /// counter `rx` and the top-app `uclamp.min` in percent. With fewer than
    /// three samples in the window there is no verdict; otherwise two of
    /// the three proxies must agree.
    pub fn update(&mut self, gpu_load: u32, fallback_gpu: u32, rx: u64, uclamp_min: u32, now_ms: u64) -> (r:
        CombatReading)
        ensures
            r == reading_spec(*old(self), gpu_load, fallback_gpu, rx, uclamp_min, now_ms),
            final(self).window@ == window_after(
                old(self).window@,
                sample_gpu(gpu_load, fallback_gpu),
                rx,
                now_ms,
            ),
            final(self).last_log_ms == (if r.log_burst {
                Some(now_ms)
            } else {
                old(self).last_log_ms
            }),
            final(self).last_heartbeat_ms == (if r.heartbeat {
                Some(now_ms)
            } else {
                old(self).last_heartbeat_ms
            }),
            r.combat ==> (r.net_spike && r.gpu_spike) || (r.net_spike && r.uclamp_high) || (
            r.gpu_spike && r.uclamp_high),
    {
        let gpu = if gpu_load > 0 {
            gpu_load
        } else {
            fallback_gpu
        };
        self.window.push_back(Sample { at_ms: now_ms, rx, gpu });
        let ghost start = self.window@;
        while self.window.len() > 0 && now_ms.saturating_sub(self.window[0].at_ms) > WINDOW_KEEP_MS
            invariant
                prune(self.window@, now_ms) == prune(start, now_ms),
                self.last_log_ms == old(self).last_log_ms,
                self.last_heartbeat_ms == old(self).last_heartbeat_ms,
            decreases self.window.len(),
        {
            let ghost before = self.window@;
            self.window.pop_front();
            assert(self.window@ =~= before.drop_first());
        }
        assert(prune(self.window@, now_ms) == self.window@);
        let uh = uclamp_min >= UCLAMP_DEMAND_HIGH;
        if self.window.len() < 3 {
            return CombatReading {
                combat: false,
                short_pps: 0,
                base_pps: 0,
                gpu_spike: false,
                net_spike: false,
                uclamp_high: uh,
                gpu,
                log_burst: false,
                heartbeat: false,
            };
        }
        let short = self.pps_for_window(now_ms, WINDOW_SHORT_MS);
        let base = self.pps_for_window(now_ms, WINDOW_BASELINE_MS);
        let gs = self.gpu_spike();
        let ns = 2 * (short as u128) >= 3 * (base as u128) && short > MIN_PPS;
        let combat = (ns && gs) || (ns && uh) || (gs && uh);
        let mut log_burst = false;
        let mut heartbeat = false;
        if combat {
            log_burst = match self.last_log_ms {
                Some(l) => now_ms.saturating_sub(l) / 1000 >= 2,
                None => true,
            };
            if log_burst {
                self.last_log_ms = Some(now_ms);
            }
        } else {
            heartbeat = match self.last_heartbeat_ms {
                Some(l) => now_ms.saturating_sub(l) / 1000 >= 30,
                None => true,
            };
            if heartbeat {
                self.last_heartbeat_ms = Some(now_ms);
            }
        }
        CombatReading {
            combat,
            short_pps: short,
            base_pps: base,
            gpu_spike: gs,
            net_spike: ns,
            uclamp_high: uh,
            gpu,
            log_burst,
            heartbeat,
        }
    }
}

} // verus!

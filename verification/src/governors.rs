//! Where the governors, the GPU power level and the cpusets are written:
//! which nodes take a write and what is written to them. The writes are
//! the caller's part.
use vstd::prelude::*;
use crate::hardware::{CapabilityNode, CpuCluster, CpuTopology, GpuProfile};
use crate::monitor::{max_of, sort_durations, sorted_durations};
use crate::orchestrator::{all_clusters_take, all_clusters_take_exec, offers};
use crate::charging::str_eq;

verus! {

/// The lowest of the values.
pub open spec fn min_of(d: Seq<u64>) -> u64
    decreases d.len(),
{
    if d.len() == 0 {
        0
    } else if d.len() == 1 {
        d[0]
    } else {
        let m = min_of(d.drop_last());
        if d.last() < m {
            d.last()
        } else {
            m
        }
    }
}

/// The highest available frequency.
pub fn max_freq(available: &Vec<u64>) -> (r: Option<u64>)
    ensures
        r == (if available.len() == 0 {
            None
        } else {
            Some(max_of(available@))
        }),
{
    if available.len() == 0 {
        return None;
    }
    let mut m: u64 = available[0];
    let mut i: usize = 1;
    assert(available@.take(1) =~= seq![available@[0]]);
    while i < available.len()
        invariant
            1 <= i <= available.len(),
            m == max_of(available@.take(i as int)),
        decreases available.len() - i,
    {
        assert(available@.take(i + 1).drop_last() =~= available@.take(i as int));
        if available[i] > m {
            m = available[i];
        }
        i = i + 1;
    }
    assert(available@.take(available.len() as int) =~= available@);
    Some(m)
}

/// The lowest available frequency.
pub fn min_freq(available: &Vec<u64>) -> (r: Option<u64>)
    ensures
        r == (if available.len() == 0 {
            None
        } else {
            Some(min_of(available@))
        }),
{
    if available.len() == 0 {
        return None;
    }
    let mut m: u64 = available[0];
    let mut i: usize = 1;
    assert(available@.take(1) =~= seq![available@[0]]);
    while i < available.len()
        invariant
            1 <= i <= available.len(),
            m == min_of(available@.take(i as int)),
        decreases available.len() - i,
    {
        assert(available@.take(i + 1).drop_last() =~= available@.take(i as int));
        if available[i] < m {
            m = available[i];
        }
        i = i + 1;
    }
    assert(available@.take(available.len() as int) =~= available@);
    Some(m)
}

/// The middle available frequency: the one at half the count in ascending
/// order (the upper middle for an even count).
pub fn mid_freq(available: &Vec<u64>) -> (r: Option<u64>)
    ensures
        r == (if available.len() == 0 {
            None
        } else {
            Some(sorted_durations(available@)[(available.len() / 2) as int])
        }),
{
    if available.len() == 0 {
        return None;
    }
    let sorted = sort_durations(available);
    proof {
        crate::monitor::lemma_sorted_len(available@);
    }
    Some(sorted[available.len() / 2])
}

/// A node that takes a write: it has a path and was found usable.
pub open spec fn node_usable(n: CapabilityNode) -> bool {
    n.path@.len() > 0 && n.valid
}

/// The governor nodes to write `governor` to: those of the clusters whose
/// node is usable and that offer the governor, in cluster order.
pub open spec fn cpu_governor_nodes_spec(clusters: Seq<CpuCluster>, governor: Seq<char>) -> Seq<Seq<char>>
    decreases clusters.len(),
{
    if clusters.len() == 0 {
        Seq::empty()
    } else {
        let p = cpu_governor_nodes_spec(clusters.drop_last(), governor);
        let c = clusters.last();
        if node_usable(c.governor_node) && offers(c.available_governors.deep_view(), governor) {
            p.push(c.governor_node.path@)
        } else {
            p
        }
    }
}

pub fn cpu_governor_nodes(topology: &CpuTopology, governor: &str) -> (r: Vec<String>)
    ensures
        r.deep_view() == cpu_governor_nodes_spec(topology.clusters@, governor@),
{
    let cs = &topology.clusters;
    let mut out: Vec<String> = Vec::new();
    let mut i: usize = 0;
    assert(cs@.take(0) =~= Seq::<CpuCluster>::empty());
    while i < cs.len()
        invariant
            0 <= i <= cs.len(),
            out.deep_view() == cpu_governor_nodes_spec(cs@.take(i as int), governor@),
        decreases cs.len() - i,
    {
        assert(cs@.take(i + 1).drop_last() =~= cs@.take(i as int));
        let c = &cs[i];
        if c.governor_node.path.as_str().unicode_len() > 0 && c.governor_node.valid
            && crate::gaming::is_known_game(&c.available_governors, governor) {
            let ghost before = out.deep_view();
            let ghost before_v = out@;
            out.push(c.governor_node.path.clone());
            assert(out.deep_view() =~= before.push(c.governor_node.path@)) by {
                assert forall|x: int| 0 <= x < out.len() implies out.deep_view()[x] == before.push(
                    c.governor_node.path@,
                )[x] by {
                    if x < before_v.len() {
                        assert(out@[x] == before_v[x]);
                    }
                }
            }
        }
        i = i + 1;
    }
    assert(cs@.take(cs.len() as int) =~= cs@);
    out
}

/// The GPU governor node to write `governor` to: none when the GPU does not
/// offer it; the devfreq node with devfreq; otherwise the GPU's own node
/// when the GPU has a path.
pub fn gpu_governor_node(gpu: &GpuProfile, governor: &str) -> (r: Option<String>)
    ensures
        match r {
            Some(p) => offers(gpu.available_governors.deep_view(), governor@) && p@ == (
            if gpu.has_devfreq {
                gpu.devfreq_governor_node.path@
            } else {
                gpu.governor_node.path@
            }) && (gpu.has_devfreq || gpu.path@.len() > 0),
            None => !offers(gpu.available_governors.deep_view(), governor@) || (!gpu.has_devfreq
                && gpu.path@.len() == 0),
        },
{
    if !crate::gaming::is_known_game(&gpu.available_governors, governor) {
        return None;
    }
    if gpu.has_devfreq {
        Some(gpu.devfreq_governor_node.path.clone())
    } else if gpu.path.as_str().unicode_len() > 0 {
        Some(gpu.governor_node.path.clone())
    } else {
        None
    }
}

/// Where to write the GPU power level `level`: the power-level node, when
/// there is one, both discovered bounds are known and the level lies
/// between them.
pub fn gpu_power_level_node(gpu: &GpuProfile, level: u32) -> (r: Option<String>)
    ensures
        match r {
            Some(p) => gpu.power_level_path matches Some(q) && p@ == q@,
            None => true,
        },
        r.is_some() == (gpu.power_level_path.is_some() && gpu.min_power_level.is_some()
            && gpu.max_power_level.is_some() && ({
            let a = gpu.min_power_level.unwrap();
            let b = gpu.max_power_level.unwrap();
            (if a < b {
                a
            } else {
                b
            }) <= level && level <= (if a < b {
                b
            } else {
                a
            })
        })),
{
    match (&gpu.power_level_path, gpu.min_power_level, gpu.max_power_level) {
        (Some(p), Some(a), Some(b)) => {
            let low = if a < b {
                a
            } else {
                b
            };
            let high = if a < b {
                b
            } else {
                a
            };
            if low <= level && level <= high {
                Some(p.clone())
            } else {
                None
            }
        },
        _ => None,
    }
}

/// The cpuset a node of the given name gets under a layout (`powersave`
/// and `emergency_cool` shrink every set; any other layout widens them).
pub open spec fn cpuset_value_spec(node_name: Seq<char>, mode: Seq<char>) -> Option<Seq<char>> {
    let tight = mode == "powersave"@ || mode == "emergency_cool"@;
    if node_name == "cpuset_top_app"@ {
        Some(if tight { "0-3"@ } else { "0-7"@ })
    } else if node_name == "cpuset_foreground"@ {
        Some(if tight { "0-2"@ } else { "0-6"@ })
    } else if node_name == "cpuset_sys_bg"@ {
        Some(if tight { "0-1"@ } else { "0-2"@ })
    } else if node_name == "cpuset_background"@ {
        Some(if tight { "0"@ } else { "0-1"@ })
    } else if node_name == "cpuset_restricted"@ {
        Some(if tight { "0-3"@ } else { "0-6"@ })
    } else {
        None
    }
}

pub fn cpuset_value(node_name: &str, mode: &str) -> (r: Option<&'static str>)
    ensures
        match r {
            Some(v) => cpuset_value_spec(node_name@, mode@) == Some(v@),
            None => cpuset_value_spec(node_name@, mode@).is_none(),
        },
{
    let tight = str_eq(mode, "powersave") || str_eq(mode, "emergency_cool");
    if str_eq(node_name, "cpuset_top_app") {
        Some(if tight { "0-3" } else { "0-7" })
    } else if str_eq(node_name, "cpuset_foreground") {
        Some(if tight { "0-2" } else { "0-6" })
    } else if str_eq(node_name, "cpuset_sys_bg") {
        Some(if tight { "0-1" } else { "0-2" })
    } else if str_eq(node_name, "cpuset_background") {
        Some(if tight { "0" } else { "0-1" })
    } else if str_eq(node_name, "cpuset_restricted") {
        Some(if tight { "0-3" } else { "0-6" })
    } else {
        None
    }
}


/// The `scaling_max_freq` writes of the `Performance` policy: for each
/// cluster, in order, that lists its frequencies, its highest frequency to
/// the node under its policy directory.
pub open spec fn performance_max_freq_spec(clusters: Seq<CpuCluster>) -> Seq<(Seq<char>, u64)>
    decreases clusters.len(),
{
    if clusters.len() == 0 {
        Seq::empty()
    } else {
        let p = performance_max_freq_spec(clusters.drop_last());
        let c = clusters.last();
        if c.available_frequencies@.len() > 0 {
            p.push((c.policy_path@ + "/scaling_max_freq"@, max_of(c.available_frequencies@)))
        } else {
            p
        }
    }
}

pub open spec fn path_writes_view(w: Seq<(String, u64)>) -> Seq<(Seq<char>, u64)> {
    w.map_values(|e: (String, u64)| (e.0@, e.1))
}

/// The `scaling_max_freq` writes of the `Performance` policy (see
/// [`performance_max_freq_spec`]).
pub fn performance_max_freq_writes(topology: &CpuTopology) -> (r: Vec<(String, u64)>)
    ensures
        path_writes_view(r@) == performance_max_freq_spec(topology.clusters@),
{
    let cs = &topology.clusters;
    let mut out: Vec<(String, u64)> = Vec::new();
    let mut i: usize = 0;
    assert(cs@.take(0) =~= Seq::<CpuCluster>::empty());
    assert(path_writes_view(out@) =~= Seq::<(Seq<char>, u64)>::empty());
    while i < cs.len()
        invariant
            0 <= i <= cs.len(),
            path_writes_view(out@) == performance_max_freq_spec(cs@.take(i as int)),
        decreases cs.len() - i,
    {
        assert(cs@.take(i + 1).drop_last() =~= cs@.take(i as int));
        let c = &cs[i];
        match max_freq(&c.available_frequencies) {
            Some(f) => {
                let path = crate::text::concat3(c.policy_path.as_str(), "/scaling_max_freq", "");
                let ghost before = out@;
                out.push((path, f));
                proof {
                    reveal_strlit("");
                }
                assert(path@ =~= c.policy_path@ + "/scaling_max_freq"@);
                assert(path_writes_view(out@) =~= path_writes_view(before).push(
                    (c.policy_path@ + "/scaling_max_freq"@, max_of(c.available_frequencies@)),
                ));
            },
            None => {},
        }
        i = i + 1;
    }
    assert(cs@.take(cs.len() as int) =~= cs@);
    out
}

/// The governor to restore when the screen wakes: `schedutil`, when the
/// last governor written was the bare `powersave` and every cluster can
/// take `schedutil`; nothing otherwise.
pub fn wake_governor_restore(just_woke: bool, last_cpu_gov: Option<&str>, topology: &CpuTopology) -> (r:
    Option<String>)
    ensures
        r.is_some() == (just_woke && (match last_cpu_gov {
            Some(g) => g@ == "powersave"@,
            None => false,
        }) && all_clusters_take(topology.clusters@, "schedutil"@)),
        r matches Some(g) ==> g@ == "schedutil"@,
{
    if !just_woke {
        return None;
    }
    let was_powersave = match last_cpu_gov {
        Some(g) => str_eq(g, "powersave"),
        None => false,
    };
    if was_powersave && all_clusters_take_exec(&topology.clusters, "schedutil") {
        Some("schedutil".to_owned())
    } else {
        None
    }
}

} // verus!

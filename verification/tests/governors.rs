use thermalai_daemon::governors::{
    cpu_governor_nodes, cpuset_value, gpu_governor_node, gpu_power_level_node, max_freq, mid_freq,
    performance_max_freq_writes, wake_governor_restore,
    min_freq,
};
use thermalai_daemon::hardware::{is_gpu_devfreq_name, sort_clusters, CapabilityNode, CpuCluster, CpuTopology, GpuProfile};

fn node(path: &str, exists: bool) -> CapabilityNode {
    CapabilityNode::new(path, "n", exists, true, true, vec![])
}

fn cluster(name: &str, gov_path: &str, exists: bool, governors: &[&str]) -> CpuCluster {
    CpuCluster {
        name: name.to_string(),
        min_freq: 300_000,
        max_freq: 1_800_000,
        cpus: vec![0],
        policy_path: String::new(),
        policy_node: node("", false),
        current_governor: "schedutil".to_string(),
        governor_node: node(gov_path, exists),
        available_governors: governors.iter().map(|g| g.to_string()).collect(),
        current_frequency: 0,
        freq_node: node("", false),
        min_freq_node: node("", false),
        max_freq_node: node("", false),
        available_frequencies: vec![],
        cpuinfo_min_freq: 0,
        cpuinfo_max_freq: 0,
        related_cpus: vec![0],
    }
}

fn gpu(path: &str, devfreq: bool, governors: &[&str]) -> GpuProfile {
    GpuProfile {
        path: path.to_string(),
        max_freq: 0,
        has_devfreq: devfreq,
        is_kgsl: true,
        devfreq_path: String::new(),
        devfreq_governor_node: node("/sys/class/kgsl/kgsl-3d0/devfreq/governor", true),
        devfreq_freq_node: node("", false),
        current_governor: String::new(),
        governor_node: node("/sys/class/kgsl/kgsl-3d0/governor", true),
        available_governors: governors.iter().map(|g| g.to_string()).collect(),
        current_frequency: 0,
        freq_node: node("", false),
        available_frequencies: vec![],
        busy_time: None,
        total_time: None,
        power_level_path: Some("/sys/class/kgsl/kgsl-3d0/default_pwrlevel".to_string()),
        current_power_level: None,
        min_power_level: Some(6),
        max_power_level: Some(0),
        has_bus_split: false,
        has_force_clk_on: false,
    }
}

#[test]
fn frequency_table_extremes_and_middle() {
    let f = vec![1_800_000u64, 300_000, 1_200_000, 960_000];
    assert_eq!(max_freq(&f), Some(1_800_000));
    assert_eq!(min_freq(&f), Some(300_000));
    assert_eq!(mid_freq(&f), Some(1_200_000));
    assert_eq!(mid_freq(&vec![5, 1, 3]), Some(3));
    assert_eq!(max_freq(&vec![]), None);
    assert_eq!(min_freq(&vec![]), None);
    assert_eq!(mid_freq(&vec![]), None);
}

#[test]
fn cpuset_layouts() {
    assert_eq!(cpuset_value("cpuset_top_app", "powersave"), Some("0-3"));
    assert_eq!(cpuset_value("cpuset_top_app", "performance"), Some("0-7"));
    assert_eq!(cpuset_value("cpuset_background", "balanced"), Some("0-1"));
    assert_eq!(cpuset_value("cpuset_background", "emergency_cool"), Some("0"));
    assert_eq!(cpuset_value("cpuset_sys_bg", "balanced"), Some("0-2"));
    assert_eq!(cpuset_value("cpuset_restricted", "performance"), Some("0-6"));
    assert_eq!(cpuset_value("cpuset_foreground", "powersave"), Some("0-2"));
    assert_eq!(cpuset_value("cpuset_other", "powersave"), None);
}

#[test]
fn governor_nodes_of_usable_clusters_that_offer_it() {
    let topology = CpuTopology {
        is_walt: false,
        is_eas: true,
        has_uclamp: false,
        clusters: vec![
            cluster("little", "/p0/scaling_governor", true, &["schedutil", "powersave"]),
            cluster("big", "/p4/scaling_governor", false, &["schedutil", "powersave"]),
            cluster("prime", "/p7/scaling_governor", true, &["schedutil"]),
        ],
    };
    assert_eq!(cpu_governor_nodes(&topology, "powersave"), vec!["/p0/scaling_governor".to_string()]);
    assert_eq!(
        cpu_governor_nodes(&topology, "schedutil"),
        vec!["/p0/scaling_governor".to_string(), "/p7/scaling_governor".to_string()]
    );
    assert!(cpu_governor_nodes(&topology, "performance").is_empty());
}

#[test]
fn gpu_governor_node_prefers_devfreq() {
    let g = gpu("/sys/class/kgsl/kgsl-3d0", true, &["msm-adreno-tz", "performance"]);
    assert_eq!(
        gpu_governor_node(&g, "performance"),
        Some("/sys/class/kgsl/kgsl-3d0/devfreq/governor".to_string())
    );
    assert_eq!(gpu_governor_node(&g, "powersave"), None);
    let plain = gpu("/sys/class/kgsl/kgsl-3d0", false, &["performance"]);
    assert_eq!(
        gpu_governor_node(&plain, "performance"),
        Some("/sys/class/kgsl/kgsl-3d0/governor".to_string())
    );
    let no_path = gpu("", false, &["performance"]);
    assert_eq!(gpu_governor_node(&no_path, "performance"), None);
}

#[test]
fn gpu_power_level_within_discovered_bounds() {
    let g = gpu("/sys/class/kgsl/kgsl-3d0", true, &[]);
    assert_eq!(
        gpu_power_level_node(&g, 3),
        Some("/sys/class/kgsl/kgsl-3d0/default_pwrlevel".to_string())
    );
    assert_eq!(gpu_power_level_node(&g, 0).is_some(), true);
    assert_eq!(gpu_power_level_node(&g, 6).is_some(), true);
    assert_eq!(gpu_power_level_node(&g, 7), None);
    let mut unknown = g.clone();
    unknown.min_power_level = None;
    assert_eq!(gpu_power_level_node(&unknown, 3), None);
}

#[test]
fn clusters_sorted_by_max_frequency_then_first_cpu() {
    let mut prime = cluster("policy7", "/p7/g", true, &[]);
    prime.cpuinfo_max_freq = 3_000_000;
    prime.cpus = vec![7];
    let mut little = cluster("policy0", "/p0/g", true, &[]);
    little.cpuinfo_max_freq = 2_000_000;
    little.cpus = vec![0, 1, 2];
    let mut big = cluster("policy3", "/p3/g", true, &[]);
    big.cpuinfo_max_freq = 2_800_000;
    big.cpus = vec![3, 4];
    let mut gold = cluster("policy5", "/p5/g", true, &[]);
    gold.cpuinfo_max_freq = 2_800_000;
    gold.cpus = vec![5, 6];
    let sorted = sort_clusters(vec![prime, gold, little, big]);
    let names: Vec<&str> = sorted.iter().map(|c| c.name.as_str()).collect();
    assert_eq!(names, vec!["policy0", "policy3", "policy5", "policy7"]);
    assert!(sort_clusters(vec![]).is_empty());
}

#[test]
fn gpu_devfreq_names() {
    assert!(is_gpu_devfreq_name("3d00000.qcom,kgsl-3d0"));
    assert!(is_gpu_devfreq_name("13000000.mali"));
    assert!(is_gpu_devfreq_name("soc:qcom,gpubw"));
    assert!(!is_gpu_devfreq_name("soc:qcom,cpu-llcc-ddr-bw"));
    assert!(!is_gpu_devfreq_name(""));
}

#[test]
fn performance_raises_each_cluster_to_its_top_frequency() {
    let mut a = cluster("policy0", "/p0/scaling_governor", true, &["schedutil", "powersave"]);
    a.policy_path = "/sys/devices/system/cpu/cpufreq/policy0".to_string();
    a.available_frequencies = vec![300_000, 1_800_000, 1_200_000];
    let mut b = cluster("policy4", "/p4/scaling_governor", true, &["schedutil"]);
    b.policy_path = "/sys/devices/system/cpu/cpufreq/policy4".to_string();
    let topology = CpuTopology { is_walt: false, is_eas: true, has_uclamp: false, clusters: vec![a, b] };
    assert_eq!(
        performance_max_freq_writes(&topology),
        vec![("/sys/devices/system/cpu/cpufreq/policy0/scaling_max_freq".to_string(), 1_800_000)]
    );
    assert_eq!(wake_governor_restore(true, Some("powersave"), &topology), Some("schedutil".to_string()));
    assert_eq!(wake_governor_restore(false, Some("powersave"), &topology), None);
    assert_eq!(wake_governor_restore(true, Some("schedutil"), &topology), None);
    assert_eq!(wake_governor_restore(true, None, &topology), None);
}

use std::collections::HashMap;
use thermalai_daemon::hardware::{
    compatibility_report, skipped_block_device, BatteryProfile, CapabilityNode, ChargingProfile, CpuCluster, CpuTopology,
    CpusetProfile, GpuProfile, KernelCapabilityProfile, NetworkProfile, SchedulerProfile,
    ServiceProfile, StorageProfile, ThermalProfile,
};

fn node() -> CapabilityNode {
    CapabilityNode::new("", "", false, false, false, vec![])
}

fn cluster() -> CpuCluster {
    CpuCluster {
        name: "policy0".to_string(),
        min_freq: 0,
        max_freq: 0,
        cpus: vec![0],
        policy_path: String::new(),
        policy_node: node(),
        current_governor: String::new(),
        governor_node: node(),
        available_governors: vec![],
        current_frequency: 0,
        freq_node: node(),
        min_freq_node: node(),
        max_freq_node: node(),
        available_frequencies: vec![],
        cpuinfo_min_freq: 0,
        cpuinfo_max_freq: 0,
        related_cpus: vec![0],
    }
}

fn gpu(path: &str) -> GpuProfile {
    GpuProfile {
        path: path.to_string(),
        max_freq: 0,
        has_devfreq: false,
        is_kgsl: false,
        devfreq_path: String::new(),
        devfreq_governor_node: node(),
        devfreq_freq_node: node(),
        current_governor: String::new(),
        governor_node: node(),
        available_governors: vec![],
        current_frequency: 0,
        freq_node: node(),
        available_frequencies: vec![],
        busy_time: None,
        total_time: None,
        power_level_path: None,
        current_power_level: None,
        min_power_level: None,
        max_power_level: None,
        has_bus_split: false,
        has_force_clk_on: false,
    }
}

fn thermal(zones: &[(&str, &str)]) -> ThermalProfile {
    ThermalProfile {
        cpu_zone: None,
        gpu_zone: None,
        battery_zone: None,
        skin_zone: None,
        pmic_zone: None,
        usbc_zone: None,
        charger_zone: None,
        all_zones: zones.iter().map(|(a, b)| (a.to_string(), b.to_string())).collect::<HashMap<_, _>>(),
        cooling_devices: vec![],
    }
}

fn battery(path: &str) -> BatteryProfile {
    BatteryProfile {
        path: path.to_string(),
        capability_nodes: vec![],
        design_capacity_mah: None,
        charge_full_design_mah: None,
        charge_full_mah: None,
        charge_counter_uah: None,
        voltage_now_uv: None,
        current_now_ua: None,
        temperature_tenths_c: None,
        health: String::new(),
        technology: String::new(),
        cycle_count: None,
    }
}

fn charging(path: &str) -> ChargingProfile {
    ChargingProfile {
        path: path.to_string(),
        is_fast_charge: false,
        capability_nodes: vec![],
        current_limit_nodes: vec![],
        input_current_limit_nodes: vec![],
        charge_enable_nodes: vec![],
        fast_charge_nodes: vec![],
        qcom_battery_root: None,
        voter_nodes: vec![],
        cycle_count: None,
        cycle_count_path: None,
    }
}

fn cpuset(root: &str) -> CpusetProfile {
    CpusetProfile {
        root_path: root.to_string(),
        cpuset_nodes: vec![],
        top_app_path: None,
        background_path: None,
        foreground_path: None,
        system_background_path: None,
    }
}

fn network(cc: &str) -> NetworkProfile {
    NetworkProfile {
        default_qdisc: String::new(),
        tcp_congestion_control: cc.to_string(),
        available_congestion_controls: vec![],
        ecn_enabled: None,
        fast_open: None,
        mtu_probing: None,
        tcp_keepalive_time: None,
        tcp_syn_retries: None,
        tcp_synack_retries: None,
        tcp_window_scaling: None,
        tcp_timestamps: None,
    }
}

fn storage(ufs: bool, devices: &[&str]) -> StorageProfile {
    StorageProfile {
        has_ufs: ufs,
        block_devices: devices.iter().map(|d| d.to_string()).collect(),
        io_schedulers: HashMap::new(),
        current_schedulers: HashMap::new(),
        available_schedulers: HashMap::new(),
        read_ahead_kb: HashMap::new(),
        nr_requests: HashMap::new(),
        rotational: HashMap::new(),
    }
}

fn no_services() -> ServiceProfile {
    ServiceProfile {
        thermal_hal: false,
        power_hal: false,
        health_hal: false,
        perf_service: false,
        vendor_thermal_engine: false,
        vendor_performance_daemon: false,
    }
}

fn no_scheduler() -> SchedulerProfile {
    SchedulerProfile { has_schedtune: false, has_uclamp: false, has_schedutil: false, has_walt: false, has_eas: false }
}

#[test]
fn compatibility_summary_of_a_full_device() {
    let r = compatibility_report(
        &CpuTopology { is_walt: true, is_eas: true, has_uclamp: true, clusters: vec![cluster()] },
        &gpu("/sys/class/kgsl/kgsl-3d0"),
        &thermal(&[("cpu-0-0-usr", "/sys/class/thermal/thermal_zone1/temp")]),
        &battery("/sys/class/power_supply/battery"),
        &charging("/sys/class/power_supply/battery"),
        &cpuset("/dev/cpuset"),
        &network("cubic"),
        (true, false, false),
        &storage(true, &[]),
        &SchedulerProfile { has_walt: true, ..no_scheduler() },
        &ServiceProfile { health_hal: true, ..no_services() },
        &KernelCapabilityProfile { features: vec!["psi".to_string()], selinux_enforcing: Some(true) },
    );
    let entries = r.entries();
    assert_eq!(entries.len(), 12);
    assert!(entries.iter().all(|(_, status)| *status == "PASS"));
    assert_eq!(entries[0], ("cpu", "PASS"));
    assert_eq!(entries[11], ("kernel", "PASS"));
}

#[test]
fn compatibility_summary_of_an_empty_probe() {
    let r = compatibility_report(
        &CpuTopology { is_walt: false, is_eas: false, has_uclamp: false, clusters: vec![] },
        &gpu(""),
        &thermal(&[]),
        &battery(""),
        &charging(""),
        &cpuset(""),
        &network(""),
        (false, false, false),
        &storage(false, &[]),
        &no_scheduler(),
        &no_services(),
        &KernelCapabilityProfile { features: vec![], selinux_enforcing: None },
    );
    let entries = r.entries();
    let names: Vec<&str> = entries.iter().map(|(n, _)| *n).collect();
    assert_eq!(
        names,
        vec!["cpu", "gpu", "thermal", "battery", "charging", "cpuset", "network", "memory", "storage", "scheduler", "services", "kernel"]
    );
    assert!(entries.iter().all(|(_, status)| *status == "MISSING"));
    let storage_only = compatibility_report(
        &CpuTopology { is_walt: false, is_eas: false, has_uclamp: false, clusters: vec![] },
        &gpu(""),
        &thermal(&[]),
        &battery(""),
        &charging(""),
        &cpuset(""),
        &network(""),
        (false, false, true),
        &storage(false, &["sda"]),
        &no_scheduler(),
        &no_services(),
        &KernelCapabilityProfile { features: vec![], selinux_enforcing: None },
    );
    assert!(storage_only.storage && storage_only.memory && !storage_only.cpu);
}

#[test]
fn storage_probe_skips_virtual_devices() {
    assert!(skipped_block_device("loop3"));
    assert!(skipped_block_device("ram0"));
    assert!(skipped_block_device("zram0"));
    assert!(skipped_block_device("dm-4"));
    assert!(!skipped_block_device("sda"));
    assert!(!skipped_block_device("mmcblk0"));
}

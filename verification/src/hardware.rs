//! What the hardware probe found, and the decisions made on probed values:
//! which raw thermal readings are valid and how they convert to degrees,
//! which zone a thermal sensor stands for, which services run, and which
//! property value wins.
use vstd::prelude::*;
use vstd::relations::sorted_by;
use std::collections::HashMap;
use crate::text::{contains_str, has_infix};

verus! {

/// A sysfs node and what the probe could do with it.
#[derive(Debug, Clone)]
pub struct CapabilityNode {
    pub path: String,
    pub name: String,
    pub readable: bool,
    pub writable: bool,
    pub valid: bool,
    pub supported_values: Vec<String>,
}

impl CapabilityNode {
    /// A node from what was found at its path: it is valid when it exists
    /// and can be read or written.
    pub fn new(
        path: &str,
        name: &str,
        exists: bool,
        can_read: bool,
        can_write: bool,
        supported_values: Vec<String>,
    ) -> (r: Self)
        ensures
            r.path@ == path@,
            r.name@ == name@,
            r.readable == (exists && can_read),
            r.writable == (exists && can_write),
            r.valid == (exists && (r.readable || r.writable)),
            r.supported_values == supported_values,
    {
        let readable = exists && can_read;
        let writable = exists && can_write;
        CapabilityNode {
            path: path.to_owned(),
            name: name.to_owned(),
            readable,
            writable,
            valid: exists && (readable || writable),
            supported_values,
        }
    }
}

#[derive(Debug, Clone)]
pub struct DisplayProfile {
    pub touch_nodes: Vec<String>,
    pub touch_controller_name: Option<String>,
    pub brightness_path: Option<String>,
    pub max_brightness_path: Option<String>,
}

#[derive(Debug, Clone)]
pub struct NetworkProfile {
    pub default_qdisc: String,
    pub tcp_congestion_control: String,
    pub available_congestion_controls: Vec<String>,
    pub ecn_enabled: Option<bool>,
    pub fast_open: Option<String>,
    pub mtu_probing: Option<u32>,
    pub tcp_keepalive_time: Option<u32>,
    pub tcp_syn_retries: Option<u32>,
    pub tcp_synack_retries: Option<u32>,
    pub tcp_window_scaling: Option<u32>,
    pub tcp_timestamps: Option<u32>,
}

#[derive(Debug, Clone)]
pub struct StorageProfile {
    pub has_ufs: bool,
    pub block_devices: Vec<String>,
    pub io_schedulers: HashMap<String, String>,
    pub current_schedulers: HashMap<String, String>,
    pub available_schedulers: HashMap<String, Vec<String>>,
    pub read_ahead_kb: HashMap<String, u64>,
    pub nr_requests: HashMap<String, u64>,
    pub rotational: HashMap<String, bool>,
}

#[derive(Debug, Clone, Copy, PartialEq, Eq)]
pub struct SchedulerProfile {
    pub has_schedtune: bool,
    pub has_uclamp: bool,
    pub has_schedutil: bool,
    pub has_walt: bool,
    pub has_eas: bool,
}

#[derive(Debug, Clone, Copy, PartialEq, Eq)]
pub struct ServiceProfile {
    pub thermal_hal: bool,
    pub power_hal: bool,
    pub health_hal: bool,
    pub perf_service: bool,
    pub vendor_thermal_engine: bool,
    pub vendor_performance_daemon: bool,
}

#[derive(Debug, Clone)]
pub struct KernelCapabilityProfile {
    pub features: Vec<String>,
    pub selinux_enforcing: Option<bool>,
}

#[derive(Debug, Clone)]
pub struct CacheMetadata {
    pub product_device: String,
    pub boot_hardware: String,
    pub device_identity: String,
    pub board_platform: String,
    pub hardware: String,
    pub schema_version: u32,
    pub timestamp: u64,
    pub android_version: String,
    pub build_fingerprint: String,
    pub kernel_version: String,
    pub vendor_fingerprint: String,
}

#[derive(Debug, Clone)]
pub struct CpuCluster {
    pub name: String,
    pub min_freq: u64,
    pub max_freq: u64,
    pub cpus: Vec<u32>,
    pub policy_path: String,
    pub policy_node: CapabilityNode,
    pub current_governor: String,
    pub governor_node: CapabilityNode,
    pub available_governors: Vec<String>,
    pub current_frequency: u64,
    pub freq_node: CapabilityNode,
    pub min_freq_node: CapabilityNode,
    pub max_freq_node: CapabilityNode,
    pub available_frequencies: Vec<u64>,
    pub cpuinfo_min_freq: u64,
    pub cpuinfo_max_freq: u64,
    pub related_cpus: Vec<u32>,
}

#[derive(Debug, Clone)]
pub struct CpuTopology {
    pub is_walt: bool,
    pub is_eas: bool,
    pub has_uclamp: bool,
    pub clusters: Vec<CpuCluster>,
}

/// The first CPU of a cluster, 0 when it lists none.
pub open spec fn first_cpu(c: CpuCluster) -> u32 {
    if c.cpus@.len() > 0 {
        c.cpus@[0]
    } else {
        0
    }
}

/// The order clusters are listed in: by `cpuinfo_max_freq`, then by their
/// first CPU.
pub open spec fn cluster_order() -> spec_fn(CpuCluster, CpuCluster) -> bool {
    |a: CpuCluster, b: CpuCluster|
        a.cpuinfo_max_freq < b.cpuinfo_max_freq || (a.cpuinfo_max_freq == b.cpuinfo_max_freq
            && first_cpu(a) <= first_cpu(b))
}

fn first_cpu_exec(c: &CpuCluster) -> (r: u32)
    ensures
        r == first_cpu(*c),
{
    if c.cpus.len() > 0 {
        c.cpus[0]
    } else {
        0
    }
}

/// Whether `a` may stand before `b` in `cluster_order`.
fn cluster_le(a: &CpuCluster, b: &CpuCluster) -> (r: bool)
    ensures
        r == (cluster_order())(*a, *b),
{
    a.cpuinfo_max_freq < b.cpuinfo_max_freq || (a.cpuinfo_max_freq == b.cpuinfo_max_freq
        && first_cpu_exec(a) <= first_cpu_exec(b))
}

/// Inserts `c` into the ordered `v`, after the clusters that may stand
/// before it.
fn insert_cluster(v: &mut Vec<CpuCluster>, c: CpuCluster)
    requires
        sorted_by(old(v)@, cluster_order()),
    ensures
        sorted_by(final(v)@, cluster_order()),
        final(v)@.to_multiset() == old(v)@.to_multiset().insert(c),
{
    let ghost leq = cluster_order();
    let mut p: usize = 0;
    while p < v.len() && cluster_le(&v[p], &c)
        invariant
            0 <= p <= v.len(),
            forall|j: int| 0 <= j < p ==> #[trigger] (cluster_order())(v@[j], c),
        decreases v.len() - p,
    {
        p = p + 1;
    }
    let ghost before = v@;
    let ghost x = c;
    v.insert(p, c);
    proof {
        broadcast use vstd::seq_lib::to_multiset_insert;
        assert(p < before.len() ==> !leq(before[p as int], x));
        assert forall|i: int, j: int| 0 <= i < j < v@.len() implies #[trigger] leq(v@[i], v@[j]) by {
            if j < p {
                assert(leq(before[i], before[j]));
            } else if j == p {
                assert(v@[i] == before[i]);
                assert(leq(before[i], x));
            } else if i < p {
                assert(leq(before[i], before[j - 1]));
            } else if i == p {
                assert(v@[j] == before[j - 1]);
                if j - 1 > p {
                    assert(leq(before[p as int], before[j - 1]));
                }
            } else {
                assert(leq(before[i - 1], before[j - 1]));
            }
        }
        assert(v@ == before.insert(p as int, x));
    }
}

/// The clusters in `cluster_order`: the same clusters, by
/// `cpuinfo_max_freq` and then by their first CPU.
pub fn sort_clusters(clusters: Vec<CpuCluster>) -> (r: Vec<CpuCluster>)
    ensures
        sorted_by(r@, cluster_order()),
        r@.to_multiset() == clusters@.to_multiset(),
        r@.len() == clusters@.len(),
{
    let ghost orig = clusters@;
    let mut rest = clusters;
    let mut out: Vec<CpuCluster> = Vec::new();
    let ghost mut k: int = 0;
    assert(orig.take(0) =~= Seq::<CpuCluster>::empty());
    assert(orig.subrange(0, orig.len() as int) =~= orig);
    while rest.len() > 0
        invariant
            0 <= k <= orig.len(),
            rest@ == orig.subrange(k, orig.len() as int),
            sorted_by(out@, cluster_order()),
            out@.to_multiset() == orig.take(k).to_multiset(),
        decreases rest.len(),
    {
        let ghost r0 = rest@;
        let c = rest.remove(0);
        proof {
            assert(c == orig[k]);
            assert(orig.take(k + 1) =~= orig.take(k).push(orig[k]));
            assert(rest@ =~= orig.subrange(k + 1, orig.len() as int));
            broadcast use vstd::seq_lib::to_multiset_build;
        }
        insert_cluster(&mut out, c);
        proof {
            k = k + 1;
        }
    }
    proof {
        assert(k == orig.len());
        assert(orig.take(k) =~= orig);
        broadcast use vstd::seq_lib::to_multiset_len;
        assert(out@.to_multiset().len() == out@.len());
        assert(orig.to_multiset().len() == orig.len());
    }
    out
}

/// Whether a devfreq device is a GPU: its name holds `kgsl`, `mali` or
/// `gpu`.
pub fn is_gpu_devfreq_name(name: &str) -> (r: bool)
    ensures
        r == (has_infix(name@, "kgsl"@) || has_infix(name@, "mali"@) || has_infix(name@, "gpu"@)),
{
    contains_str(name, "kgsl") || contains_str(name, "mali") || contains_str(name, "gpu")
}

#[derive(Debug, Clone)]
pub struct GpuProfile {
    pub path: String,
    pub max_freq: u64,
    pub has_devfreq: bool,
    pub is_kgsl: bool,
    pub devfreq_path: String,
    pub devfreq_governor_node: CapabilityNode,
    pub devfreq_freq_node: CapabilityNode,
    pub current_governor: String,
    pub governor_node: CapabilityNode,
    pub available_governors: Vec<String>,
    pub current_frequency: u64,
    pub freq_node: CapabilityNode,
    pub available_frequencies: Vec<u64>,
    pub busy_time: Option<u64>,
    pub total_time: Option<u64>,
    pub power_level_path: Option<String>,
    pub current_power_level: Option<u32>,
    pub min_power_level: Option<u32>,
    pub max_power_level: Option<u32>,
    pub has_bus_split: bool,
    pub has_force_clk_on: bool,
}

#[derive(Debug, Clone)]
pub struct DcvsProfile {
    pub component: String,
    pub path: String,
    pub hw_max_freq_node: Option<String>,
    pub hw_min_freq_node: Option<String>,
    pub available_frequencies: Vec<u64>,
}

#[derive(Debug, Clone)]
pub struct CoolingDeviceProfile {
    pub name: String,
    pub device_type: String,
    pub sysfs_path: String,
    pub state_node: CapabilityNode,
    pub current_state: Option<u32>,
    pub max_state: Option<u32>,
}

#[derive(Debug, Clone)]
pub struct ThermalProfile {
    pub cpu_zone: Option<String>,
    pub gpu_zone: Option<String>,
    pub battery_zone: Option<String>,
    pub skin_zone: Option<String>,
    pub pmic_zone: Option<String>,
    pub usbc_zone: Option<String>,
    pub charger_zone: Option<String>,
    pub all_zones: HashMap<String, String>,
    pub cooling_devices: Vec<CoolingDeviceProfile>,
}

/// Whether a thermal zone type names one of a role's two words.
pub open spec fn zone_matches(zone_type: Seq<char>, a: Seq<char>, b: Seq<char>) -> bool {
    has_infix(zone_type, a) || has_infix(zone_type, b)
}

/// `r` is the first zone whose type names `a` or `b`, or none when no
/// zone does.
pub open spec fn is_first_zone(types: Seq<Seq<char>>, a: Seq<char>, b: Seq<char>, r: Option<usize>) -> bool {
    match r {
        Some(i) => i < types.len() && zone_matches(types[i as int], a, b) && forall|j: int|
            0 <= j < i ==> !zone_matches(#[trigger] types[j], a, b),
        None => forall|j: int| 0 <= j < types.len() ==> !zone_matches(#[trigger] types[j], a, b),
    }
}

/// Which zone, by its place in the list, stands for each role.
#[derive(Debug, Clone, Copy, PartialEq, Eq)]
pub struct ZoneRoles {
    pub cpu: Option<usize>,
    pub gpu: Option<usize>,
    pub battery: Option<usize>,
    pub skin: Option<usize>,
    pub pmic: Option<usize>,
    pub usbc: Option<usize>,
    pub charger: Option<usize>,
}

/// The first zone whose type names `a` or `b`.
fn first_zone(types: &Vec<String>, a: &str, b: &str) -> (r: Option<usize>)
    ensures
        is_first_zone(types.deep_view(), a@, b@, r),
{
    let mut i: usize = 0;
    while i < types.len()
        invariant
            0 <= i <= types.len(),
            forall|j: int| 0 <= j < i ==> !zone_matches(#[trigger] types.deep_view()[j], a@, b@),
        decreases types.len() - i,
    {
        if contains_str(types[i].as_str(), a) || contains_str(types[i].as_str(), b) {
            return Some(i);
        }
        i = i + 1;
    }
    None
}

/// The roles of the thermal zones, given the types of the zones that read
/// a valid temperature, in the order they were found: the CPU zone is the
/// first whose type names `cpu` or `soc`; the GPU `gpu`; the battery
/// `battery` or `bms`; the skin `skin`; the PMIC `pmic`; the USB-C port
/// `usb`; the charger `chg`.
pub fn classify_thermal_zones(types: &Vec<String>) -> (r: ZoneRoles)
    ensures
        is_first_zone(types.deep_view(), "cpu"@, "soc"@, r.cpu),
        is_first_zone(types.deep_view(), "gpu"@, "gpu"@, r.gpu),
        is_first_zone(types.deep_view(), "battery"@, "bms"@, r.battery),
        is_first_zone(types.deep_view(), "skin"@, "skin"@, r.skin),
        is_first_zone(types.deep_view(), "pmic"@, "pmic"@, r.pmic),
        is_first_zone(types.deep_view(), "usb"@, "usb"@, r.usbc),
        is_first_zone(types.deep_view(), "chg"@, "chg"@, r.charger),
{
    ZoneRoles {
        cpu: first_zone(types, "cpu", "soc"),
        gpu: first_zone(types, "gpu", "gpu"),
        battery: first_zone(types, "battery", "bms"),
        skin: first_zone(types, "skin", "skin"),
        pmic: first_zone(types, "pmic", "pmic"),
        usbc: first_zone(types, "usb", "usb"),
        charger: first_zone(types, "chg", "chg"),
    }
}

#[derive(Debug, Clone)]
pub struct BatteryProfile {
    pub path: String,
    pub capability_nodes: Vec<CapabilityNode>,
    pub design_capacity_mah: Option<u64>,
    pub charge_full_design_mah: Option<u64>,
    pub charge_full_mah: Option<u64>,
    pub charge_counter_uah: Option<i64>,
    pub voltage_now_uv: Option<u64>,
    pub current_now_ua: Option<i64>,
    pub temperature_tenths_c: Option<i32>,
    pub health: String,
    pub technology: String,
    pub cycle_count: Option<u64>,
}

#[derive(Debug, Clone)]
pub struct ChargingProfile {
    pub path: String,
    pub is_fast_charge: bool,
    pub capability_nodes: Vec<CapabilityNode>,
    pub current_limit_nodes: Vec<String>,
    pub input_current_limit_nodes: Vec<String>,
    pub charge_enable_nodes: Vec<String>,
    pub fast_charge_nodes: Vec<String>,
    pub qcom_battery_root: Option<String>,
    pub voter_nodes: Vec<String>,
    /// The battery's charge cycles when the probe could read them.
    pub cycle_count: Option<u64>,
    /// Where the cycle count was read.
    pub cycle_count_path: Option<String>,
}

#[derive(Debug, Clone)]
pub struct CpusetProfile {
    pub root_path: String,
    pub cpuset_nodes: Vec<CapabilityNode>,
    pub top_app_path: Option<String>,
    pub background_path: Option<String>,
    pub foreground_path: Option<String>,
    pub system_background_path: Option<String>,
}

/// What the probe found of each subsystem: whether it is there to work
/// with.
#[derive(Debug, Clone, Copy, PartialEq, Eq)]
pub struct CompatibilityReport {
    pub cpu: bool,
    pub gpu: bool,
    pub thermal: bool,
    pub battery: bool,
    pub charging: bool,
    pub cpuset: bool,
    pub network: bool,
    pub memory: bool,
    pub storage: bool,
    pub scheduler: bool,
    pub services: bool,
    pub kernel: bool,
}

/// The summary of what the probe found: the CPU has clusters; the GPU, the
/// battery and the charger have a path; some thermal zone reads; the
/// cpuset root is known; a TCP congestion control is set; memory has
/// pressure figures, zram or lmkd; storage is UFS or lists block devices;
/// the scheduler has schedutil, uclamp, WALT or EAS; one of the thermal,
/// power, health or performance services runs; the kernel reports
/// features.
pub fn compatibility_report(
    cpu: &CpuTopology,
    gpu: &GpuProfile,
    thermal: &ThermalProfile,
    battery: &BatteryProfile,
    charging: &ChargingProfile,
    cpuset: &CpusetProfile,
    network: &NetworkProfile,
    memory_signals: (bool, bool, bool),
    storage: &StorageProfile,
    scheduler: &SchedulerProfile,
    services: &ServiceProfile,
    kernel: &KernelCapabilityProfile,
) -> (r: CompatibilityReport)
    ensures
        r.cpu == (cpu.clusters@.len() > 0),
        r.gpu == (gpu.path@.len() > 0),
        r.thermal == !thermal.all_zones@.is_empty(),
        r.battery == (battery.path@.len() > 0),
        r.charging == (charging.path@.len() > 0),
        r.cpuset == (cpuset.root_path@.len() > 0),
        r.network == (network.tcp_congestion_control@.len() > 0),
        r.memory == (memory_signals.0 || memory_signals.1 || memory_signals.2),
        r.storage == (storage.has_ufs || storage.block_devices@.len() > 0),
        r.scheduler == (scheduler.has_schedutil || scheduler.has_uclamp || scheduler.has_walt
            || scheduler.has_eas),
        r.services == (services.thermal_hal || services.power_hal || services.health_hal
            || services.perf_service || services.vendor_thermal_engine
            || services.vendor_performance_daemon),
        r.kernel == (kernel.features@.len() > 0),
{
    CompatibilityReport {
        cpu: cpu.clusters.len() > 0,
        gpu: gpu.path.as_str().unicode_len() > 0,
        thermal: !thermal.all_zones.is_empty(),
        battery: battery.path.as_str().unicode_len() > 0,
        charging: charging.path.as_str().unicode_len() > 0,
        cpuset: cpuset.root_path.as_str().unicode_len() > 0,
        network: network.tcp_congestion_control.as_str().unicode_len() > 0,
        memory: memory_signals.0 || memory_signals.1 || memory_signals.2,
        storage: storage.has_ufs || storage.block_devices.len() > 0,
        scheduler: scheduler.has_schedutil || scheduler.has_uclamp || scheduler.has_walt
            || scheduler.has_eas,
        services: services.thermal_hal || services.power_hal || services.health_hal
            || services.perf_service || services.vendor_thermal_engine
            || services.vendor_performance_daemon,
        kernel: kernel.features.len() > 0,
    }
}

pub open spec fn status_label(found: bool) -> Seq<char> {
    if found {
        "PASS"@
    } else {
        "MISSING"@
    }
}

pub open spec fn report_names() -> Seq<Seq<char>> {
    seq![
        "cpu"@,
        "gpu"@,
        "thermal"@,
        "battery"@,
        "charging"@,
        "cpuset"@,
        "network"@,
        "memory"@,
        "storage"@,
        "scheduler"@,
        "services"@,
        "kernel"@,
    ]
}

impl CompatibilityReport {
    pub open spec fn flags(self) -> Seq<bool> {
        seq![
            self.cpu,
            self.gpu,
            self.thermal,
            self.battery,
            self.charging,
            self.cpuset,
            self.network,
            self.memory,
            self.storage,
            self.scheduler,
            self.services,
            self.kernel,
        ]
    }

    /// The summary as subsystem names with `PASS` or `MISSING`.
    pub fn entries(&self) -> (r: Vec<(&'static str, &'static str)>)
        ensures
            r@.len() == 12,
            forall|i: int|
                0 <= i < 12 ==> (#[trigger] r@[i]).0@ == report_names()[i] && r@[i].1@
                    == status_label(self.flags()[i]),
    {
        let flags: [bool; 12] = [
            self.cpu,
            self.gpu,
            self.thermal,
            self.battery,
            self.charging,
            self.cpuset,
            self.network,
            self.memory,
            self.storage,
            self.scheduler,
            self.services,
            self.kernel,
        ];
        let names: [&'static str; 12] = [
            "cpu",
            "gpu",
            "thermal",
            "battery",
            "charging",
            "cpuset",
            "network",
            "memory",
            "storage",
            "scheduler",
            "services",
            "kernel",
        ];
        proof {
            reveal_strlit("cpu");
            reveal_strlit("gpu");
            reveal_strlit("thermal");
            reveal_strlit("battery");
            reveal_strlit("charging");
            reveal_strlit("cpuset");
            reveal_strlit("network");
            reveal_strlit("memory");
            reveal_strlit("storage");
            reveal_strlit("scheduler");
            reveal_strlit("services");
            reveal_strlit("kernel");
            reveal_strlit("PASS");
            reveal_strlit("MISSING");
        }
        assert(flags@ =~= self.flags());
        assert(forall|i: int| 0 <= i < 12 ==> (#[trigger] names@[i])@ == report_names()[i]);
        let mut out: Vec<(&'static str, &'static str)> = Vec::new();
        let mut i: usize = 0;
        while i < 12
            invariant
                0 <= i <= 12,
                out@.len() == i,
                flags@ == self.flags(),
                forall|k: int| 0 <= k < 12 ==> (#[trigger] names@[k])@ == report_names()[k],
                forall|k: int|
                    0 <= k < i ==> (#[trigger] out@[k]).0@ == report_names()[k] && out@[k].1@
                        == status_label(self.flags()[k]),
            decreases 12 - i,
        {
            let label: &'static str = if flags[i] {
                "PASS"
            } else {
                "MISSING"
            };
            proof {
                reveal_strlit("PASS");
                reveal_strlit("MISSING");
            }
            out.push((names[i], label));
            i = i + 1;
        }
        out
    }
}

/// A copy of a list of strings with the same contents.
pub fn clone_strings(v: &Vec<String>) -> (r: Vec<String>)
    ensures
        r.deep_view() == v.deep_view(),
{
    let mut out: Vec<String> = Vec::new();
    let mut i: usize = 0;
    while i < v.len()
        invariant
            0 <= i <= v.len(),
            out.len() == i,
            forall|k: int| 0 <= k < i ==> (#[trigger] out@[k])@ == v@[k]@,
        decreases v.len() - i,
    {
        out.push(v[i].clone());
        i = i + 1;
    }
    assert(out.deep_view() =~= v.deep_view());
    out
}

/// Whether a raw `thermal_zone*/temp` reading is plausible: above -50000,
/// not zero, below 200000.
pub open spec fn valid_raw_spec(temp: i32) -> bool {
    temp > -50000 && temp != 0 && temp < 200000
}

pub fn valid_thermal_temp_raw(temp: i32) -> (r: bool)
    ensures
        r == valid_raw_spec(temp),
{
    temp > -50000 && temp != 0 && temp < 200000
}

/// Degrees from a raw reading: millidegrees above 1000, degrees otherwise.
pub open spec fn temp_c_spec(temp: i32) -> i32 {
    if temp > 1000 {
        (temp / 1000) as i32
    } else {
        temp
    }
}

/// The temperature in degrees of a valid raw reading; `None` for an
/// implausible one.
pub fn temp_c_from_raw(temp: i32) -> (r: Option<i32>)
    ensures
        r == (if valid_raw_spec(temp) {
            Some(temp_c_spec(temp))
        } else {
            None::<i32>
        }),
{
    if !valid_thermal_temp_raw(temp) {
        return None;
    }
    Some(if temp > 1000 {
        temp / 1000
    } else {
        temp
    })
}

/// The first non-empty property value, in the order of the keys, or the
/// default. `values` holds the value of each key, in order.
pub open spec fn any_property_spec(values: Seq<Seq<char>>, default: Seq<char>) -> Seq<char>
    decreases values.len(),
{
    if values.len() == 0 {
        default
    } else if values[0].len() > 0 {
        values[0]
    } else {
        any_property_spec(values.drop_first(), default)
    }
}

pub fn get_any_property(values: &Vec<String>, default: &str) -> (r: String)
    ensures
        r@ == any_property_spec(values.deep_view(), default@),
{
    let ghost vs = values.deep_view();
    let mut i: usize = 0;
    assert(vs.skip(0) =~= vs);
    while i < values.len()
        invariant
            0 <= i <= values.len(),
            vs == values.deep_view(),
            any_property_spec(vs, default@) == any_property_spec(vs.skip(i as int), default@),
        decreases values.len() - i,
    {
        let v = &values[i];
        assert(vs.skip(i as int)[0] == v@);
        if crate::text::chars_of(v.as_str()).len() > 0 {
            return v.clone();
        }
        assert(vs.skip(i as int).drop_first() =~= vs.skip(i + 1));
        i = i + 1;
    }
    assert(vs.skip(values.len() as int).len() == 0);
    default.to_owned()
}

/// The services that run, from the values of the `init.svc.*` properties
/// (each `running` or not).
#[derive(Debug, Clone, Copy, PartialEq, Eq)]
pub struct ServiceProps {
    pub thermal_hal_2_0: bool,
    pub thermal_engine: bool,
    pub mi_thermald: bool,
    pub power_hal_1_0: bool,
    pub health_hal_2_1: bool,
    pub perfservice: bool,
    pub vendor_perfservice: bool,
    pub perf_daemon: bool,
    pub perf_service: bool,
    pub vendor_performance_daemon: bool,
    pub vendor_perf_hal_1_0: bool,
}

/// The service profile: the thermal HAL runs when its service or the
/// thermal engine does; the vendor thermal engine when `thermal-engine` or
/// `mi_thermald` does; the perf service when any of its four names does; the
/// vendor performance daemon when it or the perf HAL does.
pub fn probe_services(p: &ServiceProps) -> (r: ServiceProfile)
    ensures
        r.thermal_hal == (p.thermal_hal_2_0 || p.thermal_engine),
        r.vendor_thermal_engine == (p.thermal_engine || p.mi_thermald),
        r.power_hal == p.power_hal_1_0,
        r.health_hal == p.health_hal_2_1,
        r.perf_service == (p.perfservice || p.vendor_perfservice || p.perf_daemon
            || p.perf_service),
        r.vendor_performance_daemon == (p.vendor_performance_daemon || p.vendor_perf_hal_1_0),
{
    ServiceProfile {
        thermal_hal: p.thermal_hal_2_0 || p.thermal_engine,
        vendor_thermal_engine: p.thermal_engine || p.mi_thermald,
        power_hal: p.power_hal_1_0,
        health_hal: p.health_hal_2_1,
        perf_service: p.perfservice || p.vendor_perfservice || p.perf_daemon || p.perf_service,
        vendor_performance_daemon: p.vendor_performance_daemon || p.vendor_perf_hal_1_0,
    }
}

/// Whether a property value says the service runs.
pub fn is_running(value: &str) -> (r: bool)
    ensures
        r == (value@ == "running"@),
{
    crate::charging::str_eq(value, "running")
}

/// The battery's power-supply directory: the first of `battery`, `bms` and
/// `main` under `/sys/class/power_supply` that exists, given in that order.
pub fn battery_path(exists: &[bool; 3]) -> (r: Option<&'static str>)
    ensures
        exists[0] ==> r == Some("/sys/class/power_supply/battery"),
        !exists[0] && exists[1] ==> r == Some("/sys/class/power_supply/bms"),
        !exists[0] && !exists[1] && exists[2] ==> r == Some("/sys/class/power_supply/main"),
        !exists[0] && !exists[1] && !exists[2] ==> r.is_none(),
{
    if exists[0] {
        Some("/sys/class/power_supply/battery")
    } else if exists[1] {
        Some("/sys/class/power_supply/bms")
    } else if exists[2] {
        Some("/sys/class/power_supply/main")
    } else {
        None
    }
}

/// Probes the hardware into a profile; the probing itself is the caller's.
pub struct HardwareProbe;

/// Whether the storage probe skips a block device: loop, RAM, zram and
/// device-mapper devices.
pub fn skipped_block_device(dev: &str) -> (r: bool)
    ensures
        r == (crate::text::has_prefix(dev@, "loop"@) || crate::text::has_prefix(dev@, "ram"@)
            || crate::text::has_prefix(dev@, "zram"@) || crate::text::has_prefix(dev@, "dm-"@)),
{
    let d = crate::text::chars_of(dev);
    crate::text::starts_with_chars(&d, &crate::text::chars_of("loop"))
        || crate::text::starts_with_chars(&d, &crate::text::chars_of("ram"))
        || crate::text::starts_with_chars(&d, &crate::text::chars_of("zram"))
        || crate::text::starts_with_chars(&d, &crate::text::chars_of("dm-"))
}

/// Whether a block device is one the profile must not cache: device-mapper,
/// loop and zram devices.
pub fn unsupported_block_device(dev: &str) -> (r: bool)
    ensures
        r == (crate::text::has_prefix(dev@, "dm-"@) || crate::text::has_prefix(dev@, "loop"@)
            || crate::text::has_prefix(dev@, "zram"@)),
{
    let d = crate::text::chars_of(dev);
    crate::text::starts_with_chars(&d, &crate::text::chars_of("dm-"))
        || crate::text::starts_with_chars(&d, &crate::text::chars_of("loop"))
        || crate::text::starts_with_chars(&d, &crate::text::chars_of("zram"))
}

pub open spec fn unsupported_spec(dev: Seq<char>) -> bool {
    crate::text::has_prefix(dev, "dm-"@) || crate::text::has_prefix(dev, "loop"@)
        || crate::text::has_prefix(dev, "zram"@)
}

/// Checks the cached block devices: the first unsupported one invalidates
/// the cache, with a message that names it.
pub fn validate_storage_devices(block_devices: &Vec<String>) -> (r: Result<(), String>)
    ensures
        r is Ok <==> (forall|k: int|
            0 <= k < block_devices.len() ==> !unsupported_spec(#[trigger] block_devices@[k]@)),
        r matches Err(m) ==> exists|k: int|
            0 <= k < block_devices.len() && unsupported_spec(#[trigger] block_devices@[k]@)
                && (forall|j: int| 0 <= j < k ==> !unsupported_spec(#[trigger] block_devices@[j]@))
                && m@
                == "Hardware profile cache invalidated: unsupported block device cached: "@
                + block_devices@[k]@,
{
    let mut i: usize = 0;
    while i < block_devices.len()
        invariant
            0 <= i <= block_devices.len(),
            forall|k: int| 0 <= k < i ==> !unsupported_spec(#[trigger] block_devices@[k]@),
        decreases block_devices.len() - i,
    {
        let dev = block_devices[i].as_str();
        if unsupported_block_device(dev) {
            let mut m = String::new();
            crate::text::push_all(
                &mut m,
                "Hardware profile cache invalidated: unsupported block device cached: ",
            );
            crate::text::push_all(&mut m, dev);
            assert(m@ =~= "Hardware profile cache invalidated: unsupported block device cached: "@
                + block_devices@[i as int]@);
            return Err(m);
        }
        i = i + 1;
    }
    Ok(())
}

/// The version of the cached hardware profile's layout.
pub const HARDWARE_PROFILE_SCHEMA_VERSION: u32 = 4;

/// Why a cached profile's metadata no longer matches the device, the first
/// reason in the order the fields are checked; `None` when it matches.
pub open spec fn metadata_mismatch(cached: CacheMetadata, current: CacheMetadata) -> Option<Seq<char>> {
    if cached.schema_version != HARDWARE_PROFILE_SCHEMA_VERSION {
        Some("schema version mismatch"@)
    } else if cached.build_fingerprint@ != current.build_fingerprint@ {
        Some("build fingerprint mismatch"@)
    } else if cached.vendor_fingerprint@ != current.vendor_fingerprint@ {
        Some("vendor fingerprint mismatch"@)
    } else if cached.android_version@ != current.android_version@ {
        Some("Android version mismatch"@)
    } else if cached.kernel_version@ != current.kernel_version@ {
        Some("kernel version mismatch"@)
    } else if cached.product_device@ != current.product_device@ {
        Some("product device mismatch"@)
    } else if cached.boot_hardware@ != current.boot_hardware@ {
        Some("boot hardware mismatch"@)
    } else if cached.device_identity@ != current.device_identity@ {
        Some("device identity mismatch"@)
    } else if cached.board_platform@ != current.board_platform@ {
        Some("board platform mismatch"@)
    } else if cached.hardware@ != current.hardware@ {
        Some("hardware mismatch"@)
    } else {
        None
    }
}

fn invalidated(reason: &str) -> (m: String)
    ensures
        m@ == "Hardware profile cache invalidated: "@ + reason@,
{
    let mut m = String::new();
    crate::text::push_all(&mut m, "Hardware profile cache invalidated: ");
    crate::text::push_all(&mut m, reason);
    m
}

/// Checks a cached profile's metadata against the device's current one: the
/// schema version must be current and every identifying field equal.
pub fn validate_profile_metadata(cached: &CacheMetadata, current: &CacheMetadata) -> (r: Result<(), String>)
    ensures
        match metadata_mismatch(*cached, *current) {
            None => r is Ok,
            Some(reason) => (r matches Err(m) && m@ == "Hardware profile cache invalidated: "@ + reason),
        },
{
    let eq = |a: &String, b: &String| -> (r: bool)
        ensures
            r == (a@ == b@),
        { crate::charging::str_eq(a.as_str(), b.as_str()) };
    if cached.schema_version != HARDWARE_PROFILE_SCHEMA_VERSION {
        Err(invalidated("schema version mismatch"))
    } else if !eq(&cached.build_fingerprint, &current.build_fingerprint) {
        Err(invalidated("build fingerprint mismatch"))
    } else if !eq(&cached.vendor_fingerprint, &current.vendor_fingerprint) {
        Err(invalidated("vendor fingerprint mismatch"))
    } else if !eq(&cached.android_version, &current.android_version) {
        Err(invalidated("Android version mismatch"))
    } else if !eq(&cached.kernel_version, &current.kernel_version) {
        Err(invalidated("kernel version mismatch"))
    } else if !eq(&cached.product_device, &current.product_device) {
        Err(invalidated("product device mismatch"))
    } else if !eq(&cached.boot_hardware, &current.boot_hardware) {
        Err(invalidated("boot hardware mismatch"))
    } else if !eq(&cached.device_identity, &current.device_identity) {
        Err(invalidated("device identity mismatch"))
    } else if !eq(&cached.board_platform, &current.board_platform) {
        Err(invalidated("board platform mismatch"))
    } else if !eq(&cached.hardware, &current.hardware) {
        Err(invalidated("hardware mismatch"))
    } else {
        Ok(())
    }
}

/// Whether a cached thermal mapping points at a zone's temperature node.
pub open spec fn thermal_mapping_ok(path: Seq<char>) -> bool {
    crate::text::has_prefix(path, "/sys/class/thermal/thermal_zone"@) && crate::text::has_suffix(
        path,
        "/temp"@,
    )
}

/// Checks one cached thermal mapping (zone type to temperature node); a
/// malformed one invalidates the cache with a message that names it.
pub fn validate_thermal_mapping(zone_type: &str, path: &str) -> (r: Result<(), String>)
    ensures
        thermal_mapping_ok(path@) ==> r is Ok,
        !thermal_mapping_ok(path@) ==> (r matches Err(m) && m@
            == "Hardware profile cache invalidated: malformed thermal mapping "@ + zone_type@ + " -> "@
            + path@),
{
    let p = crate::text::chars_of(path);
    if crate::text::starts_with_chars(&p, &crate::text::chars_of("/sys/class/thermal/thermal_zone"))
        && crate::text::ends_with_str(path, "/temp") {
        Ok(())
    } else {
        let mut m = String::new();
        crate::text::push_all(&mut m, "Hardware profile cache invalidated: malformed thermal mapping ");
        crate::text::push_all(&mut m, zone_type);
        crate::text::push_all(&mut m, " -> ");
        crate::text::push_all(&mut m, path);
        assert(m@ =~= "Hardware profile cache invalidated: malformed thermal mapping "@ + zone_type@
            + " -> "@ + path@);
        Err(m)
    }
}

} // verus!

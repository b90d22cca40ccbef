use std::io::Write;
use thermalai_daemon::kernel::{kernel_features, probe_kernel};

fn gzip(text: &str) -> Vec<u8> {
    let mut e = flate2::write::GzEncoder::new(Vec::new(), flate2::Compression::default());
    e.write_all(text.as_bytes()).unwrap();
    e.finish().unwrap()
}

#[test]
fn features_from_config_text() {
    let text = "CONFIG_HZ=250\r\nCONFIG_FOO=y\n# CONFIG_PSI is not set\nCONFIG_PSI=y\nCONFIG_ARM64";
    assert_eq!(kernel_features(text), vec!["CONFIG_HZ=250".to_string(), "CONFIG_PSI=y".to_string()]);
    assert!(kernel_features("").is_empty());
}

#[test]
fn probe_reads_gzip_config() {
    let bytes = gzip("CONFIG_SCHED_WALT=y\nCONFIG_CPUSETS=y\nCONFIG_X=1\n");
    let p = probe_kernel(Some(&bytes), true, true, true);
    assert_eq!(p.features, vec!["CONFIG_SCHED_WALT=y".to_string(), "CONFIG_CPUSETS=y".to_string()]);
    assert_eq!(p.selinux_enforcing, None);
}

#[test]
fn probe_falls_back_without_config() {
    let p = probe_kernel(Some(b"not gzip"), true, false, true);
    assert_eq!(p.features, vec!["CONFIG_DEVFREQ_GOV_SIMPLE_ONDEMAND=y".to_string(), "CONFIG_PSI=y".to_string()]);
    let none = probe_kernel(None, false, false, false);
    assert!(none.features.is_empty());
}

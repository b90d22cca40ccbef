use thermalai_daemon::gaming::{cgroup_verdict, cmdline_process_name, status_process_name};
use thermalai_daemon::readings::{gpu_busy_from, psi_avg10, rx_packets_from, u32_list, u64_list};

#[test]
fn number_lists_skip_what_does_not_parse() {
    assert_eq!(u64_list("300000 576000  1017600\n"), vec![300000, 576000, 1017600]);
    assert_eq!(u64_list("12 x 18446744073709551616 +7"), vec![12, 7]);
    assert_eq!(u32_list("0 1 2 3\n"), vec![0, 1, 2, 3]);
    assert_eq!(u32_list(""), Vec::<u32>::new());
}

#[test]
fn rx_packets_sum_wifi_and_mobile() {
    let text = "Inter-|   Receive                            |  Transmit\n \
face |bytes    packets errs drop fifo frame compressed multicast|bytes\n\
    lo: 1000 10 0 0 0 0 0 0 1000\n\
 wlan0: 50000 120 0 0 0 0 0 0 3000\n\
rmnet_data1: 9000 30 0 0 0 0 0 0 100\n\
r_rmnet0: 10 5 0 0\n\
  eth0: 10 99 0 0\n";
    assert_eq!(rx_packets_from(text), 155);
    assert_eq!(rx_packets_from(""), 0);
    assert_eq!(rx_packets_from("a\nb\nwlan0: 1 2 3"), 2);
}

#[test]
fn psi_averages_in_hundredths() {
    let text = "some avg10=1.25 avg60=0.50 avg300=0.10 total=123\nfull avg10=0.07 avg60=0.00 avg300=0.00 total=5\n";
    assert_eq!(psi_avg10(text, "some"), Some(125));
    assert_eq!(psi_avg10(text, "full"), Some(7));
    assert_eq!(psi_avg10("some avg10=42 total=1", "some"), Some(4200));
    assert_eq!(psi_avg10("some avg10=0.125", "some"), Some(13));
    assert_eq!(psi_avg10("some avg10=abc", "some"), None);
    assert_eq!(psi_avg10("full avg10=1.00", "some"), None);
}

#[test]
fn gpu_busy_reads_percentage_then_fallback() {
    assert_eq!(gpu_busy_from(Some(" 37%\n"), None), 37);
    assert_eq!(gpu_busy_from(Some("37 %"), None), 0);
    assert_eq!(gpu_busy_from(Some("42%%"), Some("9")), 42);
    assert_eq!(gpu_busy_from(Some("n/a"), Some(" 12 \n")), 12);
    assert_eq!(gpu_busy_from(None, Some("100 200")), 0);
    assert_eq!(gpu_busy_from(None, None), 0);
}

#[test]
fn process_names_from_cmdline_and_status() {
    assert_eq!(cmdline_process_name("com.tencent.ig\0--flag\0"), "com.tencent.ig");
    assert_eq!(cmdline_process_name("\0\0com.a:remote\0x"), "com.a:remote");
    assert_eq!(cmdline_process_name(""), "");
    let status = "Umask:\t0077\nName:\tsurfaceflinger\nState:\tS (sleeping)\n";
    assert_eq!(status_process_name(status), Some("surfaceflinger".to_string()));
    assert_eq!(status_process_name("Name:\n"), None);
    assert_eq!(status_process_name("State: R\n"), None);
}

#[test]
fn top_app_cgroup_verdicts() {
    let pkg = "com.game";
    assert_eq!(cgroup_verdict(&vec![None, Some("com.game:unity\0".to_string())], pkg), Some(true));
    assert_eq!(cgroup_verdict(&vec![Some("com.other\0".to_string()), None], pkg), Some(false));
    assert_eq!(cgroup_verdict(&vec![None, None], pkg), None);
    assert_eq!(cgroup_verdict(&vec![], pkg), None);
}

use thermalai_daemon::monitor::{
    compute_stats_from_durations, jank_and_worst, parse_framestats, parse_latency_output, sort_durations,
    FrameStats, DEFAULT_FRAME_BUDGET_NS,
};

#[test]
fn durations_sort_ascending() {
    assert_eq!(sort_durations(&vec![5, 1, 4, 1, 3]), vec![1, 1, 3, 4, 5]);
    assert_eq!(sort_durations(&vec![]), Vec::<u64>::new());
}

#[test]
fn stats_from_ten_frames() {
    let d: Vec<u64> = vec![10, 20, 30, 40, 50, 60, 70, 80, 90, 17_000_000];
    let s = compute_stats_from_durations(&d, DEFAULT_FRAME_BUDGET_NS, 42).unwrap();
    assert_eq!(s.sample_count, 10);
    assert_eq!(s.janky_frames, 1);
    assert_eq!(s.p90_frame_ns, 17_000_000);
    assert_eq!(s.worst_frame_ns, 17_000_000);
    assert_eq!(s.captured_at_ms, Some(42));
    assert_eq!(s.jank_hundredths(), 1000);
    assert!(compute_stats_from_durations(&vec![], 1, 0).is_none());
    let one = compute_stats_from_durations(&vec![7], 1, 0).unwrap();
    assert_eq!((one.p90_frame_ns, one.janky_frames), (7, 1));
    assert_eq!(jank_and_worst(&vec![3, 9, 2], 2), (2, 9));
}

#[test]
fn latency_output_skips_the_refresh_line() {
    let text = "16666666\n100 150 200\n0 10 20\n300 350 250\n400 450 17000400\nbad line\n";
    let s = parse_latency_output(text, DEFAULT_FRAME_BUDGET_NS, 5).unwrap();
    assert_eq!(s.sample_count, 2);
    assert_eq!(s.janky_frames, 1);
    assert_eq!(s.worst_frame_ns, 17_000_000);
    assert!(parse_latency_output("", DEFAULT_FRAME_BUDGET_NS, 5).is_none());
    assert!(parse_latency_output("16666666\n", DEFAULT_FRAME_BUDGET_NS, 5).is_none());
}

#[test]
fn framestats_rows_give_completed_minus_intended() {
    let mut fields: Vec<String> = (0..20).map(|i| (1000 + i).to_string()).collect();
    fields[2] = "1000".to_string();
    fields[17] = "5000".to_string();
    let row = fields.join(",");
    let text = format!("---PROFILEDATA---\nFlags,IntendedVsync\n{}\n  \n{},\n", row, row);
    let s = parse_framestats(&text, DEFAULT_FRAME_BUDGET_NS, 9).unwrap();
    assert_eq!(s.sample_count, 2);
    assert_eq!(s.p90_frame_ns, 4000);
    assert_eq!(s.janky_frames, 0);
    assert!(parse_framestats("1,2,3\n", DEFAULT_FRAME_BUDGET_NS, 9).is_none());
}

#[test]
fn session_figures_must_be_fresh_and_plausible() {
    let s = FrameStats {
        sample_count: 5,
        janky_frames: 1,
        p90_frame_ns: 20_000_000,
        worst_frame_ns: 30_000_000,
        captured_at_ms: Some(1000),
    };
    assert!(s.counts_for_session(13_000));
    assert!(!s.counts_for_session(13_001));
    assert!(!FrameStats { sample_count: 4, ..s }.counts_for_session(2000));
    assert!(!FrameStats { p90_frame_ns: 500_000_000, ..s }.counts_for_session(2000));
    assert!(FrameStats { captured_at_ms: None, ..s }.counts_for_session(99_999));
    assert_eq!(s.jank_hundredths(), 2000);
}

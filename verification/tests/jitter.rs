use realtime_core::jitter::{percentile, JitterMeasurement, JitterStats};

#[test]
fn test_jitter_measurement() {
    let measurement = JitterMeasurement::new(500_000_000, 502_000_000);
    assert_eq!(measurement.expected_interval_ns, 500_000_000);
    assert_eq!(measurement.actual_interval_ns, 502_000_000);
    assert_eq!(measurement.jitter_ns, 2_000_000);
    assert_eq!(measurement.abs_jitter_ns(), 2_000_000);

    let measurement = JitterMeasurement::new(500_000_000, 498_000_000);
    assert_eq!(measurement.jitter_ns, -2_000_000);
    assert_eq!(measurement.abs_jitter_ns(), 2_000_000);
}

#[test]
fn test_within_tolerance() {
    let measurement = JitterMeasurement::new(500_000_000, 502_000_000);

    assert!(measurement.is_within_tolerance(3_000_000));
    assert!(measurement.is_within_tolerance(2_000_000));
    assert!(!measurement.is_within_tolerance(1_000_000));
}

#[test]
fn test_jitter_stats_empty() {
    let measurements: Vec<JitterMeasurement> = vec![];
    let stats = JitterStats::from_measurements(&measurements);

    assert_eq!(stats.count, 0);
    assert_eq!(stats.p50_ns, 0);
    assert_eq!(stats.p95_ns, 0);
    assert_eq!(stats.p99_ns, 0);
}

#[test]
fn test_jitter_stats_single() {
    let measurements = vec![JitterMeasurement::new(500_000_000, 502_000_000)];
    let stats = JitterStats::from_measurements(&measurements);

    assert_eq!(stats.count, 1);
    assert_eq!(stats.p50_ns, 2_000_000);
    assert_eq!(stats.p95_ns, 2_000_000);
    assert_eq!(stats.p99_ns, 2_000_000);
    assert_eq!(stats.max_ns, 2_000_000);
}

#[test]
fn test_jitter_stats_multiple() {
    let measurements = vec![
        JitterMeasurement::new(500_000_000, 500_001_000),
        JitterMeasurement::new(500_000_000, 500_002_000),
        JitterMeasurement::new(500_000_000, 500_003_000),
        JitterMeasurement::new(500_000_000, 500_004_000),
        JitterMeasurement::new(500_000_000, 500_005_000),
    ];

    let stats = JitterStats::from_measurements(&measurements);

    assert_eq!(stats.count, 5);
    assert_eq!(stats.p50_ns, 3000);
    assert_eq!(stats.max_ns, 5000);
}

#[test]
fn test_percentile() {
    let values: Vec<u64> = vec![1, 2, 3, 4, 5, 6, 7, 8, 9, 10];

    // P50: rank 4.5, between 5 and 6
    let p50 = percentile(&values, 500);
    assert!(p50 == 5 || p50 == 6);

    // P95: rank 8.55, between 9 and 10, rounded down
    assert_eq!(percentile(&values, 950), 9);

    assert_eq!(percentile(&values, 0), 1);
    assert_eq!(percentile(&values, 1000), 10);
}

#[test]
fn test_p99_within_tolerance() {
    let measurements = vec![
        JitterMeasurement::new(500_000_000, 501_000_000),
        JitterMeasurement::new(500_000_000, 500_500_000),
        JitterMeasurement::new(500_000_000, 501_500_000),
    ];

    let stats = JitterStats::from_measurements(&measurements);

    assert!(stats.p99_within_tolerance(2_000_000));
    assert!(!stats.p99_within_tolerance(1_000_000));
}

#[test]
fn percentile_interpolates_and_rounds_down() {
    let values: Vec<u64> = vec![0, 1000];
    // rank 0.5 of the way: 500
    assert_eq!(percentile(&values, 500), 500);
    // rank 0.999: 999
    assert_eq!(percentile(&values, 999), 999);
    let values: Vec<u64> = vec![10, 13];
    // 10 + 0.5 * 3 = 11.5, rounded down
    assert_eq!(percentile(&values, 500), 11);
    assert_eq!(percentile(&[], 500), 0);
    assert_eq!(percentile(&[42], 999), 42);
}

#[test]
fn stats_use_absolute_jitter_in_order() {
    // jitters -4000, +1000, -2000, +3000: absolute 1000..4000
    let measurements = vec![
        JitterMeasurement::new(500_000_000, 499_996_000),
        JitterMeasurement::new(500_000_000, 500_001_000),
        JitterMeasurement::new(500_000_000, 499_998_000),
        JitterMeasurement::new(500_000_000, 500_003_000),
    ];
    let stats = JitterStats::from_measurements(&measurements);
    assert_eq!(stats.count, 4);
    assert_eq!(stats.max_ns, 4000);
    // rank 1.5: 2000 + 0.5 * 1000
    assert_eq!(stats.p50_ns, 2500);
    // rank 2.85: 3000 + 0.85 * 1000
    assert_eq!(stats.p95_ns, 3850);
    // rank 2.97
    assert_eq!(stats.p99_ns, 3970);
    // rank 2.997
    assert_eq!(stats.p999_ns, 3997);
    assert!(stats.p50_ns <= stats.p95_ns && stats.p95_ns <= stats.p99_ns);
    assert!(stats.p99_ns <= stats.p999_ns && stats.p999_ns <= stats.max_ns);
}

#[test]
fn stats_ignore_measurement_order() {
    let a = vec![
        JitterMeasurement::new(100, 107),
        JitterMeasurement::new(100, 91),
        JitterMeasurement::new(100, 100),
    ];
    let b = vec![a[2], a[0], a[1]];
    let sa = JitterStats::from_measurements(&a);
    let sb = JitterStats::from_measurements(&b);
    assert_eq!(sa.p50_ns, sb.p50_ns);
    assert_eq!(sa.p95_ns, sb.p95_ns);
    assert_eq!(sa.p99_ns, sb.p99_ns);
    assert_eq!(sa.p999_ns, sb.p999_ns);
    assert_eq!(sa.max_ns, 9);
    assert_eq!(sa.max_ns, sb.max_ns);
    assert_eq!(sa.p50_ns, 7);
}

#[test]
fn default_stats_are_zero() {
    let stats = JitterStats::default();
    assert_eq!(stats.count, 0);
    assert_eq!(stats.max_ns, 0);
    assert_eq!(stats.p999_ns, 0);
}

#[test]
fn early_jitter_within_tolerance() {
    let m = JitterMeasurement::new(1_000, 400);
    assert_eq!(m.jitter_ns, -600);
    assert_eq!(m.abs_jitter_ns(), 600);
    assert!(m.is_within_tolerance(600));
    assert!(!m.is_within_tolerance(599));
}

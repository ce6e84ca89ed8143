use anemometer::stats::WindDataHistory;

#[test]
fn avg_speed_test() {
    let mut wind_data = WindDataHistory::default();

    for _ in 0..240 {
        wind_data.store_measurement(1, 0);
    }

    assert_eq!(wind_data.avg_speed(), 1000);
}

#[test]
fn gust_speed_test() {
    let mut wind_data = WindDataHistory::default();

    for _ in 0..240 {
        wind_data.store_measurement(1, 0);
    }

    let gust = wind_data.gust_speed();
    assert_eq!(gust, 1000);
}

#[test]
fn empty_window_yields_zero() {
    let wind_data = WindDataHistory::new();
    assert_eq!(wind_data.avg_speed(), 0);
    assert_eq!(wind_data.max_speed(), 0);
    assert_eq!(wind_data.gust_speed(), 0);
}

#[test]
fn single_sample_statistics() {
    let mut wind_data = WindDataHistory::new();
    wind_data.store_measurement(7, 90);
    assert_eq!(wind_data.avg_speed(), 7000);
    assert_eq!(wind_data.max_speed(), 7000);
    assert_eq!(wind_data.gust_speed(), 7000);
}

#[test]
fn partial_window_average_truncates() {
    let mut wind_data = WindDataHistory::new();
    wind_data.store_measurement(1, 0);
    wind_data.store_measurement(2, 0);
    wind_data.store_measurement(2, 0);
    // mean of 1, 2, 2 is 5/3: 1666 thousandths, truncated
    assert_eq!(wind_data.avg_speed(), 1666);
    assert_eq!(wind_data.max_speed(), 2000);
}

#[test]
fn outlier_shifts_max_immediately_and_average_slightly() {
    let mut wind_data = WindDataHistory::new();
    for _ in 0..240 {
        wind_data.store_measurement(1, 0);
    }
    wind_data.store_measurement(100, 0);

    // the oldest of the 240 ones was evicted: 239 ones and one 100
    assert_eq!(wind_data.max_speed(), 100_000);
    assert_eq!(wind_data.avg_speed(), (239 + 100) * 1000 / 240);
    assert_eq!(wind_data.avg_speed(), 1412);
    // the gust sub-window holds 1, 1, 1, 1, 1, 100
    assert_eq!(wind_data.gust_speed(), 105 * 1000 / 6);
    assert_eq!(wind_data.gust_speed(), 17_500);
}

#[test]
fn gust_peak_keeps_highest_observed_average() {
    let mut wind_data = WindDataHistory::new();
    wind_data.store_measurement(100, 0);
    assert_eq!(wind_data.gust_speed(), 100_000);
    // lower samples do not lower the recorded peak
    wind_data.store_measurement(1, 0);
    assert_eq!(wind_data.gust_speed(), 100_000);
    wind_data.store_measurement(0, 0);
    assert_eq!(wind_data.gust_speed(), 100_000);
}

#[test]
fn clear_wind_gust_resets_peak_only() {
    let mut wind_data = WindDataHistory::new();
    for _ in 0..10 {
        wind_data.store_measurement(50, 0);
    }
    assert_eq!(wind_data.gust_speed(), 50_000);
    wind_data.clear_wind_gust();
    assert_eq!(wind_data.gust_speed(), 0);
    // the sample windows are untouched
    assert_eq!(wind_data.avg_speed(), 50_000);
    assert_eq!(wind_data.max_speed(), 50_000);
    // a fresh gust interval starts from the next sample's sub-window
    wind_data.store_measurement(2, 0);
    // sub-window: 50, 50, 50, 50, 50, 2 -> 252/6 = 42 exactly
    assert_eq!(wind_data.gust_speed(), 42_000);
}

#[test]
fn take_report_reads_then_clears() {
    let mut wind_data = WindDataHistory::new();
    for _ in 0..6 {
        wind_data.store_measurement(3, 0);
    }
    let (avg, gust) = wind_data.take_report();
    assert_eq!(avg, 3000);
    assert_eq!(gust, 3000);
    assert_eq!(wind_data.gust_speed(), 0);
    assert_eq!(wind_data.avg_speed(), 3000);
}

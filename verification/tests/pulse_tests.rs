use anemometer::pulse::PulseCounter;
use anemometer::sampler::{rps_milli, rps_sample, sample_tick, AnemometerData};
use anemometer::stats::WindDataHistory;

#[test]
fn drains_account_for_every_pulse() {
    let mut counter = PulseCounter::new();
    let mut drained_sum: u64 = 0;

    for _ in 0..3 {
        counter.increment();
    }
    drained_sum += counter.drain() as u64;
    assert_eq!(drained_sum, 3);

    // an immediate second drain finds nothing
    drained_sum += counter.drain() as u64;
    assert_eq!(drained_sum, 3);

    for _ in 0..5 {
        counter.increment();
    }
    counter.increment();
    drained_sum += counter.drain() as u64;

    // nine increments in total: the drains add up to nine
    assert_eq!(drained_sum, 9);
}

#[test]
fn rps_from_interval_and_pulse_count() {
    // 20 pulses over 5 s at 2 pulses per rotation: 2.000 rotations/s
    assert_eq!(rps_milli(20, 2, 5000), 2000);
    assert_eq!(rps_sample(20, 2, 5000), 2);

    // 3 pulses over 500 ms at 2 pulses per rotation: 3.000 rotations/s
    assert_eq!(rps_milli(3, 2, 500), 3000);
    assert_eq!(rps_sample(3, 2, 500), 3);

    // fractional result truncates at the whole-rotation sample
    assert_eq!(rps_milli(5, 2, 2000), 1250);
    assert_eq!(rps_sample(5, 2, 2000), 1);
}

#[test]
fn rps_sample_saturates() {
    assert_eq!(rps_sample(u32::MAX, 1, 1), u16::MAX);
}

#[test]
fn sample_tick_drains_and_stores() {
    let mut counter = PulseCounter::new();
    let mut history = WindDataHistory::new();
    for _ in 0..20 {
        counter.increment();
    }

    let reading = sample_tick(&mut counter, &mut history, 2, 5000);
    assert_eq!(reading, 2000);
    // the stored raw sample is 2 whole rotations per second
    assert_eq!(history.max_speed(), 2000);
    assert_eq!(history.avg_speed(), 2000);

    // the counter was drained: a tick without pulses reads zero
    let reading = sample_tick(&mut counter, &mut history, 2, 5000);
    assert_eq!(reading, 0);
}

#[test]
fn anemometer_data_holds_last_reading() {
    let mut data = AnemometerData::new();
    assert_eq!(data.get_current_rps(), 0);
    data.set_current_rps(2500);
    assert_eq!(data.get_current_rps(), 2500);
}

//! Global settings for data acquisition and reporting.

use vstd::prelude::*;

verus! {

/// Interval between periodic wind data reports, in seconds.
pub const DATA_REPORTING_INTERVAL: u64 = 120;

/// Interval between anemometer measurements, in milliseconds.
pub const MEASUREMENT_INTERVAL: u64 = 500;

/// Longest MQTT topic the device builds.
pub const MQTT_MAX_TOPIC_LEN: usize = 64;

} // verus!

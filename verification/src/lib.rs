//! Core logic of a wind-speed reporting device: interrupt-fed pulse
//! counting, windowed wind statistics, typed publish/subscribe event
//! channels, and the over-the-air firmware update state machine.
//!
//! Hardware access, networking and timers live outside this crate; the
//! modules here hold the decisions and the data, each behind a verified
//! contract.

pub mod credentials;
pub mod fabric;
pub mod global_settings;
pub mod httpd;
pub mod mqtt_msg;
pub mod ota;
pub mod pulse;
pub mod sampler;
pub mod state;
pub mod stats;
pub mod summary;
pub mod tasks;
pub mod text;
pub mod web;
pub mod window_buf;

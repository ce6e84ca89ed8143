//! The event and data values carried between tasks.
//!
//! Each value is created at its point of detection — a network event
//! callback, a timer tick, a remote command — published on one of the
//! typed channels, and consumed independently by every subscriber.

use vstd::prelude::*;

verus! {

/// Depth of each subscriber queue on the network-state channel.
pub const NETWORK_EVENT_CHANNEL_DEPTH: usize = 4;

/// Depth of each subscriber queue on the application-state channel.
pub const APPLICATION_EVENT_CHANNEL_DEPTH: usize = 5;

/// Depth of each subscriber queue on the application-data channel.
pub const APPLICATION_DATA_CHANNEL_DEPTH: usize = 5;

/// One wind measurement as reported over the wire: speed and direction
/// angle in raw units.
#[derive(Clone, Copy, Debug, PartialEq, Eq, Structural)]
pub struct WindData {
    pub speed: u16,
    pub angle: u16,
}

/// An IPv4 address, one octet per field.
#[derive(Clone, Copy, Debug, PartialEq, Eq, Structural)]
pub struct Ipv4Address(pub u8, pub u8, pub u8, pub u8);

/// A change of the network's state.
#[derive(Clone, Copy, Debug, PartialEq, Eq, Structural)]
pub enum NetworkStateChange {
    /// The station lost its Wi-Fi association.
    WifiDisconnected,
    /// DHCP assigned the device an address.
    IpAddressAssigned { ip: Ipv4Address },
}

/// A change of the application's state: the OTA update lifecycle.
pub enum ApplicationStateChange {
    /// A remote command asked for an update of the given target image
    /// URL.
    OTAUpdateRequest(String),
    /// An update began; every long-running task shuts down at its next
    /// suspension point.
    OTAUpdateStarted,
}

/// An application data event.
#[derive(Clone, Copy, Debug, PartialEq, Eq, Structural)]
pub enum ApplicationDataChange {
    /// The report interval elapsed: publish the current wind data.
    ReportWindData,
}

} // verus!

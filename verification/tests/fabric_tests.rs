use anemometer::fabric::Channel;
use anemometer::state::{
    ApplicationDataChange, ApplicationStateChange, Ipv4Address, NetworkStateChange, WindData,
    APPLICATION_DATA_CHANNEL_DEPTH, APPLICATION_EVENT_CHANNEL_DEPTH, NETWORK_EVENT_CHANNEL_DEPTH,
};

#[test]
fn publish_reaches_every_subscriber() {
    let mut channel: Channel<WindData> = Channel::new(APPLICATION_DATA_CHANNEL_DEPTH);
    let a = channel.subscribe();
    let b = channel.subscribe();

    let v = WindData { speed: 3, angle: 90 };
    channel.publish(&v);

    assert_eq!(channel.next(a), Some(v));
    assert_eq!(channel.next(b), Some(v));
    assert_eq!(channel.next(a), None);
    assert_eq!(channel.next(b), None);
}

#[test]
fn delivery_keeps_publish_order_per_subscriber() {
    let mut channel: Channel<NetworkStateChange> = Channel::new(NETWORK_EVENT_CHANNEL_DEPTH);
    let s = channel.subscribe();

    channel.publish(&NetworkStateChange::WifiDisconnected);
    channel.publish(&NetworkStateChange::IpAddressAssigned { ip: Ipv4Address(10, 0, 0, 7) });

    assert_eq!(channel.next(s), Some(NetworkStateChange::WifiDisconnected));
    assert_eq!(
        channel.next(s),
        Some(NetworkStateChange::IpAddressAssigned { ip: Ipv4Address(10, 0, 0, 7) })
    );
    assert_eq!(channel.next(s), None);
}

#[test]
fn late_subscriber_misses_earlier_publishes() {
    let mut channel: Channel<ApplicationDataChange> = Channel::new(APPLICATION_DATA_CHANNEL_DEPTH);
    let early = channel.subscribe();

    channel.publish(&ApplicationDataChange::ReportWindData);
    let late = channel.subscribe();

    assert_eq!(channel.next(early), Some(ApplicationDataChange::ReportWindData));
    assert_eq!(channel.next(late), None);
}

#[test]
fn full_queue_drops_oldest_entry() {
    let mut channel: Channel<WindData> = Channel::new(2);
    let s = channel.subscribe();

    channel.publish(&WindData { speed: 1, angle: 0 });
    channel.publish(&WindData { speed: 2, angle: 0 });
    channel.publish(&WindData { speed: 3, angle: 0 });

    // the queue held two entries: the oldest was dropped for the third
    assert_eq!(channel.next(s), Some(WindData { speed: 2, angle: 0 }));
    assert_eq!(channel.next(s), Some(WindData { speed: 3, angle: 0 }));
    assert_eq!(channel.next(s), None);
}

#[test]
fn application_events_carry_their_url() {
    let mut channel: Channel<ApplicationStateChange> =
        Channel::new(APPLICATION_EVENT_CHANNEL_DEPTH);
    let a = channel.subscribe();
    let b = channel.subscribe();

    let url = "https://firmware.example/anemometer-1.2.bin".to_string();
    channel.publish(&ApplicationStateChange::OTAUpdateRequest(url.clone()));

    for id in [a, b] {
        match channel.next(id) {
            Some(ApplicationStateChange::OTAUpdateRequest(u)) => assert_eq!(u, url),
            other => panic!("expected an update request, got {:?}", other.is_some()),
        }
    }

    assert_eq!(channel.subscriber_count(), 2);
}

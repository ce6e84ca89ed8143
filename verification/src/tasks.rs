//! The decisions of the long-running tasks.
//!
//! Every task follows the same pattern: it races a timer or an
//! external source against the broadcast channels, and on each
//! resolution decides what to do next.  The waiting, the I/O and the
//! loop itself live with the executor; the decision of each iteration
//! stands here as a function from the race outcome to the next action,
//! and every task exits when it observes the update-started event.

use vstd::prelude::*;

use crate::mqtt_msg::MqttCommand;
use crate::state::{ApplicationDataChange, ApplicationStateChange, Ipv4Address, NetworkStateChange};
use crate::stats::WindDataHistory;
use crate::text::{spec_speed_text, speed_text};

verus! {

/// Whether an application-state event asks the observing task to shut
/// down.
pub fn ota_shutdown_requested(app_state: Option<&ApplicationStateChange>) -> (r: bool)
    ensures
        r == (app_state matches Some(ApplicationStateChange::OTAUpdateStarted)),
{
    match app_state {
        Some(ApplicationStateChange::OTAUpdateStarted) => true,
        _ => false,
    }
}

/// The outcome of racing the report timer against the
/// application-state channel.
pub enum TimerOrEvent {
    /// The report interval elapsed first.
    TimerFired,
    /// An application-state event arrived first.
    Event(ApplicationStateChange),
}

/// What the report scheduler does next.
#[derive(Clone, Copy, Debug, PartialEq, Eq, Structural)]
pub enum ReportStep {
    /// Publish the report-wind-data event and loop.
    PublishReport,
    /// The update started: leave the loop.
    Exit,
    /// Nothing to do this round; loop again.
    Continue,
}

/// One iteration of the report scheduler: publish a report when the
/// timer wins the race, exit when the update-started event arrives,
/// and otherwise keep looping.
pub fn wind_speed_task_step(outcome: &TimerOrEvent) -> (r: ReportStep)
    ensures
        match *outcome {
            TimerOrEvent::TimerFired => r == ReportStep::PublishReport,
            TimerOrEvent::Event(ApplicationStateChange::OTAUpdateStarted) => r == ReportStep::Exit,
            TimerOrEvent::Event(ApplicationStateChange::OTAUpdateRequest(..)) => r
                == ReportStep::Continue,
        },
{
    match outcome {
        TimerOrEvent::TimerFired => ReportStep::PublishReport,
        TimerOrEvent::Event(ApplicationStateChange::OTAUpdateStarted) => ReportStep::Exit,
        TimerOrEvent::Event(ApplicationStateChange::OTAUpdateRequest(..)) => ReportStep::Continue,
    }
}

/// What the HTTP server task does next.
#[derive(Clone, Copy, Debug, PartialEq, Eq, Structural)]
pub enum HttpdStep {
    /// An address was assigned: start the server on it.
    StartServer(Ipv4Address),
    /// The station disconnected: stop the server.
    StopServer,
    /// The update started: stop the server and leave the loop.
    Exit,
    /// Nothing to do this round.
    Continue,
}

/// One iteration of the HTTP server task: exit on the update-started
/// event, otherwise start or stop the server as the network comes and
/// goes.
pub fn http_server_task_step(
    network: Option<&NetworkStateChange>,
    app_state: Option<&ApplicationStateChange>,
) -> (r: HttpdStep)
    ensures
        if app_state matches Some(ApplicationStateChange::OTAUpdateStarted) {
            r == HttpdStep::Exit
        } else {
            match network {
                Some(NetworkStateChange::IpAddressAssigned { ip }) => r == HttpdStep::StartServer(
                    *ip,
                ),
                Some(NetworkStateChange::WifiDisconnected) => r == HttpdStep::StopServer,
                None => r == HttpdStep::Continue,
            }
        },
{
    if ota_shutdown_requested(app_state) {
        return HttpdStep::Exit;
    }
    match network {
        Some(NetworkStateChange::IpAddressAssigned { ip }) => HttpdStep::StartServer(*ip),
        Some(NetworkStateChange::WifiDisconnected) => HttpdStep::StopServer,
        None => HttpdStep::Continue,
    }
}

/// An event of the MQTT connection, as the receive task sees it.
pub enum MqttConnectionEvent {
    /// A message arrived, already run through the command parser.
    Received(Option<MqttCommand>),
    /// The client connected to the broker.
    Connected,
    /// The client lost the broker.
    Disconnected,
    /// Anything else on the connection.
    Other,
}

/// What the receive task does with one connection event.
pub enum ReceiveStep {
    /// Publish an OTA update request for this target URL.
    PublishOtaRequest(String),
    /// Restart the device at once.
    Restart,
    /// Tell the send task whether the connection is up.
    SignalConnected(bool),
    /// Nothing to do.
    Ignore,
}

/// One iteration of the MQTT receive task: turn a received command
/// into its action, signal connection changes, and report whether the
/// update-started event asks the task to exit.
pub fn receive_task_step(
    message: Option<&MqttConnectionEvent>,
    app_state: Option<&ApplicationStateChange>,
) -> (r: (ReceiveStep, bool))
    ensures
        r.1 == (app_state matches Some(ApplicationStateChange::OTAUpdateStarted)),
        match message {
            Some(MqttConnectionEvent::Received(Some(MqttCommand::ExecOTAUpdate(url)))) => r.0
                matches ReceiveStep::PublishOtaRequest(u) && u == url,
            Some(MqttConnectionEvent::Received(Some(MqttCommand::SystemRestart))) => r.0
                is Restart,
            Some(MqttConnectionEvent::Connected) => r.0 == ReceiveStep::SignalConnected(true),
            Some(MqttConnectionEvent::Disconnected) => r.0 == ReceiveStep::SignalConnected(false),
            _ => r.0 is Ignore,
        },
{
    let action = match message {
        Some(MqttConnectionEvent::Received(Some(MqttCommand::ExecOTAUpdate(url)))) => ReceiveStep::PublishOtaRequest(
            url.clone(),
        ),
        Some(MqttConnectionEvent::Received(Some(MqttCommand::SystemRestart))) => ReceiveStep::Restart,
        Some(MqttConnectionEvent::Connected) => ReceiveStep::SignalConnected(true),
        Some(MqttConnectionEvent::Disconnected) => ReceiveStep::SignalConnected(false),
        _ => ReceiveStep::Ignore,
    };
    (action, ota_shutdown_requested(app_state))
}

/// What the send task does next.
#[derive(Clone, Copy, Debug, PartialEq, Eq, Structural)]
pub enum SendStep {
    /// The connection came up: subscribe to the command topic.
    Subscribe,
    /// The connection went down: stop publishing.
    MarkDisconnected,
    /// The report trigger arrived: publish the current wind data.
    ReportWindData,
    /// The update started: drop the client and leave the loop.
    Exit,
    /// Nothing to do this round.
    Ignore,
}

/// One iteration of the MQTT send task, racing the connection signal,
/// the application-state channel and the application-data channel.
pub fn send_task_step(
    conn_state: Option<bool>,
    app_state: Option<&ApplicationStateChange>,
    app_data: Option<&ApplicationDataChange>,
) -> (r: SendStep)
    ensures
        match conn_state {
            Some(true) => r == SendStep::Subscribe,
            Some(false) => r == SendStep::MarkDisconnected,
            None => {
                if app_state matches Some(ApplicationStateChange::OTAUpdateStarted) {
                    r == SendStep::Exit
                } else if app_data matches Some(ApplicationDataChange::ReportWindData) {
                    r == SendStep::ReportWindData
                } else {
                    r == SendStep::Ignore
                }
            },
        },
{
    match conn_state {
        Some(true) => SendStep::Subscribe,
        Some(false) => SendStep::MarkDisconnected,
        None => {
            if ota_shutdown_requested(app_state) {
                SendStep::Exit
            } else {
                match app_data {
                    Some(ApplicationDataChange::ReportWindData) => SendStep::ReportWindData,
                    None => SendStep::Ignore,
                }
            }
        },
    }
}

/// One iteration of the OTA task: only an update request starts an
/// attempt; the target URL is handed back.
pub fn ota_task_step(event: &ApplicationStateChange) -> (r: Option<String>)
    ensures
        match *event {
            ApplicationStateChange::OTAUpdateRequest(ref url) => r matches Some(u) && u == url,
            ApplicationStateChange::OTAUpdateStarted => r is None,
        },
{
    match event {
        ApplicationStateChange::OTAUpdateRequest(url) => Some(url.clone()),
        ApplicationStateChange::OTAUpdateStarted => None,
    }
}

/// One wind report, as the send task publishes it: the average and
/// gust speed read from the statistics window and rendered with a
/// comma as the decimal separator, with the gust peak cleared so a
/// fresh gust interval begins.
pub fn report_wind_strings(history: &mut WindDataHistory) -> (r: (String, String))
    requires
        old(history).wf(),
    ensures
        final(history).wf(),
        r.0@ == spec_speed_text(old(history).spec_avg_speed(), ','),
        r.1@ == spec_speed_text(old(history).spec_gust_speed(), ','),
        final(history).gust_peak() == 0,
        final(history).speeds() == old(history).speeds(),
        final(history).gusts() == old(history).gusts(),
        final(history).directions() == old(history).directions(),
{
    let (avg, gust) = history.take_report();
    (speed_text(avg, true), speed_text(gust, true))
}

/// An event of the Wi-Fi connection, as the network watcher sees it.
#[derive(Clone, Copy, Debug, PartialEq, Eq, Structural)]
pub enum WifiConnectionEvent {
    /// The station associated.
    StaConnected,
    /// The station lost its association.
    StaDisconnected,
    /// Anything else.
    Other,
}

/// What a Wi-Fi event publishes on the network-state channel: only a
/// disconnect is broadcast (the watcher also asks the driver to
/// reconnect).
pub fn process_wifi_state_change_step(event: &WifiConnectionEvent) -> (r: Option<
    NetworkStateChange,
>)
    ensures
        r == if *event is StaDisconnected {
            Some(NetworkStateChange::WifiDisconnected)
        } else {
            None::<NetworkStateChange>
        },
{
    match event {
        WifiConnectionEvent::StaDisconnected => Some(NetworkStateChange::WifiDisconnected),
        _ => None,
    }
}

/// What an IP event publishes on the network-state channel: a freshly
/// assigned address is broadcast (the watcher also marks the running
/// image valid, cancelling any rollback).
pub fn process_netif_state_change_step(assigned: Option<Ipv4Address>) -> (r: Option<
    NetworkStateChange,
>)
    ensures
        r == match assigned {
            Some(ip) => Some(NetworkStateChange::IpAddressAssigned { ip }),
            None => None::<NetworkStateChange>,
        },
{
    match assigned {
        Some(ip) => Some(NetworkStateChange::IpAddressAssigned { ip }),
        None => None,
    }
}

} // verus!

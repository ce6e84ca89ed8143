//! Parsing of remote commands received over MQTT.
//!
//! A command arrives on a topic ending in one of the fixed command
//! suffixes, either complete in one message or split into chunks that
//! are reassembled into a bounded payload buffer.  The OTA update
//! command carries the target image URL as UTF-8 text of at most 128
//! bytes; the restart command carries an empty payload.

use vstd::prelude::*;

use crate::state::ApplicationStateChange;
use crate::text::utf8_to_string;

verus! {

use vstd::string::{StrSliceExecFns, StringExecFns, StringSliceAdditionalSpecFns};
use vstd::utf8::{decode_utf8, valid_utf8};

/// Topic suffix subscribed to for all commands.
pub const MQTT_TOPIC_POSTFIX_COMMAND: &'static str = "/command/#";

/// Topic suffix of the OTA update command.
pub const MQTT_TOPIC_POSTFIX_COMMAND_OTA_UPDATE: &'static str = "/command/ota_update";

/// Topic suffix of the system restart command.
pub const MQTT_TOPIC_POSTFIX_COMMAND_SYSTEM_RESTART: &'static str = "/command/system_restart";

/// Topic suffix on which wind speed is published.
pub const MQTT_TOPIC_POSTFIX_WIND_SPEED: &'static str = "/wind/speed";

/// Topic suffix on which wind direction is published.
pub const MQTT_TOPIC_POSTFIX_WIND_DIRECTION: &'static str = "/wind/direction";

/// Longest accepted command payload in bytes.
pub const COMMAND_PAYLOAD_CAPACITY: usize = 128;

/// A remote command.
#[derive(Debug, PartialEq, Eq)]
pub enum MqttCommand {
    /// Update the firmware from the given target image URL.
    ExecOTAUpdate(String),
    /// Restart the device.
    SystemRestart,
}

/// Which command a topic selects.
#[derive(Clone, Copy, Debug, PartialEq, Eq, Structural)]
pub enum CommandKind {
    /// The OTA update command.
    OtaUpdate,
    /// The system restart command.
    SystemRestart,
}

/// How a message arrived: complete, or as one chunk of a larger
/// payload.
pub enum MessageDetails {
    /// The whole payload is in this message.
    Complete,
    /// The first chunk of a payload of `total_data_size` bytes.
    InitialChunk { total_data_size: usize },
    /// A later chunk, starting at `current_data_offset` of
    /// `total_data_size` bytes.
    SubsequentChunk { current_data_offset: usize, total_data_size: usize },
}

/// Whether `s` ends with `suffix`, over bytes.
pub open spec fn spec_ends_with(s: Seq<u8>, suffix: Seq<u8>) -> bool {
    suffix.len() <= s.len() && s.skip(s.len() - suffix.len()) == suffix
}

/// Whether the string `s` ends with `suffix`.
pub fn str_ends_with(s: &str, suffix: &str) -> (r: bool)
    ensures
        r == spec_ends_with(s.spec_bytes(), suffix.spec_bytes()),
{
    let sb = s.as_bytes();
    let fb = suffix.as_bytes();
    let n = sb.len();
    let m = fb.len();
    if m > n {
        return false;
    }
    let off = n - m;
    let mut i: usize = 0;
    while i < m
        invariant
            sb@ == s.spec_bytes(),
            fb@ == suffix.spec_bytes(),
            m == fb@.len(),
            n == sb@.len(),
            m <= n,
            off == n - m,
            i <= m,
            forall|j: int| 0 <= j < i ==> #[trigger] sb@[off + j] == fb@[j],
        decreases m - i,
    {
        let a = sb[off + i];
        let b = fb[i];
        if a != b {
            proof {
                assert(sb@.skip(off as int)[i as int] == sb@[off + i]);
            }
            return false;
        }
        i = i + 1;
    }
    proof {
        assert forall|j: int| 0 <= j < m implies sb@.skip(off as int)[j] == fb@[j] by {
            assert(sb@[off + j] == fb@[j]);
        }
        assert(sb@.skip(off as int) =~= fb@);
    }
    true
}

/// Which command kind a topic selects, by its suffix.
pub open spec fn spec_parse_command(topic: Seq<u8>) -> Option<CommandKind> {
    if spec_ends_with(topic, MQTT_TOPIC_POSTFIX_COMMAND_OTA_UPDATE.spec_bytes()) {
        Some(CommandKind::OtaUpdate)
    } else if spec_ends_with(topic, MQTT_TOPIC_POSTFIX_COMMAND_SYSTEM_RESTART.spec_bytes()) {
        Some(CommandKind::SystemRestart)
    } else {
        None
    }
}

/// Select the command a topic addresses, if any.
pub fn parse_command(topic: &str) -> (r: Option<CommandKind>)
    ensures
        r == spec_parse_command(topic.spec_bytes()),
{
    if str_ends_with(topic, MQTT_TOPIC_POSTFIX_COMMAND_OTA_UPDATE) {
        Some(CommandKind::OtaUpdate)
    } else if str_ends_with(topic, MQTT_TOPIC_POSTFIX_COMMAND_SYSTEM_RESTART) {
        Some(CommandKind::SystemRestart)
    } else {
        None
    }
}

/// What the OTA update command payload parses to: the URL, when the
/// payload is valid UTF-8 of acceptable length.
pub open spec fn ota_update_payload_accepted(data: Seq<u8>) -> bool {
    data.len() <= COMMAND_PAYLOAD_CAPACITY && valid_utf8(data)
}

/// Parse the payload of an OTA update command.
pub fn parse_ota_update_command(data: &[u8]) -> (r: Option<MqttCommand>)
    ensures
        r is Some <==> ota_update_payload_accepted(data@),
        r matches Some(c) ==> c matches MqttCommand::ExecOTAUpdate(url) && url@ == decode_utf8(
            data@,
        ),
{
    if data.len() > COMMAND_PAYLOAD_CAPACITY {
        return None;
    }
    match utf8_to_string(data) {
        Some(url) => Some(MqttCommand::ExecOTAUpdate(url)),
        None => None,
    }
}

/// Parse the payload of a system restart command: it must be empty.
pub fn parse_system_restart_command(data: &[u8]) -> (r: Option<MqttCommand>)
    ensures
        r == if data@.len() == 0 {
            Some(MqttCommand::SystemRestart)
        } else {
            None::<MqttCommand>
        },
{
    if data.is_empty() {
        Some(MqttCommand::SystemRestart)
    } else {
        None
    }
}

/// What a complete message on `topic` with payload `data` parses to.
pub open spec fn complete_message_result(topic: Seq<u8>, data: Seq<u8>, r: Option<
    MqttCommand,
>) -> bool {
    match spec_parse_command(topic) {
        Some(CommandKind::OtaUpdate) => {
            &&& (r is Some <==> ota_update_payload_accepted(data))
            &&& (r matches Some(c) ==> c matches MqttCommand::ExecOTAUpdate(url) && url@
                == decode_utf8(data))
        },
        Some(CommandKind::SystemRestart) => r == if data.len() == 0 {
            Some(MqttCommand::SystemRestart)
        } else {
            None::<MqttCommand>
        },
        None => r is None,
    }
}

/// Reassembles chunked command messages and parses them.
pub struct MessageParser {
    command_parser: Option<CommandKind>,
    payload: Vec<u8>,
}

impl MessageParser {
    /// The command selected by the initial chunk, while a chunked
    /// payload is pending.
    pub closed spec fn pending_command(&self) -> Option<CommandKind> {
        self.command_parser
    }

    /// The payload bytes buffered so far.
    pub closed spec fn buffered(&self) -> Seq<u8> {
        self.payload@
    }

    /// A fresh parser with nothing pending.
    pub fn new() -> (r: Self)
        ensures
            r.pending_command() is None,
            r.buffered() == Seq::<u8>::empty(),
    {
        MessageParser { command_parser: None, payload: Vec::new() }
    }

    /// Process one received message.  A complete message is parsed on
    /// the spot.  An initial chunk of an acceptable total size selects
    /// the command by its topic and starts buffering; a subsequent
    /// chunk extends the buffer and, once the declared total is
    /// reached, parses the whole payload.
    pub fn process(&mut self, topic: Option<&str>, data: &[u8], details: &MessageDetails) -> (r:
        Option<MqttCommand>)
        requires
            (old(self).pending_command() is Some ==> old(self).buffered().len()
                <= COMMAND_PAYLOAD_CAPACITY),
            match *details {
                MessageDetails::Complete => topic is Some,
                MessageDetails::InitialChunk { total_data_size } => topic is Some && data@.len()
                    <= total_data_size,
                MessageDetails::SubsequentChunk { current_data_offset, total_data_size } => old(
                    self,
                ).pending_command() is Some ==> {
                    &&& current_data_offset == old(self).buffered().len()
                    &&& current_data_offset + data@.len() <= total_data_size
                    &&& total_data_size <= COMMAND_PAYLOAD_CAPACITY
                },
            },
        ensures
            final(self).pending_command() is Some ==> final(self).buffered().len()
                <= COMMAND_PAYLOAD_CAPACITY,
            match *details {
                MessageDetails::Complete => {
                    &&& complete_message_result(topic->0.spec_bytes(), data@, r)
                    &&& final(self).pending_command() == old(self).pending_command()
                    &&& final(self).buffered() == old(self).buffered()
                },
                MessageDetails::InitialChunk { total_data_size } => {
                    &&& r is None
                    &&& if total_data_size > COMMAND_PAYLOAD_CAPACITY {
                        final(self).pending_command() is None
                    } else {
                        final(self).pending_command() == spec_parse_command(
                            topic->0.spec_bytes(),
                        ) && final(self).buffered() == data@
                    }
                },
                MessageDetails::SubsequentChunk { current_data_offset, total_data_size } => {
                    match old(self).pending_command() {
                        None => r is None && final(self).pending_command() is None
                            && final(self).buffered() == old(self).buffered(),
                        Some(kind) => {
                            &&& final(self).buffered() == old(self).buffered() + data@
                            &&& final(self).pending_command() == Some(kind)
                            &&& if current_data_offset + data@.len() == total_data_size {
                                match kind {
                                    CommandKind::OtaUpdate => {
                                        &&& (r is Some <==> ota_update_payload_accepted(
                                            final(self).buffered(),
                                        ))
                                        &&& (r matches Some(c) ==> c matches MqttCommand::ExecOTAUpdate(url)
                                            && url@ == decode_utf8(final(self).buffered()))
                                    },
                                    CommandKind::SystemRestart => r == if final(self).buffered().len() == 0 {
                                        Some(MqttCommand::SystemRestart)
                                    } else {
                                        None::<MqttCommand>
                                    },
                                }
                            } else {
                                r is None
                            }
                        },
                    }
                },
            },
    {
        match details {
            MessageDetails::Complete => {
                let t = match topic {
                    Some(t) => t,
                    None => {
                        proof {
                            assert(false);
                        }
                        return None;
                    },
                };
                match parse_command(t) {
                    Some(CommandKind::OtaUpdate) => parse_ota_update_command(data),
                    Some(CommandKind::SystemRestart) => parse_system_restart_command(data),
                    None => None,
                }
            },
            MessageDetails::InitialChunk { total_data_size } => {
                let t = match topic {
                    Some(t) => t,
                    None => {
                        proof {
                            assert(false);
                        }
                        return None;
                    },
                };
                if *total_data_size > COMMAND_PAYLOAD_CAPACITY {
                    self.command_parser = None;
                } else {
                    self.command_parser = parse_command(t);
                    self.payload = vstd::slice::slice_to_vec(data);
                }
                None
            },
            MessageDetails::SubsequentChunk { current_data_offset, total_data_size } => {
                if self.command_parser.is_none() {
                    return None;
                }
                let mut j: usize = 0;
                while j < data.len()
                    invariant
                        j <= data@.len(),
                        self.payload@ == old(self).buffered() + data@.take(j as int),
                        self.command_parser == old(self).pending_command(),
                    decreases data@.len() - j,
                {
                    proof {
                        assert(old(self).buffered() + data@.take(j + 1) =~= (old(self).buffered()
                            + data@.take(j as int)).push(data@[j as int]));
                    }
                    self.payload.push(data[j]);
                    j = j + 1;
                }
                proof {
                    assert(data@.take(data@.len() as int) =~= data@);
                }
                if *current_data_offset + data.len() == *total_data_size {
                    match self.command_parser {
                        Some(CommandKind::OtaUpdate) => parse_ota_update_command(
                            self.payload.as_slice(),
                        ),
                        Some(CommandKind::SystemRestart) => parse_system_restart_command(
                            self.payload.as_slice(),
                        ),
                        None => None,
                    }
                } else {
                    None
                }
            },
        }
    }
}

/// The action a received command asks of the receive task.
pub enum CommandAction {
    /// Publish an OTA update request for the given target URL on the
    /// application-state channel.
    PublishOtaRequest(String),
    /// Restart the device at once.
    Restart,
    /// Nothing to do.
    Ignore,
}

/// What a received command means for the application: an OTA update
/// command becomes an update request event, a restart command an
/// immediate restart.
pub fn command_action(command: Option<&MqttCommand>) -> (r: CommandAction)
    ensures
        match command {
            Some(MqttCommand::ExecOTAUpdate(url)) => r matches CommandAction::PublishOtaRequest(u)
                && u == url,
            Some(MqttCommand::SystemRestart) => r is Restart,
            None => r is Ignore,
        },
{
    match command {
        Some(MqttCommand::ExecOTAUpdate(url)) => CommandAction::PublishOtaRequest(url.clone()),
        Some(MqttCommand::SystemRestart) => CommandAction::Restart,
        None => CommandAction::Ignore,
    }
}

/// Build the device-specific topic: prefix, a slash, the device id,
/// then the suffix.
pub fn build_topic(prefix: &str, device_id: &str, postfix: &str) -> (r: String)
    ensures
        r@ == prefix@ + "/"@ + device_id@ + postfix@,
{
    let mut topic = String::new();
    topic.append(prefix);
    topic.append("/");
    topic.append(device_id);
    topic.append(postfix);
    proof {
        assert(topic@ =~= prefix@ + "/"@ + device_id@ + postfix@);
    }
    topic
}

/// The application event a received OTA command publishes.
pub fn ota_request_event(url: &str) -> (r: ApplicationStateChange)
    ensures
        r matches ApplicationStateChange::OTAUpdateRequest(u) && u@ == url@,
{
    ApplicationStateChange::OTAUpdateRequest(String::from_str(url))
}

} // verus!

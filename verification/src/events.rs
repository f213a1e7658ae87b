use vstd::prelude::*;

use crate::device::{Device, TcpAddr};
use crate::radio::RadioPacket;
use crate::settings::{FormId, FormValue};

verus! {

/// Something the user asked for, or the application decided, that the services act on.
#[derive(Clone, Debug)]
pub enum AppEvent {
    ChannelSelected(u32),
    SwitchChannelRequested,
    DeviceRediscoverRequested,
    DeviceSelected(Device),
    DisconnectionRequested,
    InitializationRequested,
    NextTabRequested,
    PreviousTabRequested,
    TcpDeviceRemoved(TcpAddr),
    TcpDeviceSubmitted(TcpAddr),
    ChatMessageSubmitted { text: String, reply_message_id: Option<u32> },
    SplashLogoRequested,
    DirectChatRequested(u32),
    TracerouteRequested(u32),
    SettingsFormSelected(FormId),
    SettingsFormLoadingCancelRequested,
    SettingsFormItemSubmitted { key: String, value: FormValue },
}

/// Something that happened at the radio.
#[derive(Clone, Debug)]
pub enum MeshtasticEvent {
    Connected,
    ConnectionError(String),
    Disconnected,
    IncomingPacket(RadioPacket),
    MessageAccepted,
    MessageRejected(String),
    RadioStopped,
    ConfigSaveError(String),
    ConfigSaved,
}

/// A request to the radio.
#[derive(Clone, Debug)]
pub enum CommandToMeshtastic {
    ConnectViaTcp(TcpAddr),
    ConnectViaBle(String),
    ConnectViaSerial(String),
    Disconnect,
    SendBroadcastTextMessage {
        my_node_id: u32,
        channel_id: u32,
        reply_message_id: Option<u32>,
        text: String,
    },
    SendDirectTextMessage {
        my_node_id: u32,
        node_id: u32,
        reply_message_id: Option<u32>,
        text: String,
    },
    RunTraceroute { node_num: u32, my_node_num: u32 },
}

} // verus!

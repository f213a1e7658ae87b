use chrono::{DateTime, TimeZone, Utc};
use meshtastic::Message as _;
use meshtastic::protobufs::{config::device_config::Role, HardwareModel, User};
use vstd::prelude::*;
use vstd::utf8::{decode_utf8, valid_utf8};

use crate::chat::Message;
use crate::types::{Channel, ChannelRole, ChannelView, Node, UtcTime};

verus! {

/// Port number of plain text messages.
pub const PORT_TEXT_MESSAGE: i32 = 1;

/// Port number of node information.
pub const PORT_NODEINFO: i32 = 4;

/// Port number of routing messages.
pub const PORT_ROUTING: i32 = 5;

/// Port number of replies.
pub const PORT_REPLY: i32 = 32;

/// Port number of traceroutes.
pub const PORT_TRACEROUTE: i32 = 70;

/// The decoded content of a mesh packet.
#[derive(Clone, Debug)]
pub struct PacketData {
    pub portnum: i32,
    pub payload: Vec<u8>,
    pub request_id: u32,
    pub reply_id: u32,
    pub emoji: u32,
}

/// What a mesh packet carries.
#[derive(Clone, Debug)]
pub enum PacketPayload {
    Decoded(PacketData),
    Encrypted,
    Missing,
}

/// A packet received over the mesh. `rx_snr` holds the bit pattern of the single-precision
/// signal-to-noise ratio; `internal` says that the radio itself produced the packet.
#[derive(Clone, Debug)]
pub struct MeshPacket {
    pub from: u32,
    pub to: u32,
    pub channel: u32,
    pub id: u32,
    pub rx_time: u32,
    pub rx_snr: u32,
    pub rx_rssi: i32,
    pub hop_limit: u32,
    pub hop_start: u32,
    pub internal: bool,
    pub payload: PacketPayload,
}

/// The user of a node as the radio describes it; `hw_model` and `role` are protocol codes.
#[derive(Clone, Debug)]
pub struct RadioUser {
    pub id: String,
    pub long_name: String,
    pub short_name: String,
    pub hw_model: i32,
    pub role: i32,
}

/// The value of a radio user.
pub struct RadioUserView {
    pub id: Seq<char>,
    pub long_name: Seq<char>,
    pub short_name: Seq<char>,
    pub hw_model: i32,
    pub role: i32,
}

impl View for RadioUser {
    type V = RadioUserView;

    open spec fn view(&self) -> RadioUserView {
        RadioUserView {
            id: self.id@,
            long_name: self.long_name@,
            short_name: self.short_name@,
            hw_model: self.hw_model,
            role: self.role,
        }
    }
}

/// Information about a node, as the radio sends it. `snr` holds a single-precision bit pattern.
#[derive(Clone, Debug)]
pub struct RadioNodeInfo {
    pub num: u32,
    pub user: Option<RadioUser>,
    pub snr: u32,
    pub last_heard: u32,
    pub hops_away: Option<u32>,
}

/// The settings of a radio channel.
#[derive(Clone, Debug)]
pub struct RadioChannelSettings {
    pub id: u32,
    pub name: String,
}

/// A channel of the radio; `role` is the protocol code.
#[derive(Clone, Debug)]
pub struct RadioChannel {
    pub index: i32,
    pub settings: Option<RadioChannelSettings>,
    pub role: i32,
}

/// What the radio sends.
#[derive(Clone, Debug)]
pub enum RadioPacket {
    Packet(MeshPacket),
    MyInfo { my_node_num: u32 },
    NodeInfo(RadioNodeInfo),
    Channel(RadioChannel),
    Other,
}

/// The user that a node-information payload encodes, if the bytes decode.
pub uninterp spec fn decoded_user(payload: Seq<u8>) -> Option<RadioUserView>;

/// The protocol name of a device role code.
pub uninterp spec fn device_role_name(code: i32) -> Seq<char>;

/// The protocol name of a hardware model code.
pub uninterp spec fn hardware_model_name(code: i32) -> Seq<char>;

/// Decodes a node-information payload with `meshtastic::protobufs::User::decode` (prost),
/// taking the fields the application uses. The result is named `decoded_user`.
#[verifier::external_body]
pub(crate) fn decode_user(payload: &Vec<u8>) -> (r: Option<RadioUser>)
    ensures
        r is Some <==> decoded_user(payload@) is Some,
        r matches Some(u) ==> u@ == decoded_user(payload@)->0,
{
    User::decode(payload.as_slice()).ok().map(
        |u| RadioUser {
            id: u.id,
            long_name: u.long_name,
            short_name: u.short_name,
            hw_model: u.hw_model,
            role: u.role,
        },
    )
}

/// The name of a device role code, as `Role::as_str_name` gives it for the role that the
/// prost getter reads from the code (an unknown code reads as the default role).
#[verifier::external_body]
pub(crate) fn role_name(code: i32) -> (r: String)
    ensures
        r@ == device_role_name(code),
{
    Role::try_from(code).unwrap_or_default().as_str_name().to_owned()
}

/// The name of a hardware model code, as `HardwareModel::as_str_name` gives it for the model
/// that the prost getter reads from the code (an unknown code reads as the default model).
#[verifier::external_body]
pub(crate) fn hw_model_name(code: i32) -> (r: String)
    ensures
        r@ == hardware_model_name(code),
{
    HardwareModel::try_from(code).unwrap_or_default().as_str_name().to_owned()
}

/// `chrono::DateTime::from_timestamp(secs, 0)`: the time `secs` seconds after the epoch.
/// chrono documents `None` only for seconds outside its range of years, which holds every
/// 32-bit count of seconds.
#[verifier::external_body]
pub(crate) fn datetime_from_timestamp(secs: i64) -> (r: Option<UtcTime>)
    ensures
        r matches Some(t) ==> t == (UtcTime { secs, nanos: 0 }),
        0 <= secs <= u32::MAX ==> r is Some,
{
    DateTime::from_timestamp(secs, 0).map(
        |d| UtcTime { secs: d.timestamp(), nanos: d.timestamp_subsec_nanos() },
    )
}

/// `Utc.timestamp_opt(secs, 0).single()`: the time `secs` seconds after the epoch, where
/// chrono's range holds it (every 32-bit count of seconds).
#[verifier::external_body]
pub(crate) fn utc_timestamp_single(secs: i64) -> (r: Option<UtcTime>)
    ensures
        r matches Some(t) ==> t == (UtcTime { secs, nanos: 0 }),
        0 <= secs <= u32::MAX ==> r is Some,
{
    Utc.timestamp_opt(secs, 0).single().map(
        |d| UtcTime { secs: d.timestamp(), nanos: d.timestamp_subsec_nanos() },
    )
}

/// `String::from_utf8`: the text that the bytes encode, where they are valid UTF-8.
#[verifier::external_body]
pub(crate) fn text_from_utf8(bytes: Vec<u8>) -> (r: Option<String>)
    ensures
        r is Some <==> valid_utf8(bytes@),
        r matches Some(s) ==> s@ == decode_utf8(bytes@),
{
    String::from_utf8(bytes).ok()
}

/// The number of hops a packet travelled: its starting hop limit less the hops it had left,
/// none where it has more left than it started with.
pub open spec fn hops_travelled(hop_start: u32, hop_limit: u32) -> u32 {
    if hop_start >= hop_limit {
        (hop_start - hop_limit) as u32
    } else {
        0
    }
}

pub fn hops_of(hop_start: u32, hop_limit: u32) -> (r: u32)
    ensures
        r == hops_travelled(hop_start, hop_limit),
{
    hop_start.saturating_sub(hop_limit)
}

impl Node {
    /// `n` is the node that the radio's node information describes with user `u`.
    pub open spec fn from_node_info_spec(n: Node, info: RadioNodeInfo, u: RadioUserView) -> bool {
        &&& n.id@ == u.id
        &&& n.key == info.num
        &&& n.short_name@ == u.short_name
        &&& n.long_name@ == u.long_name
        &&& n.hops_away == info.hops_away
        &&& n.last_heard == Some(UtcTime { secs: info.last_heard as i64, nanos: 0 })
        &&& n.snr == info.snr
        &&& n.role@ == device_role_name(u.role)
        &&& n.hw_model@ == hardware_model_name(u.hw_model)
        &&& !n.my
    }

    /// `n` is the node that sent `packet` with its user information `u`: heard when the packet
    /// was received, as many hops away as the packet travelled.
    pub open spec fn from_packet_user_spec(n: Node, packet: MeshPacket, u: RadioUserView) -> bool {
        &&& n.id@ == u.id
        &&& n.key == packet.from
        &&& n.short_name@ == u.short_name
        &&& n.long_name@ == u.long_name
        &&& n.hops_away == Some(hops_travelled(packet.hop_start, packet.hop_limit))
        &&& n.last_heard == Some(UtcTime { secs: packet.rx_time as i64, nanos: 0 })
        &&& n.snr == packet.rx_snr
        &&& n.role@ == device_role_name(u.role)
        &&& n.hw_model@ == hardware_model_name(u.hw_model)
        &&& !n.my
    }

    /// The node that the radio's node information describes; `None` where it holds no user.
    pub fn from_node_info(info: &RadioNodeInfo) -> (r: Option<Node>)
        ensures
            r is Some <==> info.user is Some,
            r matches Some(n) ==> Node::from_node_info_spec(n, *info, info.user->0@),
    {
        match &info.user {
            None => None,
            Some(user) => {
                let last_heard = datetime_from_timestamp(info.last_heard as i64);
                Some(
                    Node {
                        id: user.id.clone(),
                        key: info.num,
                        short_name: user.short_name.clone(),
                        long_name: user.long_name.clone(),
                        hops_away: info.hops_away,
                        last_heard,
                        snr: info.snr,
                        role: role_name(user.role),
                        hw_model: hw_model_name(user.hw_model),
                        my: false,
                    },
                )
            },
        }
    }

    /// The node that sent a packet carrying its user information.
    pub fn from_packet_user(packet: &MeshPacket, user: &RadioUser) -> (n: Node)
        ensures
            Node::from_packet_user_spec(n, *packet, user@),
    {
        Node {
            id: user.id.clone(),
            key: packet.from,
            short_name: user.short_name.clone(),
            long_name: user.long_name.clone(),
            hops_away: Some(hops_of(packet.hop_start, packet.hop_limit)),
            last_heard: datetime_from_timestamp(packet.rx_time as i64),
            snr: packet.rx_snr,
            role: role_name(user.role),
            hw_model: hw_model_name(user.hw_model),
            my: false,
        }
    }

    /// `n` is the placeholder for a node the application has not heard of.
    pub open spec fn is_unknown_spec(n: Node) -> bool {
        &&& n.id@ =~= seq!['?']
        &&& n.key == 0
        &&& n.short_name@ =~= seq!['?']
        &&& n.long_name@ =~= seq!['U', 'n', 'k', 'n', 'o', 'w', 'n']
        &&& n.hops_away is None
        &&& n.last_heard is None
        &&& n.snr == 0
        &&& n.role@ =~= seq!['U', 'N', 'K', 'N', 'O', 'W', 'N']
        &&& n.hw_model@ =~= seq!['U', 'N', 'K', 'N', 'O', 'W', 'N']
        &&& !n.my
    }

    /// The placeholder for a node the application has not heard of.
    pub fn unknown() -> (n: Node)
        ensures
            Node::is_unknown_spec(n),
    {
        proof {
            reveal_strlit("?");
            reveal_strlit("Unknown");
            reveal_strlit("UNKNOWN");
        }
        Node {
            id: "?".to_owned(),
            key: 0,
            short_name: "?".to_owned(),
            long_name: "Unknown".to_owned(),
            hops_away: None,
            last_heard: None,
            snr: 0,
            role: "UNKNOWN".to_owned(),
            hw_model: "UNKNOWN".to_owned(),
            my: false,
        }
    }
}

impl Message {
    /// The text message that a packet carries, received at wall-clock time `now`; `None` where
    /// its payload is not valid UTF-8.
    pub fn from_packet(packet: &MeshPacket, data: &PacketData, now: UtcTime) -> (r: Option<Message>)
        ensures
            r is Some <==> valid_utf8(data.payload@),
            r matches Some(m) ==> {
                &&& m.id == packet.id
                &&& m.reply_message_id == data.reply_id
                &&& m.from == packet.from
                &&& m.datetime == (UtcTime { secs: packet.rx_time as i64, nanos: 0 })
                &&& m.text@ == decode_utf8(data.payload@)
                &&& m.reactions@.len() == 0
                &&& m.hops == Some(hops_travelled(packet.hop_start, packet.hop_limit))
                &&& m.snr == packet.rx_snr
                &&& m.rssi == packet.rx_rssi
                &&& !m.acked
            },
    {
        let datetime = match utc_timestamp_single(packet.rx_time as i64) {
            Some(t) => t,
            None => now,
        };
        match text_from_utf8(data.payload.clone()) {
            None => None,
            Some(text) => Some(
                Message {
                    id: packet.id,
                    reply_message_id: data.reply_id,
                    from: packet.from,
                    datetime,
                    text,
                    reactions: Vec::new(),
                    hops: Some(hops_of(packet.hop_start, packet.hop_limit)),
                    snr: packet.rx_snr,
                    rssi: packet.rx_rssi,
                    acked: false,
                },
            ),
        }
    }
}

impl Channel {
    /// The chat channel for one of the radio's channels: keyed by the channel's index; a channel
    /// without settings is disabled and unnamed; otherwise it takes the settings' id and name,
    /// and its role from the protocol code.
    pub open spec fn from_radio_spec(ch: RadioChannel) -> ChannelView {
        match ch.settings {
            None => ChannelView {
                key: ch.index as u32,
                id: 0,
                role: ChannelRole::Disabled,
                name: Seq::empty(),
            },
            Some(s) => ChannelView {
                key: ch.index as u32,
                id: s.id,
                role: ChannelRole::from_radio_code_spec(ch.role),
                name: s.name@,
            },
        }
    }

    /// The chat channel for one of the radio's channels.
    pub fn from_radio(ch: &RadioChannel) -> (r: Channel)
        ensures
            r@ == Channel::from_radio_spec(*ch),
    {
        match &ch.settings {
            Some(s) => Channel {
                key: ch.index as u32,
                id: s.id,
                role: ChannelRole::from_radio_code(ch.role),
                name: s.name.clone(),
            },
            None => Channel::disabled(ch.index as u32),
        }
    }
}

} // verus!

use vstd::prelude::*;
use vstd::utf8::{decode_utf8, valid_utf8};

use crate::chat::Message;
use crate::events::AppEvent;
use crate::radio::{
    hops_travelled, MeshPacket, PacketData, PacketPayload, RadioPacket, PORT_REPLY,
    PORT_TEXT_MESSAGE,
};
use crate::store::StateAction;
use crate::text::string_from_chars;
use crate::types::{Channel, ChannelRole, UtcTime};

verus! {

/// The state action that the chat service takes on an application event, if any.
pub fn handle_app_event(event: &AppEvent) -> (r: Option<StateAction>)
    ensures
        match *event {
            AppEvent::ChannelSelected(k) => r matches Some(StateAction::ChannelActiveSet(x)) && x
                == k,
            AppEvent::SwitchChannelRequested => r matches Some(StateAction::ChannelActiveUnset),
            _ => r is None,
        },
{
    match event {
        AppEvent::ChannelSelected(k) => Some(StateAction::ChannelActiveSet(*k)),
        AppEvent::SwitchChannelRequested => Some(StateAction::ChannelActiveUnset),
        _ => None,
    }
}

/// The character with the given code point, where there is one.
pub open spec fn char_of_code(code: u32) -> Option<char> {
    if code <= 0x10FFFF && !(0xD800 <= code && code <= 0xDFFF) {
        Some(code as char)
    } else {
        None
    }
}

/// `char::from_u32`: the character with the given code point; none for surrogates and codes
/// beyond the last code point.
#[verifier::external_body]
fn char_from_code(code: u32) -> (r: Option<char>)
    ensures
        r == char_of_code(code),
{
    char::from_u32(code)
}

/// The channel a text packet belongs to: the packet's channel for a broadcast, the sender's
/// direct conversation for a packet addressed to the local node by another node, and none
/// for a packet addressed elsewhere.
pub open spec fn text_channel_key(p: MeshPacket, my_node_key: Option<u32>) -> Option<u32> {
    if p.to == 0 || p.to == u32::MAX {
        Some(p.channel)
    } else if my_node_key == Some(p.to) && p.to != p.from {
        Some(p.from)
    } else {
        None
    }
}

/// The port carries text messages.
pub open spec fn is_text_port(portnum: i32) -> bool {
    portnum == PORT_TEXT_MESSAGE || portnum == PORT_REPLY
}

/// What the chat service does with a text packet: nothing where the packet is for no channel
/// of this node; otherwise, after opening the direct conversation where the sender wrote to
/// this node alone, one reaction where the packet carries the code of a character as its
/// emoji, else one message where its payload is UTF-8 text.
pub open spec fn text_packet_actions(
    packet: MeshPacket,
    data: PacketData,
    my_node_key: Option<u32>,
    acts: Seq<StateAction>,
) -> bool {
    match text_channel_key(packet, my_node_key) {
        None => acts.len() == 0,
        Some(key) => {
            let direct = !(packet.to == 0 || packet.to == u32::MAX);
            let base: int = if direct {
                1
            } else {
                0
            };
            &&& direct ==> (acts[0] matches StateAction::ChannelEnsure(k, ch) && k
                == packet.from && ch@ == Channel::direct_spec(packet.from))
            &&& if data.emoji != 0 && char_of_code(data.emoji) is Some {
                &&& acts.len() == base + 1
                &&& (acts[base] matches StateAction::MessageReactionAdd {
                    channel_key,
                    message_id,
                    emoji,
                    node_key,
                } && channel_key == key && message_id == packet.id && emoji@ == seq![
                    char_of_code(data.emoji)->0,
                ] && node_key == packet.from)
            } else if valid_utf8(data.payload@) {
                &&& acts.len() == base + 1
                &&& (acts[base] matches StateAction::MessageAdd(k, m) && k == key
                    && m.id == packet.id && m.reply_message_id == data.reply_id && m.from
                    == packet.from && m.text@ == decode_utf8(data.payload@) && m.datetime
                    == (UtcTime { secs: packet.rx_time as i64, nanos: 0 }) && m.hops == Some(
                    hops_travelled(packet.hop_start, packet.hop_limit),
                ) && m.snr == packet.rx_snr && m.rssi == packet.rx_rssi && !m.acked
                    && m.reactions@.len() == 0)
            } else {
                acts.len() == base
            }
        },
    }
}

fn handle_text_packet(
    packet: &MeshPacket,
    data: &PacketData,
    my_node_key: Option<u32>,
    now: UtcTime,
    actions: &mut Vec<StateAction>,
)
    requires
        old(actions)@.len() == 0,
    ensures
        text_packet_actions(*packet, *data, my_node_key, final(actions)@),
{
    let key = if packet.to == 0 || packet.to == u32::MAX {
        packet.channel
    } else {
        match my_node_key {
            Some(my) => {
                if packet.to == my && packet.to != packet.from {
                    actions.push(StateAction::ChannelEnsure(packet.from, Channel::direct(packet.from)));
                    packet.from
                } else {
                    return ;
                }
            },
            None => {
                return ;
            },
        }
    };
    if data.emoji != 0 {
        match char_from_code(data.emoji) {
            Some(c) => {
                let mut chars: Vec<char> = Vec::new();
                chars.push(c);
                let emoji = string_from_chars(chars);
                actions.push(
                    StateAction::MessageReactionAdd {
                        channel_key: key,
                        message_id: packet.id,
                        emoji,
                        node_key: packet.from,
                    },
                );
                return ;
            },
            None => {},
        }
    }
    match Message::from_packet(packet, data, now) {
        Some(message) => {
            actions.push(StateAction::MessageAdd(key, message));
        },
        None => {},
    }
}

/// The state actions that the chat service takes on a packet from the radio, received at
/// wall-clock time `now` while the local node's key is `my_node_key`:
/// a radio channel is made known; a text packet for a channel of this node becomes a reaction
/// (where it carries an emoji) or a message (where its payload is text), a packet from another
/// node to this one first opening the direct conversation with that node. Everything else is
/// left alone.
pub fn handle_radio_packet(packet: &RadioPacket, my_node_key: Option<u32>, now: UtcTime) -> (r: Vec<
    StateAction,
>)
    ensures
        match *packet {
            RadioPacket::Channel(ch) => r@.len() == 1 && (r@[0] matches StateAction::ChannelEnsure(
                k,
                c,
            ) && k == ch.index as u32 && c@ == Channel::from_radio_spec(ch)),
            RadioPacket::Packet(p) => match p.payload {
                PacketPayload::Decoded(data) => if is_text_port(data.portnum) {
                    text_packet_actions(p, data, my_node_key, r@)
                } else {
                    r@.len() == 0
                },
                _ => r@.len() == 0,
            },
            _ => r@.len() == 0,
        },
{
    let mut actions: Vec<StateAction> = Vec::new();
    match packet {
        RadioPacket::Channel(ch) => {
            actions.push(StateAction::ChannelEnsure(ch.index as u32, Channel::from_radio(ch)));
        },
        RadioPacket::Packet(p) => match &p.payload {
            PacketPayload::Decoded(data) => {
                if data.portnum == PORT_TEXT_MESSAGE || data.portnum == PORT_REPLY {
                    handle_text_packet(p, data, my_node_key, now, &mut actions);
                }
            },
            _ => {},
        },
        _ => {},
    }
    actions
}

} // verus!

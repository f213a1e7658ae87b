use vstd::prelude::*;

use crate::events::AppEvent;
use crate::radio::{
    decode_user, decoded_user, hops_of, hops_travelled, MeshPacket, PacketPayload, RadioPacket,
    RadioUser, PORT_NODEINFO,
};
use crate::store::StateAction;
use crate::types::Node;

verus! {

/// The state action that the node service takes on an application event, if any: a request
/// for a direct chat with a node starts it.
pub fn handle_app_event(event: &AppEvent) -> (r: Option<StateAction>)
    ensures
        match *event {
            AppEvent::DirectChatRequested(k) => r matches Some(StateAction::DirectChatStart(x))
                && x == k,
            _ => r is None,
        },
{
    match event {
        AppEvent::DirectChatRequested(k) => Some(StateAction::DirectChatStart(*k)),
        _ => None,
    }
}

/// The sender of a packet was heard: how many hops the packet travelled and with what
/// signal-to-noise ratio.
pub open spec fn is_last_heard_update(a: StateAction, packet: MeshPacket) -> bool {
    a matches StateAction::NodeUpdateLastHeard { node_key, hops, snr } && node_key == packet.from
        && hops == hops_travelled(packet.hop_start, packet.hop_limit) && snr == packet.rx_snr
}

fn last_heard_update(packet: &MeshPacket) -> (r: StateAction)
    ensures
        is_last_heard_update(r, *packet),
{
    StateAction::NodeUpdateLastHeard {
        node_key: packet.from,
        hops: hops_of(packet.hop_start, packet.hop_limit),
        snr: packet.rx_snr,
    }
}

/// What the node service does with a node-information packet whose payload decoded to `user`
/// (`None` where it did not decode): the sender becomes a known node.
pub fn handle_node_user(packet: &MeshPacket, user: Option<RadioUser>) -> (r: Option<StateAction>)
    ensures
        r is Some <==> user is Some,
        r matches Some(a) ==> (a matches StateAction::NodeAdd(n) && Node::from_packet_user_spec(
            n,
            *packet,
            user->0@,
        )),
{
    match user {
        Some(u) => Some(StateAction::NodeAdd(Node::from_packet_user(packet, &u))),
        None => None,
    }
}

/// The state action that the node service takes on a packet from the radio, if any: the
/// radio's own node number is recorded; node information with a user, and a node-information
/// packet whose payload decodes, add the node; any other mesh packet updates when its sender
/// was last heard.
pub fn handle_radio_packet(packet: &RadioPacket) -> (r: Option<StateAction>)
    ensures
        match *packet {
            RadioPacket::MyInfo { my_node_num } => r matches Some(StateAction::MyNodeKeySet(k))
                && k == my_node_num,
            RadioPacket::NodeInfo(info) => {
                &&& r is Some <==> info.user is Some
                &&& r matches Some(a) ==> (a matches StateAction::NodeAdd(n)
                    && Node::from_node_info_spec(n, info, info.user->0@))
            },
            RadioPacket::Packet(p) => match p.payload {
                PacketPayload::Decoded(data) => if data.portnum == PORT_NODEINFO {
                    &&& r is Some <==> decoded_user(data.payload@) is Some
                    &&& r matches Some(a) ==> (a matches StateAction::NodeAdd(n)
                        && Node::from_packet_user_spec(n, p, decoded_user(data.payload@)->0))
                } else {
                    r matches Some(a) && is_last_heard_update(a, p)
                },
                _ => r matches Some(a) && is_last_heard_update(a, p),
            },
            _ => r is None,
        },
{
    match packet {
        RadioPacket::MyInfo { my_node_num } => Some(StateAction::MyNodeKeySet(*my_node_num)),
        RadioPacket::NodeInfo(info) => match Node::from_node_info(info) {
            Some(n) => Some(StateAction::NodeAdd(n)),
            None => None,
        },
        RadioPacket::Packet(p) => match &p.payload {
            PacketPayload::Decoded(data) => {
                if data.portnum == PORT_NODEINFO {
                    handle_node_user(p, decode_user(&data.payload))
                } else {
                    Some(last_heard_update(p))
                }
            },
            _ => Some(last_heard_update(p)),
        },
        _ => None,
    }
}

} // verus!

//! The laws of what the services make of the radio's packets.

use vstd::prelude::*;
use vstd::utf8::decode_utf8;

use crate::radio::{MeshPacket, PacketData, RadioNodeInfo, RadioUserView};
use crate::service::chat::text_packet_actions;
use crate::store::StateAction;
use crate::types::{Node, UtcTime};

verus! {

/// A node built from the radio's node information carries that information over: the node's
/// key is the node number, its id, short name and long name are the user's, its hop count,
/// signal-to-noise ratio and last-heard time (in seconds) are the information's, and it is not
/// marked as the local node.
pub proof fn law_node_from_node_info(n: Node, info: RadioNodeInfo, u: RadioUserView)
    requires
        Node::from_node_info_spec(n, info, u),
    ensures
        n.key == info.num,
        n.id@ == u.id,
        n.short_name@ == u.short_name,
        n.long_name@ == u.long_name,
        n.hops_away == info.hops_away,
        n.snr == info.snr,
        n.last_heard == Some(UtcTime { secs: info.last_heard as i64, nanos: 0 }),
        !n.my,
{
}

/// Nodes built from two pieces of node information have the same long name exactly when their
/// users have the same long name, and the same short name exactly when their users do: a name
/// never stands in for the other.
pub proof fn law_node_names_follow_user(
    n1: Node,
    info1: RadioNodeInfo,
    u1: RadioUserView,
    n2: Node,
    info2: RadioNodeInfo,
    u2: RadioUserView,
)
    requires
        Node::from_node_info_spec(n1, info1, u1),
        Node::from_node_info_spec(n2, info2, u2),
    ensures
        (n1.long_name@ == n2.long_name@) <==> (u1.long_name == u2.long_name),
        (n1.short_name@ == n2.short_name@) <==> (u1.short_name == u2.short_name),
{
}

/// A node learnt from a node-information packet carries the packet's sender and the user's
/// names over: its key is the sender, its id, short name and long name are the user's, its
/// signal-to-noise ratio and reception time are the packet's.
pub proof fn law_node_from_packet_user(n: Node, p: MeshPacket, u: RadioUserView)
    requires
        Node::from_packet_user_spec(n, p, u),
    ensures
        n.key == p.from,
        n.id@ == u.id,
        n.short_name@ == u.short_name,
        n.long_name@ == u.long_name,
        n.snr == p.rx_snr,
        n.last_heard == Some(UtcTime { secs: p.rx_time as i64, nanos: 0 }),
        p.hop_start >= p.hop_limit ==> n.hops_away == Some((p.hop_start - p.hop_limit) as u32),
        p.hop_start < p.hop_limit ==> n.hops_away == Some(0u32),
        !n.my,
{
}

/// A text packet that another node addressed to this node alone belongs to the direct
/// conversation with the sender: the conversation is opened first, and every reaction and
/// every message the packet gives is filed under the sender's key.
pub proof fn law_direct_text_goes_to_sender(
    packet: MeshPacket,
    data: PacketData,
    my_node_key: Option<u32>,
    acts: Seq<StateAction>,
)
    requires
        text_packet_actions(packet, data, my_node_key, acts),
        packet.to != 0,
        packet.to != u32::MAX,
        my_node_key == Some(packet.to),
        packet.to != packet.from,
    ensures
        acts.len() >= 1,
        acts[0] matches StateAction::ChannelEnsure(k, _) && k == packet.from,
        forall|i: int|
            0 <= i < acts.len() ==> (#[trigger] acts[i] matches StateAction::MessageReactionAdd {
                channel_key,
                node_key,
                ..
            } ==> channel_key == packet.from && node_key == packet.from),
        forall|i: int|
            0 <= i < acts.len() ==> (#[trigger] acts[i] matches StateAction::MessageAdd(k, _)
                ==> k == packet.from),
{
}

/// A broadcast text packet belongs to the channel it was sent on: every reaction and every
/// message it gives is filed under that channel, and no conversation is opened.
pub proof fn law_broadcast_text_goes_to_its_channel(
    packet: MeshPacket,
    data: PacketData,
    my_node_key: Option<u32>,
    acts: Seq<StateAction>,
)
    requires
        text_packet_actions(packet, data, my_node_key, acts),
        packet.to == 0 || packet.to == u32::MAX,
    ensures
        acts.len() <= 1,
        forall|i: int|
            0 <= i < acts.len() ==> (#[trigger] acts[i] matches StateAction::MessageReactionAdd {
                channel_key,
                ..
            } ==> channel_key == packet.channel),
        forall|i: int|
            0 <= i < acts.len() ==> (#[trigger] acts[i] matches StateAction::MessageAdd(k, _)
                ==> k == packet.channel),
        forall|i: int| 0 <= i < acts.len() ==> !(#[trigger] acts[i] is ChannelEnsure),
{
}

/// A text packet addressed to another node, or that this node sent to itself, gives nothing.
pub proof fn law_text_for_others_is_ignored(
    packet: MeshPacket,
    data: PacketData,
    my_node_key: Option<u32>,
    acts: Seq<StateAction>,
)
    requires
        text_packet_actions(packet, data, my_node_key, acts),
        packet.to != 0,
        packet.to != u32::MAX,
        my_node_key != Some(packet.to) || packet.to == packet.from,
    ensures
        acts.len() == 0,
{
}

/// A reaction is filed under the same channel as a message in the same packet would be: for
/// two packets that differ only in what they carry, the reaction of one and the message of the
/// other name the same channel.
pub proof fn law_reaction_goes_with_its_messages(
    packet: MeshPacket,
    d1: PacketData,
    d2: PacketData,
    my_node_key: Option<u32>,
    a1: Seq<StateAction>,
    a2: Seq<StateAction>,
    i: int,
    j: int,
)
    requires
        text_packet_actions(packet, d1, my_node_key, a1),
        text_packet_actions(packet, d2, my_node_key, a2),
        0 <= i < a1.len(),
        0 <= j < a2.len(),
        a1[i] is MessageReactionAdd,
        a2[j] is MessageAdd,
    ensures
        a1[i]->MessageReactionAdd_channel_key == a2[j]->MessageAdd_0,
{
}

/// A message made from a text packet is the packet's: its id, sender, reply and signal values
/// are the packet's, its text is the payload read as UTF-8, it was sent at the reception time
/// and is not yet acknowledged, with no reactions; a reaction names the packet's sender, the
/// packet's id as the message reacted to, and the one character whose code the packet carries.
pub proof fn law_text_packet_contents(
    packet: MeshPacket,
    data: PacketData,
    my_node_key: Option<u32>,
    acts: Seq<StateAction>,
    i: int,
)
    requires
        text_packet_actions(packet, data, my_node_key, acts),
        0 <= i < acts.len(),
    ensures
        acts[i] matches StateAction::MessageAdd(_, m) ==> m.id == packet.id && m.from
            == packet.from && m.reply_message_id == data.reply_id && m.text@ == decode_utf8(
            data.payload@,
        ) && m.datetime == (UtcTime { secs: packet.rx_time as i64, nanos: 0 }) && m.snr
            == packet.rx_snr && m.rssi == packet.rx_rssi && !m.acked && m.reactions@.len() == 0,
        acts[i] matches StateAction::MessageReactionAdd { message_id, emoji, node_key, .. }
            ==> message_id == packet.id && node_key == packet.from && emoji@.len() == 1
            && emoji@[0] as u32 == data.emoji,
{
}

} // verus!

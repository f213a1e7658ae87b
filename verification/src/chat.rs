use vstd::prelude::*;

use crate::types::UtcTime;

verus! {

/// One node's reaction with an emoji to a message, and when it was seen.
#[derive(Clone, Debug)]
pub struct Reaction {
    pub emoji: String,
    pub node_key: u32,
    pub at: UtcTime,
}

/// A text message of a chat channel.
/// `snr` holds the bit pattern of the single-precision signal-to-noise ratio.
#[derive(Clone, Debug)]
pub struct Message {
    pub id: u32,
    pub reply_message_id: u32,
    pub from: u32,
    pub datetime: UtcTime,
    pub text: String,
    pub reactions: Vec<Reaction>,
    pub hops: Option<u32>,
    pub snr: u32,
    pub rssi: i32,
    pub acked: bool,
}

/// The value of a message.
pub struct MessageView {
    pub id: u32,
    pub reply_message_id: u32,
    pub from: u32,
    pub datetime: UtcTime,
    pub text: String,
    pub reactions: Seq<Reaction>,
    pub hops: Option<u32>,
    pub snr: u32,
    pub rssi: i32,
    pub acked: bool,
}

impl View for Message {
    type V = MessageView;

    open spec fn view(&self) -> MessageView {
        MessageView {
            id: self.id,
            reply_message_id: self.reply_message_id,
            from: self.from,
            datetime: self.datetime,
            text: self.text,
            reactions: self.reactions@,
            hops: self.hops,
            snr: self.snr,
            rssi: self.rssi,
            acked: self.acked,
        }
    }
}

/// Position of the first message with the given id, if any.
pub open spec fn message_index(msgs: Seq<MessageView>, id: u32) -> Option<int> {
    if exists|i: int| 0 <= i < msgs.len() && msgs[i].id == id {
        Some(
            choose|i: int|
                0 <= i < msgs.len() && msgs[i].id == id && (forall|j: int|
                    0 <= j < i ==> msgs[j].id != id),
        )
    } else {
        None
    }
}

/// Finds the first message with the given id.
pub fn find_message(msgs: &Vec<Message>, id: u32) -> (r: Option<usize>)
    ensures
        match r {
            Some(i) => message_index(msgs@.map_values(|m: Message| m@), id) == Some(i as int) && i
                < msgs@.len(),
            None => message_index(msgs@.map_values(|m: Message| m@), id) is None,
        },
{
    let ghost vs = msgs@.map_values(|m: Message| m@);
    let mut i: usize = 0;
    while i < msgs.len()
        invariant
            i <= msgs.len(),
            vs == msgs@.map_values(|m: Message| m@),
            forall|j: int| 0 <= j < i ==> vs[j].id != id,
        decreases msgs.len() - i,
    {
        if msgs[i].id == id {
            proof {
                assert(vs[i as int].id == id);
                let c = message_index(vs, id)->0;
                if c < i {
                    assert(vs[c].id != id);
                }
            }
            return Some(i);
        }
        i = i + 1;
    }
    None
}

/// Position of the first reaction by `node_key` with `emoji`, if any.
pub open spec fn reaction_index(rs: Seq<Reaction>, emoji: Seq<char>, node_key: u32) -> Option<int> {
    if exists|i: int|
        0 <= i < rs.len() && rs[i].emoji@ == emoji && rs[i].node_key == node_key {
        Some(
            choose|i: int|
                0 <= i < rs.len() && rs[i].emoji@ == emoji && rs[i].node_key == node_key && (forall|
                    j: int,
                |
                    0 <= j < i ==> !(rs[j].emoji@ == emoji && rs[j].node_key == node_key)),
        )
    } else {
        None
    }
}

/// The reactions after `node_key` reacted with `emoji` at time `at`: the time of an earlier
/// such reaction is replaced, else the reaction is added at the end.
pub open spec fn with_reaction(rs: Seq<Reaction>, emoji: String, node_key: u32, at: UtcTime) -> Seq<
    Reaction,
> {
    match reaction_index(rs, emoji@, node_key) {
        Some(i) => rs.update(i, Reaction { emoji: rs[i].emoji, node_key, at }),
        None => rs.push(Reaction { emoji, node_key, at }),
    }
}

/// Records that `node_key` reacted to the message with `emoji` at time `at`.
pub fn add_reaction(reactions: &mut Vec<Reaction>, emoji: String, node_key: u32, at: UtcTime)
    ensures
        final(reactions)@ == with_reaction(old(reactions)@, emoji, node_key, at),
{
    let mut i: usize = 0;
    while i < reactions.len()
        invariant
            i <= reactions.len(),
            reactions@ == old(reactions)@,
            forall|j: int|
                0 <= j < i ==> !(reactions@[j].emoji@ == emoji@ && reactions@[j].node_key
                    == node_key),
        decreases reactions.len() - i,
    {
        if reactions[i].node_key == node_key && reactions[i].emoji == emoji {
            let ghost rs = reactions@;
            proof {
                let k = reaction_index(rs, emoji@, node_key);
                assert(k is Some);
                let c = k->0;
                if c < i {
                    assert(!(rs[c].emoji@ == emoji@ && rs[c].node_key == node_key));
                }
                if c > i {
                }
                assert(c == i);
            }
            let old_emoji = reactions[i].emoji.clone();
            reactions.set(i, Reaction { emoji: old_emoji, node_key, at });
            return ;
        }
        i = i + 1;
    }
    proof {
        assert(reaction_index(reactions@, emoji@, node_key) is None);
    }
    reactions.push(Reaction { emoji, node_key, at });
}

} // verus!

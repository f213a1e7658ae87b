use std::collections::HashMap;

use vstd::prelude::*;

use crate::chat::{Message, Reaction};
use crate::text::{decimal, decimal_string, string_from_chars};
use crate::types::{Channel, ChannelRole, Node};
use crate::ui::messenger::{is_sender, INPUT_VALUE_MAX_LENGTH};
use crate::ui::nodes::styled_match;
use crate::ui::styled::{Styled, Tint};

verus! {

broadcast use vstd::std_specs::hash::group_hash_axioms;

/// `n` spaces.
pub open spec fn spaces(n: nat) -> Seq<char> {
    Seq::new(n, |i: int| ' ')
}

/// The text centred in `width` characters, as `format!("{:^width$}")` pads it: the missing
/// characters are spaces, the smaller half before the text; a text as wide or wider stays as
/// it is.
pub open spec fn centered(s: Seq<char>, width: nat) -> Seq<char> {
    if s.len() >= width {
        s
    } else {
        let pad = (width - s.len()) as nat;
        spaces(pad / 2) + s + spaces((pad - pad / 2) as nat)
    }
}

/// The width of a node's badge.
pub const BADGE_WIDTH: usize = 6;

/// The text of a node's badge: its short name centred in six characters.
pub fn badge_text(short_name: &String) -> (r: String)
    ensures
        r@ == centered(short_name@, BADGE_WIDTH as nat),
{
    let chars = crate::order::chars_of(short_name.as_str());
    let n = chars.len();
    if n >= BADGE_WIDTH {
        return short_name.clone();
    }
    let pad = BADGE_WIDTH - n;
    let mut out: Vec<char> = Vec::new();
    let mut i: usize = 0;
    while i < pad / 2
        invariant
            i <= pad / 2,
            out@ == spaces(i as nat),
        decreases pad / 2 - i,
    {
        out.push(' ');
        proof {
            assert(out@ =~= spaces((i + 1) as nat));
        }
        i = i + 1;
    }
    let mut j: usize = 0;
    while j < n
        invariant
            j <= n,
            n == chars@.len(),
            out@ == spaces((pad / 2) as nat) + chars@.take(j as int),
        decreases n - j,
    {
        out.push(chars[j]);
        proof {
            assert(chars@.take(j + 1) =~= chars@.take(j as int).push(chars@[j as int]));
            assert(out@ =~= spaces((pad / 2) as nat) + chars@.take(j + 1));
        }
        j = j + 1;
    }
    let mut k: usize = 0;
    while k < pad - pad / 2
        invariant
            k <= pad - pad / 2,
            out@ == spaces((pad / 2) as nat) + chars@ + spaces(k as nat),
        decreases pad - pad / 2 - k,
    {
        out.push(' ');
        proof {
            assert(out@ =~= spaces((pad / 2) as nat) + chars@ + spaces((k + 1) as nat));
        }
        k = k + 1;
    }
    proof {
        assert(chars@.take(n as int) =~= chars@);
    }
    string_from_chars(out)
}

/// The text with each line break turned into a space, between quotation marks: how a message
/// that is replied to is quoted.
pub open spec fn quoted(text: Seq<char>) -> Seq<char> {
    "“"@ + text.map_values(|c: char| if c == '\n' {
        ' '
    } else {
        c
    }) + "”"@
}

/// Quotes the text of a message that is replied to.
pub fn reply_quote(text: &String) -> (r: String)
    ensures
        r@ == quoted(text@),
{
    let chars = crate::order::chars_of(text.as_str());
    let mut out: Vec<char> = Vec::new();
    out.push('“');
    let mut i: usize = 0;
    while i < chars.len()
        invariant
            i <= chars.len(),
            out@ == seq!['“'] + chars@.take(i as int).map_values(|c: char| if c == '\n' {
                ' '
            } else {
                c
            }),
        decreases chars.len() - i,
    {
        let c = chars[i];
        out.push(if c == '\n' { ' ' } else { c });
        proof {
            assert(chars@.take(i + 1) =~= chars@.take(i as int).push(c));
            assert(out@ =~= seq!['“'] + chars@.take(i + 1).map_values(|c: char| if c == '\n' {
                ' '
            } else {
                c
            }));
        }
        i = i + 1;
    }
    out.push('”');
    proof {
        reveal_strlit("“");
        reveal_strlit("”");
        assert(chars@.take(chars@.len() as int) =~= chars@);
        assert(out@ =~= quoted(text@));
    }
    string_from_chars(out)
}

/// The text repeated `n` times.
pub open spec fn repeated(s: Seq<char>, n: nat) -> Seq<char>
    decreases n,
{
    if n == 0 {
        Seq::empty()
    } else {
        repeated(s, (n - 1) as nat) + s
    }
}

/// The hops a node is away, one arrow each.
pub fn hop_arrows(hops: u32) -> (r: String)
    ensures
        r@ == repeated("❱"@, hops as nat),
{
    let mut out = String::new();
    let mut i: u32 = 0;
    while i < hops
        invariant
            i <= hops,
            out@ == repeated("❱"@, i as nat),
        decreases hops - i,
    {
        out = out.concat("❱");
        i = i + 1;
    }
    out
}

/// What the middle of a message's first line shows: for another node's message, the hops it
/// travelled where it came over others, else its signal (which the caller draws from the
/// message's signal-to-noise ratio and strength); for this node's message, whether the radio
/// acknowledged it.
#[derive(Clone, Copy, Debug, PartialEq, Eq, Structural)]
pub enum MessageStatus {
    Hops(u32),
    Signal,
    Acked,
    Sent,
}

/// The status of a message from `node`.
pub fn message_status(node: &Node, message: &Message) -> (r: MessageStatus)
    ensures
        r == (if !node.my {
            match node.hops_away {
                Some(h) => if h > 0 {
                    MessageStatus::Hops(h)
                } else {
                    MessageStatus::Signal
                },
                None => MessageStatus::Signal,
            }
        } else if message.acked {
            MessageStatus::Acked
        } else {
            MessageStatus::Sent
        }),
{
    if !node.my {
        match node.hops_away {
            Some(h) => if h > 0 {
                MessageStatus::Hops(h)
            } else {
                MessageStatus::Signal
            },
            None => MessageStatus::Signal,
        }
    } else if message.acked {
        MessageStatus::Acked
    } else {
        MessageStatus::Sent
    }
}

/// How far a node in the node list is: its signal where it is a neighbour, the hops to it,
/// connected for this node, or unknown.
#[derive(Clone, Copy, Debug, PartialEq, Eq, Structural)]
pub enum NodeReach {
    Signal,
    Hops(u32),
    Connected,
    Unknown,
}

/// How far a node is.
pub fn node_reach(node: &Node) -> (r: NodeReach)
    ensures
        r == (match node.hops_away {
            Some(h) => if h == 0 {
                NodeReach::Signal
            } else {
                NodeReach::Hops(h)
            },
            None => if node.my {
                NodeReach::Connected
            } else {
                NodeReach::Unknown
            },
        }),
{
    match node.hops_away {
        Some(h) => if h == 0 {
            NodeReach::Signal
        } else {
            NodeReach::Hops(h)
        },
        None => if node.my {
            NodeReach::Connected
        } else {
            NodeReach::Unknown
        },
    }
}

/// The counter of the message being typed: its length in bytes out of the longest message,
/// red where it is too long.
pub fn input_counter(len: usize) -> (r: Styled)
    ensures
        r.text@ == " "@ + decimal(len as nat) + "/200"@,
        r.tint == (if len > INPUT_VALUE_MAX_LENGTH {
            Tint::Red
        } else {
            Tint::DarkGray
        }),
{
    let text = " ".to_owned().concat(decimal_string(len as u64).as_str());
    Styled {
        text: text.concat("/200"),
        tint: if len > INPUT_VALUE_MAX_LENGTH {
            Tint::Red
        } else {
            Tint::DarkGray
        },
    }
}

/// What the title of the open channel shows, before its arrow: a reply's recipient; a radio
/// channel's number and name (or its role where it has no name); a direct conversation's
/// node.
pub enum ChannelTitle {
    ReplyTo(Node),
    Radio { number: String, name: String },
    Direct(Node),
}

/// The title of the open channel, with the reply under way if any.
pub fn channel_title(channel: &Channel, replying_to: Option<&Node>, nodes: &HashMap<u32, Node>) -> (r:
    ChannelTitle)
    requires
        replying_to is None ==> channel.role != ChannelRole::Disabled,
    ensures
        match replying_to {
            Some(n) => r == ChannelTitle::ReplyTo(*n),
            None => match channel.role {
                ChannelRole::Direct => r matches ChannelTitle::Direct(n) && is_sender(
                    n,
                    nodes@,
                    channel.key,
                ),
                _ => r matches ChannelTitle::Radio { number, name } && number@ == "#"@ + decimal(
                    channel.key as nat,
                ) + " "@ && name@ == (if channel.name@.len() > 0 {
                    channel.name@
                } else if channel.role == ChannelRole::Primary {
                    "Primary"@
                } else {
                    "Secondary"@
                }),
            },
        },
{
    match replying_to {
        Some(n) => ChannelTitle::ReplyTo(n.duplicate()),
        None => match channel.role {
            ChannelRole::Direct => {
                let n = match nodes.get(&channel.key) {
                    Some(n) => n.duplicate(),
                    None => Node::unknown(),
                };
                ChannelTitle::Direct(n)
            },
            _ => {
                let number = "#".to_owned().concat(decimal_string(channel.key as u64).as_str());
                let name = if !channel.name.as_str().is_empty() {
                    channel.name.clone()
                } else if channel.role == ChannelRole::Primary {
                    "Primary".to_owned()
                } else {
                    "Secondary".to_owned()
                };
                ChannelTitle::Radio { number: number.concat(" "), name }
            },
        },
    }
}

/// Position of the group with the emoji, if any.
pub open spec fn find_group(groups: Seq<(Seq<char>, nat)>, emoji: Seq<char>) -> Option<int> {
    if exists|i: int| 0 <= i < groups.len() && groups[i].0 == emoji {
        Some(choose|i: int| 0 <= i < groups.len() && groups[i].0 == emoji)
    } else {
        None
    }
}

/// The reactions grouped by emoji: each emoji once, in the order of its first reaction, with
/// the number of reactions with it.
pub open spec fn grouped(rs: Seq<Reaction>) -> Seq<(Seq<char>, nat)>
    decreases rs.len(),
{
    if rs.len() == 0 {
        Seq::empty()
    } else {
        let g = grouped(rs.drop_last());
        let e = rs.last().emoji@;
        match find_group(g, e) {
            Some(i) => g.update(i, (e, g[i].1 + 1)),
            None => g.push((e, 1)),
        }
    }
}

/// The value of groups of reactions.
pub open spec fn groups_view(gs: Seq<(String, usize)>) -> Seq<(Seq<char>, nat)> {
    gs.map_values(|g: (String, usize)| (g.0@, g.1 as nat))
}

/// No emoji has two groups.
pub open spec fn distinct_groups(g: Seq<(Seq<char>, nat)>) -> bool {
    forall|i: int, j: int| 0 <= i < j < g.len() ==> #[trigger] g[i].0 != #[trigger] g[j].0
}

proof fn lemma_grouped_distinct(rs: Seq<Reaction>)
    ensures
        distinct_groups(grouped(rs)),
        forall|i: int| 0 <= i < grouped(rs).len() ==> #[trigger] grouped(rs)[i].1 <= rs.len(),
        grouped(rs).len() <= rs.len(),
    decreases rs.len(),
{
    if rs.len() > 0 {
        lemma_grouped_distinct(rs.drop_last());
    }
}

/// Groups the reactions to a message by emoji.
pub fn reaction_groups(reactions: &Vec<Reaction>) -> (r: Vec<(String, usize)>)
    ensures
        groups_view(r@) == grouped(reactions@),
{
    let mut groups: Vec<(String, usize)> = Vec::new();
    let mut i: usize = 0;
    while i < reactions.len()
        invariant
            i <= reactions.len(),
            groups_view(groups@) == grouped(reactions@.take(i as int)),
        decreases reactions.len() - i,
    {
        proof {
            lemma_grouped_distinct(reactions@.take(i as int));
        }
        let emoji = &reactions[i].emoji;
        let mut j: usize = 0;
        let mut found: Option<usize> = None;
        while j < groups.len()
            invariant_except_break
                found is None,
            invariant
                j <= groups.len(),
                forall|k: int| 0 <= k < j ==> groups@[k].0@ != emoji@,
            ensures
                found matches Some(x) ==> x < groups@.len() && groups@[x as int].0@ == emoji@,
                found is None ==> forall|k: int| 0 <= k < groups@.len() ==> groups@[k].0@ != emoji@,
            decreases groups.len() - j,
        {
            if groups[j].0 == *emoji {
                found = Some(j);
                break;
            }
            j = j + 1;
        }
        let ghost rs = reactions@.take(i + 1);
        let ghost g = grouped(reactions@.take(i as int));
        proof {
            assert(rs.drop_last() =~= reactions@.take(i as int));
            assert(rs.last() == reactions@[i as int]);
            assert forall|k: int| 0 <= k < groups@.len() implies #[trigger] g[k] == (
                groups@[k].0@,
                groups@[k].1 as nat,
            ) by {
                assert(groups_view(groups@)[k] == (groups@[k].0@, groups@[k].1 as nat));
            }
        }
        match found {
            Some(j) => {
                proof {
                    assert(g[j as int].0 == emoji@);
                    let c = find_group(g, emoji@)->0;
                    assert(g[c].0 == emoji@);
                    if c != j {
                        if c < j {
                            assert(g[c].0 != g[j as int].0);
                        } else {
                            assert(g[j as int].0 != g[c].0);
                        }
                    }
                    assert(reactions@.take(i as int).len() == i);
                    assert(g[j as int].1 <= i);
                    assert(g[j as int] == (groups@[j as int].0@, groups@[j as int].1 as nat));
                    assert(groups@[j as int].1 <= i);
                }
                let count = groups[j].1 + 1;
                let name = groups[j].0.clone();
                groups.set(j, (name, count));
            },
            None => {
                proof {
                    assert forall|k: int| 0 <= k < g.len() implies g[k].0 != emoji@ by {
                        assert(g[k] == (groups@[k].0@, groups@[k].1 as nat));
                    }
                    assert(find_group(g, emoji@) is None);
                }
                groups.push((emoji.clone(), 1));
            },
        }
        proof {
            assert(groups_view(groups@) =~= grouped(rs));
        }
        i = i + 1;
    }
    proof {
        assert(reactions@.take(reactions@.len() as int) =~= reactions@);
    }
    groups
}

} // verus!

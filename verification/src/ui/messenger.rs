use std::collections::HashMap;

use vstd::prelude::*;

use crate::chat::Message;
use crate::events::AppEvent;
use crate::types::{Hotkey, Node};
use crate::ui::connection::hotkeys_match;
use crate::ui::input::{InputEvent, KeyCode};
use crate::ui::list::Selection;

verus! {

broadcast use vstd::std_specs::hash::group_hash_axioms;

/// The longest message, in bytes.
pub const INPUT_VALUE_MAX_LENGTH: usize = 200;

/// The chat screen of the open channel, for every channel it was shown for: the selection in
/// the message list, whether the list follows new messages, and the message being replied to
/// with its sender. The text being typed is kept by the caller.
pub struct Messenger {
    pub lists: HashMap<u32, Selection>,
    pub follow_chat: HashMap<u32, bool>,
    pub replying_to: HashMap<u32, (Node, u32)>,
}

/// What the chat screen asks for after an input event: an event for the services, and what is
/// to happen to the text being typed (the key goes to it, a new line starts, or it is cleared).
pub struct MessengerOutput {
    pub event: Option<AppEvent>,
    pub to_input: bool,
    pub newline: bool,
    pub clear_input: bool,
}

/// The selection of a channel's message list; a list never shown has the initial selection.
pub open spec fn list_of(lists: Map<u32, Selection>, ch: u32) -> Selection {
    if lists.contains_key(ch) {
        lists[ch]
    } else {
        Selection { selected: None, len: 0, wrap: true }
    }
}

/// The node a message is from: the known node, or else the placeholder.
pub open spec fn is_sender(n: Node, nodes: Map<u32, Node>, from: u32) -> bool {
    if nodes.contains_key(from) {
        n == nodes[from]
    } else {
        Node::is_unknown_spec(n)
    }
}

/// How an event moves the selection of the message list.
pub open spec fn moved(sel: Selection, event: InputEvent) -> Selection {
    match event {
        InputEvent::Key(k) => match k.code {
            KeyCode::Up => Selection { selected: sel.previous_spec(), ..sel },
            KeyCode::Down => Selection { selected: sel.next_spec(), ..sel },
            _ => sel,
        },
        InputEvent::ScrollUp => Selection { selected: sel.previous_spec(), ..sel },
        InputEvent::ScrollDown => Selection { selected: sel.next_spec(), ..sel },
        InputEvent::Other => sel,
    }
}

/// The event moves up through the list.
pub open spec fn moves_up(event: InputEvent) -> bool {
    event matches InputEvent::Key(k) && k.code == KeyCode::Up || event is ScrollUp
}

/// The event moves down through the list.
pub open spec fn moves_down(event: InputEvent) -> bool {
    event matches InputEvent::Key(k) && k.code == KeyCode::Down || event is ScrollDown
}

/// The message text is short enough to send.
pub open spec fn sendable(input: &str) -> bool {
    input.len() <= INPUT_VALUE_MAX_LENGTH
}

fn node_or_unknown(nodes: &HashMap<u32, Node>, key: u32) -> (r: Node)
    ensures
        is_sender(r, nodes@, key),
{
    match nodes.get(&key) {
        Some(n) => n.duplicate(),
        None => Node::unknown(),
    }
}

/// The key hints of the open channel, as (key, label) pairs.
pub open spec fn messenger_hotkeys(selected: bool, replying: bool, has_input: bool) -> Seq<
    (Seq<char>, Seq<char>),
> {
    let s0 = seq![("↑↓"@, "scroll"@)];
    let s1 = if selected && !replying {
        s0.push(("F2"@, "reply"@)).push(("F4"@, "node info"@))
    } else {
        s0
    };
    let s2 = if !replying {
        s1.push(("esc"@, "switch channel"@))
    } else {
        s1.push(("esc"@, "cancel reply"@))
    };
    if has_input {
        s2.push(
            (
                "enter"@,
                if replying {
                    "send reply"@
                } else {
                    "send"@
                },
            ),
        )
    } else {
        s2
    }
}

impl Messenger {
    pub fn new() -> (r: Messenger)
        ensures
            r.lists@ == Map::<u32, Selection>::empty(),
            r.follow_chat@ == Map::<u32, bool>::empty(),
            r.replying_to@ == Map::<u32, (Node, u32)>::empty(),
    {
        Messenger { lists: HashMap::new(), follow_chat: HashMap::new(), replying_to: HashMap::new() }
    }

    /// Brings the screen of a channel up to date before it is drawn: a channel shown for the
    /// first time follows new messages; a following list selects the last message; the list
    /// is drawn with the channel's messages, without wrapping.
    pub fn refresh(&mut self, channel: u32, message_count: usize)
        ensures
            final(self).follow_chat@ == (if old(self).follow_chat@.contains_key(channel) {
                old(self).follow_chat@
            } else {
                old(self).follow_chat@.insert(channel, true)
            }),
            final(self).lists@ == old(self).lists@.insert(
                channel,
                Selection {
                    selected: if final(self).follow_chat@[channel] && message_count > 0 {
                        Some((message_count - 1) as usize)
                    } else {
                        list_of(old(self).lists@, channel).selected
                    },
                    len: message_count,
                    wrap: false,
                },
            ),
            final(self).replying_to@ == old(self).replying_to@,
    {
        let mut sel = match self.lists.get(&channel) {
            Some(s) => *s,
            None => Selection::new(),
        };
        let follow = match self.follow_chat.get(&channel) {
            Some(f) => *f,
            None => {
                self.follow_chat.insert(channel, true);
                true
            },
        };
        if follow && message_count > 0 {
            sel.select(Some(message_count - 1));
        }
        sel.set_items(message_count, false);
        self.lists.insert(channel, sel);
    }

    /// The key hints of the open channel: scrolling; replying and the sender's details where a
    /// message is selected and no reply is under way; switching channel, or cancelling the
    /// reply; sending where the text is from 1 to 200 bytes long.
    pub fn get_hotkeys(&self, channel: u32, input: &str) -> (r: Vec<Hotkey>)
        ensures
            hotkeys_match(
                r@,
                messenger_hotkeys(
                    list_of(self.lists@, channel).selected is Some,
                    self.replying_to@.contains_key(channel),
                    1 <= input.len() <= INPUT_VALUE_MAX_LENGTH,
                ),
            ),
    {
        let selected = match self.lists.get(&channel) {
            Some(s) => s.selected.is_some(),
            None => false,
        };
        let replying = self.replying_to.contains_key(&channel);
        let len = input.len();
        let has_input = 1 <= len && len <= INPUT_VALUE_MAX_LENGTH;
        let mut hotkeys: Vec<Hotkey> = Vec::new();
        hotkeys.push(Hotkey::new("↑↓", "scroll"));
        if selected && !replying {
            hotkeys.push(Hotkey::new("F2", "reply"));
            hotkeys.push(Hotkey::new("F4", "node info"));
        }
        if !replying {
            hotkeys.push(Hotkey::new("esc", "switch channel"));
        } else {
            hotkeys.push(Hotkey::new("esc", "cancel reply"));
        }
        if has_input {
            if replying {
                hotkeys.push(Hotkey::new("enter", "send reply"));
            } else {
                hotkeys.push(Hotkey::new("enter", "send"));
            }
        }
        hotkeys
    }

    /// Answers an input event on the open channel `channel`, whose messages are `messages`,
    /// while the text being typed is `input`. Up and down (and the mouse wheel) move through
    /// the messages; moving up stops following new messages, moving down follows them again on
    /// reaching the last. Escape switches channel, or cancels the reply under way. Enter with
    /// control starts a new line; enter alone sends the text (at most 200 bytes) as a message,
    /// or as the reply under way, and clears it. F2 starts a reply to the selected message.
    /// Other keys go to the text.
    pub fn handle_event(
        &mut self,
        channel: u32,
        messages: &Vec<Message>,
        nodes: &HashMap<u32, Node>,
        input: &str,
        event: InputEvent,
    ) -> (r: MessengerOutput)
        requires
            (moves_down(event) && moved(list_of(old(self).lists@, channel), event).selected is Some)
                ==> messages@.len() > 0,
        ensures
            ({
                let sel0 = list_of(old(self).lists@, channel);
                let sel = moved(sel0, event);
                let replying = old(self).replying_to@.contains_key(channel);
                &&& final(self).lists@ == old(self).lists@.insert(channel, sel)
                &&& final(self).follow_chat@ == if moves_up(event) {
                    old(self).follow_chat@.insert(channel, false)
                } else if moves_down(event) && sel.selected is Some {
                    old(self).follow_chat@.insert(
                        channel,
                        sel.selected->0 == messages@.len() - 1,
                    )
                } else {
                    old(self).follow_chat@
                }
                &&& match event {
                    InputEvent::Key(k) => match k.code {
                        KeyCode::Up | KeyCode::Down => r.event is None && !r.to_input && !r.newline
                            && !r.clear_input && final(self).replying_to@ == old(self).replying_to@,
                        KeyCode::Esc => !r.to_input && !r.newline && !r.clear_input && if replying {
                            r.event is None && final(self).replying_to@ == old(self).replying_to@.remove(channel)
                        } else {
                            r.event == Some(AppEvent::SwitchChannelRequested)
                                && final(self).replying_to@ == old(self).replying_to@
                        },
                        KeyCode::Enter => !r.to_input && if k.ctrl {
                            r.event is None && r.newline && !r.clear_input && final(self).replying_to@ == old(self).replying_to@
                        } else if !sendable(input) {
                            r.event is None && !r.newline && !r.clear_input && final(self).replying_to@ == old(self).replying_to@
                        } else if replying {
                            &&& r.event matches Some(
                                AppEvent::ChatMessageSubmitted { text, reply_message_id },
                            )
                            &&& text@ == input@
                            &&& reply_message_id == Some(old(self).replying_to@[channel].1)
                            &&& !r.newline && r.clear_input
                            &&& final(self).replying_to@ == old(self).replying_to@.remove(channel)
                        } else {
                            &&& r.event matches Some(
                                AppEvent::ChatMessageSubmitted { text, reply_message_id },
                            )
                            &&& text@ == input@
                            &&& reply_message_id is None
                            &&& !r.newline && r.clear_input
                            &&& final(self).replying_to@ == old(self).replying_to@
                        },
                        KeyCode::F(2) => r.event is None && !r.to_input && !r.newline
                            && !r.clear_input && match sel0.selected {
                            Some(i) => if i < messages@.len() {
                                &&& final(self).replying_to@.dom() == old(self).replying_to@.dom().insert(channel)
                                &&& forall|c: u32|
                                    c != channel && #[trigger] final(self).replying_to@.contains_key(c)
                                        ==> final(self).replying_to@[c] == old(self).replying_to@[c]
                                &&& final(self).replying_to@[channel].1 == messages@[i as int].id
                                &&& is_sender(
                                    final(self).replying_to@[channel].0,
                                    nodes@,
                                    messages@[i as int].from,
                                )
                            } else {
                                final(self).replying_to@ == old(self).replying_to@
                            },
                            None => final(self).replying_to@ == old(self).replying_to@,
                        },
                        _ => r.event is None && r.to_input && !r.newline && !r.clear_input
                            && final(self).replying_to@ == old(self).replying_to@,
                    },
                    _ => r.event is None && !r.to_input && !r.newline && !r.clear_input
                        && final(self).replying_to@ == old(self).replying_to@,
                }
            }),
    {
        let mut sel = match self.lists.get(&channel) {
            Some(s) => *s,
            None => Selection::new(),
        };
        let replying = self.replying_to.contains_key(&channel);
        let mut out = MessengerOutput {
            event: None,
            to_input: false,
            newline: false,
            clear_input: false,
        };
        let mut down = false;
        match event {
            InputEvent::Key(k) => match k.code {
                KeyCode::Up => {
                    self.follow_chat.insert(channel, false);
                    sel.previous();
                },
                KeyCode::Down => {
                    sel.next();
                    down = true;
                },
                KeyCode::Esc => {
                    if replying {
                        self.replying_to.remove(&channel);
                    } else {
                        out.event = Some(AppEvent::SwitchChannelRequested);
                    }
                },
                KeyCode::Enter => {
                    if k.ctrl {
                        out.newline = true;
                    } else if input.len() <= INPUT_VALUE_MAX_LENGTH {
                        if replying {
                            match self.replying_to.remove(&channel) {
                                Some((_, message_id)) => {
                                    out.event = Some(
                                        AppEvent::ChatMessageSubmitted {
                                            text: input.to_owned(),
                                            reply_message_id: Some(message_id),
                                        },
                                    );
                                    out.clear_input = true;
                                },
                                None => {},
                            }
                        } else {
                            out.event = Some(
                                AppEvent::ChatMessageSubmitted {
                                    text: input.to_owned(),
                                    reply_message_id: None,
                                },
                            );
                            out.clear_input = true;
                        }
                    }
                },
                KeyCode::F(2) => {
                    match sel.selected {
                        Some(index) => {
                            if index < messages.len() {
                                let m = &messages[index];
                                let node = node_or_unknown(nodes, m.from);
                                self.replying_to.insert(channel, (node, m.id));
                            }
                        },
                        None => {},
                    }
                },
                _ => {
                    out.to_input = true;
                },
            },
            InputEvent::ScrollUp => {
                self.follow_chat.insert(channel, false);
                sel.previous();
            },
            InputEvent::ScrollDown => {
                sel.next();
                down = true;
            },
            InputEvent::Other => {},
        }
        if down {
            match sel.selected {
                Some(index) => {
                    self.follow_chat.insert(channel, index == messages.len() - 1);
                },
                None => {},
            }
        }
        self.lists.insert(channel, sel);
        out
    }
}

} // verus!

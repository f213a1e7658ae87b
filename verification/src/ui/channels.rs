use std::collections::HashMap;

use itertools::Itertools;
use vstd::prelude::*;
use vstd::std_specs::iter::IteratorSpec;

use crate::events::AppEvent;
use crate::types::{Channel, ChannelRole, Hotkey};
use crate::ui::connection::hotkeys_match;
use crate::ui::input::{InputEvent, KeyCode};
use crate::ui::list::Selection;

verus! {

broadcast use vstd::std_specs::hash::group_hash_axioms;

/// Sorts channels with `Itertools::sorted_by_key`, by their key. The contract is what
/// `sorted_by_key` (a stable sort) gives: the same channels, in non-decreasing order of key.
#[verifier::external_body]
fn sorted_by_channel_key(channels: Vec<Channel>) -> (r: Vec<Channel>)
    ensures
        r@.to_multiset() == channels@.to_multiset(),
        forall|i: int, j: int| 0 <= i < j < r.len() ==> #[trigger] r[i].key <= #[trigger] r[j].key,
{
    channels.into_iter().sorted_by_key(|ch| ch.key).collect()
}

/// The channel list: the channels of the map that are in use, by key.
pub open spec fn is_channel_list(r: Seq<Channel>, channels: Map<u32, Channel>) -> bool {
    &&& forall|c: Channel| #[trigger] r.contains(c) <==> (exists|k: u32| #[trigger]
        channels.contains_key(k) && channels[k] == c) && c.role != ChannelRole::Disabled
    &&& forall|i: int, j: int| 0 <= i < j < r.len() ==> #[trigger] r[i].key <= #[trigger] r[j].key
}

proof fn lemma_push_contains<A>(s: Seq<A>, x: A, c: A)
    ensures
        s.push(x).contains(c) <==> (s.contains(c) || c == x),
{
    if s.push(x).contains(c) {
        let i = choose|i: int| 0 <= i < s.push(x).len() && s.push(x)[i] == c;
        if i < s.len() {
            assert(s[i] == c);
        }
    }
    if s.contains(c) {
        let i = choose|i: int| 0 <= i < s.len() && s[i] == c;
        assert(s.push(x)[i] == c);
    }
    if c == x {
        assert(s.push(x)[s.len() as int] == c);
    }
}

/// The keys of a channel map, each once.
fn channel_keys(channels: &HashMap<u32, Channel>) -> (r: Vec<u32>)
    ensures
        r@.to_set() == channels@.dom(),
{
    let mut keys: Vec<u32> = Vec::new();
    let ghost r = vstd::std_specs::hash::spec_keys_iter(channels).remaining();
    for k in it: channels.keys()
        invariant
            keys.len() == it.index(),
            it.seq() == r,
            forall|i: int| 0 <= i < it.index() ==> keys[i] == *it.seq()[i],
    {
        keys.push(*k);
    }
    assert(keys@ =~= r.unref());
    keys
}

/// Lists the channels in use, by key.
pub fn channel_list(channels: &HashMap<u32, Channel>) -> (r: Vec<Channel>)
    ensures
        is_channel_list(r@, channels@),
{
    let keys = channel_keys(channels);
    let mut list: Vec<Channel> = Vec::new();
    let mut i: usize = 0;
    while i < keys.len()
        invariant
            i <= keys.len(),
            keys@.to_set() == channels@.dom(),
            forall|c: Channel| #[trigger] list@.contains(c) <==> (exists|j: int|
                0 <= j < i && #[trigger] channels@[keys@[j]] == c) && c.role != ChannelRole::Disabled,
        decreases keys.len() - i,
    {
        let k = keys[i];
        proof {
            assert(keys@.to_set().contains(k));
        }
        let ch = channels.get(&k).unwrap();
        let ghost before = list@;
        if !ch.role.is_disabled() {
            list.push(ch.duplicate());
        }
        proof {
            assert forall|c: Channel| #[trigger] list@.contains(c) <==> (exists|j: int|
                0 <= j < i + 1 && #[trigger] channels@[keys@[j]] == c) && c.role
                != ChannelRole::Disabled by {
                if ch.role != ChannelRole::Disabled {
                    lemma_push_contains(before, *ch, c);
                }
                if exists|j: int| 0 <= j < i + 1 && #[trigger] channels@[keys@[j]] == c {
                    let j = choose|j: int| 0 <= j < i + 1 && #[trigger] channels@[keys@[j]] == c;
                    if j < i {
                        assert(exists|j: int| 0 <= j < i && #[trigger] channels@[keys@[j]] == c);
                    }
                }
                if exists|j: int| 0 <= j < i && #[trigger] channels@[keys@[j]] == c {
                    let j = choose|j: int| 0 <= j < i && #[trigger] channels@[keys@[j]] == c;
                    assert(0 <= j < i + 1 && channels@[keys@[j]] == c);
                }
                if c == *ch {
                    assert(channels@[keys@[i as int]] == c);
                }
            }
        }
        i = i + 1;
    }
    let sorted = sorted_by_channel_key(list);
    proof {
        assert forall|c: Channel| #[trigger] sorted@.contains(c) <==> (exists|k: u32| #[trigger]
            channels@.contains_key(k) && channels@[k] == c) && c.role != ChannelRole::Disabled by {
            broadcast use vstd::seq_lib::group_to_multiset_ensures;
            assert(sorted@.contains(c) <==> sorted@.to_multiset().count(c) > 0);
            assert(list@.contains(c) <==> list@.to_multiset().count(c) > 0);
            if exists|k: u32| channels@.contains_key(k) && channels@[k] == c {
                let k = choose|k: u32| channels@.contains_key(k) && channels@[k] == c;
                assert(keys@.to_set().contains(k));
                let j = choose|j: int| 0 <= j < keys@.len() && keys@[j] == k;
                assert(channels@[keys@[j]] == c);
            }
            if list@.contains(c) {
                let j = choose|j: int| 0 <= j < keys@.len() && #[trigger] channels@[keys@[j]] == c;
                assert(keys@.to_set().contains(keys@[j]));
            }
        }
    }
    sorted
}

/// The channel screen: the channels in use and the selection among them.
pub struct Channels {
    pub channels: Vec<Channel>,
    pub list: Selection,
    pub hotkeys: Vec<Hotkey>,
}

impl Channels {
    pub fn new() -> (r: Channels)
        ensures
            r.channels@.len() == 0,
            r.list == (Selection { selected: None, len: 0, wrap: true }),
            hotkeys_match(r.hotkeys@, seq![("↑↓"@, "navigate"@), ("enter"@, "open"@)]),
    {
        let mut hotkeys: Vec<Hotkey> = Vec::new();
        hotkeys.push(Hotkey::new("↑↓", "navigate"));
        hotkeys.push(Hotkey::new("enter", "open"));
        Channels { channels: Vec::new(), list: Selection::new(), hotkeys }
    }

    /// Brings the screen up to date before it is drawn: the channel list is rebuilt, and its
    /// first channel is selected where none is.
    pub fn refresh(&mut self, channels: &HashMap<u32, Channel>)
        ensures
            is_channel_list(final(self).channels@, channels@),
            final(self).list.len == final(self).channels@.len(),
            !final(self).list.wrap,
            final(self).list.selected == (if old(self).list.selected is None
                && final(self).channels@.len() > 0 {
                Some(0usize)
            } else {
                old(self).list.selected
            }),
            final(self).hotkeys@ == old(self).hotkeys@,
    {
        self.channels = channel_list(channels);
        if self.channels.len() > 0 && self.list.selected.is_none() {
            self.list.select(Some(0));
        }
        self.list.set_items(self.channels.len(), false);
    }

    /// Answers an input event: up and down (and the mouse wheel) move through the list; enter
    /// opens the selected channel.
    pub fn handle_event(&mut self, event: InputEvent) -> (r: Option<AppEvent>)
        requires
            old(self).list.selected matches Some(i) ==> i < old(self).channels@.len(),
        ensures
            final(self).channels@ == old(self).channels@,
            final(self).hotkeys@ == old(self).hotkeys@,
            final(self).list == (Selection {
                selected: match event {
                    InputEvent::Key(k) => match k.code {
                        KeyCode::Up => old(self).list.previous_spec(),
                        KeyCode::Down => old(self).list.next_spec(),
                        _ => old(self).list.selected,
                    },
                    InputEvent::ScrollUp => old(self).list.previous_spec(),
                    InputEvent::ScrollDown => old(self).list.next_spec(),
                    InputEvent::Other => old(self).list.selected,
                },
                ..old(self).list
            }),
            r == (if event matches InputEvent::Key(k) && k.code == KeyCode::Enter {
                match old(self).list.selected {
                    Some(i) => Some(AppEvent::ChannelSelected(old(self).channels@[i as int].key)),
                    None => None,
                }
            } else {
                None
            }),
    {
        match event {
            InputEvent::Key(k) => match k.code {
                KeyCode::Up => {
                    self.list.previous();
                    None
                },
                KeyCode::Down => {
                    self.list.next();
                    None
                },
                KeyCode::Enter => match self.list.selected {
                    Some(i) => Some(AppEvent::ChannelSelected(self.channels[i].key)),
                    None => None,
                },
                _ => None,
            },
            InputEvent::ScrollUp => {
                self.list.previous();
                None
            },
            InputEvent::ScrollDown => {
                self.list.next();
                None
            },
            InputEvent::Other => None,
        }
    }
}

} // verus!

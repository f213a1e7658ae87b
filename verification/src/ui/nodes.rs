use vstd::prelude::*;

use crate::text::{decimal, decimal_string};
use crate::types::Hotkey;
use crate::ui::connection::hotkeys_match;
use crate::ui::input::{InputEvent, KeyCode};
use crate::ui::list::Selection;
use crate::ui::styled::{Styled, Tint};

verus! {

/// How long ago a node was heard, for an age of `secs` whole seconds: "now" within a minute,
/// then minutes, hours and minutes, or days and hours.
pub open spec fn humanized_age(secs: i64) -> Seq<(Seq<char>, Tint)> {
    if secs < 60 {
        seq![("now"@, Tint::Green)]
    } else if secs / 60 < 60 {
        seq![(decimal((secs / 60) as nat) + "m"@, Tint::Plain), (" ago"@, Tint::DarkGray)]
    } else if secs / 3600 < 24 {
        seq![
            (decimal((secs / 3600) as nat) + "h "@ + decimal(((secs / 60) % 60) as nat) + "m"@, Tint::Plain),
            (" ago"@, Tint::DarkGray),
        ]
    } else {
        seq![
            (decimal((secs / 86400) as nat) + "d "@ + decimal(((secs / 3600) % 24) as nat) + "h"@, Tint::Plain),
            (" ago"@, Tint::DarkGray),
        ]
    }
}

/// The pieces of text are those with the given texts and colours, in order.
pub open spec fn styled_match(r: Seq<Styled>, pieces: Seq<(Seq<char>, Tint)>) -> bool {
    &&& r.len() == pieces.len()
    &&& forall|i: int| 0 <= i < r.len() ==> r[i].text@ == pieces[i].0 && r[i].tint == pieces[i].1
}

/// How long ago a node was heard, for an age of `secs` whole seconds.
pub fn humanize_duration(secs: i64) -> (r: Vec<Styled>)
    ensures
        styled_match(r@, humanized_age(secs)),
{
    let mut r: Vec<Styled> = Vec::new();
    if secs < 60 {
        r.push(Styled::new("now", Tint::Green));
        return r;
    }
    let minutes = (secs / 60) as u64;
    let hours = (secs / 3600) as u64;
    let days = (secs / 86400) as u64;
    let text = if minutes < 60 {
        decimal_string(minutes).concat("m")
    } else if hours < 24 {
        let t = decimal_string(hours).concat("h ");
        let t = t.concat(decimal_string(minutes % 60).as_str());
        t.concat("m")
    } else {
        let t = decimal_string(days).concat("d ");
        let t = t.concat(decimal_string(hours % 24).as_str());
        t.concat("h")
    };
    proof {
        assert(secs / 3600 == (secs / 60) / 60) by (nonlinear_arith)
            requires secs >= 60;
        assert(secs / 86400 == (secs / 3600) / 24) by (nonlinear_arith)
            requires secs >= 60;
    }
    r.push(Styled { text, tint: Tint::Plain });
    r.push(Styled::new(" ago", Tint::DarkGray));
    r
}

/// The node screen: the selection in the node list.
pub struct Nodes {
    pub list: Selection,
    pub hotkeys: Vec<Hotkey>,
}

impl Nodes {
    pub fn new() -> (r: Nodes)
        ensures
            r.list == (Selection { selected: None, len: 0, wrap: true }),
            hotkeys_match(
                r.hotkeys@,
                seq![("↑↓"@, "scroll"@), ("enter"@, "expand"@), ("s"@, "sort by"@)],
            ),
    {
        let mut hotkeys: Vec<Hotkey> = Vec::new();
        hotkeys.push(Hotkey::new("↑↓", "scroll"));
        hotkeys.push(Hotkey::new("enter", "expand"));
        hotkeys.push(Hotkey::new("s", "sort by"));
        Nodes { list: Selection::new(), hotkeys }
    }

    /// Brings the screen up to date before it is drawn with `count` nodes: the first node is
    /// selected where none is.
    pub fn refresh(&mut self, count: usize)
        ensures
            final(self).list == (Selection {
                selected: if old(self).list.selected is None && count > 0 {
                    Some(0usize)
                } else {
                    old(self).list.selected
                },
                len: count,
                wrap: false,
            }),
            final(self).hotkeys@ == old(self).hotkeys@,
    {
        if count > 0 && self.list.selected.is_none() {
            self.list.select(Some(0));
        }
        self.list.set_items(count, false);
    }

    /// Answers an input event on a list of `count` nodes: up and down (and the mouse wheel)
    /// move through the list; home and end go to its first and last node.
    pub fn handle_event(&mut self, count: usize, event: InputEvent)
        requires
            event matches InputEvent::Key(k) && k.code == KeyCode::End ==> count > 0,
        ensures
            final(self).hotkeys@ == old(self).hotkeys@,
            final(self).list == (Selection {
                selected: match event {
                    InputEvent::Key(k) => match k.code {
                        KeyCode::Up => old(self).list.previous_spec(),
                        KeyCode::Down => old(self).list.next_spec(),
                        KeyCode::Home => Some(0usize),
                        KeyCode::End => Some((count - 1) as usize),
                        _ => old(self).list.selected,
                    },
                    InputEvent::ScrollUp => old(self).list.previous_spec(),
                    InputEvent::ScrollDown => old(self).list.next_spec(),
                    InputEvent::Other => old(self).list.selected,
                },
                ..old(self).list
            }),
    {
        match event {
            InputEvent::Key(k) => match k.code {
                KeyCode::Up => self.list.previous(),
                KeyCode::Down => self.list.next(),
                KeyCode::Home => self.list.select(Some(0)),
                KeyCode::End => self.list.select(Some(count - 1)),
                _ => {},
            },
            InputEvent::ScrollUp => self.list.previous(),
            InputEvent::ScrollDown => self.list.next(),
            InputEvent::Other => {},
        }
    }
}

/// The tabs of the node details.
#[derive(Clone, Copy, Debug, PartialEq, Eq, Structural)]
pub enum NodeInfoTab {
    Info,
    Traceroutes,
    Position,
    Telemetry,
}

/// Number of tabs of the node details.
pub const NODE_INFO_TAB_COUNT: usize = 4;

impl NodeInfoTab {
    /// Position of the tab.
    pub open spec fn index(self) -> int {
        match self {
            NodeInfoTab::Info => 0,
            NodeInfoTab::Traceroutes => 1,
            NodeInfoTab::Position => 2,
            NodeInfoTab::Telemetry => 3,
        }
    }

    /// The tab at a position.
    pub open spec fn at(i: int) -> NodeInfoTab {
        if i == 0 {
            NodeInfoTab::Info
        } else if i == 1 {
            NodeInfoTab::Traceroutes
        } else if i == 2 {
            NodeInfoTab::Position
        } else {
            NodeInfoTab::Telemetry
        }
    }

    fn position(self) -> (r: usize)
        ensures
            r == self.index(),
    {
        match self {
            NodeInfoTab::Info => 0,
            NodeInfoTab::Traceroutes => 1,
            NodeInfoTab::Position => 2,
            NodeInfoTab::Telemetry => 3,
        }
    }

    fn from_position(i: usize) -> (r: NodeInfoTab)
        requires
            i < NODE_INFO_TAB_COUNT,
        ensures
            r == NodeInfoTab::at(i as int),
    {
        if i == 0 {
            NodeInfoTab::Info
        } else if i == 1 {
            NodeInfoTab::Traceroutes
        } else if i == 2 {
            NodeInfoTab::Position
        } else {
            NodeInfoTab::Telemetry
        }
    }

    /// The tab before this one; before the first comes the last.
    pub fn prev(self) -> (r: NodeInfoTab)
        ensures
            r == NodeInfoTab::at((self.index() + NODE_INFO_TAB_COUNT - 1) % (NODE_INFO_TAB_COUNT as int)),
    {
        let i = self.position();
        if i == 0 {
            NodeInfoTab::from_position(NODE_INFO_TAB_COUNT - 1)
        } else {
            NodeInfoTab::from_position(i - 1)
        }
    }

    /// The tab after this one; after the last comes the first.
    pub fn next(self) -> (r: NodeInfoTab)
        ensures
            r == NodeInfoTab::at((self.index() + 1) % (NODE_INFO_TAB_COUNT as int)),
    {
        let i = self.position();
        if i + 1 > NODE_INFO_TAB_COUNT - 1 {
            NodeInfoTab::from_position(0)
        } else {
            NodeInfoTab::from_position(i + 1)
        }
    }
}

/// Moving to the next tab and back leaves the tab of the node details unchanged.
pub proof fn law_node_info_tab_next_prev_inverse(t: NodeInfoTab)
    ensures
        NodeInfoTab::at((NodeInfoTab::at((t.index() + 1) % 4).index() + 4 - 1) % 4) == t,
        NodeInfoTab::at((NodeInfoTab::at((t.index() + 4 - 1) % 4).index() + 1) % 4) == t,
{
}

/// What the node details ask for.
#[derive(Clone, Debug)]
pub enum NodeInfoWidgetEvent {
    CloseRequested,
    CopyToClipboardRequested(String),
    NodeDeleteRequested,
    TracerouteRequested,
}

/// What the node details read of the node shown: the text of its public key, where it has a
/// user, and for each telemetry item the text that copying it gives, where there is one.
pub struct NodeInfoContext {
    pub public_key_text: Option<String>,
    pub telemetry_texts: Vec<Option<String>>,
}

/// The node details: the open tab, the selections in the traceroute and telemetry lists, and
/// whether the removal of the node awaits confirmation.
#[derive(Clone, Copy, Debug)]
pub struct NodeInfoWidgetState {
    pub active_tab: NodeInfoTab,
    pub traceroute_list: Selection,
    pub telemetry_list: Selection,
    pub is_delete_node_popup_visible: bool,
}

/// The event moves through a list: up and down, and the mouse wheel.
pub open spec fn is_navigation(event: InputEvent) -> bool {
    ||| event matches InputEvent::Key(k) && (k.code == KeyCode::Up || k.code == KeyCode::Down)
    ||| event is ScrollUp
    ||| event is ScrollDown
}

/// A list after a navigation event.
pub open spec fn navigated(sel: Selection, event: InputEvent) -> Selection {
    if event is ScrollUp || (event matches InputEvent::Key(k) && k.code == KeyCode::Up) {
        Selection { selected: sel.previous_spec(), ..sel }
    } else {
        Selection { selected: sel.next_spec(), ..sel }
    }
}

/// A plain press of the key.
pub open spec fn plain_key(event: InputEvent, code: KeyCode) -> bool {
    event matches InputEvent::Key(k) && k.code == code && k.plain_spec()
}

fn navigate(sel: &mut Selection, event: InputEvent) -> (handled: bool)
    ensures
        handled == is_navigation(event),
        handled ==> *final(sel) == navigated(*old(sel), event),
        !handled ==> *final(sel) == *old(sel),
{
    match event {
        InputEvent::Key(k) => match k.code {
            KeyCode::Up => {
                sel.previous();
                true
            },
            KeyCode::Down => {
                sel.next();
                true
            },
            _ => false,
        },
        InputEvent::ScrollUp => {
            sel.previous();
            true
        },
        InputEvent::ScrollDown => {
            sel.next();
            true
        },
        InputEvent::Other => false,
    }
}

impl NodeInfoWidgetState {
    pub fn new() -> (r: NodeInfoWidgetState)
        ensures
            r.active_tab == NodeInfoTab::Info,
            r.traceroute_list == (Selection { selected: None, len: 0, wrap: true }),
            r.telemetry_list == (Selection { selected: None, len: 0, wrap: true }),
            !r.is_delete_node_popup_visible,
    {
        NodeInfoWidgetState {
            active_tab: NodeInfoTab::Info,
            traceroute_list: Selection::new(),
            telemetry_list: Selection::new(),
            is_delete_node_popup_visible: false,
        }
    }

    /// The key hints of the open tab: closing; on the information tab copying the public key
    /// and, for another node than this one, removing it; running a traceroute; copying a
    /// telemetry item.
    pub fn get_hotkeys(&self, is_my_node: bool) -> (r: Vec<Hotkey>)
        ensures
            hotkeys_match(
                r@,
                match self.active_tab {
                    NodeInfoTab::Info => if is_my_node {
                        seq![("esc"@, "close"@), ("k"@, "copy public key"@)]
                    } else {
                        seq![("esc"@, "close"@), ("k"@, "copy public key"@), ("delete"@, "remove"@)]
                    },
                    NodeInfoTab::Traceroutes => seq![("esc"@, "close"@), ("r"@, "run traceroute"@)],
                    NodeInfoTab::Telemetry => seq![("esc"@, "close"@), ("c"@, "copy"@)],
                    NodeInfoTab::Position => Seq::empty(),
                },
            ),
    {
        let mut r: Vec<Hotkey> = Vec::new();
        match self.active_tab {
            NodeInfoTab::Info => {
                r.push(Hotkey::new("esc", "close"));
                r.push(Hotkey::new("k", "copy public key"));
                if !is_my_node {
                    r.push(Hotkey::new("delete", "remove"));
                }
            },
            NodeInfoTab::Traceroutes => {
                r.push(Hotkey::new("esc", "close"));
                r.push(Hotkey::new("r", "run traceroute"));
            },
            NodeInfoTab::Telemetry => {
                r.push(Hotkey::new("esc", "close"));
                r.push(Hotkey::new("c", "copy"));
            },
            NodeInfoTab::Position => {},
        }
        r
    }

    /// Answers an input event; the first part of the result says whether the details took it.
    /// While the removal awaits confirmation, enter confirms it and escape cancels it, and
    /// every event is taken. Up and down move through the traceroute or telemetry list of that
    /// tab. Tab and back-tab switch tabs; escape closes the details; on the information tab,
    /// `k` copies the public key and delete (or backspace) asks to confirm the removal; on the
    /// traceroute tab `r` runs a traceroute; on the telemetry tab `c` copies the selected item.
    pub fn handle_event(&mut self, ctx: &NodeInfoContext, event: InputEvent) -> (r: (
        bool,
        Option<NodeInfoWidgetEvent>,
    ))
        ensures
            old(self).is_delete_node_popup_visible ==> {
                &&& r.0
                &&& final(self).active_tab == old(self).active_tab
                &&& final(self).traceroute_list == old(self).traceroute_list
                &&& final(self).telemetry_list == old(self).telemetry_list
                &&& if plain_key(event, KeyCode::Enter) {
                    r.1 matches Some(NodeInfoWidgetEvent::NodeDeleteRequested)
                        && !final(self).is_delete_node_popup_visible
                } else if plain_key(event, KeyCode::Esc) {
                    r.1 is None && !final(self).is_delete_node_popup_visible
                } else {
                    r.1 is None && final(self).is_delete_node_popup_visible
                }
            },
            !old(self).is_delete_node_popup_visible && old(self).active_tab == NodeInfoTab::Traceroutes
                && is_navigation(event) ==> r.0 && r.1 is None && final(self).traceroute_list
                == navigated(old(self).traceroute_list, event) && final(self).telemetry_list
                == old(self).telemetry_list && final(self).active_tab == old(self).active_tab
                && !final(self).is_delete_node_popup_visible,
            !old(self).is_delete_node_popup_visible && old(self).active_tab == NodeInfoTab::Telemetry
                && is_navigation(event) ==> r.0 && r.1 is None && final(self).telemetry_list
                == navigated(old(self).telemetry_list, event) && final(self).traceroute_list
                == old(self).traceroute_list && final(self).active_tab == old(self).active_tab
                && !final(self).is_delete_node_popup_visible,
            !old(self).is_delete_node_popup_visible && !((old(self).active_tab
                == NodeInfoTab::Traceroutes || old(self).active_tab == NodeInfoTab::Telemetry)
                && is_navigation(event)) ==> {
                &&& final(self).traceroute_list == old(self).traceroute_list
                &&& final(self).telemetry_list == old(self).telemetry_list
                &&& final(self).active_tab == (if plain_key(event, KeyCode::Tab) {
                    NodeInfoTab::at((old(self).active_tab.index() + 1) % 4)
                } else if (event matches InputEvent::Key(k) && k.code == KeyCode::BackTab) {
                    NodeInfoTab::at((old(self).active_tab.index() + 4 - 1) % 4)
                } else {
                    old(self).active_tab
                })
                &&& final(self).is_delete_node_popup_visible == (old(self).active_tab
                    == NodeInfoTab::Info && (plain_key(event, KeyCode::Delete) || plain_key(
                    event,
                    KeyCode::Backspace,
                )))
                &&& if plain_key(event, KeyCode::Tab) || (event matches InputEvent::Key(k)
                    && k.code == KeyCode::BackTab) {
                    r.0 && r.1 is None
                } else if old(self).active_tab == NodeInfoTab::Info && plain_key(event, KeyCode::Char('k')) {
                    match ctx.public_key_text {
                        Some(t) => r.0 && (r.1 matches Some(
                            NodeInfoWidgetEvent::CopyToClipboardRequested(x),
                        ) && x == t),
                        None => !r.0 && r.1 is None,
                    }
                } else if old(self).active_tab == NodeInfoTab::Info && (plain_key(event, KeyCode::Delete)
                    || plain_key(event, KeyCode::Backspace)) {
                    r.0 && r.1 is None
                } else if old(self).active_tab == NodeInfoTab::Traceroutes && plain_key(
                    event,
                    KeyCode::Char('r'),
                ) {
                    r.0 && r.1 matches Some(NodeInfoWidgetEvent::TracerouteRequested)
                } else if old(self).active_tab == NodeInfoTab::Telemetry && plain_key(
                    event,
                    KeyCode::Char('c'),
                ) {
                    match old(self).telemetry_list.selected {
                        Some(i) => if i < ctx.telemetry_texts@.len() {
                            r.0 && match ctx.telemetry_texts@[i as int] {
                                Some(t) => r.1 matches Some(NodeInfoWidgetEvent::CopyToClipboardRequested(x))
                                    && x == t,
                                None => r.1 is None,
                            }
                        } else {
                            !r.0 && r.1 is None
                        },
                        None => !r.0 && r.1 is None,
                    }
                } else if plain_key(event, KeyCode::Esc) {
                    r.0 && r.1 matches Some(NodeInfoWidgetEvent::CloseRequested)
                } else {
                    !r.0 && r.1 is None
                }
            },
    {
        if self.is_delete_node_popup_visible {
            let mut emitted: Option<NodeInfoWidgetEvent> = None;
            match event {
                InputEvent::Key(k) => {
                    if k.is_plain() {
                        match k.code {
                            KeyCode::Enter => {
                                emitted = Some(NodeInfoWidgetEvent::NodeDeleteRequested);
                                self.is_delete_node_popup_visible = false;
                            },
                            KeyCode::Esc => {
                                self.is_delete_node_popup_visible = false;
                            },
                            _ => {},
                        }
                    }
                },
                _ => {},
            }
            return (true, emitted);
        }
        let mut traceroutes = self.traceroute_list;
        let mut telemetry = self.telemetry_list;
        let navigated_list = if self.active_tab == NodeInfoTab::Traceroutes {
            navigate(&mut traceroutes, event)
        } else if self.active_tab == NodeInfoTab::Telemetry {
            navigate(&mut telemetry, event)
        } else {
            false
        };
        self.traceroute_list = traceroutes;
        self.telemetry_list = telemetry;
        if navigated_list {
            return (true, None);
        }
        let plain = match event {
            InputEvent::Key(k) => k.is_plain(),
            _ => false,
        };
        let code = match event {
            InputEvent::Key(k) => k.code,
            _ => KeyCode::Other,
        };
        let is_key = match event {
            InputEvent::Key(_) => true,
            _ => false,
        };
        if is_key && code == KeyCode::Tab && plain {
            self.active_tab = self.active_tab.next();
            (true, None)
        } else if is_key && code == KeyCode::BackTab {
            self.active_tab = self.active_tab.prev();
            (true, None)
        } else if self.active_tab == NodeInfoTab::Info && is_key && code == KeyCode::Char('k') && plain {
            match &ctx.public_key_text {
                Some(t) => (true, Some(NodeInfoWidgetEvent::CopyToClipboardRequested(t.clone()))),
                None => (false, None),
            }
        } else if self.active_tab == NodeInfoTab::Info && is_key && (code == KeyCode::Delete
            || code == KeyCode::Backspace) && plain {
            self.is_delete_node_popup_visible = true;
            (true, None)
        } else if self.active_tab == NodeInfoTab::Traceroutes && is_key && code == KeyCode::Char('r')
            && plain {
            (true, Some(NodeInfoWidgetEvent::TracerouteRequested))
        } else if self.active_tab == NodeInfoTab::Telemetry && is_key && code == KeyCode::Char('c')
            && plain {
            match self.telemetry_list.selected {
                Some(i) => if i < ctx.telemetry_texts.len() {
                    match &ctx.telemetry_texts[i] {
                        Some(t) => (true, Some(NodeInfoWidgetEvent::CopyToClipboardRequested(t.clone()))),
                        None => (true, None),
                    }
                } else {
                    (false, None)
                },
                None => (false, None),
            }
        } else if is_key && code == KeyCode::Esc && plain {
            (true, Some(NodeInfoWidgetEvent::CloseRequested))
        } else {
            (false, None)
        }
    }
}

} // verus!

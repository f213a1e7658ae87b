use vstd::prelude::*;

use crate::order::{
    compare_strings, compare_u32, lemma_order_chars_equal, lemma_order_chars_flip,
    lemma_order_chars_transitive, order_chars, order_int, Order,
};

verus! {

/// A point in UTC time: whole seconds since the Unix epoch and the nanoseconds within that second.
#[derive(Clone, Copy, Debug, PartialEq, Eq, Structural)]
pub struct UtcTime {
    pub secs: i64,
    pub nanos: u32,
}

/// Chronological order of two points in time.
pub open spec fn order_time(a: UtcTime, b: UtcTime) -> Order {
    order_int(a.secs as int, b.secs as int).or_else(order_int(a.nanos as int, b.nanos as int))
}

impl UtcTime {
    /// The Unix epoch, the default point in time.
    pub fn epoch() -> (t: UtcTime)
        ensures
            t.secs == 0 && t.nanos == 0,
    {
        UtcTime { secs: 0, nanos: 0 }
    }

    /// Three-way chronological comparison.
    pub fn compare(&self, other: &UtcTime) -> (r: Order)
        ensures
            r == order_time(*self, *other),
    {
        let s = if self.secs < other.secs {
            Order::Less
        } else if self.secs == other.secs {
            Order::Equal
        } else {
            Order::Greater
        };
        s.then_order(compare_u32(self.nanos, other.nanos))
    }
}

/// Key that orders the bit patterns of IEEE-754 single-precision numbers as `f32::total_cmp` does:
/// negative numbers (sign bit set) below positive ones, each by magnitude.
pub open spec fn snr_rank(bits: u32) -> int {
    if bits >= 0x8000_0000 {
        0xFFFF_FFFF - bits
    } else {
        bits + 0x8000_0000
    }
}

/// Executable form of `snr_rank`.
pub fn snr_rank_of(bits: u32) -> (r: u32)
    ensures
        r == snr_rank(bits),
{
    if bits >= 0x8000_0000 {
        0xFFFF_FFFF - bits
    } else {
        bits + 0x8000_0000
    }
}

/// The key by which node lists are sorted.
#[derive(Clone, Copy, Debug, PartialEq, Eq, Structural)]
pub enum NodesSortBy {
    Hops,
    ShortName,
    LongName,
    LastHeard,
    Role,
    HwModel,
}

impl NodesSortBy {
    /// The default sort key, by hops.
    pub fn default_key() -> (r: NodesSortBy)
        ensures
            r == NodesSortBy::Hops,
    {
        NodesSortBy::Hops
    }
}

/// A node of the mesh as the application knows it.
/// `snr` holds the bit pattern of the single-precision signal-to-noise ratio.
#[derive(Clone, Debug)]
pub struct Node {
    pub id: String,
    pub key: u32,
    pub short_name: String,
    pub long_name: String,
    pub hops_away: Option<u32>,
    pub last_heard: Option<UtcTime>,
    pub snr: u32,
    pub role: String,
    pub hw_model: String,
    pub my: bool,
}

impl Node {
    /// A copy of the node.
    pub fn duplicate(&self) -> (r: Node)
        ensures
            r == *self,
    {
        Node {
            id: self.id.clone(),
            key: self.key,
            short_name: self.short_name.clone(),
            long_name: self.long_name.clone(),
            hops_away: self.hops_away,
            last_heard: self.last_heard,
            snr: self.snr,
            role: self.role.clone(),
            hw_model: self.hw_model.clone(),
            my: self.my,
        }
    }
}

/// Hop count used for ordering: unknown counts sort last.
pub open spec fn hops_rank(n: Node) -> int {
    match n.hops_away {
        Some(h) => h as int,
        None => u32::MAX as int,
    }
}

/// Last-heard time used for ordering: never heard counts as the epoch.
pub open spec fn heard_rank(n: Node) -> UtcTime {
    match n.last_heard {
        Some(t) => t,
        None => UtcTime { secs: 0, nanos: 0 },
    }
}

/// Fewest hops first, then strongest signal first.
pub open spec fn order_by_hops(a: Node, b: Node) -> Order {
    order_int(hops_rank(a), hops_rank(b)).or_else(
        order_int(snr_rank(a.snr), snr_rank(b.snr)).flip(),
    )
}

/// Order of nodes under a sort key, ignoring which node is the local one.
pub open spec fn order_by_key(a: Node, b: Node, by: NodesSortBy) -> Order {
    match by {
        NodesSortBy::Hops => order_by_hops(a, b),
        NodesSortBy::LastHeard => order_time(heard_rank(a), heard_rank(b)).flip(),
        NodesSortBy::ShortName => order_chars(a.short_name@, b.short_name@),
        NodesSortBy::LongName => order_chars(a.long_name@, b.long_name@),
        NodesSortBy::HwModel => order_chars(a.hw_model@, b.hw_model@).or_else(
            order_chars(a.short_name@, b.short_name@),
        ),
        NodesSortBy::Role => order_chars(a.role@, b.role@).or_else(order_by_hops(a, b)),
    }
}

/// The order of the node list: the local node first, all others by the sort key.
pub open spec fn node_order(a: Node, b: Node, by: NodesSortBy) -> Order {
    if a.my && b.my {
        Order::Equal
    } else if !a.my && b.my {
        Order::Greater
    } else if a.my && !b.my {
        Order::Less
    } else {
        order_by_key(a, b, by)
    }
}

fn compare_by_hops(a: &Node, b: &Node) -> (r: Order)
    ensures
        r == order_by_hops(*a, *b),
{
    let ha = match a.hops_away {
        Some(h) => h,
        None => u32::MAX,
    };
    let hb = match b.hops_away {
        Some(h) => h,
        None => u32::MAX,
    };
    let snr = compare_u32(snr_rank_of(a.snr), snr_rank_of(b.snr));
    compare_u32(ha, hb).then_order(snr.reverse())
}

/// `a` comes no later than `b` in the node list.
pub open spec fn node_le(a: Node, b: Node, by: NodesSortBy) -> bool {
    node_order(a, b, by) != Order::Greater
}

proof fn lemma_strings_flip(a: Node, b: Node)
    ensures
        order_chars(b.short_name@, a.short_name@) == order_chars(a.short_name@, b.short_name@).flip(),
        order_chars(b.long_name@, a.long_name@) == order_chars(a.long_name@, b.long_name@).flip(),
        order_chars(b.hw_model@, a.hw_model@) == order_chars(a.hw_model@, b.hw_model@).flip(),
        order_chars(b.role@, a.role@) == order_chars(a.role@, b.role@).flip(),
{
    lemma_order_chars_flip(a.short_name@, b.short_name@);
    lemma_order_chars_flip(a.long_name@, b.long_name@);
    lemma_order_chars_flip(a.hw_model@, b.hw_model@);
    lemma_order_chars_flip(a.role@, b.role@);
}

/// Swapping the two nodes flips the comparison.
pub proof fn lemma_node_order_flip(a: Node, b: Node, by: NodesSortBy)
    ensures
        node_order(b, a, by) == node_order(a, b, by).flip(),
{
    lemma_strings_flip(a, b);
}

proof fn lemma_chars_trans3(a: Seq<char>, b: Seq<char>, c: Seq<char>)
    ensures
        order_chars(a, b) != Order::Greater && order_chars(b, c) != Order::Greater ==> order_chars(
            a,
            c,
        ) != Order::Greater,
        order_chars(a, b) != Order::Greater && order_chars(b, c) != Order::Greater && (order_chars(
            a,
            b,
        ) == Order::Less || order_chars(b, c) == Order::Less) ==> order_chars(a, c) == Order::Less,
        order_chars(a, b) == Order::Equal ==> a == b,
        order_chars(b, c) == Order::Equal ==> b == c,
        order_chars(a, c) == order_chars(a, c),
{
    if order_chars(a, b) != Order::Greater && order_chars(b, c) != Order::Greater {
        lemma_order_chars_transitive(a, b, c);
    }
    lemma_order_chars_equal(a, b);
    lemma_order_chars_equal(b, c);
}

/// The node order is transitive.
pub proof fn lemma_node_order_transitive(a: Node, b: Node, c: Node, by: NodesSortBy)
    requires
        node_le(a, b, by),
        node_le(b, c, by),
    ensures
        node_le(a, c, by),
{
    lemma_chars_trans3(a.short_name@, b.short_name@, c.short_name@);
    lemma_chars_trans3(a.long_name@, b.long_name@, c.long_name@);
    lemma_chars_trans3(a.hw_model@, b.hw_model@, c.hw_model@);
    lemma_chars_trans3(a.role@, b.role@, c.role@);
    lemma_order_chars_equal(a.short_name@, c.short_name@);
    lemma_order_chars_equal(a.hw_model@, c.hw_model@);
    lemma_order_chars_equal(a.role@, c.role@);
}

/// Three-way comparison of two nodes in the order of the node list.
pub fn compare_nodes(a: &Node, b: &Node, by: NodesSortBy) -> (r: Order)
    ensures
        r == node_order(*a, *b, by),
{
    if a.my && b.my {
        return Order::Equal;
    }
    if !a.my && b.my {
        return Order::Greater;
    }
    if a.my && !b.my {
        return Order::Less;
    }
    match by {
        NodesSortBy::Hops => compare_by_hops(a, b),
        NodesSortBy::LastHeard => {
            let ta = match a.last_heard {
                Some(t) => t,
                None => UtcTime::epoch(),
            };
            let tb = match b.last_heard {
                Some(t) => t,
                None => UtcTime::epoch(),
            };
            ta.compare(&tb).reverse()
        },
        NodesSortBy::ShortName => compare_strings(&a.short_name, &b.short_name),
        NodesSortBy::LongName => compare_strings(&a.long_name, &b.long_name),
        NodesSortBy::HwModel => compare_strings(&a.hw_model, &b.hw_model).then_order(
            compare_strings(&a.short_name, &b.short_name),
        ),
        NodesSortBy::Role => compare_strings(&a.role, &b.role).then_order(compare_by_hops(a, b)),
    }
}

} // verus!

verus! {

/// The tabs of the main screen, in display order.
#[derive(Clone, Copy, Debug, PartialEq, Eq, Structural)]
pub enum Tab {
    Chat,
    Nodes,
    Settings,
    Connection,
    Logs,
}

/// Number of tabs of the main screen.
pub const TAB_COUNT: usize = 5;

impl Tab {
    /// Position of the tab in display order.
    pub open spec fn index(self) -> int {
        match self {
            Tab::Chat => 0,
            Tab::Nodes => 1,
            Tab::Settings => 2,
            Tab::Connection => 3,
            Tab::Logs => 4,
        }
    }

    /// The tab at a position in display order.
    pub open spec fn at(i: int) -> Tab {
        if i == 0 {
            Tab::Chat
        } else if i == 1 {
            Tab::Nodes
        } else if i == 2 {
            Tab::Settings
        } else if i == 3 {
            Tab::Connection
        } else {
            Tab::Logs
        }
    }

    /// The tab before this one, the last one before the first.
    pub fn prev(self) -> (r: Tab)
        ensures
            r.index() == (self.index() + TAB_COUNT - 1) % (TAB_COUNT as int),
            r == Tab::at((self.index() + TAB_COUNT - 1) % (TAB_COUNT as int)),
    {
        match self {
            Tab::Chat => Tab::Logs,
            Tab::Nodes => Tab::Chat,
            Tab::Settings => Tab::Nodes,
            Tab::Connection => Tab::Settings,
            Tab::Logs => Tab::Connection,
        }
    }

    /// The tab after this one, the first one after the last.
    pub fn next(self) -> (r: Tab)
        ensures
            r.index() == (self.index() + 1) % (TAB_COUNT as int),
            r == Tab::at((self.index() + 1) % (TAB_COUNT as int)),
    {
        match self {
            Tab::Chat => Tab::Nodes,
            Tab::Nodes => Tab::Settings,
            Tab::Settings => Tab::Connection,
            Tab::Connection => Tab::Logs,
            Tab::Logs => Tab::Chat,
        }
    }

    /// The first tab, shown at start.
    pub fn first() -> (r: Tab)
        ensures
            r == Tab::Chat,
    {
        Tab::Chat
    }

    /// The name of the tab.
    pub open spec fn title_spec(self) -> Seq<char> {
        match self {
            Tab::Chat => "Chat"@,
            Tab::Nodes => "Nodes"@,
            Tab::Settings => "Settings"@,
            Tab::Connection => "Connection"@,
            Tab::Logs => "Logs"@,
        }
    }

    /// The name of the tab.
    pub fn title(self) -> (r: &'static str)
        ensures
            r@ == self.title_spec(),
    {
        match self {
            Tab::Chat => "Chat",
            Tab::Nodes => "Nodes",
            Tab::Settings => "Settings",
            Tab::Connection => "Connection",
            Tab::Logs => "Logs",
        }
    }
}

/// Moving to the next tab and back, or back and then on, returns to the same tab.
pub proof fn law_tab_next_prev_inverse(t: Tab)
    ensures
        Tab::at((Tab::at((t.index() + 1) % 5).index() + 4) % 5) == t,
        Tab::at((Tab::at((t.index() + 4) % 5).index() + 1) % 5) == t,
{
}

/// A key hint shown at the bottom of a screen.
#[derive(Clone, Debug)]
pub struct Hotkey {
    pub key: String,
    pub label: String,
}

impl Hotkey {
    pub fn new(key: &str, label: &str) -> (r: Hotkey)
        ensures
            r.key@ == key@,
            r.label@ == label@,
    {
        Hotkey { key: key.to_owned(), label: label.to_owned() }
    }
}

/// The kind of a toast message, which sets its colour and how long it stays.
#[derive(Clone, Copy, Debug, PartialEq, Eq, Structural)]
pub enum ToastKind {
    Success,
    Normal,
    Warning,
    Error,
}

impl ToastKind {
    pub open spec fn spec_timeout(self) -> u128 {
        match self {
            ToastKind::Success => 1500,
            ToastKind::Normal => 1500,
            ToastKind::Warning => 2000,
            ToastKind::Error => 3000,
        }
    }

    /// How many milliseconds a toast of this kind stays on screen.
    pub fn timeout(&self) -> (r: u128)
        ensures
            r == self.spec_timeout(),
    {
        match self {
            ToastKind::Success => 1500,
            ToastKind::Normal => 1500,
            ToastKind::Warning => 2000,
            ToastKind::Error => 3000,
        }
    }
}

/// A short message shown over the screen for a while.
#[derive(Clone, Debug)]
pub struct Toast {
    pub kind: ToastKind,
    pub text: String,
}

impl Toast {
    pub fn success(text: String) -> (r: Toast)
        ensures
            r.kind == ToastKind::Success,
            r.text == text,
    {
        Toast { kind: ToastKind::Success, text }
    }

    pub fn normal(text: String) -> (r: Toast)
        ensures
            r.kind == ToastKind::Normal,
            r.text == text,
    {
        Toast { kind: ToastKind::Normal, text }
    }

    pub fn warning(text: String) -> (r: Toast)
        ensures
            r.kind == ToastKind::Warning,
            r.text == text,
    {
        Toast { kind: ToastKind::Warning, text }
    }

    pub fn error(text: String) -> (r: Toast)
        ensures
            r.kind == ToastKind::Error,
            r.text == text,
    {
        Toast { kind: ToastKind::Error, text }
    }
}

/// The role of a channel.
#[derive(Clone, Copy, Debug, PartialEq, Eq, Structural)]
pub enum ChannelRole {
    Disabled,
    Primary,
    Secondary,
    Direct,
}

impl ChannelRole {
    pub fn is_disabled(&self) -> (r: bool)
        ensures
            r == (*self == ChannelRole::Disabled),
    {
        *self == ChannelRole::Disabled
    }

    pub fn is_direct(&self) -> (r: bool)
        ensures
            r == (*self == ChannelRole::Direct),
    {
        *self == ChannelRole::Direct
    }

    /// The role that a radio channel's role code stands for: 1 primary, 2 secondary, any other
    /// code disabled (the radio's own reading of an unknown code).
    pub open spec fn from_radio_code_spec(code: i32) -> ChannelRole {
        if code == 1 {
            ChannelRole::Primary
        } else if code == 2 {
            ChannelRole::Secondary
        } else {
            ChannelRole::Disabled
        }
    }

    pub fn from_radio_code(code: i32) -> (r: ChannelRole)
        ensures
            r == ChannelRole::from_radio_code_spec(code),
    {
        if code == 1 {
            ChannelRole::Primary
        } else if code == 2 {
            ChannelRole::Secondary
        } else {
            ChannelRole::Disabled
        }
    }
}

/// A chat channel: one of the radio's channels, or a direct conversation with a node.
#[derive(Clone, Debug)]
pub struct Channel {
    pub key: u32,
    pub id: u32,
    pub role: ChannelRole,
    pub name: String,
}

/// The value of a chat channel.
pub struct ChannelView {
    pub key: u32,
    pub id: u32,
    pub role: ChannelRole,
    pub name: Seq<char>,
}

impl View for Channel {
    type V = ChannelView;

    open spec fn view(&self) -> ChannelView {
        ChannelView { key: self.key, id: self.id, role: self.role, name: self.name@ }
    }
}

impl Channel {
    /// A copy of the channel.
    pub fn duplicate(&self) -> (r: Channel)
        ensures
            r == *self,
    {
        Channel { key: self.key, id: self.id, role: self.role, name: self.name.clone() }
    }

    pub fn disabled(index: u32) -> (r: Channel)
        ensures
            r.key == index,
            r.id == 0,
            r.role == ChannelRole::Disabled,
            r.name@ == Seq::<char>::empty(),
    {
        Channel { key: index, id: 0, role: ChannelRole::Disabled, name: String::new() }
    }

    /// The direct conversation with a node.
    pub open spec fn direct_spec(node_key: u32) -> ChannelView {
        ChannelView { key: node_key, id: 0, role: ChannelRole::Direct, name: Seq::empty() }
    }

    pub fn direct(node_key: u32) -> (r: Channel)
        ensures
            r.key == node_key,
            r.id == 0,
            r.role == ChannelRole::Direct,
            r.name@ == Seq::<char>::empty(),
    {
        Channel { key: node_key, id: 0, role: ChannelRole::Direct, name: String::new() }
    }
}

} // verus!

use std::collections::HashMap;

use vstd::prelude::*;

use crate::chat::{add_reaction, find_message, message_index, with_reaction, Message, MessageView};
use crate::device::{
    ConnectionState, Device, DeviceDiscoveringState, DeviceView, TcpAddr, TcpAddrView,
};
use crate::node_sort::{is_sorted_node_listing, sorted_node_keys};
use crate::settings::{set_field, with_field, FormField, FormId, FormValue, SettingsFormState};
use crate::state::{
    device_opt_view, devices_view, form_data_view, message_list_view, messages_view, tcp_view,
    AppConfig, Clock, LogRecord, State, StateView,
};
use crate::types::{Channel, Node, NodesSortBy, Tab, Toast, UtcTime};
use crate::change::{changes, lemma_same_is_nan_free, lemma_state_same_refl, nan_free, state_same};

verus! {

broadcast use vstd::std_specs::hash::group_hash_axioms;

/// A change to the application state.
#[derive(Debug)]
pub enum StateAction {
    AppConfigApply(AppConfig),
    ChannelActiveSet(u32),
    ChannelActiveUnset,
    ChannelEnsure(u32, Channel),
    DirectChatStart(u32),
    ConnectionFail(String),
    ConnectionStart,
    ConnectionStop,
    ConnectionSuccess,
    ReconnectionBackoffSet(u64),
    DeviceActiveSet(Device),
    DevicesAddTcp(TcpAddr),
    DeviceDiscoveringStart,
    DeviceDiscoveringFail(String),
    DeviceDiscoveringDone(Vec<Device>),
    DevicesRemoveTcp(TcpAddr),
    LogRecordAdd(LogRecord),
    MessageAdd(u32, Message),
    MessageReactionAdd { channel_key: u32, message_id: u32, emoji: String, node_key: u32 },
    MessageAck(u32, u32),
    MyNodeKeySet(u32),
    NodeAdd(Node),
    NodeUpdateLastHeard { node_key: u32, hops: u32, snr: u32 },
    NodesSortBySet(NodesSortBy),
    OnlineNodesSet(u16),
    RxTrigger,
    TabSwitchTo(Tab),
    TabSwitchToNext,
    TabSwitchToPrevious,
    FrameCleared,
    Toast(Toast),
    SettingsFormLoadingStart { id: FormId },
    SettingsFormLoadingFail { id: FormId, error: String },
    SettingsFormLoadingDone { id: FormId, data: Vec<FormField> },
    SettingsFormSavingStart { id: FormId },
    SettingsFormSavingFail { id: FormId, error: String },
    SettingsFormSavingDone { id: FormId },
    SettingsFormClose,
    SettingsFormValueSet { key: String, value: FormValue },
}

/// Position of the first address equal to `a`, if any.
pub open spec fn tcp_index(s: Seq<TcpAddrView>, a: TcpAddrView) -> Option<int> {
    if exists|i: int| 0 <= i < s.len() && s[i] == a {
        Some(choose|i: int| 0 <= i < s.len() && s[i] == a && (forall|j: int| 0 <= j < i ==> s[j] != a))
    } else {
        None
    }
}

/// The address list with `a` added at the end, unless it is already there.
pub open spec fn tcp_added(s: Seq<TcpAddrView>, a: TcpAddrView) -> Seq<TcpAddrView> {
    if s.contains(a) {
        s
    } else {
        s.push(a)
    }
}

/// The address list with the first occurrence of `a` taken out.
pub open spec fn tcp_removed(s: Seq<TcpAddrView>, a: TcpAddrView) -> Seq<TcpAddrView> {
    match tcp_index(s, a) {
        Some(i) => s.remove(i),
        None => s,
    }
}

/// The messages of a channel after an update of the first message with id `id`.
pub open spec fn message_reacted(
    msgs: Seq<MessageView>,
    id: u32,
    emoji: String,
    node_key: u32,
    at: UtcTime,
) -> Seq<MessageView> {
    match message_index(msgs, id) {
        Some(i) => msgs.update(
            i,
            MessageView { reactions: with_reaction(msgs[i].reactions, emoji, node_key, at), ..msgs[i] },
        ),
        None => msgs,
    }
}

pub open spec fn message_acked(msgs: Seq<MessageView>, id: u32) -> Seq<MessageView> {
    match message_index(msgs, id) {
        Some(i) => msgs.update(i, MessageView { acked: true, ..msgs[i] }),
        None => msgs,
    }
}

/// The node as added: marked as the local node where its key is the local node's key.
pub open spec fn node_as_added(n: Node, my_node_key: Option<u32>) -> Node {
    if my_node_key == Some(n.key) {
        Node { my: true, ..n }
    } else {
        n
    }
}

/// The action rearranges the node list.
pub open spec fn resorts(pre: StateView, a: StateAction) -> bool {
    match a {
        StateAction::NodeAdd(_) => true,
        StateAction::NodeUpdateLastHeard { node_key, .. } => pre.nodes.contains_key(node_key),
        _ => false,
    }
}

/// The state after an action, taken at clock reading `now`. Where the action rearranges the
/// node list, the list is left as it was here; `handle_action` states its new order.
#[verifier::opaque]
pub open spec fn next_state(pre: StateView, a: StateAction, now: Clock) -> StateView {
    match a {
        StateAction::AppConfigApply(cfg) => StateView {
            active_device: device_opt_view(cfg.active_device),
            tcp_devices: tcp_view(cfg.tcp_devices@),
            ..pre
        },
        StateAction::ChannelActiveSet(k) => StateView { active_channel_key: Some(k), ..pre },
        StateAction::ChannelActiveUnset => StateView { active_channel_key: None, ..pre },
        StateAction::ChannelEnsure(k, ch) => StateView {
            channels: if pre.channels.contains_key(k) {
                pre.channels
            } else {
                pre.channels.insert(k, ch@)
            },
            ..pre
        },
        StateAction::DirectChatStart(k) => StateView {
            channels: if pre.channels.contains_key(k) {
                pre.channels
            } else {
                pre.channels.insert(k, Channel::direct_spec(k))
            },
            active_channel_key: Some(k),
            active_tab: Tab::Chat,
            need_clear_frame: true,
            ..pre
        },
        StateAction::ConnectionFail(error) => StateView {
            connection_state: ConnectionState::ProblemDetected { since: now.ms, error },
            ..pre
        },
        StateAction::ConnectionStart => StateView {
            connection_state: ConnectionState::Connecting,
            connection_attempt: (pre.connection_attempt + 1) as u16,
            reconnection_backoff: None,
            ..pre
        },
        StateAction::ConnectionStop => StateView {
            connection_state: ConnectionState::NotConnected,
            connection_attempt: 0,
            reconnection_backoff: None,
            active_device: None,
            channels: Map::empty(),
            nodes_sort: Seq::empty(),
            nodes: Map::empty(),
            online_nodes: 0,
            ..pre
        },
        StateAction::ConnectionSuccess => StateView {
            connection_state: ConnectionState::Connected,
            connection_attempt: 0,
            reconnection_backoff: None,
            ..pre
        },
        StateAction::ReconnectionBackoffSet(ms) => StateView {
            reconnection_backoff: Some(ms),
            ..pre
        },
        StateAction::DeviceActiveSet(d) => StateView { active_device: Some(d@), ..pre },
        StateAction::DevicesAddTcp(t) => StateView {
            tcp_devices: tcp_added(pre.tcp_devices, t@),
            ..pre
        },
        StateAction::DeviceDiscoveringStart => StateView {
            device_discovering_state: DeviceDiscoveringState::Discovering,
            ..pre
        },
        StateAction::DeviceDiscoveringFail(e) => StateView {
            device_discovering_state: DeviceDiscoveringState::Failed(e),
            ..pre
        },
        StateAction::DeviceDiscoveringDone(ds) => StateView {
            device_discovering_state: DeviceDiscoveringState::Done,
            discovered_devices: devices_view(ds@),
            ..pre
        },
        StateAction::DevicesRemoveTcp(t) => StateView {
            tcp_devices: tcp_removed(pre.tcp_devices, t@),
            ..pre
        },
        StateAction::LogRecordAdd(r) => StateView { logs: pre.logs.push(r), ..pre },
        StateAction::MessageAdd(k, m) => StateView {
            messages: pre.messages.insert(
                k,
                if pre.messages.contains_key(k) {
                    pre.messages[k].push(m@)
                } else {
                    seq![m@]
                },
            ),
            ..pre
        },
        StateAction::MessageReactionAdd { channel_key, message_id, emoji, node_key } => StateView {
            messages: if pre.messages.contains_key(channel_key) {
                pre.messages.insert(
                    channel_key,
                    message_reacted(pre.messages[channel_key], message_id, emoji, node_key, now.utc),
                )
            } else {
                pre.messages
            },
            ..pre
        },
        StateAction::MessageAck(channel_key, message_id) => StateView {
            messages: if pre.messages.contains_key(channel_key) {
                pre.messages.insert(
                    channel_key,
                    message_acked(pre.messages[channel_key], message_id),
                )
            } else {
                pre.messages
            },
            ..pre
        },
        StateAction::MyNodeKeySet(k) => StateView {
            my_node_key: Some(k),
            nodes: if pre.nodes.contains_key(k) {
                pre.nodes.insert(k, Node { my: true, ..pre.nodes[k] })
            } else {
                pre.nodes
            },
            ..pre
        },
        StateAction::NodeAdd(n) => StateView {
            nodes: pre.nodes.insert(n.key, node_as_added(n, pre.my_node_key)),
            ..pre
        },
        StateAction::NodeUpdateLastHeard { node_key, hops, snr } => StateView {
            nodes: if pre.nodes.contains_key(node_key) {
                pre.nodes.insert(
                    node_key,
                    Node {
                        last_heard: Some(now.utc),
                        hops_away: Some(hops),
                        snr,
                        ..pre.nodes[node_key]
                    },
                )
            } else {
                pre.nodes
            },
            ..pre
        },
        StateAction::NodesSortBySet(by) => StateView { nodes_sort_by: by, ..pre },
        StateAction::OnlineNodesSet(n) => StateView { online_nodes: n, ..pre },
        StateAction::RxTrigger => StateView { rx_t: now.ms, rx: true, ..pre },
        StateAction::TabSwitchTo(t) => StateView { active_tab: t, need_clear_frame: true, ..pre },
        StateAction::TabSwitchToNext => StateView {
            active_tab: Tab::at((pre.active_tab.index() + 1) % 5),
            need_clear_frame: true,
            ..pre
        },
        StateAction::TabSwitchToPrevious => StateView {
            active_tab: Tab::at((pre.active_tab.index() + 4) % 5),
            need_clear_frame: true,
            ..pre
        },
        StateAction::FrameCleared => StateView { need_clear_frame: false, ..pre },
        StateAction::Toast(t) => StateView { toast_queue: pre.toast_queue.push(t), ..pre },
        StateAction::SettingsFormLoadingStart { id } => StateView {
            settings_form_state: SettingsFormState::Loading { id },
            ..pre
        },
        StateAction::SettingsFormLoadingFail { id, error } => StateView {
            settings_form_state: SettingsFormState::LoadingFailed { id, error },
            ..pre
        },
        StateAction::SettingsFormLoadingDone { id, data } => StateView {
            settings_form_state: SettingsFormState::Loaded { id },
            settings_form_data: Some(data@),
            ..pre
        },
        StateAction::SettingsFormSavingStart { id } => StateView {
            settings_form_state: SettingsFormState::Saving { id },
            ..pre
        },
        StateAction::SettingsFormSavingFail { id, error } => StateView {
            settings_form_state: SettingsFormState::SavingFailed { id, error },
            ..pre
        },
        StateAction::SettingsFormSavingDone { id } => StateView {
            settings_form_state: SettingsFormState::Saved { id },
            ..pre
        },
        StateAction::SettingsFormClose => StateView {
            settings_form_state: SettingsFormState::Inactive,
            settings_form_data: None,
            ..pre
        },
        StateAction::SettingsFormValueSet { key, value } => StateView {
            settings_form_data: match pre.settings_form_data {
                Some(fs) => Some(with_field(fs, key, value)),
                None => None,
            },
            ..pre
        },
    }
}

/// An action can be applied: the connection attempt counter has room for one more attempt.
pub open spec fn action_allowed(pre: StateView, a: StateAction) -> bool {
    a is ConnectionStart ==> pre.connection_attempt < u16::MAX
}

pub(crate) fn tcp_position(list: &Vec<TcpAddr>, a: &TcpAddr) -> (r: Option<usize>)
    ensures
        match r {
            Some(i) => tcp_index(tcp_view(list@), a@) == Some(i as int) && i < list@.len()
                && tcp_view(list@)[i as int] == a@,
            None => tcp_index(tcp_view(list@), a@) is None && !tcp_view(list@).contains(a@),
        },
{
    let ghost vs = tcp_view(list@);
    let mut i: usize = 0;
    while i < list.len()
        invariant
            i <= list.len(),
            vs == tcp_view(list@),
            forall|j: int| 0 <= j < i ==> vs[j] != a@,
        decreases list.len() - i,
    {
        if list[i].same_as(a) {
            proof {
                assert(vs[i as int] == a@);
                let c = tcp_index(vs, a@)->0;
                if c < i {
                    assert(vs[c] != a@);
                }
            }
            return Some(i);
        }
        i = i + 1;
    }
    None
}

fn add_tcp_device(list: &mut Vec<TcpAddr>, a: TcpAddr)
    ensures
        tcp_view(final(list)@) == tcp_added(tcp_view(old(list)@), a@),
{
    match tcp_position(list, &a) {
        Some(i) => {
            proof {
                assert(tcp_view(list@)[i as int] == a@);
            }
        },
        None => {
            list.push(a);
            proof {
                assert(tcp_view(list@) =~= tcp_view(old(list)@).push(a@));
            }
        },
    }
}

#[verifier::spinoff_prover]
#[verifier::rlimit(40)]
fn remove_tcp_device(list: &mut Vec<TcpAddr>, a: &TcpAddr)
    ensures
        tcp_view(final(list)@) == tcp_removed(tcp_view(old(list)@), a@),
{
    match tcp_position(list, a) {
        Some(i) => {
            let ghost before = list@;
            list.remove(i);
            proof {
                assert(list@ == before.remove(i as int));
                assert forall|j: int| 0 <= j < list@.len() implies tcp_view(list@)[j] == tcp_view(
                    before,
                ).remove(i as int)[j] by {
                    if j < i {
                        assert(list@[j] == before[j]);
                    } else {
                        assert(list@[j] == before[j + 1]);
                    }
                }
                assert(tcp_view(list@) =~= tcp_view(before).remove(i as int));
            }
        },
        None => {},
    }
}

#[verifier::spinoff_prover]
fn add_message(messages: &mut HashMap<u32, Vec<Message>>, key: u32, m: Message)
    ensures
        messages_view(final(messages)@) == messages_view(old(messages)@).insert(
            key,
            if old(messages)@.contains_key(key) {
                message_list_view(old(messages)@[key]).push(m@)
            } else {
                seq![m@]
            },
        ),
{
    let ghost m_view = m@;
    match messages.remove(&key) {
        Some(mut list) => {
            list.push(m);
            proof {
                assert(message_list_view(list) =~= message_list_view(old(messages)@[key]).push(m_view));
            }
            messages.insert(key, list);
        },
        None => {
            let mut list: Vec<Message> = Vec::new();
            list.push(m);
            proof {
                assert(message_list_view(list) =~= seq![m_view]);
            }
            messages.insert(key, list);
        },
    }
    proof {
        assert(messages_view(messages@) =~= messages_view(old(messages)@).insert(
            key,
            if old(messages)@.contains_key(key) {
                message_list_view(old(messages)@[key]).push(m_view)
            } else {
                seq![m_view]
            },
        ));
    }
}

#[verifier::spinoff_prover]
#[verifier::rlimit(40)]
fn react_to_message(
    messages: &mut HashMap<u32, Vec<Message>>,
    channel_key: u32,
    message_id: u32,
    emoji: String,
    node_key: u32,
    at: UtcTime,
)
    ensures
        messages_view(final(messages)@) == if old(messages)@.contains_key(channel_key) {
            messages_view(old(messages)@).insert(
                channel_key,
                message_reacted(
                    message_list_view(old(messages)@[channel_key]),
                    message_id,
                    emoji,
                    node_key,
                    at,
                ),
            )
        } else {
            messages_view(old(messages)@)
        },
{
    match messages.remove(&channel_key) {
        Some(mut list) => {
            let ghost before = message_list_view(list);
            match find_message(&list, message_id) {
                Some(i) => {
                    let mut m = list.remove(i);
                    add_reaction(&mut m.reactions, emoji, node_key, at);
                    list.insert(i, m);
                    proof {
                        assert(message_list_view(list) =~= message_reacted(
                            before,
                            message_id,
                            emoji,
                            node_key,
                            at,
                        ));
                    }
                },
                None => {},
            }
            messages.insert(channel_key, list);
            proof {
                assert(messages_view(messages@) =~= messages_view(old(messages)@).insert(
                    channel_key,
                    message_reacted(before, message_id, emoji, node_key, at),
                ));
            }
        },
        None => {
            proof {
                assert(messages@ =~= old(messages)@);
            }
        },
    }
}

#[verifier::spinoff_prover]
#[verifier::rlimit(40)]
fn ack_message(messages: &mut HashMap<u32, Vec<Message>>, channel_key: u32, message_id: u32)
    ensures
        messages_view(final(messages)@) == if old(messages)@.contains_key(channel_key) {
            messages_view(old(messages)@).insert(
                channel_key,
                message_acked(message_list_view(old(messages)@[channel_key]), message_id),
            )
        } else {
            messages_view(old(messages)@)
        },
{
    match messages.remove(&channel_key) {
        Some(mut list) => {
            let ghost before = message_list_view(list);
            match find_message(&list, message_id) {
                Some(i) => {
                    let mut m = list.remove(i);
                    m.acked = true;
                    list.insert(i, m);
                    proof {
                        assert(message_list_view(list) =~= message_acked(before, message_id));
                    }
                },
                None => {},
            }
            messages.insert(channel_key, list);
            proof {
                assert(messages_view(messages@) =~= messages_view(old(messages)@).insert(
                    channel_key,
                    message_acked(before, message_id),
                ));
            }
        },
        None => {
            proof {
                assert(messages@ =~= old(messages)@);
            }
        },
    }
}

/// Lists the node keys anew in the order of the node list.
fn update_nodes_sort(state: &mut State)
    ensures
        final(state)@ == (StateView { nodes_sort: final(state)@.nodes_sort, ..old(state)@ }),
        is_sorted_node_listing(final(state)@.nodes_sort, final(state)@.nodes, final(state)@.nodes_sort_by),
{
    state.nodes_sort = sorted_node_keys(&state.nodes, state.nodes_sort_by);
}

/// The group of actions an action belongs to: 0 devices, 1 connection and channels,
/// 2 log and messages, 3 nodes, 4 screen, 5 settings form.
pub open spec fn action_group(a: StateAction) -> int {
    match a {
        StateAction::AppConfigApply{..} => 0,
        StateAction::DeviceActiveSet{..} => 0,
        StateAction::DevicesAddTcp{..} => 0,
        StateAction::DevicesRemoveTcp{..} => 0,
        StateAction::DeviceDiscoveringStart{..} => 0,
        StateAction::DeviceDiscoveringFail{..} => 0,
        StateAction::DeviceDiscoveringDone{..} => 0,
        StateAction::ChannelActiveSet{..} => 1,
        StateAction::ChannelActiveUnset{..} => 1,
        StateAction::ChannelEnsure{..} => 1,
        StateAction::DirectChatStart{..} => 1,
        StateAction::ConnectionFail{..} => 1,
        StateAction::ConnectionStart{..} => 1,
        StateAction::ConnectionStop{..} => 1,
        StateAction::ConnectionSuccess{..} => 1,
        StateAction::ReconnectionBackoffSet{..} => 1,
        StateAction::OnlineNodesSet{..} => 1,
        StateAction::LogRecordAdd{..} => 2,
        StateAction::MessageAdd{..} => 2,
        StateAction::MessageReactionAdd{..} => 2,
        StateAction::MessageAck{..} => 2,
        StateAction::MyNodeKeySet{..} => 3,
        StateAction::NodeAdd{..} => 3,
        StateAction::NodeUpdateLastHeard{..} => 3,
        StateAction::NodesSortBySet{..} => 3,
        StateAction::RxTrigger{..} => 4,
        StateAction::TabSwitchTo{..} => 4,
        StateAction::TabSwitchToNext{..} => 4,
        StateAction::TabSwitchToPrevious{..} => 4,
        StateAction::FrameCleared{..} => 4,
        StateAction::Toast{..} => 4,
        StateAction::SettingsFormLoadingStart{..} => 5,
        StateAction::SettingsFormLoadingFail{..} => 5,
        StateAction::SettingsFormLoadingDone{..} => 5,
        StateAction::SettingsFormSavingStart{..} => 5,
        StateAction::SettingsFormSavingFail{..} => 5,
        StateAction::SettingsFormSavingDone{..} => 5,
        StateAction::SettingsFormClose{..} => 5,
        StateAction::SettingsFormValueSet{..} => 5,
    }
}

pub(crate) fn group_of(a: &StateAction) -> (g: u8)
    ensures
        g as int == action_group(*a),
{
    match a {
        StateAction::AppConfigApply{..} => 0,
        StateAction::DeviceActiveSet{..} => 0,
        StateAction::DevicesAddTcp{..} => 0,
        StateAction::DevicesRemoveTcp{..} => 0,
        StateAction::DeviceDiscoveringStart{..} => 0,
        StateAction::DeviceDiscoveringFail{..} => 0,
        StateAction::DeviceDiscoveringDone{..} => 0,
        StateAction::ChannelActiveSet{..} => 1,
        StateAction::ChannelActiveUnset{..} => 1,
        StateAction::ChannelEnsure{..} => 1,
        StateAction::DirectChatStart{..} => 1,
        StateAction::ConnectionFail{..} => 1,
        StateAction::ConnectionStart{..} => 1,
        StateAction::ConnectionStop{..} => 1,
        StateAction::ConnectionSuccess{..} => 1,
        StateAction::ReconnectionBackoffSet{..} => 1,
        StateAction::OnlineNodesSet{..} => 1,
        StateAction::LogRecordAdd{..} => 2,
        StateAction::MessageAdd{..} => 2,
        StateAction::MessageReactionAdd{..} => 2,
        StateAction::MessageAck{..} => 2,
        StateAction::MyNodeKeySet{..} => 3,
        StateAction::NodeAdd{..} => 3,
        StateAction::NodeUpdateLastHeard{..} => 3,
        StateAction::NodesSortBySet{..} => 3,
        StateAction::RxTrigger{..} => 4,
        StateAction::TabSwitchTo{..} => 4,
        StateAction::TabSwitchToNext{..} => 4,
        StateAction::TabSwitchToPrevious{..} => 4,
        StateAction::FrameCleared{..} => 4,
        StateAction::Toast{..} => 4,
        StateAction::SettingsFormLoadingStart{..} => 5,
        StateAction::SettingsFormLoadingFail{..} => 5,
        StateAction::SettingsFormLoadingDone{..} => 5,
        StateAction::SettingsFormSavingStart{..} => 5,
        StateAction::SettingsFormSavingFail{..} => 5,
        StateAction::SettingsFormSavingDone{..} => 5,
        StateAction::SettingsFormClose{..} => 5,
        StateAction::SettingsFormValueSet{..} => 5,
    }
}

fn apply_devices_action(state: &mut State, action: StateAction, now: Clock)
    requires
        old(state)@.wf(),
        action_allowed(old(state)@, action),
        action_group(action) == 0,
    ensures
        final(state)@.wf(),
        resorts(old(state)@, action) ==> final(state)@ == (StateView {
            nodes_sort: final(state)@.nodes_sort,
            ..next_state(old(state)@, action, now)
        }) && is_sorted_node_listing(
            final(state)@.nodes_sort,
            final(state)@.nodes,
            final(state)@.nodes_sort_by,
        ),
        !resorts(old(state)@, action) ==> final(state)@ == next_state(old(state)@, action, now),
{
    reveal(next_state);
    let ghost pre = state@;
    match action {
        StateAction::AppConfigApply(cfg) => {
            state.active_device = cfg.active_device;
            state.tcp_devices = cfg.tcp_devices;
        },
        StateAction::DeviceActiveSet(d) => {
            state.active_device = Some(d);
        },
        StateAction::DevicesAddTcp(t) => {
            add_tcp_device(&mut state.tcp_devices, t);
        },
        StateAction::DevicesRemoveTcp(t) => {
            remove_tcp_device(&mut state.tcp_devices, &t);
        },
        StateAction::DeviceDiscoveringStart => {
            state.device_discovering_state = DeviceDiscoveringState::Discovering;
        },
        StateAction::DeviceDiscoveringFail(e) => {
            state.device_discovering_state = DeviceDiscoveringState::Failed(e);
        },
        StateAction::DeviceDiscoveringDone(ds) => {
            state.device_discovering_state = DeviceDiscoveringState::Done;
            state.discovered_devices = ds;
        },
        _ => {},
    }
    proof {
        assert(state@.nodes_sort.to_set() =~= state@.nodes.dom());
    }
}

fn apply_connection_action(state: &mut State, action: StateAction, now: Clock)
    requires
        old(state)@.wf(),
        action_allowed(old(state)@, action),
        action_group(action) == 1,
    ensures
        final(state)@.wf(),
        resorts(old(state)@, action) ==> final(state)@ == (StateView {
            nodes_sort: final(state)@.nodes_sort,
            ..next_state(old(state)@, action, now)
        }) && is_sorted_node_listing(
            final(state)@.nodes_sort,
            final(state)@.nodes,
            final(state)@.nodes_sort_by,
        ),
        !resorts(old(state)@, action) ==> final(state)@ == next_state(old(state)@, action, now),
{
    reveal(next_state);
    let ghost pre = state@;
    match action {
        StateAction::ChannelActiveSet(k) => {
            state.active_channel_key = Some(k);
        },
        StateAction::ChannelActiveUnset => {
            state.active_channel_key = None;
        },
        StateAction::ChannelEnsure(k, ch) => {
            if !state.channels.contains_key(&k) {
                state.channels.insert(k, ch);
                proof {
                    assert(state@.channels =~= pre.channels.insert(k, ch@));
                }
            }
        },
        StateAction::DirectChatStart(k) => {
            if !state.channels.contains_key(&k) {
                state.channels.insert(k, Channel::direct(k));
                proof {
                    assert(state@.channels =~= pre.channels.insert(k, Channel::direct_spec(k)));
                }
            }
            state.active_channel_key = Some(k);
            state.active_tab = Tab::Chat;
            state.need_clear_frame = true;
        },
        StateAction::ConnectionFail(error) => {
            state.connection_state = ConnectionState::ProblemDetected { since: now.ms, error };
        },
        StateAction::ConnectionStart => {
            state.connection_state = ConnectionState::Connecting;
            state.connection_attempt = state.connection_attempt + 1;
            state.reconnection_backoff = None;
        },
        StateAction::ConnectionStop => {
            state.connection_state = ConnectionState::NotConnected;
            state.connection_attempt = 0;
            state.reconnection_backoff = None;
            state.active_device = None;
            state.channels.clear();
            proof {
                assert(state@.channels =~= Map::empty());
            }
            state.nodes_sort.clear();
            state.nodes.clear();
            state.online_nodes = 0;
            proof {
                assert(state@.nodes_sort.to_set() =~= state@.nodes.dom());
            }
        },
        StateAction::ConnectionSuccess => {
            state.connection_state = ConnectionState::Connected;
            state.connection_attempt = 0;
            state.reconnection_backoff = None;
        },
        StateAction::ReconnectionBackoffSet(ms) => {
            state.reconnection_backoff = Some(ms);
        },
        StateAction::OnlineNodesSet(n) => {
            state.online_nodes = n;
        },
        _ => {},
    }
    proof {
        assert(state@.nodes_sort.to_set() =~= state@.nodes.dom());
    }
}

fn apply_messages_action(state: &mut State, action: StateAction, now: Clock)
    requires
        old(state)@.wf(),
        action_allowed(old(state)@, action),
        action_group(action) == 2,
    ensures
        final(state)@.wf(),
        resorts(old(state)@, action) ==> final(state)@ == (StateView {
            nodes_sort: final(state)@.nodes_sort,
            ..next_state(old(state)@, action, now)
        }) && is_sorted_node_listing(
            final(state)@.nodes_sort,
            final(state)@.nodes,
            final(state)@.nodes_sort_by,
        ),
        !resorts(old(state)@, action) ==> final(state)@ == next_state(old(state)@, action, now),
{
    reveal(next_state);
    let ghost pre = state@;
    match action {
        StateAction::LogRecordAdd(r) => {
            state.logs.push(r);
        },
        StateAction::MessageAdd(k, m) => {
            add_message(&mut state.messages, k, m);
        },
        StateAction::MessageReactionAdd { channel_key, message_id, emoji, node_key } => {
            react_to_message(&mut state.messages, channel_key, message_id, emoji, node_key, now.utc);
        },
        StateAction::MessageAck(channel_key, message_id) => {
            ack_message(&mut state.messages, channel_key, message_id);
        },
        _ => {},
    }
    proof {
        assert(state@.nodes_sort.to_set() =~= state@.nodes.dom());
    }
}

fn apply_nodes_action(state: &mut State, action: StateAction, now: Clock)
    requires
        old(state)@.wf(),
        action_allowed(old(state)@, action),
        action_group(action) == 3,
    ensures
        final(state)@.wf(),
        resorts(old(state)@, action) ==> final(state)@ == (StateView {
            nodes_sort: final(state)@.nodes_sort,
            ..next_state(old(state)@, action, now)
        }) && is_sorted_node_listing(
            final(state)@.nodes_sort,
            final(state)@.nodes,
            final(state)@.nodes_sort_by,
        ),
        !resorts(old(state)@, action) ==> final(state)@ == next_state(old(state)@, action, now),
{
    reveal(next_state);
    let ghost pre = state@;
    let ghost a = action;
    match action {
        StateAction::MyNodeKeySet(k) => {
            state.my_node_key = Some(k);
            match state.nodes.remove(&k) {
                Some(mut n) => {
                    n.my = true;
                    state.nodes.insert(k, n);
                    proof {
                        assert(state@.nodes.dom() =~= pre.nodes.dom());
                        assert(state@.nodes =~= next_state(pre, a, now).nodes);
                    }
                },
                None => {
                    proof {
                        assert(state@.nodes =~= pre.nodes);
                    }
                },
            }
        },
        StateAction::NodeAdd(n) => {
            let mut n = n;
            match state.my_node_key {
                Some(k) => {
                    if n.key == k {
                        n.my = true;
                    }
                },
                None => {},
            }
            state.nodes.insert(n.key, n);
            proof {
                assert(state@.nodes =~= next_state(pre, a, now).nodes);
            }
            update_nodes_sort(state);
        },
        StateAction::NodeUpdateLastHeard { node_key, hops, snr } => {
            match state.nodes.remove(&node_key) {
                Some(mut n) => {
                    n.last_heard = Some(now.utc);
                    n.hops_away = Some(hops);
                    n.snr = snr;
                    state.nodes.insert(node_key, n);
                    proof {
                        assert(state@.nodes =~= next_state(pre, a, now).nodes);
                    }
                    update_nodes_sort(state);
                },
                None => {
                    proof {
                        assert(state@.nodes =~= pre.nodes);
                    }
                },
            }
        },
        StateAction::NodesSortBySet(by) => {
            state.nodes_sort_by = by;
        },
        _ => {},
    }
    proof {
        assert(state@.nodes_sort.to_set() =~= state@.nodes.dom());
    }
}

fn apply_screen_action(state: &mut State, action: StateAction, now: Clock)
    requires
        old(state)@.wf(),
        action_allowed(old(state)@, action),
        action_group(action) == 4,
    ensures
        final(state)@.wf(),
        resorts(old(state)@, action) ==> final(state)@ == (StateView {
            nodes_sort: final(state)@.nodes_sort,
            ..next_state(old(state)@, action, now)
        }) && is_sorted_node_listing(
            final(state)@.nodes_sort,
            final(state)@.nodes,
            final(state)@.nodes_sort_by,
        ),
        !resorts(old(state)@, action) ==> final(state)@ == next_state(old(state)@, action, now),
{
    reveal(next_state);
    let ghost pre = state@;
    match action {
        StateAction::RxTrigger => {
            state.rx_t = now.ms;
            state.rx = true;
        },
        StateAction::TabSwitchTo(t) => {
            state.active_tab = t;
            state.need_clear_frame = true;
        },
        StateAction::TabSwitchToNext => {
            state.active_tab = state.active_tab.next();
            state.need_clear_frame = true;
        },
        StateAction::TabSwitchToPrevious => {
            state.active_tab = state.active_tab.prev();
            state.need_clear_frame = true;
        },
        StateAction::FrameCleared => {
            state.need_clear_frame = false;
        },
        StateAction::Toast(t) => {
            state.toast_queue.push_back(t);
        },
        _ => {},
    }
    proof {
        assert(state@.nodes_sort.to_set() =~= state@.nodes.dom());
    }
}

fn apply_settings_action(state: &mut State, action: StateAction, now: Clock)
    requires
        old(state)@.wf(),
        action_allowed(old(state)@, action),
        action_group(action) == 5,
    ensures
        final(state)@.wf(),
        resorts(old(state)@, action) ==> final(state)@ == (StateView {
            nodes_sort: final(state)@.nodes_sort,
            ..next_state(old(state)@, action, now)
        }) && is_sorted_node_listing(
            final(state)@.nodes_sort,
            final(state)@.nodes,
            final(state)@.nodes_sort_by,
        ),
        !resorts(old(state)@, action) ==> final(state)@ == next_state(old(state)@, action, now),
{
    reveal(next_state);
    let ghost pre = state@;
    match action {
        StateAction::SettingsFormLoadingStart { id } => {
            state.settings_form_state = SettingsFormState::Loading { id };
        },
        StateAction::SettingsFormLoadingFail { id, error } => {
            state.settings_form_state = SettingsFormState::LoadingFailed { id, error };
        },
        StateAction::SettingsFormLoadingDone { id, data } => {
            state.settings_form_state = SettingsFormState::Loaded { id };
            state.settings_form_data = Some(data);
        },
        StateAction::SettingsFormSavingStart { id } => {
            state.settings_form_state = SettingsFormState::Saving { id };
        },
        StateAction::SettingsFormSavingFail { id, error } => {
            state.settings_form_state = SettingsFormState::SavingFailed { id, error };
        },
        StateAction::SettingsFormSavingDone { id } => {
            state.settings_form_state = SettingsFormState::Saved { id };
        },
        StateAction::SettingsFormClose => {
            state.settings_form_state = SettingsFormState::Inactive;
            state.settings_form_data = None;
        },
        StateAction::SettingsFormValueSet { key, value } => {
            match state.settings_form_data.take() {
                Some(mut fields) => {
                    set_field(&mut fields, key, value);
                    state.settings_form_data = Some(fields);
                },
                None => {},
            }
        },
        _ => {},
    }
    proof {
        assert(state@.nodes_sort.to_set() =~= state@.nodes.dom());
    }
}

/// `post` is the state after `handle_action` applied action `a` to `pre` at clock reading `now`:
/// the state `next_state` gives, with the node list put in order anew where the action
/// rearranges it.
pub open spec fn handled(pre: StateView, a: StateAction, now: Clock, post: StateView) -> bool {
    &&& resorts(pre, a) ==> post == (StateView { nodes_sort: post.nodes_sort, ..next_state(pre, a, now) })
        && is_sorted_node_listing(post.nodes_sort, post.nodes, post.nodes_sort_by)
    &&& !resorts(pre, a) ==> post == next_state(pre, a, now)
}

/// An action that rearranges the node list leaves it as it was in `next_state`.
proof fn lemma_resort_keeps_listing(pre: StateView, a: StateAction, now: Clock)
    requires
        resorts(pre, a),
    ensures
        next_state(pre, a, now).nodes_sort == pre.nodes_sort,
{
    reveal(next_state);
}

/// Whether two key lists are equal.
fn same_keys(a: &Vec<u32>, b: &Vec<u32>) -> (r: bool)
    ensures
        r == (a@ == b@),
{
    if a.len() != b.len() {
        return false;
    }
    let mut i: usize = 0;
    while i < a.len()
        invariant
            i <= a.len(),
            a.len() == b.len(),
            forall|j: int| 0 <= j < i ==> a@[j] == b@[j],
        decreases a.len() - i,
    {
        if a[i] != b[i] {
            return false;
        }
        i = i + 1;
    }
    proof {
        assert(a@ =~= b@);
    }
    true
}

/// Applies an action to the state, at clock reading `now`. Returns whether the state changed,
/// texts compared by their characters and numbers as numbers (so a state that holds a NaN
/// never equals the one before): the store publishes the new state exactly then.
pub fn handle_action(state: &mut State, action: StateAction, now: Clock) -> (changed: bool)
    requires
        old(state)@.wf(),
        action_allowed(old(state)@, action),
    ensures
        final(state)@.wf(),
        handled(old(state)@, action, now, final(state)@),
        changed == !state_same(final(state)@, old(state)@),
        final(state)@ == old(state)@ && nan_free(old(state)@) ==> !changed,
        !nan_free(old(state)@) ==> changed,
{
    let ghost pre = state@;
    let ghost a = action;
    let will_change = changes(state, &action, now);
    let listing_before = state.nodes_sort.clone();
    proof {
        assert(listing_before@ =~= pre.nodes_sort);
    }
    let g = group_of(&action);
    if g == 0 {
        apply_devices_action(state, action, now);
    } else if g == 1 {
        apply_connection_action(state, action, now);
    } else if g == 2 {
        apply_messages_action(state, action, now);
    } else if g == 3 {
        apply_nodes_action(state, action, now);
    } else if g == 4 {
        apply_screen_action(state, action, now);
    } else {
        apply_settings_action(state, action, now);
    }
    let relisted = !same_keys(&listing_before, &state.nodes_sort);
    proof {
        if resorts(pre, a) {
            lemma_resort_keeps_listing(pre, a, now);
        }
        if nan_free(pre) {
            lemma_state_same_refl(pre);
        }
        if state_same(state@, pre) {
            lemma_same_is_nan_free(state@, pre);
        }
    }
    will_change || relisted
}

/// How long, in milliseconds, the receive indicator stays lit after a packet.
pub const RX_TIMEOUT_MILLIS: u64 = 200;

/// Milliseconds from reading `since` to reading `now` of the monotonic clock; none where `now`
/// is the earlier reading.
pub open spec fn elapsed(since: u64, now: u64) -> int {
    if now >= since {
        now - since
    } else {
        0
    }
}

/// The state after the receive indicator's timeout is checked.
pub open spec fn tick_rx(pre: StateView, now: u64) -> StateView {
    if pre.rx && elapsed(pre.rx_t, now) > RX_TIMEOUT_MILLIS {
        StateView { rx: false, ..pre }
    } else {
        pre
    }
}

/// The shown toast has been on screen longer than its kind allows.
pub open spec fn toast_expired(s: StateView, now: u64) -> bool {
    match s.toast {
        Some(t) => elapsed(s.toast_t, now) > t.kind.spec_timeout(),
        None => false,
    }
}

/// The state after an expired toast is taken off the screen.
pub open spec fn tick_toast(pre: StateView, now: u64) -> StateView {
    if toast_expired(pre, now) {
        StateView { toast: None, ..pre }
    } else {
        pre
    }
}

/// The next queued toast is to be shown: one is waiting and none is on screen.
pub open spec fn toast_due(s: StateView) -> bool {
    s.toast_queue.len() > 0 && s.toast is None
}

/// The state after the first queued toast, if due, is put on screen.
pub open spec fn tick_queue(pre: StateView, now: u64) -> StateView {
    if toast_due(pre) {
        StateView {
            toast: Some(pre.toast_queue[0]),
            toast_queue: pre.toast_queue.drop_first(),
            toast_t: now,
            ..pre
        }
    } else {
        pre
    }
}

/// The state after a clock tick at monotonic reading `now`.
pub open spec fn tick_state(pre: StateView, now: u64) -> StateView {
    tick_queue(tick_toast(tick_rx(pre, now), now), now)
}

/// A tick changes something that is to be published.
pub open spec fn tick_changes(pre: StateView, now: u64) -> bool {
    (pre.rx && elapsed(pre.rx_t, now) > RX_TIMEOUT_MILLIS) || toast_expired(tick_rx(pre, now), now)
        || toast_due(tick_toast(tick_rx(pre, now), now))
}

fn elapsed_ms(since: u64, now: u64) -> (r: u64)
    ensures
        r == elapsed(since, now),
{
    if now >= since {
        now - since
    } else {
        0
    }
}

/// First step of a clock tick at monotonic reading `now`: the receive indicator goes out once
/// its timeout has passed. Returns whether it went out (a change to publish).
pub fn tick_receive_light(state: &mut State, now: u64) -> (changed: bool)
    ensures
        final(state)@ == tick_rx(old(state)@, now),
        changed == (old(state)@.rx && elapsed(old(state)@.rx_t, now) > RX_TIMEOUT_MILLIS),
{
    if state.rx && elapsed_ms(state.rx_t, now) > RX_TIMEOUT_MILLIS {
        state.rx = false;
        true
    } else {
        false
    }
}

/// Second step of a clock tick: a toast that has been on screen longer than its kind allows is
/// taken off. Returns whether it was (a change to publish).
pub fn tick_toast_expiry(state: &mut State, now: u64) -> (changed: bool)
    ensures
        final(state)@ == tick_toast(old(state)@, now),
        changed == toast_expired(old(state)@, now),
{
    let expired = match &state.toast {
        Some(t) => (elapsed_ms(state.toast_t, now) as u128) > t.kind.timeout(),
        None => false,
    };
    if expired {
        state.toast = None;
    }
    expired
}

/// Third step of a clock tick: with no toast on screen, the first queued toast is shown from
/// `now` on. Returns whether one was (a change to publish).
pub fn tick_next_toast(state: &mut State, now: u64) -> (changed: bool)
    ensures
        final(state)@ == tick_queue(old(state)@, now),
        changed == toast_due(old(state)@),
{
    if state.toast_queue.len() > 0 && state.toast.is_none() {
        let ghost q = state.toast_queue@;
        state.toast = state.toast_queue.pop_front();
        state.toast_t = now;
        proof {
            assert(state.toast_queue@ =~= q.drop_first());
        }
        true
    } else {
        false
    }
}

/// Handles a clock tick at monotonic reading `now`: turns the receive indicator off after its
/// timeout, takes an expired toast off the screen and shows the next queued one, in that order
/// (`tick_receive_light`, `tick_toast_expiry`, `tick_next_toast`, each of whose changes the
/// store publishes). Returns how many of the three steps changed the state.
pub fn handle_tick(state: &mut State, now: u64) -> (changes: u8)
    ensures
        final(state)@ == tick_state(old(state)@, now),
        changes == (if old(state)@.rx && elapsed(old(state)@.rx_t, now) > RX_TIMEOUT_MILLIS {
            1int
        } else {
            0int
        }) + (if toast_expired(tick_rx(old(state)@, now), now) {
            1int
        } else {
            0int
        }) + (if toast_due(tick_toast(tick_rx(old(state)@, now), now)) {
            1int
        } else {
            0int
        }),
        (changes > 0) == tick_changes(old(state)@, now),
{
    let mut changes: u8 = 0;
    if tick_receive_light(state, now) {
        changes = changes + 1;
    }
    if tick_toast_expiry(state, now) {
        changes = changes + 1;
    }
    if tick_next_toast(state, now) {
        changes = changes + 1;
    }
    changes
}

} // verus!

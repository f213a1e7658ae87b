use std::collections::HashMap;
use std::collections::VecDeque;

use vstd::prelude::*;

use crate::chat::{Message, MessageView};
use crate::device::{Device, DeviceDiscoveringState, DeviceView, ConnectionState, TcpAddr, TcpAddrView};
use crate::settings::{FormField, SettingsFormState};
use crate::types::{Channel, ChannelView, Node, NodesSortBy, Tab, Toast, UtcTime};

verus! {

broadcast use vstd::std_specs::hash::group_hash_axioms;

/// Severity of a log record.
#[derive(Clone, Copy, Debug, PartialEq, Eq, Structural)]
pub enum LogLevel {
    Trace,
    Debug,
    Info,
    Warn,
    Error,
}

/// A record of the application's log.
#[derive(Clone, Debug)]
pub struct LogRecord {
    pub datetime: UtcTime,
    pub level: LogLevel,
    pub source: String,
    pub message: String,
}

impl LogRecord {
    /// A copy of the record.
    pub fn duplicate(&self) -> (r: LogRecord)
        ensures
            r == *self,
    {
        LogRecord {
            datetime: self.datetime,
            level: self.level,
            source: self.source.clone(),
            message: self.message.clone(),
        }
    }
}

/// The part of the state that is kept between runs.
#[derive(Clone, Debug)]
pub struct AppConfig {
    pub active_tab: Tab,
    pub active_device: Option<Device>,
    pub tcp_devices: Vec<TcpAddr>,
    pub nodes_sort_by: NodesSortBy,
}

/// The two clocks the state is updated with: a monotonic clock in milliseconds, and the
/// wall clock in UTC.
#[derive(Clone, Copy, Debug)]
pub struct Clock {
    pub ms: u64,
    pub utc: UtcTime,
}

/// The state of the application.
/// `rx_t` and `toast_t` are readings of the monotonic clock in milliseconds;
/// `reconnection_backoff` is a number of milliseconds.
#[derive(Clone, Debug)]
pub struct State {
    pub active_channel_key: Option<u32>,
    pub active_device: Option<Device>,
    pub active_tab: Tab,
    pub app_name: String,
    pub app_version: String,
    pub channels: HashMap<u32, Channel>,
    pub connection_attempt: u16,
    pub connection_state: ConnectionState,
    pub reconnection_backoff: Option<u64>,
    pub discovered_devices: Vec<Device>,
    pub device_discovering_state: DeviceDiscoveringState,
    pub logs: Vec<LogRecord>,
    pub my_node_key: Option<u32>,
    pub messages: HashMap<u32, Vec<Message>>,
    pub nodes_sort_by: NodesSortBy,
    pub nodes_sort: Vec<u32>,
    pub nodes: HashMap<u32, Node>,
    pub online_nodes: u16,
    pub rx_t: u64,
    pub rx: bool,
    pub tcp_devices: Vec<TcpAddr>,
    pub need_clear_frame: bool,
    pub toast_queue: VecDeque<Toast>,
    pub toast: Option<Toast>,
    pub toast_t: u64,
    pub settings_form_state: SettingsFormState,
    pub settings_form_data: Option<Vec<FormField>>,
}

/// The value of the application state.
pub struct StateView {
    pub active_channel_key: Option<u32>,
    pub active_device: Option<DeviceView>,
    pub active_tab: Tab,
    pub app_name: String,
    pub app_version: String,
    pub channels: Map<u32, ChannelView>,
    pub connection_attempt: u16,
    pub connection_state: ConnectionState,
    pub reconnection_backoff: Option<u64>,
    pub discovered_devices: Seq<DeviceView>,
    pub device_discovering_state: DeviceDiscoveringState,
    pub logs: Seq<LogRecord>,
    pub my_node_key: Option<u32>,
    pub messages: Map<u32, Seq<MessageView>>,
    pub nodes_sort_by: NodesSortBy,
    pub nodes_sort: Seq<u32>,
    pub nodes: Map<u32, Node>,
    pub online_nodes: u16,
    pub rx_t: u64,
    pub rx: bool,
    pub tcp_devices: Seq<TcpAddrView>,
    pub need_clear_frame: bool,
    pub toast_queue: Seq<Toast>,
    pub toast: Option<Toast>,
    pub toast_t: u64,
    pub settings_form_state: SettingsFormState,
    pub settings_form_data: Option<Seq<FormField>>,
}

pub open spec fn device_opt_view(d: Option<Device>) -> Option<DeviceView> {
    match d {
        Some(x) => Some(x@),
        None => None,
    }
}

pub open spec fn devices_view(ds: Seq<Device>) -> Seq<DeviceView> {
    ds.map_values(|d: Device| d@)
}

pub open spec fn tcp_view(ts: Seq<TcpAddr>) -> Seq<TcpAddrView> {
    ts.map_values(|t: TcpAddr| t@)
}

pub open spec fn channels_view(m: Map<u32, Channel>) -> Map<u32, ChannelView> {
    m.map_values(|c: Channel| c@)
}

pub open spec fn message_list_view(v: Vec<Message>) -> Seq<MessageView> {
    v@.map_values(|m: Message| m@)
}

pub open spec fn messages_view(m: Map<u32, Vec<Message>>) -> Map<u32, Seq<MessageView>> {
    m.map_values(|v: Vec<Message>| message_list_view(v))
}

pub open spec fn form_data_view(d: Option<Vec<FormField>>) -> Option<Seq<FormField>> {
    match d {
        Some(v) => Some(v@),
        None => None,
    }
}

impl View for State {
    type V = StateView;

    open spec fn view(&self) -> StateView {
        StateView {
            active_channel_key: self.active_channel_key,
            active_device: device_opt_view(self.active_device),
            active_tab: self.active_tab,
            app_name: self.app_name,
            app_version: self.app_version,
            channels: channels_view(self.channels@),
            connection_attempt: self.connection_attempt,
            connection_state: self.connection_state,
            reconnection_backoff: self.reconnection_backoff,
            discovered_devices: devices_view(self.discovered_devices@),
            device_discovering_state: self.device_discovering_state,
            logs: self.logs@,
            my_node_key: self.my_node_key,
            messages: messages_view(self.messages@),
            nodes_sort_by: self.nodes_sort_by,
            nodes_sort: self.nodes_sort@,
            nodes: self.nodes@,
            online_nodes: self.online_nodes,
            rx_t: self.rx_t,
            rx: self.rx,
            tcp_devices: tcp_view(self.tcp_devices@),
            need_clear_frame: self.need_clear_frame,
            toast_queue: self.toast_queue@,
            toast: self.toast,
            toast_t: self.toast_t,
            settings_form_state: self.settings_form_state,
            settings_form_data: form_data_view(self.settings_form_data),
        }
    }
}

impl StateView {
    /// The node list holds each known node's key exactly once.
    pub open spec fn wf(self) -> bool {
        &&& self.nodes_sort.no_duplicates()
        &&& self.nodes_sort.to_set() == self.nodes.dom()
    }
}

impl State {
    /// The state at start, at monotonic time `now` (milliseconds): on the chat tab, nothing
    /// known, nothing connected, nodes sorted by hops.
    pub fn default(app_name: String, app_version: String, now: u64) -> (r: State)
        ensures
            r@ == (StateView {
                active_channel_key: None,
                active_device: None,
                active_tab: Tab::Chat,
                app_name,
                app_version,
                channels: Map::empty(),
                connection_attempt: 0,
                connection_state: ConnectionState::NotConnected,
                reconnection_backoff: None,
                discovered_devices: Seq::empty(),
                device_discovering_state: DeviceDiscoveringState::NotStarted,
                logs: Seq::empty(),
                my_node_key: None,
                messages: Map::empty(),
                nodes_sort_by: NodesSortBy::Hops,
                nodes_sort: Seq::empty(),
                nodes: Map::empty(),
                online_nodes: 0,
                rx_t: now,
                rx: false,
                tcp_devices: Seq::empty(),
                need_clear_frame: false,
                toast_queue: Seq::empty(),
                toast: None,
                toast_t: now,
                settings_form_state: SettingsFormState::Inactive,
                settings_form_data: None,
            }),
            r@.wf(),
    {
        let r = State {
            active_channel_key: None,
            active_device: None,
            active_tab: Tab::Chat,
            app_name,
            app_version,
            channels: HashMap::new(),
            connection_attempt: 0,
            connection_state: ConnectionState::NotConnected,
            reconnection_backoff: None,
            discovered_devices: Vec::new(),
            device_discovering_state: DeviceDiscoveringState::NotStarted,
            logs: Vec::new(),
            my_node_key: None,
            messages: HashMap::new(),
            nodes_sort_by: NodesSortBy::Hops,
            nodes_sort: Vec::new(),
            nodes: HashMap::new(),
            online_nodes: 0,
            rx_t: now,
            rx: false,
            tcp_devices: Vec::new(),
            need_clear_frame: false,
            toast_queue: VecDeque::new(),
            toast: None,
            toast_t: now,
            settings_form_state: SettingsFormState::Inactive,
            settings_form_data: None,
        };
        proof {
            assert(r@.channels =~= Map::empty());
            assert(r@.messages =~= Map::empty());
            assert(r@.discovered_devices =~= Seq::empty());
            assert(r@.tcp_devices =~= Seq::empty());
            assert(r@.nodes_sort.to_set() =~= r@.nodes.dom());
        }
        r
    }

    /// The local node, where its key and the node are known.
    pub fn get_my_node(&self) -> (r: Option<&Node>)
        ensures
            r == (match self.my_node_key {
                Some(k) => if self.nodes@.contains_key(k) {
                    Some(&self.nodes@[k])
                } else {
                    None
                },
                None => None,
            }),
    {
        match self.my_node_key {
            Some(k) => self.nodes.get(&k),
            None => None,
        }
    }

    /// The open channel, where one is open and known.
    pub fn get_active_channel(&self) -> (r: Option<&Channel>)
        ensures
            r == (match self.active_channel_key {
                Some(k) => if self.channels@.contains_key(k) {
                    Some(&self.channels@[k])
                } else {
                    None
                },
                None => None,
            }),
    {
        match self.active_channel_key {
            Some(k) => self.channels.get(&k),
            None => None,
        }
    }
}

impl AppConfig {
    /// The part of the state that is kept between runs.
    pub fn from_state(state: &State) -> (r: AppConfig)
        ensures
            r.active_tab == state.active_tab,
            r.active_device == state.active_device,
            r.tcp_devices@ == state.tcp_devices@,
            r.nodes_sort_by == state.nodes_sort_by,
    {
        let active_device = match &state.active_device {
            Some(d) => Some(d.duplicate()),
            None => None,
        };
        let mut tcp_devices: Vec<TcpAddr> = Vec::new();
        let mut i: usize = 0;
        while i < state.tcp_devices.len()
            invariant
                i <= state.tcp_devices.len(),
                tcp_devices@ == state.tcp_devices@.take(i as int),
            decreases state.tcp_devices.len() - i,
        {
            tcp_devices.push(state.tcp_devices[i].duplicate());
            proof {
                assert(state.tcp_devices@.take(i + 1) =~= state.tcp_devices@.take(i as int).push(
                    state.tcp_devices@[i as int],
                ));
            }
            i = i + 1;
        }
        proof {
            assert(state.tcp_devices@.take(state.tcp_devices@.len() as int) =~= state.tcp_devices@);
        }
        AppConfig {
            active_tab: state.active_tab,
            active_device,
            tcp_devices,
            nodes_sort_by: state.nodes_sort_by,
        }
    }
}

} // verus!

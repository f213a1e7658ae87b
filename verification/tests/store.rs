use meshtui::chat::Message;
use meshtui::device::{ConnectionState, HostName, IpAddress, TcpAddr};
use meshtui::settings::{FormField, FormId, FormValue, SettingsFormState};
use meshtui::state::{Clock, State};
use meshtui::store::{handle_action, handle_tick, StateAction};
use meshtui::types::{Channel, ChannelRole, Node, Tab, Toast, ToastKind, UtcTime};

fn clock(ms: u64) -> Clock {
    Clock { ms, utc: UtcTime { secs: 1_700_000_000 + (ms / 1000) as i64, nanos: 0 } }
}

fn fresh() -> State {
    State::default("meshtui".to_string(), "0.1.0".to_string(), 0)
}

fn tcp(last: u8, port: Option<u16>) -> TcpAddr {
    TcpAddr { host: HostName::Ip(IpAddress::V4(0x0A00_0000 + last as u32)), port }
}

fn message(id: u32, text: &str) -> Message {
    Message {
        id,
        reply_message_id: 0,
        from: 7,
        datetime: UtcTime { secs: 1_700_000_000, nanos: 0 },
        text: text.to_string(),
        reactions: Vec::new(),
        hops: Some(1),
        snr: 0,
        rssi: -80,
        acked: false,
    }
}

fn node(key: u32, short: &str) -> Node {
    Node {
        id: format!("!{:08x}", key),
        key,
        short_name: short.to_string(),
        long_name: format!("{} long", short),
        hops_away: Some(1),
        last_heard: None,
        snr: 0,
        role: "CLIENT".to_string(),
        hw_model: "TBEAM".to_string(),
        my: false,
    }
}

#[test]
fn state_starts_empty_on_the_chat_tab() {
    let s = fresh();
    assert_eq!(s.active_tab, Tab::Chat);
    assert!(s.channels.is_empty());
    assert!(s.nodes.is_empty());
    assert!(s.tcp_devices.is_empty());
    assert!(matches!(s.connection_state, ConnectionState::NotConnected));
    assert_eq!(s.connection_attempt, 0);
    assert!(s.toast.is_none());
    assert!(matches!(s.settings_form_state, SettingsFormState::Inactive));
}

#[test]
fn next_then_previous_tab_returns() {
    let mut s = fresh();
    handle_action(&mut s, StateAction::TabSwitchToNext, clock(1));
    assert_eq!(s.active_tab, Tab::Nodes);
    assert!(s.need_clear_frame);
    handle_action(&mut s, StateAction::TabSwitchToPrevious, clock(2));
    assert_eq!(s.active_tab, Tab::Chat);
    handle_action(&mut s, StateAction::TabSwitchToPrevious, clock(3));
    assert_eq!(s.active_tab, Tab::Logs);
}

#[test]
fn five_next_tabs_cycle() {
    let mut s = fresh();
    for _ in 0..5 {
        handle_action(&mut s, StateAction::TabSwitchToNext, clock(1));
    }
    assert_eq!(s.active_tab, Tab::Chat);
    assert!(handle_action(&mut s, StateAction::FrameCleared, clock(2)));
    assert!(!s.need_clear_frame);
    assert!(!handle_action(&mut s, StateAction::FrameCleared, clock(3)));
}

#[test]
fn adding_a_tcp_device_twice_keeps_one() {
    let mut s = fresh();
    assert!(handle_action(&mut s, StateAction::DevicesAddTcp(tcp(1, Some(4403))), clock(1)));
    assert!(!handle_action(&mut s, StateAction::DevicesAddTcp(tcp(1, Some(4403))), clock(2)));
    assert_eq!(s.tcp_devices.len(), 1);
    handle_action(&mut s, StateAction::DevicesAddTcp(tcp(2, None)), clock(3));
    assert_eq!(s.tcp_devices.len(), 2);
    handle_action(&mut s, StateAction::DevicesRemoveTcp(tcp(1, Some(4403))), clock(4));
    assert_eq!(s.tcp_devices.len(), 1);
    assert!(s.tcp_devices[0].same_as(&tcp(2, None)));
    assert!(!handle_action(&mut s, StateAction::DevicesRemoveTcp(tcp(9, None)), clock(5)));
    assert_eq!(s.tcp_devices.len(), 1);
}

#[test]
fn ensuring_a_channel_keeps_the_existing_one() {
    let mut s = fresh();
    let ch = Channel { key: 0, id: 5, role: ChannelRole::Primary, name: "main".to_string() };
    assert!(handle_action(&mut s, StateAction::ChannelEnsure(0, ch), clock(1)));
    assert!(!handle_action(&mut s, StateAction::ChannelEnsure(0, Channel::disabled(0)), clock(2)));
    assert_eq!(s.channels.len(), 1);
    assert_eq!(s.channels[&0].name, "main");
    assert_eq!(s.channels[&0].role, ChannelRole::Primary);
}

#[test]
fn direct_chat_opens_the_conversation() {
    let mut s = fresh();
    handle_action(&mut s, StateAction::TabSwitchTo(Tab::Nodes), clock(1));
    handle_action(&mut s, StateAction::DirectChatStart(42), clock(2));
    assert_eq!(s.active_channel_key, Some(42));
    assert_eq!(s.active_tab, Tab::Chat);
    assert_eq!(s.channels[&42].role, ChannelRole::Direct);
    assert!(s.need_clear_frame);
    handle_action(&mut s, StateAction::ChannelActiveUnset, clock(3));
    assert_eq!(s.active_channel_key, None);
}

#[test]
fn connection_attempts_count_and_reset() {
    let mut s = fresh();
    handle_action(&mut s, StateAction::ConnectionStart, clock(1));
    handle_action(&mut s, StateAction::ConnectionStart, clock(2));
    assert_eq!(s.connection_attempt, 2);
    assert!(matches!(s.connection_state, ConnectionState::Connecting));
    handle_action(&mut s, StateAction::ConnectionFail("refused".to_string()), clock(3000));
    match &s.connection_state {
        ConnectionState::ProblemDetected { since, error } => {
            assert_eq!(*since, 3000);
            assert_eq!(error, "refused");
        }
        _ => panic!("a problem should be detected"),
    }
    handle_action(&mut s, StateAction::ReconnectionBackoffSet(700), clock(3001));
    assert_eq!(s.reconnection_backoff, Some(700));
    handle_action(&mut s, StateAction::ConnectionSuccess, clock(4000));
    assert_eq!(s.connection_attempt, 0);
    assert_eq!(s.reconnection_backoff, None);
    assert!(matches!(s.connection_state, ConnectionState::Connected));
}

#[test]
fn connection_stop_forgets_the_mesh() {
    let mut s = fresh();
    handle_action(&mut s, StateAction::NodeAdd(node(3, "AB")), clock(1));
    let ch = Channel { key: 1, id: 1, role: ChannelRole::Secondary, name: String::new() };
    handle_action(&mut s, StateAction::ChannelEnsure(1, ch), clock(2));
    handle_action(&mut s, StateAction::OnlineNodesSet(4), clock(3));
    handle_action(&mut s, StateAction::ConnectionStop, clock(4));
    assert!(s.nodes.is_empty());
    assert!(s.nodes_sort.is_empty());
    assert!(s.channels.is_empty());
    assert_eq!(s.online_nodes, 0);
    assert!(s.active_device.is_none());
    assert!(matches!(s.connection_state, ConnectionState::NotConnected));
}

#[test]
fn messages_are_appended_and_acknowledged() {
    let mut s = fresh();
    handle_action(&mut s, StateAction::MessageAdd(0, message(1, "hi")), clock(1));
    handle_action(&mut s, StateAction::MessageAdd(0, message(2, "there")), clock(2));
    assert_eq!(s.messages[&0].len(), 2);
    assert_eq!(s.messages[&0][1].text, "there");
    handle_action(&mut s, StateAction::MessageAck(0, 2), clock(3));
    assert!(s.messages[&0][1].acked);
    assert!(!s.messages[&0][0].acked);
    assert!(!handle_action(&mut s, StateAction::MessageAck(0, 2), clock(4)));
    assert!(s.messages[&0][1].acked);
    assert!(!handle_action(&mut s, StateAction::MessageAck(5, 2), clock(5)));
    assert!(!s.messages.contains_key(&5));
}

#[test]
fn a_repeated_reaction_updates_its_time() {
    let mut s = fresh();
    handle_action(&mut s, StateAction::MessageAdd(0, message(1, "hi")), clock(1));
    let react = |node_key: u32| StateAction::MessageReactionAdd {
        channel_key: 0,
        message_id: 1,
        emoji: "👍".to_string(),
        node_key,
    };
    assert!(handle_action(&mut s, react(9), clock(1000)));
    assert!(handle_action(&mut s, react(9), clock(5000)));
    assert!(!handle_action(&mut s, react(9), clock(5000)));
    assert!(handle_action(&mut s, react(8), clock(6000)));
    let rs = &s.messages[&0][0].reactions;
    assert_eq!(rs.len(), 2);
    assert_eq!(rs[0].node_key, 9);
    assert_eq!(rs[0].at.secs, 1_700_000_005);
    assert_eq!(rs[1].node_key, 8);
}

#[test]
fn the_local_node_is_marked() {
    let mut s = fresh();
    handle_action(&mut s, StateAction::NodeAdd(node(5, "ME")), clock(1));
    assert!(!s.nodes[&5].my);
    handle_action(&mut s, StateAction::MyNodeKeySet(5), clock(2));
    assert!(s.nodes[&5].my);
    assert!(!handle_action(&mut s, StateAction::NodeAdd(node(5, "ME")), clock(3)));
    assert!(s.nodes[&5].my);
    handle_action(&mut s, StateAction::NodeAdd(node(6, "XX")), clock(4));
    assert_eq!(s.nodes_sort, vec![5, 6]);
}

#[test]
fn nodes_are_listed_by_the_sort_key() {
    let mut s = fresh();
    let mut far = node(1, "FAR");
    far.hops_away = Some(3);
    let mut near = node(2, "NEAR");
    near.hops_away = Some(0);
    handle_action(&mut s, StateAction::NodeAdd(far), clock(1));
    handle_action(&mut s, StateAction::NodeAdd(near), clock(2));
    assert_eq!(s.nodes_sort, vec![2, 1]);
    handle_action(
        &mut s,
        StateAction::NodeUpdateLastHeard { node_key: 1, hops: 0, snr: 0x4120_0000 },
        clock(3000),
    );
    assert_eq!(s.nodes[&1].hops_away, Some(0));
    assert_eq!(s.nodes[&1].last_heard.unwrap().secs, 1_700_000_003);
    assert_eq!(s.nodes_sort, vec![1, 2]);
}

#[test]
fn the_receive_indicator_goes_off_after_its_timeout() {
    let mut s = fresh();
    handle_action(&mut s, StateAction::RxTrigger, clock(1000));
    assert!(s.rx);
    assert_eq!(handle_tick(&mut s, 1200), 0);
    assert!(s.rx);
    assert_eq!(handle_tick(&mut s, 1201), 1);
    assert!(!s.rx);
}

#[test]
fn toasts_show_in_turn() {
    let mut s = fresh();
    handle_action(&mut s, StateAction::Toast(Toast::normal("one".to_string())), clock(1));
    handle_action(&mut s, StateAction::Toast(Toast::error("two".to_string())), clock(2));
    assert!(s.toast.is_none());
    assert_eq!(handle_tick(&mut s, 10), 1);
    assert_eq!(s.toast.as_ref().unwrap().text, "one");
    assert_eq!(handle_tick(&mut s, 1510), 0);
    assert_eq!(handle_tick(&mut s, 1511), 2);
    let t = s.toast.as_ref().unwrap();
    assert_eq!(t.text, "two");
    assert_eq!(t.kind, ToastKind::Error);
    assert_eq!(handle_tick(&mut s, 4511), 0);
    assert_eq!(handle_tick(&mut s, 4512), 1);
    assert!(s.toast.is_none());
}

#[test]
fn toast_timeouts_follow_the_kind() {
    assert_eq!(ToastKind::Success.timeout(), 1500);
    assert_eq!(ToastKind::Normal.timeout(), 1500);
    assert_eq!(ToastKind::Warning.timeout(), 2000);
    assert_eq!(ToastKind::Error.timeout(), 3000);
}

#[test]
fn the_settings_form_loads_edits_and_closes() {
    let mut s = fresh();
    handle_action(&mut s, StateAction::SettingsFormLoadingStart { id: FormId::RadioLora }, clock(1));
    assert!(matches!(s.settings_form_state, SettingsFormState::Loading { id: FormId::RadioLora }));
    let data = vec![FormField { key: "hopLimit".to_string(), value: FormValue::UnsignedInt32(3) }];
    handle_action(&mut s, StateAction::SettingsFormLoadingDone { id: FormId::RadioLora, data }, clock(2));
    assert!(matches!(s.settings_form_state, SettingsFormState::Loaded { id: FormId::RadioLora }));
    handle_action(
        &mut s,
        StateAction::SettingsFormValueSet {
            key: "hopLimit".to_string(),
            value: FormValue::UnsignedInt32(5),
        },
        clock(3),
    );
    handle_action(
        &mut s,
        StateAction::SettingsFormValueSet { key: "txEnabled".to_string(), value: FormValue::Bool(true) },
        clock(4),
    );
    let fields = s.settings_form_data.as_ref().unwrap();
    assert_eq!(fields.len(), 2);
    assert!(matches!(fields[0].value, FormValue::UnsignedInt32(5)));
    assert_eq!(fields[1].key, "txEnabled");
    handle_action(&mut s, StateAction::SettingsFormClose, clock(5));
    assert!(matches!(s.settings_form_state, SettingsFormState::Inactive));
    assert!(s.settings_form_data.is_none());
}

#[test]
fn loading_failure_is_recorded() {
    let mut s = fresh();
    handle_action(
        &mut s,
        StateAction::SettingsFormLoadingFail { id: FormId::AppUi, error: "no".to_string() },
        clock(1),
    );
    match &s.settings_form_state {
        SettingsFormState::LoadingFailed { id, error } => {
            assert_eq!(*id, FormId::AppUi);
            assert_eq!(error, "no");
        }
        _ => panic!("the loading should have failed"),
    }
}

#[test]
fn only_actions_that_change_the_state_are_published() {
    let mut s = fresh();
    assert!(handle_action(&mut s, StateAction::ConnectionSuccess, clock(1)));
    assert!(!handle_action(&mut s, StateAction::ConnectionSuccess, clock(2)));
    assert!(handle_action(&mut s, StateAction::TabSwitchTo(Tab::Chat), clock(3)));
    assert!(!handle_action(&mut s, StateAction::TabSwitchTo(Tab::Chat), clock(4)));
    assert!(!handle_action(&mut s, StateAction::NodesSortBySet(meshtui::types::NodesSortBy::Hops), clock(5)));
    assert!(handle_action(&mut s, StateAction::NodesSortBySet(meshtui::types::NodesSortBy::LongName), clock(6)));
    assert!(!handle_action(&mut s, StateAction::SettingsFormClose, clock(7)));
    assert!(handle_action(&mut s, StateAction::RxTrigger, clock(8)));
    assert!(!handle_action(&mut s, StateAction::RxTrigger, clock(8)));
    assert!(handle_action(&mut s, StateAction::ConnectionFail("refused".to_string()), clock(9)));
    assert!(!handle_action(&mut s, StateAction::ConnectionFail("refused".to_string()), clock(9)));
    assert!(handle_action(&mut s, StateAction::ConnectionFail("reset".to_string()), clock(9)));
    assert!(handle_action(&mut s, StateAction::LogRecordAdd(meshtui::state::LogRecord {
        datetime: UtcTime { secs: 1, nanos: 0 },
        level: meshtui::state::LogLevel::Info,
        source: "store".to_string(),
        message: "hello".to_string(),
    }), clock(10)));
}

#[test]
fn setting_a_form_value_changes_the_state_once() {
    let mut s = fresh();
    let field = FormField { key: "name".to_string(), value: FormValue::String("a".to_string()) };
    assert!(handle_action(
        &mut s,
        StateAction::SettingsFormLoadingDone { id: FormId::DeviceUser, data: vec![field] },
        clock(1),
    ));
    let set = |v: &str| StateAction::SettingsFormValueSet {
        key: "name".to_string(),
        value: FormValue::String(v.to_string()),
    };
    assert!(!handle_action(&mut s, set("a"), clock(2)));
    assert!(handle_action(&mut s, set("b"), clock(3)));
    assert!(!handle_action(&mut s, set("b"), clock(4)));
}

#[test]
fn a_new_node_that_leaves_the_order_is_still_published() {
    let mut s = fresh();
    assert!(handle_action(&mut s, StateAction::NodeAdd(node(1, "A")), clock(1)));
    let mut again = node(1, "A");
    again.long_name = "renamed".to_string();
    assert!(handle_action(&mut s, StateAction::NodeAdd(again), clock(2)));
    assert_eq!(s.nodes_sort, vec![1]);
    assert!(!handle_action(
        &mut s,
        StateAction::NodeUpdateLastHeard { node_key: 7, hops: 0, snr: 0 },
        clock(3),
    ));
}

#[test]
fn a_state_holding_a_nan_is_always_published() {
    let mut s = fresh();
    let mut n = node(1, "A");
    n.snr = f32::NAN.to_bits();
    assert!(handle_action(&mut s, StateAction::NodeAdd(n), clock(1)));
    assert!(!s.need_clear_frame);
    assert!(handle_action(&mut s, StateAction::FrameCleared, clock(2)));
}

#[test]
fn the_two_zeros_are_the_same_ratio() {
    let mut s = fresh();
    assert!(handle_action(&mut s, StateAction::NodeAdd(node(1, "A")), clock(1)));
    let heard = |snr: u32| StateAction::NodeUpdateLastHeard { node_key: 1, hops: 0, snr };
    assert!(handle_action(&mut s, heard(0.0f32.to_bits()), clock(3000)));
    assert!(!handle_action(&mut s, heard((-0.0f32).to_bits()), clock(3000)));
    assert!(handle_action(&mut s, heard(1.5f32.to_bits()), clock(3000)));
}

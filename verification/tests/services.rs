use meshtastic::protobufs::{RouteDiscovery, User};
use meshtastic::Message as _;
use meshtui::device::{ConnectionState, Device, HostName, TcpAddr};
use meshtui::events::{AppEvent, CommandToMeshtastic, MeshtasticEvent};
use meshtui::radio::{
    MeshPacket, PacketData, PacketPayload, RadioChannel, RadioChannelSettings, RadioNodeInfo,
    RadioPacket, RadioUser,
};
use meshtui::service::config::{calculate_hash, ConfigService};
use meshtui::service::connection::{
    check_connection, discovery_outcome, handle_app_event as connection_app_event,
    handle_meshtastic_event, handle_state_change, reconnection_backoff, time_left,
};
use meshtui::service::radio::{connection_outcome, handle_radio_packet as radio_link_packet};
use meshtui::service::settings::{handle_app_event as settings_app_event, loading_outcome};
use meshtui::service::traceroute::{
    check_traceroutes, handle_radio_packet as traceroute_packet, request_traceroute, route_items,
    ActiveTraceroute, TracerouteEvent, TracerouteItem, TracerouteRequest, TracerouteState,
    Traceroutes,
};
use meshtui::service::{chat, nodes, ui};
use meshtui::settings::{FormField, FormId, FormValue};
use meshtui::state::State;
use meshtui::store::StateAction;
use meshtui::types::{ChannelRole, ToastKind, UtcTime};

fn packet(from: u32, to: u32, payload: PacketPayload) -> MeshPacket {
    MeshPacket {
        from,
        to,
        channel: 2,
        id: 77,
        rx_time: 1_700_000_000,
        rx_snr: 0x40a0_0000,
        rx_rssi: -90,
        hop_limit: 1,
        hop_start: 3,
        internal: false,
        payload,
    }
}

fn text_data(portnum: i32, payload: &[u8], emoji: u32) -> PacketPayload {
    PacketPayload::Decoded(PacketData {
        portnum,
        payload: payload.to_vec(),
        request_id: 0,
        reply_id: 0,
        emoji,
    })
}

const NOW: UtcTime = UtcTime { secs: 1_800_000_000, nanos: 0 };

#[test]
fn a_broadcast_text_becomes_a_message_of_its_channel() {
    let p = packet(5, u32::MAX, text_data(1, b"hello", 0));
    let actions = chat::handle_radio_packet(&RadioPacket::Packet(p), Some(9), NOW);
    assert_eq!(actions.len(), 1);
    match &actions[0] {
        StateAction::MessageAdd(key, m) => {
            assert_eq!(*key, 2);
            assert_eq!(m.text, "hello");
            assert_eq!(m.from, 5);
            assert_eq!(m.id, 77);
            assert_eq!(m.hops, Some(2));
            assert_eq!(m.datetime.secs, 1_700_000_000);
            assert!(!m.acked);
        }
        other => panic!("unexpected {:?}", other),
    }
}

#[test]
fn a_direct_text_opens_the_conversation_first() {
    let p = packet(5, 9, text_data(1, b"psst", 0));
    let actions = chat::handle_radio_packet(&RadioPacket::Packet(p), Some(9), NOW);
    assert_eq!(actions.len(), 2);
    match &actions[0] {
        StateAction::ChannelEnsure(key, ch) => {
            assert_eq!(*key, 5);
            assert_eq!(ch.role, ChannelRole::Direct);
        }
        other => panic!("unexpected {:?}", other),
    }
    assert!(matches!(&actions[1], StateAction::MessageAdd(5, _)));
}

#[test]
fn a_text_for_another_node_is_ignored() {
    let p = packet(5, 8, text_data(1, b"not mine", 0));
    assert!(chat::handle_radio_packet(&RadioPacket::Packet(p.clone()), Some(9), NOW).is_empty());
    assert!(chat::handle_radio_packet(&RadioPacket::Packet(p), None, NOW).is_empty());
}

#[test]
fn an_emoji_packet_is_a_reaction() {
    let mut p = packet(5, 0, text_data(32, b"x", 0x1F44D));
    if let PacketPayload::Decoded(d) = &mut p.payload {
        d.reply_id = 70;
    }
    let actions = chat::handle_radio_packet(&RadioPacket::Packet(p), Some(9), NOW);
    assert_eq!(actions.len(), 1);
    match &actions[0] {
        StateAction::MessageReactionAdd { channel_key, message_id, emoji, node_key } => {
            assert_eq!(*channel_key, 2);
            assert_eq!(*message_id, 77);
            assert_eq!(emoji, "👍");
            assert_eq!(*node_key, 5);
        }
        other => panic!("unexpected {:?}", other),
    }
}

#[test]
fn an_emoji_code_that_is_no_character_falls_back_to_the_text() {
    let p = packet(5, 0, text_data(1, b"plain", 0xD800));
    let actions = chat::handle_radio_packet(&RadioPacket::Packet(p), Some(9), NOW);
    assert_eq!(actions.len(), 1);
    assert!(matches!(&actions[0], StateAction::MessageAdd(2, m) if m.text == "plain"));
}

#[test]
fn invalid_utf8_gives_no_message() {
    let p = packet(5, 0, text_data(1, &[0xff, 0xfe], 0));
    assert!(chat::handle_radio_packet(&RadioPacket::Packet(p), Some(9), NOW).is_empty());
}

#[test]
fn a_radio_channel_is_made_known() {
    let ch = RadioChannel {
        index: 1,
        settings: Some(RadioChannelSettings { id: 12, name: "ops".to_string() }),
        role: 2,
    };
    let actions = chat::handle_radio_packet(&RadioPacket::Channel(ch), None, NOW);
    assert_eq!(actions.len(), 1);
    match &actions[0] {
        StateAction::ChannelEnsure(1, c) => {
            assert_eq!(c.role, ChannelRole::Secondary);
            assert_eq!(c.name, "ops");
            assert_eq!(c.id, 12);
        }
        other => panic!("unexpected {:?}", other),
    }
    let bare = RadioChannel { index: 3, settings: None, role: 1 };
    let actions = chat::handle_radio_packet(&RadioPacket::Channel(bare), None, NOW);
    assert!(matches!(&actions[0], StateAction::ChannelEnsure(3, c) if c.role == ChannelRole::Disabled));
}

#[test]
fn chat_app_events() {
    assert!(matches!(
        chat::handle_app_event(&AppEvent::ChannelSelected(4)),
        Some(StateAction::ChannelActiveSet(4))
    ));
    assert!(matches!(
        chat::handle_app_event(&AppEvent::SwitchChannelRequested),
        Some(StateAction::ChannelActiveUnset)
    ));
    assert!(chat::handle_app_event(&AppEvent::NextTabRequested).is_none());
}

#[test]
fn the_local_node_number_is_recorded() {
    let a = nodes::handle_radio_packet(&RadioPacket::MyInfo { my_node_num: 99 });
    assert!(matches!(a, Some(StateAction::MyNodeKeySet(99))));
    assert!(nodes::handle_radio_packet(&RadioPacket::Other).is_none());
}

#[test]
fn node_information_adds_a_node() {
    let info = RadioNodeInfo {
        num: 12,
        user: Some(RadioUser {
            id: "!0000000c".to_string(),
            long_name: "Twelve".to_string(),
            short_name: "TW".to_string(),
            hw_model: 4,
            role: 0,
        }),
        snr: 0,
        last_heard: 1_700_000_100,
        hops_away: Some(2),
    };
    match nodes::handle_radio_packet(&RadioPacket::NodeInfo(info)) {
        Some(StateAction::NodeAdd(n)) => {
            assert_eq!(n.key, 12);
            assert_eq!(n.short_name, "TW");
            assert_eq!(n.role, "CLIENT");
            assert_eq!(n.hw_model, "TBEAM");
            assert_eq!(n.hops_away, Some(2));
            assert_eq!(n.last_heard.unwrap().secs, 1_700_000_100);
            assert!(!n.my);
        }
        other => panic!("unexpected {:?}", other),
    }
    let anonymous = RadioNodeInfo { num: 13, user: None, snr: 0, last_heard: 0, hops_away: None };
    assert!(nodes::handle_radio_packet(&RadioPacket::NodeInfo(anonymous)).is_none());
}

#[test]
fn a_node_information_packet_is_decoded() {
    let user = User {
        id: "!00000005".to_string(),
        long_name: "Five".to_string(),
        short_name: "5".to_string(),
        hw_model: 1,
        role: 0,
        ..Default::default()
    };
    let p = packet(5, u32::MAX, text_data(4, &user.encode_to_vec(), 0));
    match nodes::handle_radio_packet(&RadioPacket::Packet(p)) {
        Some(StateAction::NodeAdd(n)) => {
            assert_eq!(n.key, 5);
            assert_eq!(n.long_name, "Five");
            assert_eq!(n.hw_model, "TLORA_V2");
            assert_eq!(n.hops_away, Some(2));
            assert_eq!(n.snr, 0x40a0_0000);
        }
        other => panic!("unexpected {:?}", other),
    }
    let garbage = packet(5, u32::MAX, text_data(4, &[0xff, 0xff, 0xff], 0));
    assert!(nodes::handle_radio_packet(&RadioPacket::Packet(garbage)).is_none());
}

#[test]
fn any_other_packet_updates_when_its_sender_was_heard() {
    let p = packet(6, u32::MAX, text_data(67, b"", 0));
    match nodes::handle_radio_packet(&RadioPacket::Packet(p)) {
        Some(StateAction::NodeUpdateLastHeard { node_key, hops, snr }) => {
            assert_eq!(node_key, 6);
            assert_eq!(hops, 2);
            assert_eq!(snr, 0x40a0_0000);
        }
        other => panic!("unexpected {:?}", other),
    }
    let mut encrypted = packet(6, u32::MAX, PacketPayload::Encrypted);
    encrypted.hop_limit = 5;
    assert!(matches!(
        nodes::handle_radio_packet(&RadioPacket::Packet(encrypted)),
        Some(StateAction::NodeUpdateLastHeard { hops: 0, .. })
    ));
}

#[test]
fn a_direct_chat_request_starts_it() {
    assert!(matches!(
        nodes::handle_app_event(&AppEvent::DirectChatRequested(3)),
        Some(StateAction::DirectChatStart(3))
    ));
}

fn tcp(port: Option<u16>) -> TcpAddr {
    TcpAddr { host: HostName::Domain("radio.local".to_string()), port }
}

#[test]
fn a_submitted_tcp_address_gets_the_default_port() {
    let (e, discover) = connection_app_event(AppEvent::TcpDeviceSubmitted(tcp(None)));
    assert!(!discover);
    assert!(matches!(&e.actions[0], StateAction::DevicesAddTcp(a) if a.port == Some(4403)));
    let (e, _) = connection_app_event(AppEvent::TcpDeviceSubmitted(tcp(Some(1234))));
    assert!(matches!(&e.actions[0], StateAction::DevicesAddTcp(a) if a.port == Some(1234)));
}

#[test]
fn connection_app_events() {
    let (e, _) = connection_app_event(AppEvent::InitializationRequested);
    assert!(matches!(e.app_events[0], AppEvent::DeviceRediscoverRequested));
    let (e, discover) = connection_app_event(AppEvent::DeviceRediscoverRequested);
    assert!(discover);
    assert!(matches!(&e.actions[0], StateAction::Toast(t) if t.text == "discovering..." && t.kind == ToastKind::Normal));
    assert!(matches!(&e.actions[1], StateAction::DeviceDiscoveringStart));
    let (e, _) = connection_app_event(AppEvent::DisconnectionRequested);
    assert!(matches!(e.commands[0], CommandToMeshtastic::Disconnect));
    let (e, _) = connection_app_event(AppEvent::DeviceSelected(Device::Serial("/dev/ttyUSB0".to_string())));
    assert!(matches!(&e.actions[0], StateAction::DeviceActiveSet(Device::Serial(p)) if p == "/dev/ttyUSB0"));
    let (e, _) = connection_app_event(AppEvent::TcpDeviceRemoved(tcp(Some(1))));
    assert!(matches!(&e.actions[0], StateAction::DevicesRemoveTcp(_)));
    let (e, discover) = connection_app_event(AppEvent::NextTabRequested);
    assert!(!discover && e.actions.is_empty() && e.commands.is_empty() && e.app_events.is_empty());
}

#[test]
fn discovery_outcomes_are_reported() {
    let found = vec![Device::Serial("a".to_string()), Device::Serial("b".to_string())];
    let r = discovery_outcome(Ok(found));
    assert!(matches!(&r[0], StateAction::DeviceDiscoveringDone(ds) if ds.len() == 2));
    assert!(matches!(&r[1], StateAction::Toast(t) if t.text == "devices discovered: 2"));
    let r = discovery_outcome(Err("no adapter".to_string()));
    assert!(matches!(&r[0], StateAction::DeviceDiscoveringFail(e) if e == "no adapter"));
    assert!(matches!(&r[1], StateAction::Toast(t) if t.text == "discovering failed" && t.kind == ToastKind::Error));
}

#[test]
fn radio_events_change_the_connection() {
    let r = handle_meshtastic_event(MeshtasticEvent::Connected);
    assert!(matches!(r[0], StateAction::ConnectionSuccess));
    assert!(matches!(&r[1], StateAction::Toast(t) if t.text == "connected" && t.kind == ToastKind::Success));
    let r = handle_meshtastic_event(MeshtasticEvent::ConnectionError("boom".to_string()));
    assert!(matches!(&r[0], StateAction::ConnectionFail(e) if e == "boom"));
    let r = handle_meshtastic_event(MeshtasticEvent::Disconnected);
    assert!(matches!(r[0], StateAction::ConnectionStop));
    assert!(matches!(&r[1], StateAction::Toast(t) if t.text == "disconnected"));
    let r = handle_meshtastic_event(MeshtasticEvent::IncomingPacket(RadioPacket::Other));
    assert!(matches!(r[0], StateAction::RxTrigger));
    assert!(handle_meshtastic_event(MeshtasticEvent::RadioStopped).is_empty());
}

#[test]
fn the_backoff_doubles_up_to_its_limit() {
    assert_eq!(reconnection_backoff(0), 1000);
    assert_eq!(reconnection_backoff(1), 2000);
    assert_eq!(reconnection_backoff(3), 8000);
    assert_eq!(reconnection_backoff(4), 16000);
    assert_eq!(reconnection_backoff(5), 30000);
    assert_eq!(reconnection_backoff(54), 30000);
    assert_eq!(time_left(1000, 2000, 1500), 1500);
    assert_eq!(time_left(1000, 2000, 3000), 0);
    assert_eq!(time_left(u64::MAX - 5, 100, 0), u64::MAX);
}

fn state_with_device() -> State {
    let mut s = State::default("m".to_string(), "1".to_string(), 0);
    s.active_device = Some(Device::Tcp(tcp(Some(4403))));
    s
}

#[test]
fn an_active_device_without_connection_connects() {
    let s = state_with_device();
    let e = handle_state_change(&s);
    assert!(matches!(e.actions[0], StateAction::ConnectionStart));
    assert!(matches!(&e.commands[0], CommandToMeshtastic::ConnectViaTcp(a) if a.port == Some(4403)));
    let idle = State::default("m".to_string(), "1".to_string(), 0);
    assert!(handle_state_change(&idle).actions.is_empty());
}

#[test]
fn a_problem_reconnects_after_the_backoff() {
    let mut s = state_with_device();
    s.connection_state = ConnectionState::ProblemDetected { since: 10_000, error: "x".to_string() };
    s.connection_attempt = 1;
    let e = check_connection(&s, 11_000);
    assert_eq!(e.actions.len(), 1);
    assert!(matches!(e.actions[0], StateAction::ReconnectionBackoffSet(1000)));
    let e = check_connection(&s, 12_000);
    assert!(matches!(e.actions[0], StateAction::ReconnectionBackoffSet(0)));
    assert!(matches!(e.actions[1], StateAction::ConnectionStart));
    assert_eq!(e.commands.len(), 1);
    s.connection_state = ConnectionState::Connected;
    assert!(check_connection(&s, 12_000).actions.is_empty());
}

#[test]
fn settings_events_load_close_and_set() {
    let (a, load) = settings_app_event(AppEvent::SettingsFormSelected(FormId::RadioLora));
    assert_eq!(load, Some(FormId::RadioLora));
    assert!(matches!(a[0], StateAction::SettingsFormLoadingStart { id: FormId::RadioLora }));
    let (a, load) = settings_app_event(AppEvent::SettingsFormLoadingCancelRequested);
    assert!(load.is_none());
    assert!(matches!(a[0], StateAction::SettingsFormClose));
    let (a, _) = settings_app_event(AppEvent::SettingsFormItemSubmitted {
        key: "txPower".to_string(),
        value: FormValue::Int32(20),
    });
    assert!(matches!(&a[0], StateAction::SettingsFormValueSet { key, value: FormValue::Int32(20) } if key == "txPower"));
}

#[test]
fn loading_outcomes() {
    let data = vec![FormField { key: "region".to_string(), value: FormValue::Int32(3) }];
    assert!(matches!(
        loading_outcome(FormId::RadioLora, Some(Ok(data))),
        StateAction::SettingsFormLoadingDone { id: FormId::RadioLora, data } if data.len() == 1
    ));
    assert!(matches!(
        loading_outcome(FormId::RadioLora, None),
        StateAction::SettingsFormLoadingFail { error, .. } if error == "Lora config not loaded"
    ));
    assert!(matches!(
        loading_outcome(FormId::RadioLora, Some(Err("bad".to_string()))),
        StateAction::SettingsFormLoadingFail { error, .. } if error == "bad"
    ));
    assert!(matches!(
        loading_outcome(FormId::ModuleMqtt, None),
        StateAction::SettingsFormLoadingFail { id: FormId::ModuleMqtt, error }
            if error == "Loader not implemented for FormId: ModuleMqtt"
    ));
}

#[test]
fn tab_requests_switch_tabs() {
    assert!(matches!(ui::handle_app_event(&AppEvent::NextTabRequested), Some(StateAction::TabSwitchToNext)));
    assert!(matches!(
        ui::handle_app_event(&AppEvent::PreviousTabRequested),
        Some(StateAction::TabSwitchToPrevious)
    ));
    assert!(ui::handle_app_event(&AppEvent::SplashLogoRequested).is_none());
}

#[test]
fn the_radio_link_reports() {
    assert!(matches!(connection_outcome(Ok(())), MeshtasticEvent::Connected));
    assert!(matches!(connection_outcome(Err("x".to_string())), MeshtasticEvent::ConnectionError(e) if e == "x"));
    let (e, running) = radio_link_packet(None);
    assert!(e.is_none() && !running);
    let (e, running) = radio_link_packet(Some(None));
    assert!(e.is_none() && running);
    let (e, running) = radio_link_packet(Some(Some(RadioPacket::Other)));
    assert!(matches!(e, Some(MeshtasticEvent::IncomingPacket(RadioPacket::Other))) && running);
}

#[test]
fn configuration_is_stored_when_it_changes() {
    assert_eq!(calculate_hash(&"abc"), calculate_hash(&"abc"));
    assert_ne!(calculate_hash(&1u32), calculate_hash(&2u32));
    let mut service = ConfigService::new();
    let h = calculate_hash(&(3u8, "devices"));
    assert!(service.handle_state_change(h));
    assert!(!service.handle_state_change(h));
    assert_eq!(service.app_config_last_hash, h);
}

#[test]
fn routes_interleave_signals_and_nodes() {
    let r = route_items(&vec![4, 8], &vec![100]);
    assert_eq!(r, vec![TracerouteItem::Snr(4), TracerouteItem::Node(100), TracerouteItem::Snr(8)]);
    let r = route_items(&vec![], &vec![1, 2]);
    assert_eq!(r, vec![TracerouteItem::Node(1), TracerouteItem::Node(2)]);
}

#[test]
fn traceroute_packets() {
    let route = RouteDiscovery {
        route: vec![100],
        snr_towards: vec![4, 8],
        route_back: vec![],
        snr_back: vec![12],
        ..Default::default()
    };
    let mut data = PacketData { portnum: 70, payload: route.encode_to_vec(), request_id: 55, reply_id: 0, emoji: 0 };
    let reply = packet(5, 9, PacketPayload::Decoded(data.clone()));
    match traceroute_packet(&RadioPacket::Packet(reply)) {
        Some(TracerouteEvent::Finished { message_id, at, route_towards, route_back }) => {
            assert_eq!(message_id, 55);
            assert_eq!(at.secs, 1_700_000_000);
            assert_eq!(route_towards.len(), 3);
            assert_eq!(route_back, vec![TracerouteItem::Snr(12)]);
        }
        other => panic!("unexpected {:?}", other),
    }
    let mut own = packet(9, 5, PacketPayload::Decoded(data.clone()));
    own.internal = true;
    assert!(matches!(
        traceroute_packet(&RadioPacket::Packet(own)),
        Some(TracerouteEvent::Started { node_key: 5, message_id: 77, .. })
    ));
    data.portnum = 1;
    assert!(traceroute_packet(&RadioPacket::Packet(packet(5, 9, PacketPayload::Decoded(data)))).is_none());
}

#[test]
fn traceroutes_wait_between_runs() {
    match request_traceroute(5, Some(9), 10) {
        TracerouteRequest::Wait(t) => {
            assert_eq!(t.kind, ToastKind::Warning);
            assert_eq!(t.text, "traceroute cooldown: wait 20 secs...");
        }
        other => panic!("unexpected {:?}", other),
    }
    assert!(matches!(
        request_traceroute(5, Some(9), 30),
        TracerouteRequest::Run { node_num: 5, my_node_num: 9 }
    ));
}

#[test]
fn traceroutes_time_out() {
    let active = vec![
        ActiveTraceroute { message_id: 1, known: Some((TracerouteState::Started, 100)) },
        ActiveTraceroute { message_id: 2, known: Some((TracerouteState::Started, 150)) },
        ActiveTraceroute { message_id: 3, known: Some((TracerouteState::Finished, 0)) },
        ActiveTraceroute { message_id: 4, known: None },
    ];
    let (any, out) = check_traceroutes(&active, 200);
    assert!(any);
    assert_eq!(out, vec![1, 4]);
    let (any, out) = check_traceroutes(&Vec::new(), 200);
    assert!(!any && out.is_empty());
}

#[test]
fn a_finished_traceroute_is_announced_and_no_longer_under_way() {
    let mut t = Traceroutes::new();
    let at = UtcTime { secs: 1000, nanos: 0 };
    assert!(t.handle_event(TracerouteEvent::Started { node_key: 5, message_id: 7, at }).is_none());
    assert_eq!(t.active.len(), 1);
    assert_eq!(t.last_run, Some(1000));
    let done = TracerouteEvent::Finished {
        message_id: 7,
        at,
        route_towards: vec![TracerouteItem::Snr(12), TracerouteItem::Node(5)],
        route_back: Vec::new(),
    };
    match t.handle_event(done) {
        Some(StateAction::Toast(toast)) => {
            assert_eq!(toast.kind, ToastKind::Success);
            assert_eq!(toast.text, "traceroute finished");
        }
        other => panic!("unexpected {:?}", other),
    }
    assert!(t.active.is_empty());
    assert_eq!(t.finished.len(), 1);
    assert_eq!(t.finished[0].message_id, 7);
    assert_eq!(t.finished[0].route_towards, vec![TracerouteItem::Snr(12), TracerouteItem::Node(5)]);
}

#[test]
fn a_timed_out_traceroute_is_reported() {
    let mut t = Traceroutes::new();
    let at = UtcTime { secs: 1000, nanos: 0 };
    t.handle_event(TracerouteEvent::Started { node_key: 5, message_id: 7, at });
    assert!(t.check(1059).is_empty());
    assert_eq!(t.active.len(), 1);
    let out = t.check(1060);
    assert_eq!(out.len(), 1);
    assert!(matches!(&out[0], StateAction::Toast(x) if x.kind == ToastKind::Error && x.text == "traceroute timed out"));
    assert!(t.active.is_empty());
}

#[test]
fn a_traceroute_request_waits_then_runs() {
    let mut t = Traceroutes::new();
    t.handle_event(TracerouteEvent::Started { node_key: 5, message_id: 7, at: UtcTime { secs: 1000, nanos: 0 } });
    assert!(!t.cooldown_over(1010));
    let wait = t.handle_app_event(&AppEvent::TracerouteRequested(6), Some(9), 1010);
    assert!(wait.commands.is_empty());
    assert!(matches!(&wait.actions[0], StateAction::Toast(x) if x.kind == ToastKind::Warning && x.text == "traceroute cooldown: wait 20 secs..."));
    assert!(t.cooldown_over(1030));
    let run = t.handle_app_event(&AppEvent::TracerouteRequested(6), Some(9), 1030);
    assert!(run.actions.is_empty());
    assert!(matches!(run.commands[0], CommandToMeshtastic::RunTraceroute { node_num: 6, my_node_num: 9 }));
}

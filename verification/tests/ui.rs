use std::collections::HashMap;

use meshtui::chat::{Message, Reaction};
use meshtui::device::{ConnectionState, Device, DeviceDiscoveringState, HostName, IpAddress, TcpAddr};
use meshtui::device_sort::device_list;
use meshtui::events::AppEvent;
use meshtui::settings::{FormId, SettingsFormState};
use meshtui::state::{LogLevel, LogRecord};
use meshtui::types::{Channel, ChannelRole, Node, Tab, ToastKind, UtcTime};
use meshtui::ui::channels::{channel_list, Channels};
use meshtui::ui::chat::{new_input_widget, ChatConversations, ChatInput, ChatMessages, DeviceSelected};
use meshtui::ui::connection::{connection_lines, discovering_note, Connection, DeviceList};
use meshtui::ui::input::{InputEvent, KeyCode, KeyPress};
use meshtui::ui::layout::{
    header_connection, redraw_step, screen_for, tab_bar, terminal_step, toast_colors, Header,
    Hotkeys, Screen, Tabs, TerminalEvent,
};
use meshtui::ui::links::hyperlinked_lines;
use meshtui::ui::list::Selection;
use meshtui::ui::logs::Logs;
use meshtui::ui::message::{
    badge_text, channel_title, hop_arrows, input_counter, message_status, node_reach,
    reaction_groups, reply_quote, ChannelTitle, MessageStatus, NodeReach,
};
use meshtui::ui::messenger::Messenger;
use meshtui::ui::nodes::{humanize_duration, NodeInfoContext, NodeInfoWidgetEvent, NodeInfoTab, NodeInfoWidgetState, Nodes};
use meshtui::ui::settings::{build_settings, Settings};
use meshtui::ui::styled::Tint;
use meshtui::store::StateAction;

fn key(code: KeyCode) -> InputEvent {
    InputEvent::Key(KeyPress { code, ctrl: false, alt: false, shift: false })
}

fn ctrl(code: KeyCode) -> InputEvent {
    InputEvent::Key(KeyPress { code, ctrl: true, alt: false, shift: false })
}

fn texts(hotkeys: &[meshtui::types::Hotkey]) -> Vec<(String, String)> {
    hotkeys.iter().map(|h| (h.key.clone(), h.label.clone())).collect()
}

fn pairs(v: &[(&str, &str)]) -> Vec<(String, String)> {
    v.iter().map(|(k, l)| (k.to_string(), l.to_string())).collect()
}

#[test]
fn a_list_moves_and_stops_at_its_ends() {
    let mut s = Selection::new();
    s.next();
    assert_eq!(s.selected, None);
    s.set_items(3, false);
    s.next();
    assert_eq!(s.selected, Some(0));
    s.previous();
    assert_eq!(s.selected, Some(0));
    s.next();
    s.next();
    s.next();
    assert_eq!(s.selected, Some(2));
    let mut w = Selection { selected: Some(2), len: 3, wrap: true };
    w.next();
    assert_eq!(w.selected, Some(0));
    w.previous();
    assert_eq!(w.selected, Some(2));
    let mut n = Selection { selected: None, len: 3, wrap: false };
    n.previous();
    assert_eq!(n.selected, Some(2));
}

fn drawn_settings() -> Settings {
    let mut s = Settings::new();
    s.refresh(&build_settings());
    s
}

#[test]
fn the_settings_screen_starts_at_the_top() {
    let items = build_settings();
    let mut s = Settings::new();
    s.refresh(&items);
    assert_eq!(s.menu.selected, Some(0));
    assert_eq!(s.menu.len, 22);
    assert!(!s.menu.wrap);
    s.handle_key(&items, &SettingsFormState::Inactive, KeyCode::Up);
    assert_eq!(s.menu.selected, Some(0));
    s.menu.select(Some(5));
    s.refresh(&items);
    assert_eq!(s.menu.selected, Some(5));
    s.refresh_form(4);
    assert_eq!(s.form.selected, Some(0));
    assert_eq!(s.form.len, 4);
    s.form.select(Some(2));
    s.refresh_form(4);
    assert_eq!(s.form.selected, Some(2));
}

#[test]
fn the_settings_menu_passes_over_headings() {
    let items = build_settings();
    let mut s = drawn_settings();
    assert!(s.handle_key(&items, &SettingsFormState::Inactive, KeyCode::Down).is_none());
    assert_eq!(s.menu.selected, Some(1));
    s.menu.select(Some(3));
    s.handle_key(&items, &SettingsFormState::Inactive, KeyCode::Down);
    assert_eq!(s.menu.selected, Some(5));
    s.handle_key(&items, &SettingsFormState::Inactive, KeyCode::Up);
    assert_eq!(s.menu.selected, Some(3));
    s.menu.select(Some(1));
    s.handle_key(&items, &SettingsFormState::Inactive, KeyCode::Up);
    assert_eq!(s.menu.selected, Some(0));
    s.menu.select(Some(21));
    s.handle_key(&items, &SettingsFormState::Inactive, KeyCode::Down);
    assert_eq!(s.menu.selected, Some(21));
    s.menu.select(None);
    s.handle_key(&items, &SettingsFormState::Inactive, KeyCode::Up);
    assert_eq!(s.menu.selected, Some(21));
}

#[test]
fn the_settings_menu_opens_and_closes_forms() {
    let items = build_settings();
    let mut s = drawn_settings();
    s.menu.select(Some(1));
    let e = s.handle_key(&items, &SettingsFormState::Inactive, KeyCode::Enter);
    assert!(matches!(e, Some(AppEvent::SettingsFormSelected(FormId::RadioLora))));
    s.menu.select(Some(0));
    assert!(s.handle_key(&items, &SettingsFormState::Inactive, KeyCode::Enter).is_none());
    let loading = SettingsFormState::Loading { id: FormId::RadioLora };
    assert!(matches!(s.handle_key(&items, &loading, KeyCode::Esc), Some(AppEvent::SettingsFormLoadingCancelRequested)));
    let loaded = SettingsFormState::Loaded { id: FormId::RadioLora };
    s.refresh_form(4);
    s.handle_key(&items, &loaded, KeyCode::Down);
    assert_eq!(s.form.selected, Some(1));
    assert!(s.handle_key(&items, &SettingsFormState::Inactive, KeyCode::Esc).is_none());
}

#[test]
fn settings_hotkeys() {
    let mut s = Settings::new();
    assert_eq!(texts(&s.get_hotkeys(&SettingsFormState::Inactive)), pairs(&[("↑↓", "scroll"), ("enter", "open")]));
    assert_eq!(texts(&s.get_hotkeys(&SettingsFormState::Loading { id: FormId::AppUi })), pairs(&[("esc", "cancel")]));
    let loaded = SettingsFormState::Loaded { id: FormId::AppUi };
    assert_eq!(texts(&s.get_hotkeys(&loaded)), pairs(&[("↑↓", "scroll"), ("esc", "return")]));
    s.form.select(Some(0));
    assert_eq!(texts(&s.get_hotkeys(&loaded)), pairs(&[("↑↓", "scroll"), ("enter", "edit"), ("esc", "return")]));
    assert_eq!(texts(&s.get_hotkeys(&SettingsFormState::Saved { id: FormId::AppUi })), pairs(&[("esc", "return")]));
}

fn ip(n: u32, port: Option<u16>) -> TcpAddr {
    TcpAddr { host: HostName::Ip(IpAddress::V4(n)), port }
}

#[test]
fn the_device_list_is_ordered_by_kind_and_address() {
    let tcp = vec![
        TcpAddr { host: HostName::Domain("b.example".to_string()), port: Some(1) },
        ip(0x0A00_0002, None),
        ip(0x0A00_0001, Some(4403)),
    ];
    let discovered = vec![
        Device::Serial("COM2".to_string()),
        Device::Ble { name: "z".to_string(), address: "BB".to_string() },
        Device::Ble { name: "a".to_string(), address: "AA".to_string() },
    ];
    let list = device_list(&tcp, &discovered);
    assert_eq!(list.len(), 6);
    assert!(matches!(&list[0], Device::Tcp(a) if a.same_as(&ip(0x0A00_0001, Some(4403)))));
    assert!(matches!(&list[1], Device::Tcp(a) if a.same_as(&ip(0x0A00_0002, None))));
    assert!(matches!(&list[2], Device::Tcp(TcpAddr { host: HostName::Domain(d), .. }) if d == "b.example"));
    assert!(matches!(&list[3], Device::Ble { address, .. } if address == "AA"));
    assert!(matches!(&list[4], Device::Ble { address, .. } if address == "BB"));
    assert!(matches!(&list[5], Device::Serial(p) if p == "COM2"));
}

#[test]
fn the_connection_screen() {
    let mut c = Connection::new();
    c.refresh(&vec![ip(1, Some(4403))], &vec![Device::Serial("COM1".to_string())]);
    assert_eq!(c.devices.len(), 2);
    assert_eq!(c.list.selected, Some(0));
    let none = "";
    assert_eq!(
        texts(&c.get_hotkeys(false)),
        pairs(&[("↑↓", "navigate"), ("enter", "connect"), ("t", "add TCP"), ("r", "rediscover"), ("del", "delete")])
    );
    let out = c.handle_event(false, none, key(KeyCode::Delete));
    assert!(matches!(out.event, Some(AppEvent::TcpDeviceRemoved(_))));
    c.handle_event(false, none, key(KeyCode::Down));
    assert_eq!(c.list.selected, Some(1));
    assert_eq!(texts(&c.get_hotkeys(false)).len(), 4);
    let out = c.handle_event(false, none, key(KeyCode::Enter));
    assert!(matches!(out.event, Some(AppEvent::DeviceSelected(Device::Serial(p))) if p == "COM1"));
    let out = c.handle_event(false, none, key(KeyCode::Char('r')));
    assert!(matches!(out.event, Some(AppEvent::DeviceRediscoverRequested)));
    c.handle_event(false, none, key(KeyCode::Char('t')));
    assert!(c.is_form_visible);
    assert_eq!(texts(&c.get_hotkeys(false)), pairs(&[("enter", "submit"), ("esc", "cancel")]));
    let out = c.handle_event(false, none, key(KeyCode::Char('x')));
    assert!(out.to_input && out.event.is_none());
    let out = c.handle_event(false, "10.0.0.1:99999", key(KeyCode::Enter));
    assert!(out.event.is_none());
    assert!(c.is_form_visible);
    assert_eq!(
        c.form_error.as_deref(),
        Some("invalid address: number too large to fit in target type")
    );
    let out = c.handle_event(false, "0.0.0.7", key(KeyCode::Enter));
    match out.event {
        Some(AppEvent::TcpDeviceSubmitted(a)) => assert!(a.same_as(&ip(7, None))),
        _ => panic!("the address should be submitted"),
    }
    assert!(!c.is_form_visible);
    c.handle_event(false, none, key(KeyCode::Char('t')));
    let out = c.handle_event(false, none, key(KeyCode::Esc));
    assert!(out.reset_input && !c.is_form_visible);
    let out = c.handle_event(true, none, key(KeyCode::Esc));
    assert!(matches!(out.event, Some(AppEvent::DisconnectionRequested)));
    assert_eq!(texts(&c.get_hotkeys(true)), pairs(&[("esc", "disconnect")]));
    c.handle_event(false, none, InputEvent::ScrollUp);
    assert_eq!(c.list.selected, Some(0));
}

#[test]
fn the_device_list_screen_refreshes_with_f5() {
    let mut d = DeviceList::new();
    let none = "";
    let out = d.handle_event(none, key(KeyCode::F(5)));
    assert!(matches!(out.event, Some(AppEvent::DeviceRediscoverRequested)));
    assert_eq!(
        texts(&d.get_hotkeys()),
        pairs(&[("↑↓", "navigate"), ("enter", "connect"), ("t", "add TCP"), ("F5", "refresh")])
    );
    d.handle_event(none, key(KeyCode::Char('t')));
    assert!(d.is_form_visible);
}

#[test]
fn connection_descriptions() {
    let n = discovering_note(&DeviceDiscoveringState::Discovering);
    assert_eq!((n.text.as_str(), n.tint), ("(loading...) ", Tint::Yellow));
    let n = discovering_note(&DeviceDiscoveringState::Failed("x".to_string()));
    assert_eq!((n.text.as_str(), n.tint), ("(error) ", Tint::Red));
    assert_eq!(discovering_note(&DeviceDiscoveringState::Done).text, "");
    let lines = connection_lines(&ConnectionState::ProblemDetected { since: 0, error: "timeout".to_string() });
    assert_eq!(lines.len(), 3);
    assert_eq!(lines[0].text, "connection problem");
    assert_eq!(lines[2].text, "timeout");
    assert_eq!(connection_lines(&ConnectionState::Connected)[0].tint, Tint::Green);
}

fn message(id: u32, from: u32) -> Message {
    Message {
        id,
        reply_message_id: 0,
        from,
        datetime: UtcTime { secs: 0, nanos: 0 },
        text: format!("m{}", id),
        reactions: Vec::new(),
        hops: None,
        snr: 0,
        rssi: 0,
        acked: false,
    }
}

fn node(key: u32, short: &str) -> Node {
    Node {
        id: String::new(),
        key,
        short_name: short.to_string(),
        long_name: String::new(),
        hops_away: None,
        last_heard: None,
        snr: 0,
        role: String::new(),
        hw_model: String::new(),
        my: false,
    }
}

#[test]
fn the_messenger_follows_replies_and_sends() {
    let messages = vec![message(10, 1), message(11, 2)];
    let mut nodes = HashMap::new();
    nodes.insert(1u32, node(1, "ONE"));
    let mut m = Messenger::new();
    m.refresh(0, messages.len());
    assert_eq!(m.lists[&0].selected, Some(1));
    assert_eq!(m.follow_chat[&0], true);
    m.handle_event(0, &messages, &nodes, "", key(KeyCode::Up));
    assert_eq!(m.lists[&0].selected, Some(0));
    assert_eq!(m.follow_chat[&0], false);
    m.handle_event(0, &messages, &nodes, "", key(KeyCode::F(2)));
    assert_eq!(m.replying_to[&0].1, 10);
    assert_eq!(m.replying_to[&0].0.short_name, "ONE");
    assert_eq!(
        texts(&m.get_hotkeys(0, "yo")),
        pairs(&[("↑↓", "scroll"), ("esc", "cancel reply"), ("enter", "send reply")])
    );
    let out = m.handle_event(0, &messages, &nodes, "yo", key(KeyCode::Enter));
    assert!(matches!(out.event, Some(AppEvent::ChatMessageSubmitted { text, reply_message_id: Some(10) }) if text == "yo"));
    assert!(out.clear_input);
    assert!(!m.replying_to.contains_key(&0));
    m.handle_event(0, &messages, &nodes, "", key(KeyCode::Down));
    assert_eq!(m.follow_chat[&0], true);
    let out = m.handle_event(0, &messages, &nodes, "", key(KeyCode::Esc));
    assert!(matches!(out.event, Some(AppEvent::SwitchChannelRequested)));
    let out = m.handle_event(0, &messages, &nodes, "a", ctrl(KeyCode::Enter));
    assert!(out.newline && out.event.is_none());
    let long = "x".repeat(201);
    let out = m.handle_event(0, &messages, &nodes, &long, key(KeyCode::Enter));
    assert!(out.event.is_none() && !out.clear_input);
    let out = m.handle_event(0, &messages, &nodes, "", key(KeyCode::Char('q')));
    assert!(out.to_input);
    m.handle_event(0, &messages, &nodes, "", key(KeyCode::F(2)));
    assert_eq!(m.replying_to[&0].0.short_name, "?");
    m.handle_event(0, &messages, &nodes, "", key(KeyCode::Esc));
    assert!(!m.replying_to.contains_key(&0));
    assert_eq!(
        texts(&m.get_hotkeys(0, "")),
        pairs(&[("↑↓", "scroll"), ("F2", "reply"), ("F4", "node info"), ("esc", "switch channel")])
    );
}

#[test]
fn message_helpers() {
    assert_eq!(badge_text(&"ab".to_string()), "  ab  ");
    assert_eq!(badge_text(&"abc".to_string()), " abc  ");
    assert_eq!(badge_text(&"abcdefg".to_string()), "abcdefg");
    assert_eq!(badge_text(&"".to_string()), "      ");
    assert_eq!(badge_text(&"ab".to_string()), format!("{:^6}", "ab"));
    assert_eq!(reply_quote(&"one\ntwo".to_string()), "“one two”");
    assert_eq!(hop_arrows(3), "❱❱❱");
    assert_eq!(hop_arrows(0), "");
    let c = input_counter(201);
    assert_eq!((c.text.as_str(), c.tint), (" 201/200", Tint::Red));
    assert_eq!(input_counter(3).tint, Tint::DarkGray);
    let mut me = node(1, "ME");
    me.my = true;
    let mut m = message(1, 1);
    assert_eq!(message_status(&me, &m), MessageStatus::Sent);
    m.acked = true;
    assert_eq!(message_status(&me, &m), MessageStatus::Acked);
    let mut other = node(2, "O");
    other.hops_away = Some(2);
    assert_eq!(message_status(&other, &m), MessageStatus::Hops(2));
    other.hops_away = Some(0);
    assert_eq!(message_status(&other, &m), MessageStatus::Signal);
    assert_eq!(node_reach(&other), NodeReach::Signal);
    assert_eq!(node_reach(&me), NodeReach::Connected);
    assert_eq!(node_reach(&node(3, "X")), NodeReach::Unknown);
}

#[test]
fn reactions_are_grouped_by_emoji() {
    let r = |emoji: &str, node_key: u32| Reaction { emoji: emoji.to_string(), node_key, at: UtcTime { secs: 0, nanos: 0 } };
    let groups = reaction_groups(&vec![r("👍", 1), r("❤", 1), r("👍", 2), r("👍", 3)]);
    assert_eq!(groups, vec![("👍".to_string(), 3), ("❤".to_string(), 1)]);
    assert!(reaction_groups(&Vec::new()).is_empty());
}

#[test]
fn channel_titles() {
    let mut nodes = HashMap::new();
    nodes.insert(7u32, node(7, "SEVEN"));
    let primary = Channel { key: 0, id: 0, role: ChannelRole::Primary, name: String::new() };
    assert!(matches!(channel_title(&primary, None, &nodes), ChannelTitle::Radio { number, name } if number == "#0 " && name == "Primary"));
    let named = Channel { key: 2, id: 0, role: ChannelRole::Secondary, name: "ops".to_string() };
    assert!(matches!(channel_title(&named, None, &nodes), ChannelTitle::Radio { name, .. } if name == "ops"));
    let direct = Channel::direct(7);
    assert!(matches!(channel_title(&direct, None, &nodes), ChannelTitle::Direct(n) if n.short_name == "SEVEN"));
    let who = node(9, "NINE");
    assert!(matches!(channel_title(&named, Some(&who), &nodes), ChannelTitle::ReplyTo(n) if n.key == 9));
}

#[test]
fn the_channel_list_holds_channels_in_use_by_key() {
    let mut channels = HashMap::new();
    channels.insert(3u32, Channel { key: 3, id: 0, role: ChannelRole::Secondary, name: String::new() });
    channels.insert(0u32, Channel { key: 0, id: 0, role: ChannelRole::Primary, name: String::new() });
    channels.insert(1u32, Channel::disabled(1));
    channels.insert(9u32, Channel::direct(9));
    let list = channel_list(&channels);
    let keys: Vec<u32> = list.iter().map(|c| c.key).collect();
    assert_eq!(keys, vec![0, 3, 9]);
    let mut c = Channels::new();
    assert_eq!(texts(&c.hotkeys), pairs(&[("↑↓", "navigate"), ("enter", "open")]));
    c.refresh(&channels);
    assert_eq!(c.list.selected, Some(0));
    c.handle_event(key(KeyCode::Down));
    assert!(matches!(c.handle_event(key(KeyCode::Enter)), Some(AppEvent::ChannelSelected(3))));
}

#[test]
fn the_node_list_moves_and_jumps() {
    let mut n = Nodes::new();
    assert_eq!(texts(&n.hotkeys), pairs(&[("↑↓", "scroll"), ("enter", "expand"), ("s", "sort by")]));
    n.refresh(5);
    assert_eq!(n.list.selected, Some(0));
    n.handle_event(5, key(KeyCode::End));
    assert_eq!(n.list.selected, Some(4));
    n.handle_event(5, key(KeyCode::Down));
    assert_eq!(n.list.selected, Some(4));
    n.handle_event(5, key(KeyCode::Home));
    assert_eq!(n.list.selected, Some(0));
    n.handle_event(5, InputEvent::ScrollDown);
    assert_eq!(n.list.selected, Some(1));
}

#[test]
fn ages_are_humanized() {
    let t = |secs: i64| humanize_duration(secs).iter().map(|s| s.text.clone()).collect::<Vec<_>>();
    assert_eq!(t(0), vec!["now"]);
    assert_eq!(t(-5), vec!["now"]);
    assert_eq!(t(59), vec!["now"]);
    assert_eq!(t(60), vec!["1m", " ago"]);
    assert_eq!(t(3599), vec!["59m", " ago"]);
    assert_eq!(t(3600), vec!["1h 0m", " ago"]);
    assert_eq!(t(7_380), vec!["2h 3m", " ago"]);
    assert_eq!(t(86_399), vec!["23h 59m", " ago"]);
    assert_eq!(t(90_061), vec!["1d 1h", " ago"]);
    assert_eq!(humanize_duration(10)[0].tint, Tint::Green);
}

#[test]
fn node_details_tabs_cycle() {
    assert_eq!(NodeInfoTab::Info.next(), NodeInfoTab::Traceroutes);
    assert_eq!(NodeInfoTab::Telemetry.next(), NodeInfoTab::Info);
    assert_eq!(NodeInfoTab::Info.prev(), NodeInfoTab::Telemetry);
    for t in [NodeInfoTab::Info, NodeInfoTab::Traceroutes, NodeInfoTab::Position, NodeInfoTab::Telemetry] {
        assert_eq!(t.next().prev(), t);
        assert_eq!(t.prev().next(), t);
    }
}

#[test]
fn node_details_answer_keys() {
    let ctx = NodeInfoContext {
        public_key_text: Some("cHVi".to_string()),
        telemetry_texts: vec![Some("{\"a\":1}".to_string()), None],
    };
    let mut s = NodeInfoWidgetState::new();
    assert_eq!(texts(&s.get_hotkeys(false)), pairs(&[("esc", "close"), ("k", "copy public key"), ("delete", "remove")]));
    assert_eq!(texts(&s.get_hotkeys(true)).len(), 2);
    let (taken, e) = s.handle_event(&ctx, key(KeyCode::Char('k')));
    assert!(taken && matches!(e, Some(NodeInfoWidgetEvent::CopyToClipboardRequested(t)) if t == "cHVi"));
    let (taken, e) = s.handle_event(&ctx, key(KeyCode::Delete));
    assert!(taken && e.is_none() && s.is_delete_node_popup_visible);
    let (taken, e) = s.handle_event(&ctx, key(KeyCode::Char('z')));
    assert!(taken && e.is_none() && s.is_delete_node_popup_visible);
    let (taken, e) = s.handle_event(&ctx, key(KeyCode::Enter));
    assert!(taken && matches!(e, Some(NodeInfoWidgetEvent::NodeDeleteRequested)) && !s.is_delete_node_popup_visible);
    s.handle_event(&ctx, key(KeyCode::Tab));
    assert_eq!(s.active_tab, NodeInfoTab::Traceroutes);
    let (_, e) = s.handle_event(&ctx, key(KeyCode::Char('r')));
    assert!(matches!(e, Some(NodeInfoWidgetEvent::TracerouteRequested)));
    s.handle_event(&ctx, key(KeyCode::BackTab));
    s.handle_event(&ctx, key(KeyCode::BackTab));
    assert_eq!(s.active_tab, NodeInfoTab::Telemetry);
    let (taken, _) = s.handle_event(&ctx, key(KeyCode::Char('c')));
    assert!(!taken);
    s.telemetry_list.set_items(2, false);
    let (taken, _) = s.handle_event(&ctx, key(KeyCode::Down));
    assert!(taken);
    let (taken, e) = s.handle_event(&ctx, key(KeyCode::Char('c')));
    assert!(taken && matches!(e, Some(NodeInfoWidgetEvent::CopyToClipboardRequested(t)) if t == "{\"a\":1}"));
    let (taken, e) = s.handle_event(&ctx, key(KeyCode::Esc));
    assert!(taken && matches!(e, Some(NodeInfoWidgetEvent::CloseRequested)));
    let (taken, _) = s.handle_event(&ctx, ctrl(KeyCode::Esc));
    assert!(!taken);
}

fn record(message: &str) -> LogRecord {
    LogRecord {
        datetime: UtcTime { secs: 0, nanos: 0 },
        level: LogLevel::Info,
        source: "test".to_string(),
        message: message.to_string(),
    }
}

#[test]
fn the_log_screen() {
    let logs = vec![record("a"), record("b"), record("c")];
    let mut l = Logs::new();
    assert_eq!(l.hotkeys.len(), 5);
    assert_eq!(texts(&l.popup_hotkeys), pairs(&[("↑↓", "scroll"), ("c", "copy"), ("esc", "close")]));
    l.refresh(logs.len());
    assert_eq!(l.list.selected, Some(2));
    l.handle_event(&logs, key(KeyCode::Up));
    assert!(!l.follow);
    assert_eq!(l.list.selected, Some(1));
    l.refresh(logs.len());
    assert_eq!(l.list.selected, Some(1));
    l.handle_event(&logs, key(KeyCode::Down));
    assert!(l.follow);
    let copied = l.handle_event(&logs, key(KeyCode::Char('c')));
    assert_eq!(copied.unwrap().message, "c");
    l.handle_event(&logs, key(KeyCode::Home));
    assert_eq!(l.list.selected, Some(0));
    l.handle_event(&logs, key(KeyCode::Enter));
    assert_eq!(l.popup_record.as_ref().unwrap().message, "a");
    l.handle_event(&logs, key(KeyCode::Up));
    assert_eq!(l.popup_scroll_offset, 0);
    l.handle_event(&logs, key(KeyCode::Down));
    assert_eq!(l.popup_scroll_offset, 1);
    l.handle_event(&logs, key(KeyCode::Esc));
    assert!(l.popup_record.is_none());
    l.handle_event(&logs, key(KeyCode::End));
    assert!(l.follow);
    assert_eq!(l.list.selected, Some(2));
}

#[test]
fn tabs_header_and_layout() {
    assert!(matches!(Tabs::new().handle_event(key(KeyCode::Tab)), Some(AppEvent::NextTabRequested)));
    assert!(matches!(Tabs::new().handle_event(key(KeyCode::BackTab)), Some(AppEvent::PreviousTabRequested)));
    assert!(Tabs::new().handle_event(key(KeyCode::Enter)).is_none());
    let _header = Header::new();
    let hotkeys = Hotkeys::new(vec![meshtui::types::Hotkey::new("a", "b")]);
    assert_eq!(hotkeys.items.len(), 1);
    let bar: Vec<String> = tab_bar(Tab::Nodes).iter().map(|s| s.text.clone()).collect();
    assert_eq!(bar, vec!["chat", "  ", " nodes ", "  ", "settings", "  ", "connection", "  ", "logs"]);
    assert_eq!(tab_bar(Tab::Nodes)[2].tint, Tint::Highlight);
    let h = header_connection(&ConnectionState::ProblemDetected { since: 1_000, error: String::new() }, 7_500);
    assert_eq!(h[0].text, "on pause 6 secs");
    assert_eq!(header_connection(&ConnectionState::Connected, 0).len(), 9);
    assert_eq!(toast_colors(ToastKind::Error), (Tint::Red, Tint::Red));
    assert_eq!(toast_colors(ToastKind::Normal), (Tint::DarkGray, Tint::White));
    assert_eq!(screen_for(Tab::Chat, true), Screen::Messenger);
    assert_eq!(screen_for(Tab::Chat, false), Screen::Channels);
    assert_eq!(screen_for(Tab::Settings, false), Screen::Nothing);
    let step = terminal_step(TerminalEvent::Input(ctrl(KeyCode::Char('c'))));
    assert!(step.shutdown && step.dispatch && !step.clear);
    let step = terminal_step(TerminalEvent::Resize);
    assert!(step.clear && step.dispatch && !step.shutdown);
    assert!(terminal_step(TerminalEvent::Closed).shutdown);
    assert!(!terminal_step(TerminalEvent::Failed).dispatch);
    assert!(matches!(redraw_step(true), Some(StateAction::FrameCleared)));
    assert!(redraw_step(false).is_none());
}

#[test]
fn chat_components() {
    let w = new_input_widget();
    assert_eq!(w.placeholder, "type message...");
    assert!(w.plain_cursor_line);
    let input = ChatInput::new("say".to_string(), 10);
    let out = input.handle_event("hey", key(KeyCode::Enter));
    assert!(out.reset_input && out.to_input);
    assert!(matches!(out.event, Some(AppEvent::ChatMessageSubmitted { text, reply_message_id: None }) if text == "hey"));
    let mut m = ChatMessages::new();
    assert_eq!(m.input.max_length, 200);
    let out = m.handle_event("", key(KeyCode::Esc));
    assert!(matches!(out.event, Some(AppEvent::SwitchChannelRequested)));
    let c = ChatConversations::new();
    assert_eq!(texts(&c.hotkeys), pairs(&[("enter", "select"), ("↑↓", "navigate")]));
    let d = DeviceSelected::new();
    assert_eq!(texts(&d.hotkeys), pairs(&[("esc", "disconnect")]));
    assert!(matches!(d.handle_event(key(KeyCode::Esc)), Some(AppEvent::DisconnectionRequested)));
}

#[test]
fn links_are_found_line_by_line() {
    let lines = hyperlinked_lines("see https://example.com now\nsecond\n").unwrap();
    assert_eq!(lines.len(), 3);
    let first: Vec<(&str, Tint)> = lines[0].iter().map(|p| (p.text.as_str(), p.tint)).collect();
    assert_eq!(
        first,
        vec![("see ", Tint::Plain), ("https://example.com ", Tint::Link), ("now", Tint::Plain)]
    );
    assert_eq!(lines[1].len(), 1);
    assert_eq!(lines[1][0].text, "second");
    assert!(lines[2].is_empty());
}

#[test]
fn a_link_at_the_start_and_end_of_a_line() {
    let lines = hyperlinked_lines("http://a.b/c").unwrap();
    assert_eq!(lines.len(), 1);
    assert_eq!(lines[0].len(), 1);
    assert_eq!(lines[0][0].text, "http://a.b/c");
    assert_eq!(lines[0][0].tint, Tint::Link);
}

#[test]
fn typed_addresses_are_read_with_their_port() {
    let mut d = DeviceList::new();
    d.handle_event("", key(KeyCode::Char('t')));
    let out = d.handle_event("radio.local:4404", key(KeyCode::Enter));
    match out.event {
        Some(AppEvent::TcpDeviceSubmitted(a)) => {
            assert!(matches!(&a.host, HostName::Domain(h) if h == "radio.local"));
            assert_eq!(a.port, Some(4404));
        }
        _ => panic!("the address should be submitted"),
    }
    d.handle_event("", key(KeyCode::Char('t')));
    let out = d.handle_event("[::1]:80", key(KeyCode::Enter));
    match out.event {
        Some(AppEvent::TcpDeviceSubmitted(a)) => {
            assert!(matches!(a.host, HostName::Ip(IpAddress::V6(1))));
            assert_eq!(a.port, Some(80));
        }
        _ => panic!("the address should be submitted"),
    }
    d.handle_event("", key(KeyCode::Char('t')));
    let out = d.handle_event("10.0.0.1:port", key(KeyCode::Enter));
    assert!(out.event.is_none());
    assert!(d.is_form_visible);
    assert_eq!(d.form_error.as_deref(), Some("invalid address: invalid digit found in string"));
}

use std::collections::HashMap;

use meshtui::device::{compare_devices, Device, HostName, IpAddress, TcpAddr};
use meshtui::node_sort::sorted_node_keys;
use meshtui::order::{compare_strings, compare_u32, Order};
use meshtui::text::{decimal_string, leaking_snake_to_camel, signed_decimal_string, snake_to_camel_string};
use meshtui::types::{
    compare_nodes, snr_rank_of, Channel, ChannelRole, Hotkey, Node, NodesSortBy, Tab, Toast, ToastKind,
    UtcTime,
};

#[test]
fn snake_case_names_become_camel_case() {
    assert_eq!(leaking_snake_to_camel("hop_limit"), "hopLimit");
    assert_eq!(leaking_snake_to_camel("sx126x_rx_boosted_gain"), "sx126xRxBoostedGain");
    assert_eq!(leaking_snake_to_camel("region"), "region");
    assert_eq!(leaking_snake_to_camel("a__b"), "aB");
    assert_eq!(leaking_snake_to_camel("_x"), "X");
    assert_eq!(leaking_snake_to_camel("x_"), "x");
    assert_eq!(leaking_snake_to_camel(""), "");
    assert_eq!(snake_to_camel_string("tx_1"), "tx1");
}

#[test]
fn numbers_are_written_in_decimal() {
    assert_eq!(decimal_string(0), "0");
    assert_eq!(decimal_string(4403), "4403");
    assert_eq!(decimal_string(u64::MAX), u64::MAX.to_string());
    assert_eq!(signed_decimal_string(-100), "-100");
    assert_eq!(signed_decimal_string(i64::MIN), i64::MIN.to_string());
    assert_eq!(signed_decimal_string(7), "7");
}

#[test]
fn strings_compare_by_characters() {
    assert_eq!(compare_strings(&"abc".to_string(), &"abd".to_string()), Order::Less);
    assert_eq!(compare_strings(&"ab".to_string(), &"abc".to_string()), Order::Less);
    assert_eq!(compare_strings(&"b".to_string(), &"abc".to_string()), Order::Greater);
    assert_eq!(compare_strings(&"same".to_string(), &"same".to_string()), Order::Equal);
    assert_eq!(compare_u32(3, 2), Order::Greater);
    assert_eq!(Order::Less.reverse(), Order::Greater);
    assert_eq!(Order::Equal.then_order(Order::Less), Order::Less);
    assert_eq!(Order::Greater.then_order(Order::Less), Order::Greater);
}

#[test]
fn devices_compare_tcp_then_ble_then_serial() {
    let tcp = Device::Tcp(TcpAddr { host: HostName::Ip(IpAddress::V4(1)), port: None });
    let v6 = Device::Tcp(TcpAddr { host: HostName::Ip(IpAddress::V6(1)), port: None });
    let with_port = Device::Tcp(TcpAddr { host: HostName::Ip(IpAddress::V4(1)), port: Some(1) });
    let ble = Device::Ble { name: "n".to_string(), address: "A".to_string() };
    let serial = Device::Serial("COM1".to_string());
    assert_eq!(compare_devices(&tcp, &ble), Order::Less);
    assert_eq!(compare_devices(&ble, &serial), Order::Less);
    assert_eq!(compare_devices(&serial, &tcp), Order::Greater);
    assert_eq!(compare_devices(&tcp, &v6), Order::Less);
    assert_eq!(compare_devices(&tcp, &with_port), Order::Less);
    let other_name = Device::Ble { name: "m".to_string(), address: "A".to_string() };
    assert_eq!(compare_devices(&ble, &other_name), Order::Equal);
    assert!(!ble.same_as(&other_name));
    assert!(ble.same_as(&ble.duplicate()));
}

fn node(key: u32, short: &str, hops: Option<u32>) -> Node {
    Node {
        id: String::new(),
        key,
        short_name: short.to_string(),
        long_name: format!("{} long", short),
        hops_away: hops,
        last_heard: Some(UtcTime { secs: key as i64, nanos: 0 }),
        snr: 0,
        role: "CLIENT".to_string(),
        hw_model: "TBEAM".to_string(),
        my: false,
    }
}

#[test]
fn nodes_sort_with_the_local_node_first() {
    let mut nodes = HashMap::new();
    nodes.insert(1u32, node(1, "CC", Some(2)));
    nodes.insert(2u32, node(2, "AA", None));
    nodes.insert(3u32, node(3, "BB", Some(0)));
    let mut me = node(4, "ZZ", None);
    me.my = true;
    nodes.insert(4u32, me);
    assert_eq!(sorted_node_keys(&nodes, NodesSortBy::Hops), vec![4, 3, 1, 2]);
    assert_eq!(sorted_node_keys(&nodes, NodesSortBy::ShortName), vec![4, 2, 3, 1]);
    assert_eq!(sorted_node_keys(&nodes, NodesSortBy::LastHeard), vec![4, 3, 2, 1]);
    assert_eq!(compare_nodes(&nodes[&1], &nodes[&2], NodesSortBy::LongName), Order::Greater);
    assert!(sorted_node_keys(&HashMap::new(), NodesSortBy::Role).is_empty());
    assert_eq!(NodesSortBy::default_key(), NodesSortBy::Hops);
}

#[test]
fn signal_ranks_order_by_value() {
    assert!(snr_rank_of((-10.0f32).to_bits()) < snr_rank_of((-7.5f32).to_bits()));
    assert!(snr_rank_of(0.0f32.to_bits()) < snr_rank_of(5.25f32.to_bits()));
    assert!(snr_rank_of((-0.5f32).to_bits()) < snr_rank_of(0.0f32.to_bits()));
}

#[test]
fn tabs_and_channels() {
    assert_eq!(Tab::Chat.next(), Tab::Nodes);
    assert_eq!(Tab::Logs.next(), Tab::Chat);
    assert_eq!(Tab::Chat.prev(), Tab::Logs);
    assert_eq!(Tab::first(), Tab::Chat);
    assert_eq!(Tab::Connection.title(), "Connection");
    for t in [Tab::Chat, Tab::Nodes, Tab::Settings, Tab::Connection, Tab::Logs] {
        assert_eq!(t.next().prev(), t);
    }
    assert!(ChannelRole::Disabled.is_disabled());
    assert!(!ChannelRole::Primary.is_disabled());
    assert!(ChannelRole::Direct.is_direct());
    assert_eq!(ChannelRole::from_radio_code(1), ChannelRole::Primary);
    assert_eq!(ChannelRole::from_radio_code(2), ChannelRole::Secondary);
    assert_eq!(ChannelRole::from_radio_code(0), ChannelRole::Disabled);
    assert_eq!(ChannelRole::from_radio_code(7), ChannelRole::Disabled);
    let d = Channel::direct(5);
    assert_eq!((d.key, d.id, d.role), (5, 0, ChannelRole::Direct));
    let x = Channel::disabled(2);
    assert_eq!((x.key, x.role), (2, ChannelRole::Disabled));
    let h = Hotkey::new("esc", "close");
    assert_eq!((h.key.as_str(), h.label.as_str()), ("esc", "close"));
    let t = Toast::warning("w".to_string());
    assert_eq!((t.kind, t.text.as_str()), (ToastKind::Warning, "w"));
    assert_eq!(Toast::success(String::new()).kind, ToastKind::Success);
}

#[test]
fn camel_case_has_no_underscores_and_is_kept() {
    let once = leaking_snake_to_camel("config_ok_to_mqtt");
    assert_eq!(once, "configOkToMqtt");
    assert!(!once.contains('_'));
    assert_eq!(once.len(), "config_ok_to_mqtt".len() - 3);
    assert_eq!(leaking_snake_to_camel(once), once);
}

#[test]
fn ble_devices_with_one_address_compare_equal() {
    let a = Device::Ble { name: "one".to_string(), address: "AA:BB".to_string() };
    let b = Device::Ble { name: "two".to_string(), address: "AA:BB".to_string() };
    let c = Device::Ble { name: "one".to_string(), address: "AA:BC".to_string() };
    assert_eq!(compare_devices(&a, &b), Order::Equal);
    assert_eq!(compare_devices(&a, &c), Order::Less);
    assert_eq!(compare_devices(&c, &a), Order::Greater);
}

//! The laws of the order of the node list and of the device list.

use vstd::prelude::*;

use crate::device::{order_device, DeviceView, HostView, IpAddress, TcpAddrView};
use crate::device_sort::is_device_list;
use crate::node_sort::is_sorted_node_listing;
use crate::order::{lemma_order_chars_flip, order_chars, Order};
use crate::types::{node_order, snr_rank, Node, NodesSortBy, UtcTime};

verus! {

/// The hop count a node is sorted by: unknown counts as the largest count.
pub open spec fn hops_or_max(n: Node) -> int {
    match n.hops_away {
        Some(h) => h as int,
        None => u32::MAX as int,
    }
}

/// A point in time comes strictly before another.
pub open spec fn earlier(a: UtcTime, b: UtcTime) -> bool {
    a.secs < b.secs || (a.secs == b.secs && a.nanos < b.nanos)
}

/// The local node comes first whatever the sort key; two other nodes come in the order of the
/// chosen key:
/// - by hops, fewer hops first (an unknown count last), and with equal hops the stronger
///   signal first (a larger signal-to-noise ratio, ranked as `snr_rank` ranks single-precision
///   numbers);
/// - by last heard, the node heard later first (one never heard counts as heard at the epoch);
/// - by short name or long name, in the order of the names' characters;
/// - by hardware model, in the order of the model names, and with equal models by short name;
/// - by role, in the order of the role names, the role deciding before hops and signal, and
///   with equal roles as by hops.
pub proof fn law_node_order_keys(a: Node, b: Node, by: NodesSortBy)
    ensures
        a.my && !b.my ==> node_order(a, b, by) == Order::Less,
        !a.my && b.my ==> node_order(a, b, by) == Order::Greater,
        !a.my && !b.my ==> match by {
            NodesSortBy::Hops => {
                &&& hops_or_max(a) < hops_or_max(b) ==> node_order(a, b, by) == Order::Less
                &&& hops_or_max(a) > hops_or_max(b) ==> node_order(a, b, by) == Order::Greater
                &&& hops_or_max(a) == hops_or_max(b) && snr_rank(a.snr) > snr_rank(b.snr)
                    ==> node_order(a, b, by) == Order::Less
                &&& hops_or_max(a) == hops_or_max(b) && a.snr == b.snr ==> node_order(a, b, by)
                    == Order::Equal
            },
            NodesSortBy::LastHeard => {
                let ta = match a.last_heard {
                    Some(t) => t,
                    None => UtcTime { secs: 0, nanos: 0 },
                };
                let tb = match b.last_heard {
                    Some(t) => t,
                    None => UtcTime { secs: 0, nanos: 0 },
                };
                &&& earlier(tb, ta) ==> node_order(a, b, by) == Order::Less
                &&& earlier(ta, tb) ==> node_order(a, b, by) == Order::Greater
                &&& ta == tb ==> node_order(a, b, by) == Order::Equal
            },
            NodesSortBy::ShortName => node_order(a, b, by) == order_chars(a.short_name@, b.short_name@),
            NodesSortBy::LongName => node_order(a, b, by) == order_chars(a.long_name@, b.long_name@),
            NodesSortBy::HwModel => {
                &&& a.hw_model@ != b.hw_model@ ==> node_order(a, b, by) == order_chars(
                    a.hw_model@,
                    b.hw_model@,
                )
                &&& a.hw_model@ == b.hw_model@ ==> node_order(a, b, by) == order_chars(
                    a.short_name@,
                    b.short_name@,
                )
            },
            NodesSortBy::Role => {
                &&& a.role@ != b.role@ ==> node_order(a, b, by) == order_chars(a.role@, b.role@)
                &&& a.role@ == b.role@ ==> node_order(a, b, by) == node_order(
                    a,
                    b,
                    NodesSortBy::Hops,
                )
            },
        },
{
    crate::order::lemma_order_chars_equal(a.role@, b.role@);
    crate::order::lemma_order_chars_equal(a.hw_model@, b.hw_model@);
}

/// Two nodes that are not the local one: when their roles differ, the one whose role name
/// comes first in the order of characters comes first in the node list sorted by role.
pub proof fn law_role_decides_first(a: Node, b: Node)
    requires
        !a.my,
        !b.my,
        order_chars(a.role@, b.role@) == Order::Less,
    ensures
        node_order(a, b, NodesSortBy::Role) == Order::Less,
        node_order(b, a, NodesSortBy::Role) == Order::Greater,
{
    lemma_order_chars_flip(a.role@, b.role@);
}

/// In a node list sorted by role, the local node is listed before every other node, and of
/// two other nodes the earlier one's role name never comes after the later one's.
pub proof fn law_sorted_by_role(keys: Seq<u32>, nodes: Map<u32, Node>, i: int, j: int)
    requires
        is_sorted_node_listing(keys, nodes, NodesSortBy::Role),
        0 <= i < j < keys.len(),
    ensures
        nodes[keys[j]].my ==> nodes[keys[i]].my,
        !nodes[keys[i]].my && !nodes[keys[j]].my ==> order_chars(
            nodes[keys[i]].role@,
            nodes[keys[j]].role@,
        ) != Order::Greater,
{
    let a = nodes[keys[i]];
    let b = nodes[keys[j]];
    assert(crate::types::node_le(a, b, NodesSortBy::Role));
    law_node_order_keys(a, b, NodesSortBy::Role);
    crate::order::lemma_order_chars_equal(a.role@, b.role@);
}

/// The kind a device is listed by: TCP devices first, then BLE devices, then serial ports.
pub open spec fn listing_kind(d: DeviceView) -> int {
    match d {
        DeviceView::Tcp(_) => 0,
        DeviceView::Ble { .. } => 1,
        DeviceView::Serial(_) => 2,
    }
}

/// The device list's order: TCP devices before BLE devices before serial ports; BLE devices by
/// address and serial ports by port name, in the order of characters.
pub proof fn law_device_order(a: DeviceView, b: DeviceView)
    ensures
        listing_kind(a) < listing_kind(b) ==> order_device(a, b) == Order::Less,
        listing_kind(a) > listing_kind(b) ==> order_device(a, b) == Order::Greater,
        a is Ble && b is Ble ==> order_device(a, b) == order_chars(
            a->Ble_address,
            b->Ble_address,
        ),
        a is Serial && b is Serial ==> order_device(a, b) == order_chars(a->Serial_0, b->Serial_0),
{
}

/// TCP devices are listed by host (IPv4 addresses by number, then IPv6 addresses by number,
/// then domain names in the order of characters), and on one host the address without a port
/// first, then by port.
pub proof fn law_tcp_device_order(p: TcpAddrView, q: TcpAddrView)
    ensures
        ({
            let o = order_device(DeviceView::Tcp(p), DeviceView::Tcp(q));
            &&& p.host is Ip && p.host->Ip_0 is V4 && q.host is Ip && q.host->Ip_0 is V6 ==> o
                == Order::Less
            &&& p.host is Ip && q.host is Domain ==> o == Order::Less
            &&& p.host is Ip && p.host->Ip_0 is V4 && q.host is Ip && q.host->Ip_0 is V4
                && p.host->Ip_0->V4_0 < q.host->Ip_0->V4_0 ==> o == Order::Less
            &&& p.host is Domain && q.host is Domain && p.host->Domain_0 != q.host->Domain_0 ==> o
                == order_chars(p.host->Domain_0, q.host->Domain_0)
            &&& p.host == q.host && p.port is None && q.port is Some ==> o == Order::Less
            &&& p.host == q.host && p.port is Some && q.port is Some && p.port->0 < q.port->0 ==> o
                == Order::Less
        }),
{
    match (p.host, q.host) {
        (HostView::Domain(x), HostView::Domain(y)) => {
            crate::order::lemma_order_chars_equal(x, y);
        },
        _ => {},
    }
}

/// In the device list, the TCP devices come first, then the BLE devices, then the serial
/// ports; and every device found by a search or typed in is listed.
pub proof fn law_device_list_kinds(r: Seq<crate::device::Device>, tcp: Seq<crate::device::TcpAddr>, discovered: Seq<crate::device::Device>, i: int, j: int)
    requires
        is_device_list(r, tcp, discovered),
        0 <= i < j < r.len(),
    ensures
        listing_kind(r[i]@) <= listing_kind(r[j]@),
{
    assert(crate::device::device_le(r[i]@, r[j]@));
    law_device_order(r[i]@, r[j]@);
}

} // verus!

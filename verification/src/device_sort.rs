use std::cmp::Ordering;

use itertools::Itertools;
use vstd::prelude::*;

use crate::device::{
    compare_devices, device_le, lemma_device_triple, order_device, Device, DeviceView, TcpAddr,
};
use crate::order::Order;

verus! {

/// The device order is a total preorder on all devices.
pub open spec fn device_order_is_total() -> bool {
    &&& forall|a: DeviceView, b: DeviceView| #[trigger]
        order_device(b, a) == order_device(a, b).flip()
    &&& forall|a: DeviceView, b: DeviceView, c: DeviceView|
        #![trigger device_le(a, b), device_le(b, c)]
        device_le(a, b) && device_le(b, c) ==> device_le(a, c)
}

/// The device order is a total preorder.
pub proof fn lemma_device_order_is_total()
    ensures
        device_order_is_total(),
{
    assert forall|a: DeviceView, b: DeviceView| #[trigger]
        order_device(b, a) == order_device(a, b).flip() by {
        lemma_device_triple(a, b, b);
    }
    assert forall|a: DeviceView, b: DeviceView, c: DeviceView|
        device_le(a, b) && device_le(b, c) implies device_le(a, c) by {
        lemma_device_triple(a, b, c);
    }
}

/// The standard ordering of two devices in the device list.
pub open spec fn device_std_ordering(a: DeviceView, b: DeviceView) -> Ordering {
    match order_device(a, b) {
        Order::Less => Ordering::Less,
        Order::Equal => Ordering::Equal,
        Order::Greater => Ordering::Greater,
    }
}

/// Compares two devices in the order of the device list.
pub fn device_ordering(a: &Device, b: &Device) -> (r: Ordering)
    ensures
        r == device_std_ordering(a@, b@),
{
    match compare_devices(a, b) {
        Order::Less => Ordering::Less,
        Order::Equal => Ordering::Equal,
        Order::Greater => Ordering::Greater,
    }
}

/// Sorts devices with `Itertools::sorted_by`, comparing them in the order of the device list.
/// The contract is what `sorted_by` (a stable `slice::sort_by`) gives for a comparator that is
/// a total preorder: the same devices, in non-decreasing order.
#[verifier::external_body]
fn sorted_devices(devices: Vec<Device>) -> (r: Vec<Device>)
    requires
        device_order_is_total(),
    ensures
        r@.to_multiset() == devices@.to_multiset(),
        forall|i: int, j: int| 0 <= i < j < r.len() ==> device_le(#[trigger] r[i]@, #[trigger] r[j]@),
{
    devices.into_iter().sorted_by(|a, b| device_ordering(a, b)).collect()
}

/// The devices a list of TCP addresses stands for.
pub open spec fn tcp_devices_of(tcp: Seq<TcpAddr>) -> Seq<Device> {
    tcp.map_values(|a: TcpAddr| Device::Tcp(a))
}

/// The device list: the TCP devices and the discovered ones, together, in the order of the
/// device list (TCP, then BLE, then serial; each kind by its address).
pub open spec fn is_device_list(r: Seq<Device>, tcp: Seq<TcpAddr>, discovered: Seq<Device>) -> bool {
    &&& r.to_multiset() == (tcp_devices_of(tcp) + discovered).to_multiset()
    &&& forall|i: int, j: int| 0 <= i < j < r.len() ==> device_le(#[trigger] r[i]@, #[trigger] r[j]@)
}

/// Builds the device list from the TCP addresses and the discovered devices.
pub fn device_list(tcp: &Vec<TcpAddr>, discovered: &Vec<Device>) -> (r: Vec<Device>)
    ensures
        is_device_list(r@, tcp@, discovered@),
{
    let mut all: Vec<Device> = Vec::new();
    let mut i: usize = 0;
    while i < tcp.len()
        invariant
            i <= tcp.len(),
            all@ == tcp_devices_of(tcp@.take(i as int)),
        decreases tcp.len() - i,
    {
        all.push(Device::Tcp(tcp[i].duplicate()));
        proof {
            assert(tcp@.take(i + 1) =~= tcp@.take(i as int).push(tcp@[i as int]));
            assert(tcp_devices_of(tcp@.take(i + 1)) =~= tcp_devices_of(tcp@.take(i as int)).push(
                Device::Tcp(tcp@[i as int]),
            ));
        }
        i = i + 1;
    }
    proof {
        assert(tcp@.take(tcp@.len() as int) =~= tcp@);
        assert(all@ =~= tcp_devices_of(tcp@) + discovered@.take(0));
    }
    let mut j: usize = 0;
    while j < discovered.len()
        invariant
            j <= discovered.len(),
            all@ == tcp_devices_of(tcp@) + discovered@.take(j as int),
        decreases discovered.len() - j,
    {
        all.push(discovered[j].duplicate());
        proof {
            assert(discovered@.take(j + 1) =~= discovered@.take(j as int).push(discovered@[j as int]));
            assert(all@ =~= tcp_devices_of(tcp@) + discovered@.take(j + 1));
        }
        j = j + 1;
    }
    proof {
        assert(discovered@.take(discovered@.len() as int) =~= discovered@);
        lemma_device_order_is_total();
    }
    sorted_devices(all)
}

} // verus!

use vstd::prelude::*;

use crate::order::{
    compare_strings, lemma_order_chars_equal, lemma_order_chars_flip, lemma_order_chars_transitive,
    order_chars, order_int, Order,
};

verus! {

/// An IP address: an IPv4 address as its 32-bit number, an IPv6 address as its 128-bit number.
#[derive(Clone, Copy, Debug, PartialEq, Eq, Structural)]
pub enum IpAddress {
    V4(u32),
    V6(u128),
}

/// The host part of a TCP address: an IP address or a domain name.
#[derive(Clone, Debug)]
pub enum HostName {
    Ip(IpAddress),
    Domain(String),
}

/// A TCP address: a host and, where one was given, a port.
#[derive(Clone, Debug)]
pub struct TcpAddr {
    pub host: HostName,
    pub port: Option<u16>,
}

/// The value of a host name.
pub enum HostView {
    Ip(IpAddress),
    Domain(Seq<char>),
}

/// The value of a TCP address.
pub struct TcpAddrView {
    pub host: HostView,
    pub port: Option<u16>,
}

impl View for HostName {
    type V = HostView;

    open spec fn view(&self) -> HostView {
        match self {
            HostName::Ip(ip) => HostView::Ip(*ip),
            HostName::Domain(d) => HostView::Domain(d@),
        }
    }
}

impl View for TcpAddr {
    type V = TcpAddrView;

    open spec fn view(&self) -> TcpAddrView {
        TcpAddrView { host: self.host@, port: self.port }
    }
}

/// The port that a TCP address without one is given.
pub const DEFAULT_TCP_PORT: u16 = 4403;

impl TcpAddr {
    /// Two addresses are the same host and port.
    pub fn same_as(&self, other: &TcpAddr) -> (r: bool)
        ensures
            r == (self@ == other@),
    {
        let same_host = match (&self.host, &other.host) {
            (HostName::Ip(a), HostName::Ip(b)) => *a == *b,
            (HostName::Domain(a), HostName::Domain(b)) => *a == *b,
            _ => false,
        };
        same_host && self.port == other.port
    }

    /// The address names a port.
    pub fn has_port(&self) -> (r: bool)
        ensures
            r == self.port.is_some(),
    {
        self.port.is_some()
    }

    /// A copy of the address.
    pub fn duplicate(&self) -> (r: TcpAddr)
        ensures
            r == *self,
    {
        let host = match &self.host {
            HostName::Ip(ip) => HostName::Ip(*ip),
            HostName::Domain(d) => HostName::Domain(d.clone()),
        };
        TcpAddr { host, port: self.port }
    }

    /// The same host with the given port.
    pub fn with_port(self, port: u16) -> (r: TcpAddr)
        ensures
            r@ == (TcpAddrView { host: self@.host, port: Some(port) }),
    {
        TcpAddr { host: self.host, port: Some(port) }
    }
}

/// What hostaddr's parser reads from a typed address (`str::parse` into `HostAddr<String>`):
/// the host and the port where one was given, or the text of its error.
pub uninterp spec fn parsed_tcp_addr(text: Seq<char>) -> Result<TcpAddrView, Seq<char>>;

/// Reads a typed address with hostaddr's `HostAddr<String>` parser and takes the result apart
/// into host and port; an error becomes its message. The contract claims only that the result
/// is what `parsed_tcp_addr` names for the text: which texts hostaddr accepts is not stated.
#[verifier::external_body]
pub fn parse_tcp_addr(text: &str) -> (r: Result<TcpAddr, String>)
    ensures
        r is Ok <==> parsed_tcp_addr(text@) is Ok,
        r matches Ok(a) ==> a@ == parsed_tcp_addr(text@)->Ok_0,
        r matches Err(e) ==> e@ == parsed_tcp_addr(text@)->Err_0,
{
    match text.parse::<hostaddr::HostAddr<String>>() {
        Ok(addr) => {
            let (host, port) = addr.into_components();
            let host = match host {
                hostaddr::Host::Ip(core::net::IpAddr::V4(ip)) => HostName::Ip(IpAddress::V4(u32::from(ip))),
                hostaddr::Host::Ip(core::net::IpAddr::V6(ip)) => HostName::Ip(IpAddress::V6(u128::from(ip))),
                hostaddr::Host::Domain(d) => HostName::Domain(d.into_inner()),
            };
            Ok(TcpAddr { host, port })
        },
        Err(e) => Err(e.to_string()),
    }
}

/// Rank of a host kind in the order of addresses: IP addresses before domain names,
/// IPv4 before IPv6.
pub open spec fn host_kind_rank(h: HostView) -> int {
    match h {
        HostView::Ip(IpAddress::V4(_)) => 0,
        HostView::Ip(IpAddress::V6(_)) => 1,
        HostView::Domain(_) => 2,
    }
}

/// Order of host names: by kind, then by address number or by the domain name's characters.
pub open spec fn order_host(a: HostView, b: HostView) -> Order {
    match (a, b) {
        (HostView::Ip(IpAddress::V4(x)), HostView::Ip(IpAddress::V4(y))) => order_int(
            x as int,
            y as int,
        ),
        (HostView::Ip(IpAddress::V6(x)), HostView::Ip(IpAddress::V6(y))) => order_int(
            x as int,
            y as int,
        ),
        (HostView::Domain(x), HostView::Domain(y)) => order_chars(x, y),
        _ => order_int(host_kind_rank(a), host_kind_rank(b)),
    }
}

/// Order of optional ports: no port first, then by number.
pub open spec fn order_port(a: Option<u16>, b: Option<u16>) -> Order {
    match (a, b) {
        (None, None) => Order::Equal,
        (None, Some(_)) => Order::Less,
        (Some(_), None) => Order::Greater,
        (Some(x), Some(y)) => order_int(x as int, y as int),
    }
}

/// Order of TCP addresses: by host, then by port.
pub open spec fn order_tcp_addr(a: TcpAddrView, b: TcpAddrView) -> Order {
    order_host(a.host, b.host).or_else(order_port(a.port, b.port))
}

fn compare_ints(a: u128, b: u128) -> (r: Order)
    ensures
        r == order_int(a as int, b as int),
{
    if a < b {
        Order::Less
    } else if a == b {
        Order::Equal
    } else {
        Order::Greater
    }
}

fn host_kind_rank_of(h: &HostName) -> (r: u128)
    ensures
        r == host_kind_rank(h@),
{
    match h {
        HostName::Ip(IpAddress::V4(_)) => 0,
        HostName::Ip(IpAddress::V6(_)) => 1,
        HostName::Domain(_) => 2,
    }
}

/// Three-way comparison of two TCP addresses.
pub fn compare_tcp_addrs(a: &TcpAddr, b: &TcpAddr) -> (r: Order)
    ensures
        r == order_tcp_addr(a@, b@),
{
    let host = match (&a.host, &b.host) {
        (HostName::Ip(IpAddress::V4(x)), HostName::Ip(IpAddress::V4(y))) => compare_ints(
            *x as u128,
            *y as u128,
        ),
        (HostName::Ip(IpAddress::V6(x)), HostName::Ip(IpAddress::V6(y))) => compare_ints(*x, *y),
        (HostName::Domain(x), HostName::Domain(y)) => compare_strings(x, y),
        _ => compare_ints(host_kind_rank_of(&a.host), host_kind_rank_of(&b.host)),
    };
    let port = match (a.port, b.port) {
        (None, None) => Order::Equal,
        (None, Some(_)) => Order::Less,
        (Some(_), None) => Order::Greater,
        (Some(x), Some(y)) => compare_ints(x as u128, y as u128),
    };
    host.then_order(port)
}

/// A radio device the application can connect to.
#[derive(Clone, Debug)]
pub enum Device {
    Ble { name: String, address: String },
    Tcp(TcpAddr),
    Serial(String),
}

/// The value of a device.
pub enum DeviceView {
    Ble { name: Seq<char>, address: Seq<char> },
    Tcp(TcpAddrView),
    Serial(Seq<char>),
}

impl View for Device {
    type V = DeviceView;

    open spec fn view(&self) -> DeviceView {
        match self {
            Device::Ble { name, address } => DeviceView::Ble { name: name@, address: address@ },
            Device::Tcp(a) => DeviceView::Tcp(a@),
            Device::Serial(s) => DeviceView::Serial(s@),
        }
    }
}

impl Device {
    /// A copy of the device.
    pub fn duplicate(&self) -> (r: Device)
        ensures
            r == *self,
    {
        match self {
            Device::Ble { name, address } => Device::Ble { name: name.clone(), address: address.clone() },
            Device::Tcp(a) => Device::Tcp(a.duplicate()),
            Device::Serial(s) => Device::Serial(s.clone()),
        }
    }

    /// Two devices are the same.
    pub fn same_as(&self, other: &Device) -> (r: bool)
        ensures
            r == (self@ == other@),
    {
        match (self, other) {
            (Device::Ble { name: n1, address: a1 }, Device::Ble { name: n2, address: a2 }) => *n1
                == *n2 && *a1 == *a2,
            (Device::Tcp(a), Device::Tcp(b)) => a.same_as(b),
            (Device::Serial(a), Device::Serial(b)) => *a == *b,
            _ => false,
        }
    }
}

/// Rank of a device kind in the device list: TCP, then BLE, then serial.
pub open spec fn device_kind_rank(d: DeviceView) -> int {
    match d {
        DeviceView::Tcp(_) => 0,
        DeviceView::Ble { .. } => 1,
        DeviceView::Serial(_) => 2,
    }
}

/// Order of the device list: by kind, TCP devices by address, BLE devices by their address,
/// serial devices by port name.
pub open spec fn order_device(a: DeviceView, b: DeviceView) -> Order {
    match (a, b) {
        (DeviceView::Tcp(x), DeviceView::Tcp(y)) => order_tcp_addr(x, y),
        (DeviceView::Ble { address: x, .. }, DeviceView::Ble { address: y, .. }) => order_chars(
            x,
            y,
        ),
        (DeviceView::Serial(x), DeviceView::Serial(y)) => order_chars(x, y),
        _ => order_int(device_kind_rank(a), device_kind_rank(b)),
    }
}

fn device_kind_rank_of(d: &Device) -> (r: u128)
    ensures
        r == device_kind_rank(d@),
{
    match d {
        Device::Tcp(_) => 0,
        Device::Ble { .. } => 1,
        Device::Serial(_) => 2,
    }
}

/// Three-way comparison of two devices in the order of the device list.
pub fn compare_devices(a: &Device, b: &Device) -> (r: Order)
    ensures
        r == order_device(a@, b@),
{
    match (a, b) {
        (Device::Tcp(x), Device::Tcp(y)) => compare_tcp_addrs(x, y),
        (Device::Ble { address: x, .. }, Device::Ble { address: y, .. }) => compare_strings(x, y),
        (Device::Serial(x), Device::Serial(y)) => compare_strings(x, y),
        _ => compare_ints(device_kind_rank_of(a), device_kind_rank_of(b)),
    }
}

/// `a` comes no later than `b` in the device list.
pub open spec fn device_le(a: DeviceView, b: DeviceView) -> bool {
    order_device(a, b) != Order::Greater
}

/// The properties of a three-way comparison that make it a total preorder: swapping the sides
/// flips it, and it is transitive, strictly so where one step is strict.
pub open spec fn is_preorder_triple<T>(o: spec_fn(T, T) -> Order, a: T, b: T, c: T) -> bool {
    &&& o(b, a) == o(a, b).flip()
    &&& o(a, b) != Order::Greater && o(b, c) != Order::Greater ==> o(a, c) != Order::Greater
    &&& o(a, b) == Order::Less && o(b, c) != Order::Greater ==> o(a, c) == Order::Less
    &&& o(a, b) != Order::Greater && o(b, c) == Order::Less ==> o(a, c) == Order::Less
}

/// A total preorder that finds equal exactly the equal values: a total order.
pub open spec fn is_order_triple<T>(o: spec_fn(T, T) -> Order, a: T, b: T, c: T) -> bool {
    &&& is_preorder_triple(o, a, b, c)
    &&& (o(a, b) == Order::Equal) <==> (a == b)
}

proof fn lemma_chars_triple(a: Seq<char>, b: Seq<char>, c: Seq<char>)
    ensures
        is_order_triple(|x: Seq<char>, y: Seq<char>| order_chars(x, y), a, b, c),
{
    lemma_order_chars_flip(a, b);
    lemma_order_chars_equal(a, b);
    if order_chars(a, b) != Order::Greater && order_chars(b, c) != Order::Greater {
        lemma_order_chars_transitive(a, b, c);
    }
}

proof fn lemma_host_triple(a: HostView, b: HostView, c: HostView)
    ensures
        is_order_triple(|x: HostView, y: HostView| order_host(x, y), a, b, c),
{
    match (a, b, c) {
        (HostView::Domain(x), HostView::Domain(y), HostView::Domain(z)) => {
            lemma_chars_triple(x, y, z);
        },
        (HostView::Domain(x), HostView::Domain(y), _) => {
            lemma_chars_triple(x, y, y);
        },
        _ => {},
    }
}

proof fn lemma_tcp_addr_triple(a: TcpAddrView, b: TcpAddrView, c: TcpAddrView)
    ensures
        is_order_triple(|x: TcpAddrView, y: TcpAddrView| order_tcp_addr(x, y), a, b, c),
{
    lemma_host_triple(a.host, b.host, c.host);
    lemma_host_triple(a.host, c.host, b.host);
    lemma_host_triple(b.host, a.host, c.host);
}

/// The device list's order finds two devices equal exactly when they are the same device, or
/// BLE devices with one address (whatever their names).
pub proof fn law_device_order_equal(a: DeviceView, b: DeviceView)
    ensures
        (order_device(a, b) == Order::Equal) <==> (a == b || (a is Ble && b is Ble
            && a->Ble_address == b->Ble_address)),
{
    match (a, b) {
        (DeviceView::Tcp(x), DeviceView::Tcp(y)) => {
            lemma_tcp_addr_triple(x, y, y);
        },
        (DeviceView::Ble { address: x, .. }, DeviceView::Ble { address: y, .. }) => {
            lemma_order_chars_equal(x, y);
        },
        (DeviceView::Serial(x), DeviceView::Serial(y)) => {
            lemma_order_chars_equal(x, y);
        },
        _ => {},
    }
}

/// The order of the device list is a total preorder on devices (BLE devices with one address
/// and different names are ordered alike).
pub proof fn lemma_device_triple(a: DeviceView, b: DeviceView, c: DeviceView)
    ensures
        is_preorder_triple(|x: DeviceView, y: DeviceView| order_device(x, y), a, b, c),
{
    match (a, b, c) {
        (DeviceView::Tcp(x), DeviceView::Tcp(y), DeviceView::Tcp(z)) => {
            lemma_tcp_addr_triple(x, y, z);
        },
        (DeviceView::Tcp(x), DeviceView::Tcp(y), _) => {
            lemma_tcp_addr_triple(x, y, y);
        },
        (DeviceView::Ble { address: x, .. }, DeviceView::Ble { address: y, .. }, DeviceView::Ble { address: z, .. }) => {
            lemma_chars_triple(x, y, z);
        },
        (DeviceView::Ble { address: x, .. }, DeviceView::Ble { address: y, .. }, _) => {
            lemma_chars_triple(x, y, y);
        },
        (DeviceView::Serial(x), DeviceView::Serial(y), DeviceView::Serial(z)) => {
            lemma_chars_triple(x, y, z);
        },
        (DeviceView::Serial(x), DeviceView::Serial(y), _) => {
            lemma_chars_triple(x, y, y);
        },
        _ => {},
    }
}

/// Progress of the search for radio devices.
#[derive(Clone, Debug)]
pub enum DeviceDiscoveringState {
    NotStarted,
    Discovering,
    Failed(String),
    Done,
}

/// The state of the connection to the radio. `since` is the monotonic time, in milliseconds,
/// at which the problem was seen.
#[derive(Clone, Debug)]
pub enum ConnectionState {
    NotConnected,
    ProblemDetected { since: u64, error: String },
    Connecting,
    Connected,
}

} // verus!

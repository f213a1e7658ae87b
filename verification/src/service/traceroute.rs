use itertools::Itertools;
use meshtastic::protobufs::RouteDiscovery;
use meshtastic::Message as _;
use vstd::prelude::*;

use crate::radio::{datetime_from_timestamp, PacketPayload, RadioPacket, PORT_TRACEROUTE};
use crate::text::{signed_decimal, signed_decimal_string};
use crate::events::{AppEvent, CommandToMeshtastic};
use crate::service::Effects;
use crate::store::StateAction;
use crate::types::{Toast, ToastKind, UtcTime};

verus! {

/// How long a traceroute may run, in seconds.
pub const TRACEROUTE_TIMEOUT_SECS: i64 = 60;

/// How long to wait between traceroutes, in seconds.
pub const TRACEROUTE_COOLDOWN_SECS: i64 = 30;

/// A step of a route: the signal-to-noise ratio of a hop (in quarters of a decibel, as the
/// radio reports it) or a node passed.
#[derive(Clone, Copy, Debug, PartialEq, Eq, Structural)]
pub enum TracerouteItem {
    Snr(i32),
    Node(u32),
}

/// The routes that a traceroute reply reports.
#[derive(Clone, Debug)]
pub struct RouteData {
    pub route: Vec<u32>,
    pub snr_towards: Vec<i32>,
    pub route_back: Vec<u32>,
    pub snr_back: Vec<i32>,
}

/// The value of reported routes.
pub struct RouteDataView {
    pub route: Seq<u32>,
    pub snr_towards: Seq<i32>,
    pub route_back: Seq<u32>,
    pub snr_back: Seq<i32>,
}

impl View for RouteData {
    type V = RouteDataView;

    open spec fn view(&self) -> RouteDataView {
        RouteDataView {
            route: self.route@,
            snr_towards: self.snr_towards@,
            route_back: self.route_back@,
            snr_back: self.snr_back@,
        }
    }
}

/// The routes that a traceroute payload encodes, if the bytes decode.
pub uninterp spec fn decoded_route(payload: Seq<u8>) -> Option<RouteDataView>;

/// Decodes a traceroute payload with `RouteDiscovery::decode` (prost). The result is named
/// `decoded_route`.
#[verifier::external_body]
fn decode_route(payload: &Vec<u8>) -> (r: Option<RouteData>)
    ensures
        r is Some <==> decoded_route(payload@) is Some,
        r matches Some(d) ==> d@ == decoded_route(payload@)->0,
{
    RouteDiscovery::decode(payload.as_slice()).ok().map(
        |d| RouteData {
            route: d.route,
            snr_towards: d.snr_towards,
            route_back: d.route_back,
            snr_back: d.snr_back,
        },
    )
}

/// The two sequences taken alternately, starting with the first; once one runs out, the rest
/// of the other.
pub open spec fn interleaved(a: Seq<TracerouteItem>, b: Seq<TracerouteItem>) -> Seq<TracerouteItem>
    decreases a.len() + b.len(),
{
    if a.len() == 0 {
        b
    } else {
        seq![a[0]] + interleaved(b, a.drop_first())
    }
}

/// `Itertools::interleave`: the items taken alternately from both, the first first; once one
/// runs out, the rest of the other.
#[verifier::external_body]
fn interleave_items(a: Vec<TracerouteItem>, b: Vec<TracerouteItem>) -> (r: Vec<TracerouteItem>)
    ensures
        r@ == interleaved(a@, b@),
{
    a.into_iter().interleave(b).collect()
}

/// A route as the traceroute shows it: each hop's signal-to-noise ratio, then the node it
/// reached, alternately.
pub open spec fn route_of(snrs: Seq<i32>, nodes: Seq<u32>) -> Seq<TracerouteItem> {
    interleaved(
        snrs.map_values(|s: i32| TracerouteItem::Snr(s)),
        nodes.map_values(|n: u32| TracerouteItem::Node(n)),
    )
}

/// Builds a route from the hops' signal-to-noise ratios and the nodes passed.
pub fn route_items(snrs: &Vec<i32>, nodes: &Vec<u32>) -> (r: Vec<TracerouteItem>)
    ensures
        r@ == route_of(snrs@, nodes@),
{
    let mut a: Vec<TracerouteItem> = Vec::new();
    let mut i: usize = 0;
    while i < snrs.len()
        invariant
            i <= snrs.len(),
            a@ == snrs@.take(i as int).map_values(|s: i32| TracerouteItem::Snr(s)),
        decreases snrs.len() - i,
    {
        a.push(TracerouteItem::Snr(snrs[i]));
        proof {
            assert(snrs@.take(i + 1).map_values(|s: i32| TracerouteItem::Snr(s)) =~= snrs@.take(
                i as int,
            ).map_values(|s: i32| TracerouteItem::Snr(s)).push(TracerouteItem::Snr(snrs@[i as int])));
        }
        i = i + 1;
    }
    let mut b: Vec<TracerouteItem> = Vec::new();
    let mut j: usize = 0;
    while j < nodes.len()
        invariant
            j <= nodes.len(),
            b@ == nodes@.take(j as int).map_values(|n: u32| TracerouteItem::Node(n)),
        decreases nodes.len() - j,
    {
        b.push(TracerouteItem::Node(nodes[j]));
        proof {
            assert(nodes@.take(j + 1).map_values(|n: u32| TracerouteItem::Node(n)) =~= nodes@.take(
                j as int,
            ).map_values(|n: u32| TracerouteItem::Node(n)).push(TracerouteItem::Node(nodes@[j as int])));
        }
        j = j + 1;
    }
    proof {
        assert(snrs@.take(snrs@.len() as int) =~= snrs@);
        assert(nodes@.take(nodes@.len() as int) =~= nodes@);
    }
    interleave_items(a, b)
}

/// What a traceroute packet tells: the radio started a traceroute to a node, or a reply
/// arrived with the routes there and back.
#[derive(Clone, Debug)]
pub enum TracerouteEvent {
    Started { node_key: u32, message_id: u32, at: UtcTime },
    Finished {
        message_id: u32,
        at: UtcTime,
        route_towards: Vec<TracerouteItem>,
        route_back: Vec<TracerouteItem>,
    },
}

/// What the traceroute service takes from a packet of the radio: a traceroute packet whose
/// payload decodes is a start where the radio itself sent it, else a reply to the request it
/// names. The time is that of the packet's reception.
pub fn handle_radio_packet(packet: &RadioPacket) -> (r: Option<TracerouteEvent>)
    ensures
        match *packet {
            RadioPacket::Packet(p) => match p.payload {
                PacketPayload::Decoded(data) => if data.portnum == PORT_TRACEROUTE
                    && decoded_route(data.payload@) is Some {
                    let route = decoded_route(data.payload@)->0;
                    let at = UtcTime { secs: p.rx_time as i64, nanos: 0 };
                    if p.internal {
                        r == Some(TracerouteEvent::Started { node_key: p.to, message_id: p.id, at })
                    } else {
                        r matches Some(TracerouteEvent::Finished {
                            message_id,
                            at: t,
                            route_towards,
                            route_back,
                        }) && message_id == data.request_id && t == at && route_towards@ == route_of(
                            route.snr_towards,
                            route.route,
                        ) && route_back@ == route_of(route.snr_back, route.route_back)
                    }
                } else {
                    r is None
                },
                _ => r is None,
            },
            _ => r is None,
        },
{
    match packet {
        RadioPacket::Packet(p) => match &p.payload {
            PacketPayload::Decoded(data) => {
                if data.portnum != PORT_TRACEROUTE {
                    return None;
                }
                match decode_route(&data.payload) {
                    Some(route) => {
                        let at = match datetime_from_timestamp(p.rx_time as i64) {
                            Some(t) => t,
                            None => UtcTime { secs: p.rx_time as i64, nanos: 0 },
                        };
                        if p.internal {
                            Some(TracerouteEvent::Started { node_key: p.to, message_id: p.id, at })
                        } else {
                            Some(
                                TracerouteEvent::Finished {
                                    message_id: data.request_id,
                                    at,
                                    route_towards: route_items(&route.snr_towards, &route.route),
                                    route_back: route_items(&route.snr_back, &route.route_back),
                                },
                            )
                        }
                    },
                    None => None,
                }
            },
            _ => None,
        },
        _ => None,
    }
}

/// What a request for a traceroute gives: a wait, with the warning toast that says how long,
/// or a traceroute from this node to the requested one.
#[derive(Clone, Debug)]
pub enum TracerouteRequest {
    Wait(Toast),
    Run { node_num: u32, my_node_num: u32 },
}

/// The seconds left of the wait between traceroutes, for a last traceroute `elapsed` seconds
/// ago.
pub open spec fn cooldown_left(elapsed: i64) -> int {
    TRACEROUTE_COOLDOWN_SECS - elapsed
}

/// Answers a request for a traceroute to `node_key`, the last traceroute having run `elapsed`
/// seconds ago: within the wait, a warning toast that says how many seconds are left; after
/// it, a traceroute from this node.
pub fn request_traceroute(node_key: u32, my_node_key: Option<u32>, elapsed: i64) -> (r:
    TracerouteRequest)
    requires
        elapsed >= TRACEROUTE_COOLDOWN_SECS - i64::MAX,
        cooldown_left(elapsed) <= 0 ==> my_node_key is Some,
    ensures
        cooldown_left(elapsed) > 0 ==> (r matches TracerouteRequest::Wait(t) && t.kind
            == ToastKind::Warning && t.text@ == "traceroute cooldown: wait "@ + signed_decimal(
            cooldown_left(elapsed),
        ) + " secs..."@),
        cooldown_left(elapsed) <= 0 ==> r == (TracerouteRequest::Run {
            node_num: node_key,
            my_node_num: my_node_key->0,
        }),
{
    let left = TRACEROUTE_COOLDOWN_SECS - elapsed;
    if left > 0 {
        let text = "traceroute cooldown: wait ".to_owned().concat(signed_decimal_string(left).as_str());
        TracerouteRequest::Wait(Toast::warning(text.concat(" secs...")))
    } else {
        let my = match my_node_key {
            Some(k) => k,
            None => 0,
        };
        TracerouteRequest::Run { node_num: node_key, my_node_num: my }
    }
}

/// The state of a traceroute that was started.
#[derive(Clone, Copy, Debug, PartialEq, Eq, Structural)]
pub enum TracerouteState {
    Started,
    Finished,
    TimedOut,
}

/// A traceroute under way: its request, and, where it is known, its state and when it began
/// (seconds since the epoch).
#[derive(Clone, Copy, Debug)]
pub struct ActiveTraceroute {
    pub message_id: u32,
    pub known: Option<(TracerouteState, i64)>,
}

/// The traceroute has timed out at time `now`: it is unknown, or still started after the
/// longest run.
pub open spec fn timed_out(t: ActiveTraceroute, now: i64) -> bool {
    match t.known {
        None => true,
        Some((state, at)) => state == TracerouteState::Started && now - at
            >= TRACEROUTE_TIMEOUT_SECS,
    }
}

/// The periodic check of the traceroutes under way at time `now`: whether any is under way,
/// and the requests of those that timed out, in order.
pub fn check_traceroutes(active: &Vec<ActiveTraceroute>, now: i64) -> (r: (bool, Vec<u32>))
    ensures
        r.0 == (active@.len() > 0),
        r.1@ == active@.filter(|t: ActiveTraceroute| timed_out(t, now)).map_values(
            |t: ActiveTraceroute| t.message_id,
        ),
{
    let mut out: Vec<u32> = Vec::new();
    let mut i: usize = 0;
    while i < active.len()
        invariant
            i <= active.len(),
            out@ == active@.take(i as int).filter(|t: ActiveTraceroute| timed_out(t, now)).map_values(
                |t: ActiveTraceroute| t.message_id,
            ),
        decreases active.len() - i,
    {
        let t = active[i];
        let out_of_time = match t.known {
            None => true,
            Some((state, at)) => state == TracerouteState::Started && (now as i128) - (at as i128)
                >= TRACEROUTE_TIMEOUT_SECS as i128,
        };
        proof {
            let f = |t: ActiveTraceroute| timed_out(t, now);
            let g = |t: ActiveTraceroute| t.message_id;
            let pre = active@.take(i as int);
            let post = active@.take(i + 1);
            reveal(Seq::filter);
            assert(post.drop_last() =~= pre);
            assert(post.last() == t);
            assert(out_of_time == f(t));
            if f(t) {
                assert(post.filter(f) == pre.filter(f).push(t));
                assert(post.filter(f).map_values(g) =~= pre.filter(f).map_values(g).push(t.message_id));
            } else {
                assert(post.filter(f) == pre.filter(f));
            }
        }
        if out_of_time {
            out.push(t.message_id);
        }
        i = i + 1;
    }
    proof {
        assert(active@.take(active@.len() as int) =~= active@);
    }
    (active.len() > 0, out)
}


/// The traceroutes under way with a given request removed.
fn without_request(active: &Vec<ActiveTraceroute>, id: u32) -> (r: Vec<ActiveTraceroute>)
    ensures
        r@ == active@.filter(|t: ActiveTraceroute| t.message_id != id),
{
    let mut out: Vec<ActiveTraceroute> = Vec::new();
    let mut i: usize = 0;
    while i < active.len()
        invariant
            i <= active.len(),
            out@ == active@.take(i as int).filter(|t: ActiveTraceroute| t.message_id != id),
        decreases active.len() - i,
    {
        let t = active[i];
        proof {
            let f = |t: ActiveTraceroute| t.message_id != id;
            let pre = active@.take(i as int);
            let post = active@.take(i + 1);
            reveal(Seq::filter);
            assert(post.drop_last() =~= pre);
            assert(post.last() == t);
            if f(t) {
                assert(post.filter(f) == pre.filter(f).push(t));
            } else {
                assert(post.filter(f) == pre.filter(f));
            }
        }
        if t.message_id != id {
            out.push(t);
        }
        i = i + 1;
    }
    proof {
        assert(active@.take(active@.len() as int) =~= active@);
    }
    out
}

/// The traceroutes under way that have not timed out at time `now`.
fn still_running(active: &Vec<ActiveTraceroute>, now: i64) -> (r: Vec<ActiveTraceroute>)
    ensures
        r@ == active@.filter(|t: ActiveTraceroute| !timed_out(t, now)),
{
    let mut out: Vec<ActiveTraceroute> = Vec::new();
    let mut i: usize = 0;
    while i < active.len()
        invariant
            i <= active.len(),
            out@ == active@.take(i as int).filter(|t: ActiveTraceroute| !timed_out(t, now)),
        decreases active.len() - i,
    {
        let t = active[i];
        let out_of_time = match t.known {
            None => true,
            Some((state, at)) => state == TracerouteState::Started && (now as i128) - (at as i128)
                >= TRACEROUTE_TIMEOUT_SECS as i128,
        };
        proof {
            let f = |t: ActiveTraceroute| !timed_out(t, now);
            let pre = active@.take(i as int);
            let post = active@.take(i + 1);
            reveal(Seq::filter);
            assert(post.drop_last() =~= pre);
            assert(post.last() == t);
            assert(out_of_time == !f(t));
            if f(t) {
                assert(post.filter(f) == pre.filter(f).push(t));
            } else {
                assert(post.filter(f) == pre.filter(f));
            }
        }
        if !out_of_time {
            out.push(t);
        }
        i = i + 1;
    }
    proof {
        assert(active@.take(active@.len() as int) =~= active@);
    }
    out
}

/// The traceroutes this node started: those under way, and when the last one began (seconds
/// since the epoch).
pub struct Traceroutes {
    pub active: Vec<ActiveTraceroute>,
    pub last_run: Option<i64>,
    pub finished: Vec<FinishedTraceroute>,
}

/// A traceroute that a reply finished: its request, when the reply arrived, and the routes
/// there and back, kept for display.
#[derive(Clone, Debug)]
pub struct FinishedTraceroute {
    pub message_id: u32,
    pub at: UtcTime,
    pub route_towards: Vec<TracerouteItem>,
    pub route_back: Vec<TracerouteItem>,
}

/// The seconds since the last traceroute began, at time `now`; with none, since the epoch.
/// The count is kept within what the wait takes (far past and far future times are clamped).
pub open spec fn since_last_run(last_run: Option<i64>, now: i64) -> i64 {
    let d = now - match last_run {
        Some(t) => t,
        None => 0,
    };
    if d < TRACEROUTE_COOLDOWN_SECS - i64::MAX {
        (TRACEROUTE_COOLDOWN_SECS - i64::MAX) as i64
    } else if d > i64::MAX {
        i64::MAX
    } else {
        d as i64
    }
}

/// The state action is a toast of the given kind and text.
pub open spec fn toast_is(a: StateAction, kind: ToastKind, text: Seq<char>) -> bool {
    a matches StateAction::Toast(t) && t.kind == kind && t.text@ == text
}

impl Traceroutes {
    pub fn new() -> (r: Traceroutes)
        ensures
            r.active@.len() == 0,
            r.last_run is None,
            r.finished@.len() == 0,
    {
        Traceroutes { active: Vec::new(), last_run: None, finished: Vec::new() }
    }

    /// Takes in what a traceroute packet told: a started traceroute is under way and is the
    /// last one run; a finished one is no longer under way, its routes are kept, and a success
    /// toast says so.
    pub fn handle_event(&mut self, event: TracerouteEvent) -> (r: Option<StateAction>)
        ensures
            match event {
                TracerouteEvent::Started { message_id, at, .. } => {
                    &&& final(self).active@ == old(self).active@.push(
                        ActiveTraceroute {
                            message_id,
                            known: Some((TracerouteState::Started, at.secs)),
                        },
                    )
                    &&& final(self).last_run == Some(at.secs)
                    &&& final(self).finished@ == old(self).finished@
                    &&& r is None
                },
                TracerouteEvent::Finished { message_id, at, route_towards, route_back } => {
                    &&& final(self).finished@ == old(self).finished@.push(
                        FinishedTraceroute { message_id, at, route_towards, route_back },
                    )
                    &&& final(self).active@ == old(self).active@.filter(
                        |t: ActiveTraceroute| t.message_id != message_id,
                    )
                    &&& final(self).last_run == old(self).last_run
                    &&& r matches Some(a) && toast_is(a, ToastKind::Success, "traceroute finished"@)
                },
            },
    {
        match event {
            TracerouteEvent::Started { message_id, at, .. } => {
                self.active.push(
                    ActiveTraceroute {
                        message_id,
                        known: Some((TracerouteState::Started, at.secs)),
                    },
                );
                self.last_run = Some(at.secs);
                None
            },
            TracerouteEvent::Finished { message_id, at, route_towards, route_back } => {
                self.active = without_request(&self.active, message_id);
                self.finished.push(FinishedTraceroute { message_id, at, route_towards, route_back });
                Some(StateAction::Toast(Toast::success("traceroute finished".to_owned())))
            },
        }
    }

    /// The periodic check at time `now`: the traceroutes that timed out are no longer under
    /// way, and an error toast says so for each of them.
    pub fn check(&mut self, now: i64) -> (r: Vec<StateAction>)
        ensures
            final(self).active@ == old(self).active@.filter(|t: ActiveTraceroute| !timed_out(t, now)),
            final(self).last_run == old(self).last_run,
            final(self).finished@ == old(self).finished@,
            r@.len() == old(self).active@.filter(|t: ActiveTraceroute| timed_out(t, now)).len(),
            forall|i: int|
                0 <= i < r@.len() ==> toast_is(#[trigger] r@[i], ToastKind::Error, "traceroute timed out"@),
    {
        let (_, timed) = check_traceroutes(&self.active, now);
        let mut actions: Vec<StateAction> = Vec::new();
        let mut i: usize = 0;
        while i < timed.len()
            invariant
                i <= timed.len(),
                actions@.len() == i,
                forall|j: int|
                    0 <= j < i ==> toast_is(#[trigger] actions@[j], ToastKind::Error, "traceroute timed out"@),
            decreases timed.len() - i,
        {
            actions.push(StateAction::Toast(Toast::error("traceroute timed out".to_owned())));
            i = i + 1;
        }
        self.active = still_running(&self.active, now);
        actions
    }

    /// Whether the wait after the last traceroute is over at time `now`.
    pub fn cooldown_over(&self, now: i64) -> (r: bool)
        ensures
            r == (cooldown_left(since_last_run(self.last_run, now)) <= 0),
    {
        let last: i64 = match self.last_run {
            Some(t) => t,
            None => 0,
        };
        let d: i128 = now as i128 - last as i128;
        d >= TRACEROUTE_COOLDOWN_SECS as i128
    }

    /// Answers a request for a traceroute at time `now` while the local node is `my_node_key`:
    /// within the wait after the last traceroute, a warning toast that says how long is left;
    /// after it, a traceroute from this node to the requested one. Other events ask nothing.
    pub fn handle_app_event(&self, event: &AppEvent, my_node_key: Option<u32>, now: i64) -> (r:
        Effects)
        requires
            (*event matches AppEvent::TracerouteRequested(_) && cooldown_left(
                since_last_run(self.last_run, now),
            ) <= 0) ==> my_node_key is Some,
        ensures
            r.app_events@.len() == 0,
            match *event {
                AppEvent::TracerouteRequested(n) => {
                    let left = cooldown_left(since_last_run(self.last_run, now));
                    if left > 0 {
                        &&& r.actions@.len() == 1
                        &&& toast_is(
                            r.actions@[0],
                            ToastKind::Warning,
                            "traceroute cooldown: wait "@ + signed_decimal(left) + " secs..."@,
                        )
                        &&& r.commands@.len() == 0
                    } else {
                        &&& r.actions@.len() == 0
                        &&& r.commands@ == seq![
                            CommandToMeshtastic::RunTraceroute {
                                node_num: n,
                                my_node_num: my_node_key->0,
                            },
                        ]
                    }
                },
                _ => r.actions@.len() == 0 && r.commands@.len() == 0,
            },
    {
        let mut effects = Effects::none();
        match event {
            AppEvent::TracerouteRequested(n) => {
                let last: i64 = match self.last_run {
                    Some(t) => t,
                    None => 0,
                };
                let d: i128 = now as i128 - last as i128;
                let lowest: i128 = TRACEROUTE_COOLDOWN_SECS as i128 - i64::MAX as i128;
                let elapsed: i64 = if d < lowest {
                    (TRACEROUTE_COOLDOWN_SECS - i64::MAX) as i64
                } else if d > i64::MAX as i128 {
                    i64::MAX
                } else {
                    d as i64
                };
                match request_traceroute(*n, my_node_key, elapsed) {
                    TracerouteRequest::Wait(t) => {
                        effects.actions.push(StateAction::Toast(t));
                    },
                    TracerouteRequest::Run { node_num, my_node_num } => {
                        effects.commands.push(
                            CommandToMeshtastic::RunTraceroute { node_num, my_node_num },
                        );
                    },
                }
            },
            _ => {},
        }
        effects
    }
}

} // verus!

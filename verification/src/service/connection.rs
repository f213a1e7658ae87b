use vstd::prelude::*;
use vstd::arithmetic::power2::{lemma_pow2_strictly_increases, lemma_pow2_unfold, pow2};

use crate::device::{ConnectionState, Device, DeviceView, DEFAULT_TCP_PORT, TcpAddrView};
use crate::events::{AppEvent, CommandToMeshtastic, MeshtasticEvent};
use crate::service::Effects;
use crate::state::State;
use crate::store::StateAction;
use crate::text::{decimal, decimal_string};
use crate::types::{Toast, ToastKind};

verus! {

/// How often the connection is checked, in milliseconds.
pub const CONNECTION_CHECK_INTERVAL_MILLIS: u64 = 250;

/// The wait before the first reconnection, in milliseconds; it doubles with every attempt.
pub const RECONNECTION_BACKOFF_BASE_MILLIS: u64 = 1000;

/// The longest wait before a reconnection, in milliseconds.
pub const RECONNECTION_BACKOFF_MAX_MILLIS: u64 = 30000;

/// The most attempts after which the wait can be worked out: after more, the base wait doubled
/// that many times no longer fits in 64 bits.
pub const RECONNECTION_ATTEMPTS_MAX: u16 = 54;

/// The wait before reconnecting after `attempt` attempts: the base wait doubled `attempt` times,
/// capped at the longest wait.
pub open spec fn reconnection_backoff_spec(attempt: nat) -> int {
    let b = RECONNECTION_BACKOFF_BASE_MILLIS * pow2(attempt);
    if b < RECONNECTION_BACKOFF_MAX_MILLIS {
        b
    } else {
        RECONNECTION_BACKOFF_MAX_MILLIS as int
    }
}

/// The wait before reconnecting after `attempt` attempts, in milliseconds.
pub fn reconnection_backoff(attempt: u16) -> (r: u64)
    requires
        attempt <= RECONNECTION_ATTEMPTS_MAX,
    ensures
        r == reconnection_backoff_spec(attempt as nat),
{
    let mut b: u64 = RECONNECTION_BACKOFF_BASE_MILLIS;
    let mut i: u16 = 0;
    proof {
        assert(pow2(0) == 1) by {
            vstd::arithmetic::power2::lemma2_to64();
        }
    }
    while i < attempt && b < RECONNECTION_BACKOFF_MAX_MILLIS
        invariant
            i <= attempt,
            b == RECONNECTION_BACKOFF_BASE_MILLIS * pow2(i as nat),
            b < 2 * RECONNECTION_BACKOFF_MAX_MILLIS,
        decreases attempt - i,
    {
        proof {
            lemma_pow2_unfold((i + 1) as nat);
        }
        b = b * 2;
        i = i + 1;
    }
    proof {
        if i < attempt {
            lemma_pow2_strictly_increases(i as nat, attempt as nat);
        }
    }
    if b < RECONNECTION_BACKOFF_MAX_MILLIS {
        b
    } else {
        RECONNECTION_BACKOFF_MAX_MILLIS
    }
}

/// How long is left, at monotonic time `now`, of a wait of `backoff` that began at `since`;
/// zero once it is over. The end of the wait saturates at the largest time.
pub open spec fn time_left_spec(since: u64, backoff: u64, now: u64) -> u64 {
    let end: int = if since + backoff > u64::MAX {
        u64::MAX as int
    } else {
        since + backoff
    };
    if end > now {
        (end - now) as u64
    } else {
        0
    }
}

/// How long is left of a wait, in milliseconds.
pub fn time_left(since: u64, backoff: u64, now: u64) -> (r: u64)
    ensures
        r == time_left_spec(since, backoff, now),
{
    since.saturating_add(backoff).saturating_sub(now)
}

/// `c` asks the radio to connect to device `d`.
pub open spec fn connects_to(c: CommandToMeshtastic, d: DeviceView) -> bool {
    match d {
        DeviceView::Tcp(a) => c matches CommandToMeshtastic::ConnectViaTcp(x) && x@ == a,
        DeviceView::Ble { address, .. } => c matches CommandToMeshtastic::ConnectViaBle(x) && x@
            == address,
        DeviceView::Serial(port) => c matches CommandToMeshtastic::ConnectViaSerial(x) && x@
            == port,
    }
}

/// The request to the radio to connect to a device.
fn connect_command(device: &Device) -> (c: CommandToMeshtastic)
    ensures
        connects_to(c, device@),
{
    match device {
        Device::Tcp(a) => CommandToMeshtastic::ConnectViaTcp(a.duplicate()),
        Device::Ble { address, .. } => CommandToMeshtastic::ConnectViaBle(address.clone()),
        Device::Serial(port) => CommandToMeshtastic::ConnectViaSerial(port.clone()),
    }
}

/// The address that a submitted TCP address stands for: the default port where it names none.
pub open spec fn with_default_port(a: TcpAddrView) -> TcpAddrView {
    match a.port {
        Some(_) => a,
        None => TcpAddrView { host: a.host, port: Some(DEFAULT_TCP_PORT) },
    }
}

/// A toast of the given kind and text.
pub open spec fn is_toast(a: StateAction, kind: ToastKind, text: Seq<char>) -> bool {
    a matches StateAction::Toast(t) && t.kind == kind && t.text@ == text
}

/// What the connection service does on an application event: initialization asks for a
/// search for devices; a selected device becomes the active one; a disconnection request goes
/// to the radio; a search shows a toast and starts (the second part of the result says that
/// the caller is to search now and hand the outcome to `discovery_outcome`); a submitted TCP
/// address is added with the default port where it names none; a removed one is removed.
pub fn handle_app_event(event: AppEvent) -> (r: (Effects, bool))
    ensures
        r.1 == (event is DeviceRediscoverRequested),
        match event {
            AppEvent::InitializationRequested => r.0.actions@.len() == 0 && r.0.commands@.len()
                == 0 && r.0.app_events@.len() == 1 && r.0.app_events@[0] is DeviceRediscoverRequested,
            AppEvent::DeviceSelected(d) => r.0.app_events@.len() == 0 && r.0.commands@.len() == 0
                && r.0.actions@.len() == 1 && (r.0.actions@[0] matches StateAction::DeviceActiveSet(
                x,
            ) && x@ == d@),
            AppEvent::DisconnectionRequested => r.0.actions@.len() == 0 && r.0.app_events@.len()
                == 0 && r.0.commands@.len() == 1 && r.0.commands@[0] is Disconnect,
            AppEvent::DeviceRediscoverRequested => r.0.app_events@.len() == 0 && r.0.commands@.len()
                == 0 && r.0.actions@.len() == 2 && is_toast(
                r.0.actions@[0],
                ToastKind::Normal,
                "discovering..."@,
            ) && r.0.actions@[1] is DeviceDiscoveringStart,
            AppEvent::TcpDeviceSubmitted(a) => r.0.app_events@.len() == 0 && r.0.commands@.len()
                == 0 && r.0.actions@.len() == 1 && (r.0.actions@[0] matches StateAction::DevicesAddTcp(
                x,
            ) && x@ == with_default_port(a@)),
            AppEvent::TcpDeviceRemoved(a) => r.0.app_events@.len() == 0 && r.0.commands@.len()
                == 0 && r.0.actions@.len() == 1 && (r.0.actions@[0] matches StateAction::DevicesRemoveTcp(
                x,
            ) && x@ == a@),
            _ => r.0.actions@.len() == 0 && r.0.app_events@.len() == 0 && r.0.commands@.len()
                == 0,
        },
{
    let mut effects = Effects::none();
    let mut discover = false;
    match event {
        AppEvent::InitializationRequested => {
            effects.app_events.push(AppEvent::DeviceRediscoverRequested);
        },
        AppEvent::DeviceSelected(d) => {
            effects.actions.push(StateAction::DeviceActiveSet(d));
        },
        AppEvent::DisconnectionRequested => {
            effects.commands.push(CommandToMeshtastic::Disconnect);
        },
        AppEvent::DeviceRediscoverRequested => {
            effects.actions.push(StateAction::Toast(Toast::normal("discovering...".to_owned())));
            effects.actions.push(StateAction::DeviceDiscoveringStart);
            discover = true;
        },
        AppEvent::TcpDeviceSubmitted(a) => {
            let a = if a.has_port() {
                a
            } else {
                a.with_port(DEFAULT_TCP_PORT)
            };
            effects.actions.push(StateAction::DevicesAddTcp(a));
        },
        AppEvent::TcpDeviceRemoved(a) => {
            effects.actions.push(StateAction::DevicesRemoveTcp(a));
        },
        _ => {},
    }
    (effects, discover)
}

/// The text of the toast that reports how many devices a search found.
pub open spec fn discovered_text(n: nat) -> Seq<char> {
    "devices discovered: "@ + decimal(n)
}

/// What the connection service does with the outcome of a search for devices: the devices
/// found, and a toast that counts them; or the error, and a toast that says the search failed.
pub fn discovery_outcome(outcome: Result<Vec<Device>, String>) -> (r: Vec<StateAction>)
    ensures
        r@.len() == 2,
        match outcome {
            Ok(devices) => (r@[0] matches StateAction::DeviceDiscoveringDone(ds) && ds@
                == devices@) && is_toast(
                r@[1],
                ToastKind::Normal,
                discovered_text(devices@.len()),
            ),
            Err(e) => (r@[0] matches StateAction::DeviceDiscoveringFail(x) && x@ == e@) && is_toast(
                r@[1],
                ToastKind::Error,
                "discovering failed"@,
            ),
        },
{
    let mut actions: Vec<StateAction> = Vec::new();
    match outcome {
        Ok(devices) => {
            let count = devices.len() as u64;
            let text = "devices discovered: ".to_owned().concat(decimal_string(count).as_str());
            actions.push(StateAction::DeviceDiscoveringDone(devices));
            actions.push(StateAction::Toast(Toast::normal(text)));
        },
        Err(e) => {
            actions.push(StateAction::DeviceDiscoveringFail(e));
            actions.push(StateAction::Toast(Toast::error("discovering failed".to_owned())));
        },
    }
    actions
}

/// What the connection service does on an event of the radio: a connection is a success and a
/// toast; a connection error a failure; a disconnection stops the connection, with a toast; an
/// incoming packet lights the receive indicator.
pub fn handle_meshtastic_event(event: MeshtasticEvent) -> (r: Vec<StateAction>)
    ensures
        match event {
            MeshtasticEvent::Connected => r@.len() == 2 && r@[0] is ConnectionSuccess && is_toast(
                r@[1],
                ToastKind::Success,
                "connected"@,
            ),
            MeshtasticEvent::ConnectionError(e) => r@.len() == 1 && (r@[0] matches StateAction::ConnectionFail(
                x,
            ) && x@ == e@),
            MeshtasticEvent::Disconnected => r@.len() == 2 && r@[0] is ConnectionStop && is_toast(
                r@[1],
                ToastKind::Normal,
                "disconnected"@,
            ),
            MeshtasticEvent::IncomingPacket(_) => r@.len() == 1 && r@[0] is RxTrigger,
            _ => r@.len() == 0,
        },
{
    let mut actions: Vec<StateAction> = Vec::new();
    match event {
        MeshtasticEvent::Connected => {
            actions.push(StateAction::ConnectionSuccess);
            actions.push(StateAction::Toast(Toast::success("connected".to_owned())));
        },
        MeshtasticEvent::ConnectionError(e) => {
            actions.push(StateAction::ConnectionFail(e));
        },
        MeshtasticEvent::Disconnected => {
            actions.push(StateAction::ConnectionStop);
            actions.push(StateAction::Toast(Toast::normal("disconnected".to_owned())));
        },
        MeshtasticEvent::IncomingPacket(_) => {
            actions.push(StateAction::RxTrigger);
        },
        _ => {},
    }
    actions
}

/// `e` starts a connection to device `d`: the state records the attempt and the radio is asked
/// to connect.
pub open spec fn connects(e: Effects, d: DeviceView) -> bool {
    &&& e.actions@.len() == 1
    &&& e.actions@[0] is ConnectionStart
    &&& e.app_events@.len() == 0
    &&& e.commands@.len() == 1
    &&& connects_to(e.commands@[0], d)
}

/// Starts a connection to a device.
fn connect(device: &Device) -> (r: Effects)
    ensures
        connects(r, device@),
{
    let mut effects = Effects::none();
    effects.actions.push(StateAction::ConnectionStart);
    effects.commands.push(connect_command(device));
    effects
}

/// What the connection service does when the state changes: with an active device and no
/// connection, it connects.
pub fn handle_state_change(state: &State) -> (r: Effects)
    ensures
        match (state.active_device, state.connection_state) {
            (Some(d), ConnectionState::NotConnected) => connects(r, d@),
            _ => r.actions@.len() == 0 && r.app_events@.len() == 0 && r.commands@.len() == 0,
        },
{
    match (&state.active_device, &state.connection_state) {
        (Some(d), ConnectionState::NotConnected) => connect(d),
        _ => Effects::none(),
    }
}

/// What the connection service does on its periodic check at monotonic time `now`: while a
/// problem is detected with an active device, it records how long is left of the wait before
/// reconnecting, and reconnects once the wait is over. The wait is worked out for at most
/// `RECONNECTION_ATTEMPTS_MAX` attempts.
pub fn check_connection(state: &State, now: u64) -> (r: Effects)
    requires
        state.active_device is Some && state.connection_state is ProblemDetected
            ==> state.connection_attempt <= RECONNECTION_ATTEMPTS_MAX,
    ensures
        match (state.active_device, state.connection_state) {
            (Some(d), ConnectionState::ProblemDetected { since, .. }) => {
                let left = time_left_spec(
                    since,
                    reconnection_backoff_spec(state.connection_attempt as nat) as u64,
                    now,
                );
                &&& r.app_events@.len() == 0
                &&& r.actions@.len() >= 1
                &&& r.actions@[0] matches StateAction::ReconnectionBackoffSet(x) && x == left
                &&& if left == 0 {
                    &&& r.actions@.len() == 2
                    &&& r.actions@[1] is ConnectionStart
                    &&& r.commands@.len() == 1
                    &&& connects_to(r.commands@[0], d@)
                } else {
                    r.actions@.len() == 1 && r.commands@.len() == 0
                }
            },
            _ => r.actions@.len() == 0 && r.app_events@.len() == 0 && r.commands@.len() == 0,
        },
{
    match (&state.active_device, &state.connection_state) {
        (Some(d), ConnectionState::ProblemDetected { since, .. }) => {
            let backoff = reconnection_backoff(state.connection_attempt);
            let left = time_left(*since, backoff, now);
            let mut effects = Effects::none();
            effects.actions.push(StateAction::ReconnectionBackoffSet(left));
            if left == 0 {
                effects.actions.push(StateAction::ConnectionStart);
                effects.commands.push(connect_command(d));
            }
            effects
        },
        _ => Effects::none(),
    }
}

} // verus!

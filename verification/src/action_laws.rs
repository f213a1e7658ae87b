//! What each action of the store does to the state, field by field.

use vstd::prelude::*;

use crate::device::{ConnectionState, Device, DeviceDiscoveringState, TcpAddrView};
use crate::service::connection::with_default_port;
use crate::settings::{FormField, FormId, SettingsFormState};
use crate::state::{AppConfig, Clock, LogRecord, StateView};
use crate::store::{handled, next_state, resorts, StateAction};
use crate::types::{NodesSortBy, Tab, Toast, UtcTime};

verus! {

/// A finished search for devices records the devices it found, in the order found, and marks
/// the search done; the addresses typed in by hand stay as they were.
pub proof fn law_discovery_done_lists_found_devices(
    pre: StateView,
    ds: Vec<Device>,
    now: Clock,
    post: StateView,
)
    requires
        handled(pre, StateAction::DeviceDiscoveringDone(ds), now, post),
    ensures
        post.device_discovering_state is Done,
        post.discovered_devices.len() == ds@.len(),
        forall|i: int| 0 <= i < ds@.len() ==> post.discovered_devices[i] == #[trigger] ds@[i]@,
        post.tcp_devices == pre.tcp_devices,
        post.active_device == pre.active_device,
{
    reveal(next_state);
}

/// Starting a search marks it under way and keeps the devices found before; a failed search
/// records its error and also keeps them.
pub proof fn law_discovery_start_and_fail(pre: StateView, e: String, now: Clock)
    ensures
        next_state(pre, StateAction::DeviceDiscoveringStart, now).device_discovering_state
            is Discovering,
        next_state(pre, StateAction::DeviceDiscoveringStart, now).discovered_devices
            == pre.discovered_devices,
        next_state(pre, StateAction::DeviceDiscoveringFail(e), now).device_discovering_state
            == DeviceDiscoveringState::Failed(e),
        next_state(pre, StateAction::DeviceDiscoveringFail(e), now).discovered_devices
            == pre.discovered_devices,
{
    reveal(next_state);
}

/// Choosing a device makes it the active one; applying the saved configuration takes its active
/// device and its typed-in addresses.
pub proof fn law_active_device_and_config(pre: StateView, d: Device, cfg: AppConfig, now: Clock)
    ensures
        next_state(pre, StateAction::DeviceActiveSet(d), now).active_device == Some(d@),
        next_state(pre, StateAction::AppConfigApply(cfg), now).tcp_devices.len()
            == cfg.tcp_devices@.len(),
        forall|i: int|
            0 <= i < cfg.tcp_devices@.len() ==> next_state(
                pre,
                StateAction::AppConfigApply(cfg),
                now,
            ).tcp_devices[i] == #[trigger] cfg.tcp_devices@[i]@,
        cfg.active_device matches Some(x) ==> next_state(
            pre,
            StateAction::AppConfigApply(cfg),
            now,
        ).active_device == Some(x@),
        cfg.active_device is None ==> next_state(
            pre,
            StateAction::AppConfigApply(cfg),
            now,
        ).active_device is None,
{
    reveal(next_state);
}

/// Opening a channel makes it the open one, and leaving it leaves none open; a direct chat with
/// a node opens the node's conversation on the chat tab, making the conversation known.
pub proof fn law_open_channels(pre: StateView, k: u32, now: Clock)
    ensures
        next_state(pre, StateAction::ChannelActiveSet(k), now).active_channel_key == Some(k),
        next_state(pre, StateAction::ChannelActiveUnset, now).active_channel_key is None,
        next_state(pre, StateAction::DirectChatStart(k), now).active_channel_key == Some(k),
        next_state(pre, StateAction::DirectChatStart(k), now).active_tab == Tab::Chat,
        next_state(pre, StateAction::DirectChatStart(k), now).channels.contains_key(k),
        next_state(pre, StateAction::DirectChatStart(k), now).need_clear_frame,
        pre.channels.contains_key(k) ==> next_state(
            pre,
            StateAction::DirectChatStart(k),
            now,
        ).channels[k] == pre.channels[k],
{
    reveal(next_state);
}

/// A failed connection records the problem, with its error, as detected now; a wait before
/// reconnecting is recorded; a success marks the connection made and forgets the attempts.
pub proof fn law_connection_outcomes(pre: StateView, e: String, ms: u64, now: Clock)
    ensures
        next_state(pre, StateAction::ConnectionFail(e), now).connection_state
            == (ConnectionState::ProblemDetected { since: now.ms, error: e }),
        next_state(pre, StateAction::ConnectionFail(e), now).connection_attempt
            == pre.connection_attempt,
        next_state(pre, StateAction::ReconnectionBackoffSet(ms), now).reconnection_backoff
            == Some(ms),
        next_state(pre, StateAction::ConnectionSuccess, now).connection_state is Connected,
        next_state(pre, StateAction::ConnectionSuccess, now).connection_attempt == 0,
        next_state(pre, StateAction::ConnectionSuccess, now).reconnection_backoff is None,
{
    reveal(next_state);
}

/// A log record is added at the end of the log; a count of nodes online is recorded.
pub proof fn law_log_and_online(pre: StateView, r: LogRecord, n: u16, now: Clock)
    ensures
        next_state(pre, StateAction::LogRecordAdd(r), now).logs == pre.logs.push(r),
        next_state(pre, StateAction::OnlineNodesSet(n), now).online_nodes == n,
{
    reveal(next_state);
}

/// The local node's key is recorded, and where that node is known it is marked as local with
/// its other values kept.
pub proof fn law_local_node_marked(pre: StateView, k: u32, now: Clock)
    ensures
        next_state(pre, StateAction::MyNodeKeySet(k), now).my_node_key == Some(k),
        next_state(pre, StateAction::MyNodeKeySet(k), now).nodes.dom() == pre.nodes.dom(),
        pre.nodes.contains_key(k) ==> next_state(pre, StateAction::MyNodeKeySet(k), now).nodes[k].my,
        pre.nodes.contains_key(k) ==> next_state(
            pre,
            StateAction::MyNodeKeySet(k),
            now,
        ).nodes[k].long_name == pre.nodes[k].long_name,
{
    reveal(next_state);
    assert(next_state(pre, StateAction::MyNodeKeySet(k), now).nodes.dom() =~= pre.nodes.dom());
}

/// Hearing a known node records when (now), over how many hops and with what ratio, keeping its
/// names; an unknown node is not added.
pub proof fn law_node_heard(pre: StateView, k: u32, hops: u32, snr: u32, now: Clock)
    ensures
        ({
            let post = next_state(pre, (StateAction::NodeUpdateLastHeard { node_key: k, hops, snr }), now);
            &&& post.nodes.dom() == pre.nodes.dom()
            &&& pre.nodes.contains_key(k) ==> post.nodes[k].last_heard == Some(now.utc)
                && post.nodes[k].hops_away == Some(hops) && post.nodes[k].snr == snr
                && post.nodes[k].long_name == pre.nodes[k].long_name
                && post.nodes[k].short_name == pre.nodes[k].short_name
        }),
{
    reveal(next_state);
    let post = next_state(pre, (StateAction::NodeUpdateLastHeard { node_key: k, hops, snr }), now);
    assert(post.nodes.dom() =~= pre.nodes.dom());
}

/// The sort key is recorded; the receive indicator lights up now; switching to a tab shows it
/// and asks for the screen to be cleared; clearing the screen is recorded; a toast waits at the
/// end of the queue.
#[verifier::spinoff_prover]
#[verifier::rlimit(40)]
pub proof fn law_screen_actions(pre: StateView, by: NodesSortBy, t: Tab, toast: Toast, now: Clock)
    ensures
        next_state(pre, StateAction::NodesSortBySet(by), now).nodes_sort_by == by,
        next_state(pre, StateAction::RxTrigger, now).rx,
        next_state(pre, StateAction::RxTrigger, now).rx_t == now.ms,
        next_state(pre, StateAction::TabSwitchTo(t), now).active_tab == t,
        next_state(pre, StateAction::TabSwitchTo(t), now).need_clear_frame,
        !next_state(pre, StateAction::FrameCleared, now).need_clear_frame,
        next_state(pre, StateAction::Toast(toast), now).toast_queue == pre.toast_queue.push(toast),
{
    reveal(next_state);
}

/// The settings form moves through loading, loaded, saving and saved for the form asked for,
/// keeps the error of a failure, holds the loaded fields, and is emptied on closing.
pub proof fn law_settings_form_states(
    pre: StateView,
    id: FormId,
    e: String,
    data: Vec<FormField>,
    now: Clock,
)
    ensures
        next_state(pre, (StateAction::SettingsFormLoadingStart { id }), now).settings_form_state
            == (SettingsFormState::Loading { id }),
        next_state(pre, (StateAction::SettingsFormLoadingFail { id, error: e }), now).settings_form_state
            == (SettingsFormState::LoadingFailed { id, error: e }),
        next_state(pre, (StateAction::SettingsFormLoadingDone { id, data }), now).settings_form_state
            == (SettingsFormState::Loaded { id }),
        next_state(pre, (StateAction::SettingsFormLoadingDone { id, data }), now).settings_form_data
            == Some(data@),
        next_state(pre, (StateAction::SettingsFormSavingStart { id }), now).settings_form_state
            == (SettingsFormState::Saving { id }),
        next_state(pre, (StateAction::SettingsFormSavingFail { id, error: e }), now).settings_form_state
            == (SettingsFormState::SavingFailed { id, error: e }),
        next_state(pre, (StateAction::SettingsFormSavingDone { id }), now).settings_form_state
            == (SettingsFormState::Saved { id }),
        next_state(pre, StateAction::SettingsFormClose, now).settings_form_state is Inactive,
        next_state(pre, StateAction::SettingsFormClose, now).settings_form_data is None,
{
    reveal(next_state);
}

/// Apart from re-sorting the node list where a node is added or heard, every action leaves the
/// state as `next_state` gives it: the store changes nothing else.
pub proof fn law_store_follows_next_state(pre: StateView, a: StateAction, now: Clock, post: StateView)
    requires
        handled(pre, a, now, post),
        !resorts(pre, a),
    ensures
        post == next_state(pre, a, now),
{
}

/// A TCP address submitted without a port is added with port 4403 on the same host; one with a
/// port is added as it is.
pub proof fn law_submitted_address_port(a: TcpAddrView)
    ensures
        with_default_port(a).host == a.host,
        a.port is None ==> with_default_port(a).port == Some(4403u16),
        a.port is Some ==> with_default_port(a) == a,
{
}

} // verus!

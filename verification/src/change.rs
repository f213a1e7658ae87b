//! When an action changes the application state: two states are the same where every field
//! holds the same value, texts compared by their characters and single-precision numbers as
//! numbers (no NaN equals anything, and the two zeros are equal).

use vstd::prelude::*;

use vstd::std_specs::iter::IteratorSpec;

use crate::chat::{find_message, with_reaction, MessageView, Reaction};
use crate::device::{
    compare_devices, compare_tcp_addrs, law_device_order_equal, ConnectionState, Device,
    DeviceDiscoveringState, TcpAddr,
};
use crate::order::Order;
use crate::settings::{field_index, FormField, FormValue, SettingsFormState};
use crate::state::{
    device_opt_view, devices_view, message_list_view, tcp_view, Clock, LogRecord, State, StateView,
};
use crate::store::{
    action_allowed, action_group, group_of, next_state, node_as_added, tcp_added, tcp_position,
    tcp_removed, StateAction,
};
use crate::types::{Node, Tab, Toast};

verus! {

broadcast use vstd::std_specs::hash::group_hash_axioms;

/// The bit pattern is that of a single-precision NaN: all exponent bits set, and a mantissa
/// that is not zero.
pub open spec fn is_nan_bits(b: u32) -> bool {
    (b & 0x7f80_0000u32) == 0x7f80_0000u32 && (b & 0x007f_ffffu32) != 0
}

/// The single-precision numbers with these bit patterns compare equal: neither is NaN, and the
/// patterns are the same or both are zeros (positive and negative zero are equal).
pub open spec fn float_eq(a: u32, b: u32) -> bool {
    !is_nan_bits(a) && !is_nan_bits(b) && (a == b || ((a & 0x7fff_ffffu32) == 0 && (b
        & 0x7fff_ffffu32) == 0))
}

fn float_same(a: u32, b: u32) -> (r: bool)
    ensures
        r == float_eq(a, b),
{
    let a_nan = (a & 0x7f80_0000u32) == 0x7f80_0000u32 && (a & 0x007f_ffffu32) != 0;
    let b_nan = (b & 0x7f80_0000u32) == 0x7f80_0000u32 && (b & 0x007f_ffffu32) != 0;
    !a_nan && !b_nan && (a == b || ((a & 0x7fff_ffffu32) == 0 && (b & 0x7fff_ffffu32) == 0))
}

/// The connection states are the same, an error compared by its text.
pub open spec fn conn_same(a: ConnectionState, b: ConnectionState) -> bool {
    match (a, b) {
        (
            ConnectionState::ProblemDetected { since: s1, error: e1 },
            ConnectionState::ProblemDetected { since: s2, error: e2 },
        ) => s1 == s2 && e1@ == e2@,
        _ => a == b,
    }
}

/// The states of the device search are the same, an error compared by its text.
pub open spec fn discovering_same(a: DeviceDiscoveringState, b: DeviceDiscoveringState) -> bool {
    match (a, b) {
        (DeviceDiscoveringState::Failed(e1), DeviceDiscoveringState::Failed(e2)) => e1@ == e2@,
        _ => a == b,
    }
}

pub open spec fn log_same(a: LogRecord, b: LogRecord) -> bool {
    a.datetime == b.datetime && a.level == b.level && a.source@ == b.source@ && a.message@
        == b.message@
}

pub open spec fn logs_same(a: Seq<LogRecord>, b: Seq<LogRecord>) -> bool {
    a.len() == b.len() && forall|i: int| 0 <= i < a.len() ==> log_same(#[trigger] a[i], b[i])
}

pub open spec fn node_same(a: Node, b: Node) -> bool {
    &&& a.id@ == b.id@
    &&& a.key == b.key
    &&& a.short_name@ == b.short_name@
    &&& a.long_name@ == b.long_name@
    &&& a.hops_away == b.hops_away
    &&& a.last_heard == b.last_heard
    &&& float_eq(a.snr, b.snr)
    &&& a.role@ == b.role@
    &&& a.hw_model@ == b.hw_model@
    &&& a.my == b.my
}

pub open spec fn nodes_same(a: Map<u32, Node>, b: Map<u32, Node>) -> bool {
    a.dom() == b.dom() && forall|k: u32| #[trigger] a.contains_key(k) ==> node_same(a[k], b[k])
}

pub open spec fn reaction_same(a: Reaction, b: Reaction) -> bool {
    a.emoji@ == b.emoji@ && a.node_key == b.node_key && a.at == b.at
}

pub open spec fn reactions_same(a: Seq<Reaction>, b: Seq<Reaction>) -> bool {
    a.len() == b.len() && forall|i: int| 0 <= i < a.len() ==> reaction_same(#[trigger] a[i], b[i])
}

pub open spec fn message_same(a: MessageView, b: MessageView) -> bool {
    &&& a.id == b.id
    &&& a.reply_message_id == b.reply_message_id
    &&& a.from == b.from
    &&& a.datetime == b.datetime
    &&& a.text@ == b.text@
    &&& reactions_same(a.reactions, b.reactions)
    &&& a.hops == b.hops
    &&& float_eq(a.snr, b.snr)
    &&& a.rssi == b.rssi
    &&& a.acked == b.acked
}

pub open spec fn message_list_same(a: Seq<MessageView>, b: Seq<MessageView>) -> bool {
    a.len() == b.len() && forall|i: int| 0 <= i < a.len() ==> message_same(#[trigger] a[i], b[i])
}

pub open spec fn messages_same(a: Map<u32, Seq<MessageView>>, b: Map<u32, Seq<MessageView>>) -> bool {
    a.dom() == b.dom() && forall|k: u32| #[trigger] a.contains_key(k) ==> message_list_same(a[k], b[k])
}

pub open spec fn toast_same(a: Toast, b: Toast) -> bool {
    a.kind == b.kind && a.text@ == b.text@
}

pub open spec fn toasts_same(a: Seq<Toast>, b: Seq<Toast>) -> bool {
    a.len() == b.len() && forall|i: int| 0 <= i < a.len() ==> toast_same(#[trigger] a[i], b[i])
}

pub open spec fn toast_opt_same(a: Option<Toast>, b: Option<Toast>) -> bool {
    match (a, b) {
        (Some(x), Some(y)) => toast_same(x, y),
        (None, None) => true,
        _ => false,
    }
}

pub open spec fn form_state_same(a: SettingsFormState, b: SettingsFormState) -> bool {
    match (a, b) {
        (
            SettingsFormState::LoadingFailed { id: i1, error: e1 },
            SettingsFormState::LoadingFailed { id: i2, error: e2 },
        ) => i1 == i2 && e1@ == e2@,
        (
            SettingsFormState::SavingFailed { id: i1, error: e1 },
            SettingsFormState::SavingFailed { id: i2, error: e2 },
        ) => i1 == i2 && e1@ == e2@,
        _ => a == b,
    }
}

pub open spec fn value_same(a: FormValue, b: FormValue) -> bool {
    match (a, b) {
        (FormValue::String(x), FormValue::String(y)) => x@ == y@,
        (FormValue::Float32(x), FormValue::Float32(y)) => float_eq(x, y),
        _ => a == b,
    }
}

pub open spec fn field_same(a: FormField, b: FormField) -> bool {
    a.key@ == b.key@ && value_same(a.value, b.value)
}

pub open spec fn fields_same(a: Seq<FormField>, b: Seq<FormField>) -> bool {
    a.len() == b.len() && forall|i: int| 0 <= i < a.len() ==> field_same(#[trigger] a[i], b[i])
}

pub open spec fn form_data_same(a: Option<Seq<FormField>>, b: Option<Seq<FormField>>) -> bool {
    match (a, b) {
        (Some(x), Some(y)) => fields_same(x, y),
        (None, None) => true,
        _ => false,
    }
}

/// The two states hold the same values, texts compared by their characters.
pub open spec fn state_same(a: StateView, b: StateView) -> bool {
    &&& a.active_channel_key == b.active_channel_key
    &&& a.active_device == b.active_device
    &&& a.active_tab == b.active_tab
    &&& a.app_name@ == b.app_name@
    &&& a.app_version@ == b.app_version@
    &&& a.channels == b.channels
    &&& a.connection_attempt == b.connection_attempt
    &&& conn_same(a.connection_state, b.connection_state)
    &&& a.reconnection_backoff == b.reconnection_backoff
    &&& a.discovered_devices == b.discovered_devices
    &&& discovering_same(a.device_discovering_state, b.device_discovering_state)
    &&& logs_same(a.logs, b.logs)
    &&& a.my_node_key == b.my_node_key
    &&& messages_same(a.messages, b.messages)
    &&& a.nodes_sort_by == b.nodes_sort_by
    &&& a.nodes_sort == b.nodes_sort
    &&& nodes_same(a.nodes, b.nodes)
    &&& a.online_nodes == b.online_nodes
    &&& a.rx_t == b.rx_t
    &&& a.rx == b.rx
    &&& a.tcp_devices == b.tcp_devices
    &&& a.need_clear_frame == b.need_clear_frame
    &&& toasts_same(a.toast_queue, b.toast_queue)
    &&& toast_opt_same(a.toast, b.toast)
    &&& a.toast_t == b.toast_t
    &&& form_state_same(a.settings_form_state, b.settings_form_state)
    &&& form_data_same(a.settings_form_data, b.settings_form_data)
}

/// A form value is a NaN.
pub open spec fn value_is_nan(v: FormValue) -> bool {
    v matches FormValue::Float32(b) && is_nan_bits(b)
}

/// No number of the state is a NaN: no node's or message's signal-to-noise ratio, and no
/// value of the settings form.
pub open spec fn nan_free(s: StateView) -> bool {
    &&& forall|k: u32| #[trigger] s.nodes.contains_key(k) ==> !is_nan_bits(s.nodes[k].snr)
    &&& forall|k: u32, i: int|
        s.messages.contains_key(k) && 0 <= i < s.messages[k].len() ==> !is_nan_bits(
            #[trigger] s.messages[k][i].snr,
        )
    &&& match s.settings_form_data {
        Some(fs) => forall|i: int| 0 <= i < fs.len() ==> !value_is_nan(#[trigger] fs[i].value),
        None => true,
    }
}

/// A state without NaNs is the same as itself.
pub proof fn lemma_state_same_refl(a: StateView)
    requires
        nan_free(a),
    ensures
        state_same(a, a),
{
    assert forall|k: u32| #[trigger] a.messages.contains_key(k) implies message_list_same(
        a.messages[k],
        a.messages[k],
    ) by {
        assert forall|i: int| 0 <= i < a.messages[k].len() implies message_same(
            #[trigger] a.messages[k][i],
            a.messages[k][i],
        ) by {
            assert(!is_nan_bits(a.messages[k][i].snr));
        }
    }
    match a.settings_form_data {
        Some(fs) => {
            assert forall|i: int| 0 <= i < fs.len() implies field_same(#[trigger] fs[i], fs[i]) by {
                assert(!value_is_nan(fs[i].value));
            }
        },
        None => {},
    }
}

/// A state that is the same as another holds no NaN.
pub proof fn lemma_same_is_nan_free(x: StateView, a: StateView)
    requires
        state_same(x, a),
    ensures
        nan_free(a),
{
    assert forall|k: u32, i: int|
        a.messages.contains_key(k) && 0 <= i < a.messages[k].len() implies !is_nan_bits(
        #[trigger] a.messages[k][i].snr,
    ) by {
        assert(x.messages.contains_key(k));
        assert(message_list_same(x.messages[k], a.messages[k]));
        assert(message_same(x.messages[k][i], a.messages[k][i]));
    }
    match (x.settings_form_data, a.settings_form_data) {
        (Some(ys), Some(fs)) => {
            assert forall|i: int| 0 <= i < fs.len() implies !value_is_nan(#[trigger] fs[i].value) by {
                assert(field_same(ys[i], fs[i]));
            }
        },
        _ => {},
    }
    assert forall|k: u32| #[trigger] a.nodes.contains_key(k) implies !is_nan_bits(a.nodes[k].snr) by {
        assert(x.nodes.contains_key(k));
        assert(node_same(x.nodes[k], a.nodes[k]));
    }
}

fn snr_is_nan(b: u32) -> (r: bool)
    ensures
        r == is_nan_bits(b),
{
    (b & 0x7f80_0000u32) == 0x7f80_0000u32 && (b & 0x007f_ffffu32) != 0
}

/// Whether some number of the state is a NaN.
fn has_nan(state: &State) -> (r: bool)
    ensures
        r == !nan_free(state@),
{
    let ghost s = state@;
    let ghost keys = vstd::std_specs::hash::spec_keys_iter(&state.nodes).remaining();
    for k in it: state.nodes.keys()
        invariant
            it.seq() == keys,
            keys.unref().to_set() == state.nodes@.dom(),
            s == state@,
            forall|j: int| 0 <= j < it.index() ==> !is_nan_bits(state.nodes@[*#[trigger] it.seq()[j]].snr),
    {
        proof {
            assert(keys.unref().to_set().contains(*k)) by {
                assert(keys.unref()[it.index() as int] == *k);
            }
        }
        let n = state.nodes.get(k).unwrap();
        if snr_is_nan(n.snr) {
            proof {
                assert(s.nodes.contains_key(*k));
                assert(is_nan_bits(s.nodes[*k].snr));
            }
            return true;
        }
    }
    proof {
        assert forall|k: u32| #[trigger] s.nodes.contains_key(k) implies !is_nan_bits(s.nodes[k].snr) by {
            assert(keys.unref().to_set().contains(k));
            let j = choose|j: int| 0 <= j < keys.unref().len() && keys.unref()[j] == k;
            assert(*keys[j] == k);
        }
    }
    let ghost mkeys = vstd::std_specs::hash::spec_keys_iter(&state.messages).remaining();
    for k in it: state.messages.keys()
        invariant
            it.seq() == mkeys,
            mkeys.unref().to_set() == state.messages@.dom(),
            s == state@,
            forall|j: int, i: int|
                0 <= j < it.index() && 0 <= i < s.messages[*it.seq()[j]].len() ==> !is_nan_bits(
                    #[trigger] s.messages[*it.seq()[j]][i].snr,
                ),
    {
        let list = state.messages.get(k).unwrap();
        proof {
            assert(s.messages[*k] == message_list_view(*list));
            assert(mkeys.unref().to_set().contains(*k)) by {
                assert(mkeys.unref()[it.index() as int] == *k);
            }
        }
        let mut i: usize = 0;
        while i < list.len()
            invariant
                i <= list.len(),
                s == state@,
                s.messages[*k] == message_list_view(*list),
                s.messages.contains_key(*k),
                forall|p: int| 0 <= p < i ==> !is_nan_bits(#[trigger] s.messages[*k][p].snr),
            decreases list.len() - i,
        {
            if snr_is_nan(list[i].snr) {
                proof {
                    assert(s.messages[*k][i as int].snr == list@[i as int].snr);
                }
                return true;
            }
            i = i + 1;
        }
    }
    proof {
        assert forall|k: u32, i: int|
            s.messages.contains_key(k) && 0 <= i < s.messages[k].len() implies !is_nan_bits(
            #[trigger] s.messages[k][i].snr,
        ) by {
            assert(mkeys.unref().to_set().contains(k));
            let j = choose|j: int| 0 <= j < mkeys.unref().len() && mkeys.unref()[j] == k;
            assert(*mkeys[j] == k);
        }
    }
    match &state.settings_form_data {
        Some(fs) => {
            let mut i: usize = 0;
            while i < fs.len()
                invariant
                    i <= fs.len(),
                    s == state@,
                    s.settings_form_data == Some(fs@),
                    forall|p: int| 0 <= p < i ==> !value_is_nan(#[trigger] fs@[p].value),
                decreases fs.len() - i,
            {
                match &fs[i].value {
                    FormValue::Float32(b) => {
                        if snr_is_nan(*b) {
                            return true;
                        }
                    },
                    _ => {},
                }
                i = i + 1;
            }
        },
        None => {},
    }
    false
}

fn same_tcp(a: &TcpAddr, b: &TcpAddr) -> (r: bool)
    ensures
        r == (a@ == b@),
{
    proof {
        law_device_order_equal(Device::Tcp(*a)@, Device::Tcp(*b)@);
    }
    compare_tcp_addrs(a, b) == Order::Equal
}

fn same_device(a: &Device, b: &Device) -> (r: bool)
    ensures
        r == (a@ == b@),
{
    match (a, b) {
        (Device::Ble { name: n1, address: a1 }, Device::Ble { name: n2, address: a2 }) => {
            *n1 == *n2 && *a1 == *a2
        },
        _ => {
            proof {
                law_device_order_equal(a@, b@);
            }
            compare_devices(a, b) == Order::Equal
        },
    }
}

fn same_device_opt(a: &Option<Device>, b: &Option<Device>) -> (r: bool)
    ensures
        r == (device_opt_view(*a) == device_opt_view(*b)),
{
    match (a, b) {
        (Some(x), Some(y)) => same_device(x, y),
        (None, None) => true,
        _ => false,
    }
}

fn same_tcp_list(a: &Vec<TcpAddr>, b: &Vec<TcpAddr>) -> (r: bool)
    ensures
        r == (tcp_view(a@) == tcp_view(b@)),
{
    if a.len() != b.len() {
        proof {
            assert(tcp_view(a@).len() != tcp_view(b@).len());
        }
        return false;
    }
    let mut i: usize = 0;
    while i < a.len()
        invariant
            i <= a.len(),
            a.len() == b.len(),
            forall|j: int| 0 <= j < i ==> a@[j]@ == b@[j]@,
        decreases a.len() - i,
    {
        if !same_tcp(&a[i], &b[i]) {
            proof {
                assert(tcp_view(a@)[i as int] != tcp_view(b@)[i as int]);
            }
            return false;
        }
        i = i + 1;
    }
    proof {
        assert(tcp_view(a@) =~= tcp_view(b@));
    }
    true
}

fn same_device_list(a: &Vec<Device>, b: &Vec<Device>) -> (r: bool)
    ensures
        r == (devices_view(a@) == devices_view(b@)),
{
    if a.len() != b.len() {
        proof {
            assert(devices_view(a@).len() != devices_view(b@).len());
        }
        return false;
    }
    let mut i: usize = 0;
    while i < a.len()
        invariant
            i <= a.len(),
            a.len() == b.len(),
            forall|j: int| 0 <= j < i ==> a@[j]@ == b@[j]@,
        decreases a.len() - i,
    {
        if !same_device(&a[i], &b[i]) {
            proof {
                assert(devices_view(a@)[i as int] != devices_view(b@)[i as int]);
            }
            return false;
        }
        i = i + 1;
    }
    proof {
        assert(devices_view(a@) =~= devices_view(b@));
    }
    true
}

fn same_value(a: &FormValue, b: &FormValue) -> (r: bool)
    ensures
        r == value_same(*a, *b),
{
    match (a, b) {
        (FormValue::String(x), FormValue::String(y)) => *x == *y,
        (FormValue::Int32(x), FormValue::Int32(y)) => *x == *y,
        (FormValue::UnsignedInt32(x), FormValue::UnsignedInt32(y)) => *x == *y,
        (FormValue::Float32(x), FormValue::Float32(y)) => float_same(*x, *y),
        (FormValue::Bool(x), FormValue::Bool(y)) => *x == *y,
        _ => false,
    }
}

fn same_fields(a: &Vec<FormField>, b: &Vec<FormField>) -> (r: bool)
    ensures
        r == fields_same(a@, b@),
{
    if a.len() != b.len() {
        return false;
    }
    let mut i: usize = 0;
    while i < a.len()
        invariant
            i <= a.len(),
            a.len() == b.len(),
            forall|j: int| 0 <= j < i ==> field_same(#[trigger] a@[j], b@[j]),
        decreases a.len() - i,
    {
        if !(a[i].key == b[i].key && same_value(&a[i].value, &b[i].value)) {
            return false;
        }
        i = i + 1;
    }
    true
}

fn same_node(a: &Node, b: &Node) -> (r: bool)
    ensures
        r == node_same(*a, *b),
{
    a.id == b.id && a.key == b.key && a.short_name == b.short_name && a.long_name == b.long_name
        && a.hops_away == b.hops_away && a.last_heard == b.last_heard && float_same(a.snr, b.snr) && a.role
        == b.role && a.hw_model == b.hw_model && a.my == b.my
}

/// Position of the first field with the key.
fn field_position(fields: &Vec<FormField>, key: &String) -> (r: Option<usize>)
    ensures
        match r {
            Some(i) => field_index(fields@, key@) == Some(i as int) && i < fields@.len(),
            None => field_index(fields@, key@) is None,
        },
{
    let mut i: usize = 0;
    while i < fields.len()
        invariant
            i <= fields.len(),
            forall|j: int| 0 <= j < i ==> fields@[j].key@ != key@,
        decreases fields.len() - i,
    {
        if fields[i].key == *key {
            proof {
                let c = field_index(fields@, key@)->0;
                if c < i {
                    assert(fields@[c].key@ != key@);
                }
            }
            return Some(i);
        }
        i = i + 1;
    }
    None
}

/// Position of the first reaction by `node_key` with `emoji`.
fn reaction_position(rs: &Vec<Reaction>, emoji: &String, node_key: u32) -> (r: Option<usize>)
    ensures
        match r {
            Some(i) => crate::chat::reaction_index(rs@, emoji@, node_key) == Some(i as int) && i
                < rs@.len() && rs@[i as int].emoji@ == emoji@ && rs@[i as int].node_key == node_key,
            None => crate::chat::reaction_index(rs@, emoji@, node_key) is None,
        },
{
    let mut i: usize = 0;
    while i < rs.len()
        invariant
            i <= rs.len(),
            forall|j: int|
                0 <= j < i ==> !(rs@[j].emoji@ == emoji@ && rs@[j].node_key == node_key),
        decreases rs.len() - i,
    {
        if rs[i].node_key == node_key && rs[i].emoji == *emoji {
            proof {
                let c = crate::chat::reaction_index(rs@, emoji@, node_key)->0;
                if c < i {
                    assert(!(rs@[c].emoji@ == emoji@ && rs@[c].node_key == node_key));
                }
            }
            return Some(i);
        }
        i = i + 1;
    }
    None
}


/// Whether an action of the devices group changes the state.
#[verifier::spinoff_prover]
#[verifier::rlimit(60)]
fn devices_changes(state: &State, action: &StateAction, now: Clock) -> (r: bool)
    requires
        nan_free(state@),
        action_group(*action) == 0,
    ensures
        r == !state_same(next_state(state@, *action, now), state@),
{
    proof {
        reveal(next_state);
    }
    let ghost pre = state@;
    match action {
        StateAction::AppConfigApply(cfg) => {
            !(same_device_opt(&cfg.active_device, &state.active_device) && same_tcp_list(
                &cfg.tcp_devices,
                &state.tcp_devices,
            ))
        },
        StateAction::DeviceActiveSet(d) => match &state.active_device {
            Some(x) => !same_device(d, x),
            None => true,
        },
        StateAction::DevicesAddTcp(t) => {
            match tcp_position(&state.tcp_devices, t) {
                Some(i) => {
                    proof {
                        assert(pre.tcp_devices[i as int] == t@);
                        assert(pre.tcp_devices.contains(t@));
                    }
                    false
                },
                None => {
                    proof {
                        assert(tcp_added(pre.tcp_devices, t@).len() != pre.tcp_devices.len());
                    }
                    true
                },
            }
        },
        StateAction::DevicesRemoveTcp(t) => {
            match tcp_position(&state.tcp_devices, t) {
                Some(i) => {
                    proof {
                        assert(tcp_removed(pre.tcp_devices, t@).len() != pre.tcp_devices.len());
                    }
                    true
                },
                None => false,
            }
        },
        StateAction::DeviceDiscoveringStart => match &state.device_discovering_state {
            DeviceDiscoveringState::Discovering => false,
            _ => true,
        },
        StateAction::DeviceDiscoveringFail(e) => match &state.device_discovering_state {
            DeviceDiscoveringState::Failed(e0) => !(*e0 == *e),
            _ => true,
        },
        StateAction::DeviceDiscoveringDone(ds) => match &state.device_discovering_state {
            DeviceDiscoveringState::Done => !same_device_list(ds, &state.discovered_devices),
            _ => true,
        },
        _ => false,
    }
}

/// Whether an action of the connection and channels group changes the state.
fn connection_changes(state: &State, action: &StateAction, now: Clock) -> (r: bool)
    requires
        nan_free(state@),
        action_group(*action) == 1,
        action_allowed(state@, *action),
    ensures
        r == !state_same(next_state(state@, *action, now), state@),
{
    proof {
        reveal(next_state);
    }
    let ghost pre = state@;
    match action {
        StateAction::ChannelActiveSet(k) => match state.active_channel_key {
            Some(x) => x != *k,
            None => true,
        },
        StateAction::ChannelActiveUnset => state.active_channel_key.is_some(),
        StateAction::ChannelEnsure(k, _) => {
            let known = state.channels.contains_key(k);
            proof {
                if !known {
                    assert(next_state(pre, *action, now).channels.contains_key(*k));
                }
            }
            !known
        },
        StateAction::DirectChatStart(k) => {
            let known = state.channels.contains_key(k);
            let open = match state.active_channel_key {
                Some(x) => x == *k,
                None => false,
            };
            let on_chat = match state.active_tab {
                Tab::Chat => true,
                _ => false,
            };
            proof {
                if !known {
                    assert(next_state(pre, *action, now).channels.contains_key(*k));
                }
            }
            !(known && open && on_chat && state.need_clear_frame)
        },
        StateAction::ConnectionFail(e) => match &state.connection_state {
            ConnectionState::ProblemDetected { since, error } => !(*since == now.ms && *error
                == *e),
            _ => true,
        },
        StateAction::ConnectionStart => true,
        StateAction::ConnectionStop => {
            let idle = match &state.connection_state {
                ConnectionState::NotConnected => true,
                _ => false,
            };
            let no_channels = state.channels.is_empty();
            let no_nodes = state.nodes.is_empty();
            let same = idle && state.connection_attempt == 0 && state.reconnection_backoff.is_none()
                && state.active_device.is_none() && no_channels && state.nodes_sort.len() == 0
                && no_nodes && state.online_nodes == 0;
            proof {
                let post = next_state(pre, *action, now);
                if no_channels {
                    assert(post.channels =~= pre.channels);
                } else {
                    assert(post.channels != pre.channels) by {
                        if post.channels == pre.channels {
                            assert(pre.channels.dom() =~= Set::empty());
                        }
                    }
                }
                if no_nodes {
                    assert(post.nodes.dom() =~= pre.nodes.dom());
                } else {
                    assert(post.nodes.dom() != pre.nodes.dom()) by {
                        if post.nodes.dom() == pre.nodes.dom() {
                            assert(pre.nodes.dom() =~= Set::empty());
                        }
                    }
                }
                if state.nodes_sort.len() == 0 {
                    assert(post.nodes_sort =~= pre.nodes_sort);
                }
            }
            !same
        },
        StateAction::ConnectionSuccess => {
            let connected = match &state.connection_state {
                ConnectionState::Connected => true,
                _ => false,
            };
            !(connected && state.connection_attempt == 0 && state.reconnection_backoff.is_none())
        },
        StateAction::ReconnectionBackoffSet(ms) => match state.reconnection_backoff {
            Some(x) => x != *ms,
            None => true,
        },
        StateAction::OnlineNodesSet(n) => state.online_nodes != *n,
        _ => false,
    }
}

/// Whether a reaction changes the state: the message is there, and the node's reaction with
/// the emoji is new or was seen at another time.
#[verifier::spinoff_prover]
#[verifier::rlimit(60)]
fn reaction_changes(
    state: &State,
    channel_key: u32,
    message_id: u32,
    emoji: &String,
    node_key: u32,
    now: Clock,
) -> (r: bool)
    requires
        nan_free(state@),
    ensures
        r == !state_same(
            next_state(
                state@,
                StateAction::MessageReactionAdd { channel_key, message_id, emoji: *emoji, node_key },
                now,
            ),
            state@,
        ),
{
    proof {
        reveal(next_state);
    }
    let ghost pre = state@;
    let ghost a = StateAction::MessageReactionAdd {
        channel_key,
        message_id,
        emoji: *emoji,
        node_key,
    };
    let ghost post = next_state(pre, a, now);
    match state.messages.get(&channel_key) {
        Some(list) => {
            let ghost msgs = message_list_view(*list);
            proof {
                assert(pre.messages[channel_key] == msgs);
            }
            match find_message(list, message_id) {
                Some(i) => {
                    let rs = &list[i].reactions;
                    proof {
                        assert(msgs[i as int].reactions == rs@);
                    }
                    match reaction_position(rs, emoji, node_key) {
                        Some(j) => {
                            let same_time = rs[j].at == now.utc;
                            proof {
                                let newm = post.messages[channel_key];
                                let rj = rs@[j as int];
                                assert(with_reaction(rs@, *emoji, node_key, now.utc) == rs@.update(
                                    j as int,
                                    Reaction { emoji: rj.emoji, node_key, at: now.utc },
                                ));
                                assert(rj.node_key == node_key);
                                if same_time {
                                    assert(rj.at == now.utc);
                                    assert(Reaction { emoji: rj.emoji, node_key, at: now.utc } == rj);
                                    assert(rs@.update(j as int, rj) =~= rs@);
                                    assert(MessageView { reactions: rs@, ..msgs[i as int] }
                                        == msgs[i as int]);
                                    assert(msgs.update(i as int, msgs[i as int]) =~= msgs);
                                    assert(post.messages =~= pre.messages);
                                    assert(post == pre);
                                    lemma_state_same_refl(pre);
                                } else {
                                    assert(newm[i as int].reactions[j as int].at == now.utc);
                                    assert(!reaction_same(
                                        newm[i as int].reactions[j as int],
                                        msgs[i as int].reactions[j as int],
                                    ));
                                    assert(!message_same(newm[i as int], msgs[i as int]));
                                    assert(!message_list_same(newm, msgs));
                                    assert(!messages_same(post.messages, pre.messages));
                                }
                            }
                            !same_time
                        },
                        None => {
                            proof {
                                let newm = post.messages[channel_key];
                                assert(newm[i as int].reactions.len() == rs@.len() + 1);
                                assert(!message_same(newm[i as int], msgs[i as int]));
                                assert(!message_list_same(newm, msgs));
                                assert(!messages_same(post.messages, pre.messages));
                            }
                            true
                        },
                    }
                },
                None => {
                    proof {
                        assert(post.messages =~= pre.messages);
                        assert(post == pre);
                        lemma_state_same_refl(pre);
                    }
                    false
                },
            }
        },
        None => {
            proof {
                assert(post == pre);
                lemma_state_same_refl(pre);
            }
            false
        },
    }
}

/// Whether an acknowledgement changes the state: the message is there and not yet acknowledged.
#[verifier::spinoff_prover]
#[verifier::rlimit(60)]
fn ack_changes(state: &State, channel_key: u32, message_id: u32, now: Clock) -> (r: bool)
    requires
        nan_free(state@),
    ensures
        r == !state_same(
            next_state(state@, StateAction::MessageAck(channel_key, message_id), now),
            state@,
        ),
{
    proof {
        reveal(next_state);
    }
    let ghost pre = state@;
    let ghost post = next_state(pre, StateAction::MessageAck(channel_key, message_id), now);
    match state.messages.get(&channel_key) {
        Some(list) => {
            let ghost msgs = message_list_view(*list);
            proof {
                assert(pre.messages[channel_key] == msgs);
            }
            match find_message(list, message_id) {
                Some(i) => {
                    let acked = list[i].acked;
                    proof {
                        let newm = post.messages[channel_key];
                        if acked {
                            assert(MessageView { acked: true, ..msgs[i as int] } == msgs[i as int]);
                            assert(msgs.update(i as int, msgs[i as int]) =~= msgs);
                            assert(post.messages =~= pre.messages);
                            assert(post == pre);
                            lemma_state_same_refl(pre);
                        } else {
                            assert(!message_same(newm[i as int], msgs[i as int]));
                            assert(!message_list_same(newm, msgs));
                            assert(!messages_same(post.messages, pre.messages));
                        }
                    }
                    !acked
                },
                None => {
                    proof {
                        assert(post.messages =~= pre.messages);
                        assert(post == pre);
                        lemma_state_same_refl(pre);
                    }
                    false
                },
            }
        },
        None => {
            proof {
                assert(post == pre);
                lemma_state_same_refl(pre);
            }
            false
        },
    }
}

/// Whether an action of the log and messages group changes the state.
#[verifier::spinoff_prover]
#[verifier::rlimit(60)]
fn messages_changes(state: &State, action: &StateAction, now: Clock) -> (r: bool)
    requires
        nan_free(state@),
        action_group(*action) == 2,
    ensures
        r == !state_same(next_state(state@, *action, now), state@),
{
    let ghost pre = state@;
    match action {
        StateAction::LogRecordAdd(_) => {
            proof {
                reveal(next_state);
                assert(next_state(pre, *action, now).logs.len() == pre.logs.len() + 1);
            }
            true
        },
        StateAction::MessageAdd(k, m) => {
            proof {
                reveal(next_state);
                let post = next_state(pre, *action, now);
                if pre.messages.contains_key(*k) {
                    assert(post.messages[*k].len() == pre.messages[*k].len() + 1);
                    assert(!message_list_same(post.messages[*k], pre.messages[*k]));
                } else {
                    assert(post.messages.contains_key(*k));
                }
                assert(!messages_same(post.messages, pre.messages));
            }
            true
        },
        StateAction::MessageReactionAdd { channel_key, message_id, emoji, node_key } => {
            reaction_changes(state, *channel_key, *message_id, emoji, *node_key, now)
        },
        StateAction::MessageAck(channel_key, message_id) => {
            ack_changes(state, *channel_key, *message_id, now)
        },
        _ => false,
    }
}

/// Whether marking the local node changes the state: its key is new, or its node is known and
/// not yet marked.
#[verifier::spinoff_prover]
#[verifier::rlimit(60)]
fn my_node_changes(state: &State, k: u32, now: Clock) -> (r: bool)
    requires
        nan_free(state@),
    ensures
        r == !state_same(next_state(state@, StateAction::MyNodeKeySet(k), now), state@),
{
    proof {
        reveal(next_state);
    }
    let ghost pre = state@;
    let ghost post = next_state(pre, StateAction::MyNodeKeySet(k), now);
    let same_key = match state.my_node_key {
        Some(x) => x == k,
        None => false,
    };
    let marked = match state.nodes.get(&k) {
        Some(n) => n.my,
        None => true,
    };
    proof {
        if same_key && marked {
            if pre.nodes.contains_key(k) {
                assert(Node { my: true, ..pre.nodes[k] } == pre.nodes[k]);
                assert(pre.nodes.insert(k, pre.nodes[k]) =~= pre.nodes);
            }
            assert(post == pre);
            lemma_state_same_refl(pre);
        } else if same_key {
            assert(!node_same(post.nodes[k], pre.nodes[k]));
            assert(!nodes_same(post.nodes, pre.nodes));
        }
    }
    !(same_key && marked)
}

/// Whether adding a node changes the nodes: its key is new, or the node held under it differs
/// from the node as added.
#[verifier::spinoff_prover]
#[verifier::rlimit(60)]
fn node_add_changes(state: &State, n: &Node, now: Clock) -> (r: bool)
    requires
        nan_free(state@),
    ensures
        r == !state_same(next_state(state@, StateAction::NodeAdd(*n), now), state@),
{
    proof {
        reveal(next_state);
    }
    let ghost pre = state@;
    let ghost post = next_state(pre, StateAction::NodeAdd(*n), now);
    let ghost added = node_as_added(*n, pre.my_node_key);
    let mine = match state.my_node_key {
        Some(x) => x == n.key || n.my,
        None => n.my,
    };
    proof {
        assert(added.my == mine);
        assert(post.nodes == pre.nodes.insert(n.key, added));
    }
    match state.nodes.get(&n.key) {
        Some(o) => {
            let same = o.id == n.id && o.key == n.key && o.short_name == n.short_name && o.long_name
                == n.long_name && o.hops_away == n.hops_away && o.last_heard == n.last_heard && float_same(
                o.snr,
                n.snr,
            ) && o.role == n.role && o.hw_model == n.hw_model && o.my == mine;
            proof {
                assert(same == node_same(added, pre.nodes[n.key]));
                if same {
                    assert(post.nodes.dom() =~= pre.nodes.dom());
                    assert(nodes_same(post.nodes, pre.nodes));
                    lemma_state_same_refl(pre);
                    assert(state_same(post, pre));
                } else {
                    assert(!node_same(post.nodes[n.key], pre.nodes[n.key]));
                    assert(!nodes_same(post.nodes, pre.nodes));
                }
            }
            !same
        },
        None => {
            proof {
                assert(post.nodes.contains_key(n.key));
                assert(post.nodes.dom() != pre.nodes.dom());
            }
            true
        },
    }
}

/// Whether a node's reception changes the nodes: the node is known and was last heard at
/// another time, hop count or signal-to-noise ratio.
#[verifier::spinoff_prover]
#[verifier::rlimit(60)]
fn last_heard_changes(state: &State, node_key: u32, hops: u32, snr: u32, now: Clock) -> (r: bool)
    requires
        nan_free(state@),
    ensures
        r == !state_same(
            next_state(state@, StateAction::NodeUpdateLastHeard { node_key, hops, snr }, now),
            state@,
        ),
{
    proof {
        reveal(next_state);
    }
    let ghost pre = state@;
    let ghost post = next_state(pre, StateAction::NodeUpdateLastHeard { node_key, hops, snr }, now);
    match state.nodes.get(&node_key) {
        Some(o) => {
            let same = o.last_heard == Some(now.utc) && o.hops_away == Some(hops) && float_same(
                o.snr,
                snr,
            );
            proof {
                let on = pre.nodes[node_key];
                if same {
                    assert(node_same(post.nodes[node_key], on));
                    assert(post.nodes.dom() =~= pre.nodes.dom());
                    assert(nodes_same(post.nodes, pre.nodes));
                    lemma_state_same_refl(pre);
                    assert(state_same(post, pre));
                } else {
                    assert(!node_same(post.nodes[node_key], on));
                    assert(!nodes_same(post.nodes, pre.nodes));
                }
            }
            !same
        },
        None => {
            proof {
                assert(post == pre);
                lemma_state_same_refl(pre);
            }
            false
        },
    }
}

/// Whether an action of the nodes group changes the state, the order of the node list aside.
#[verifier::spinoff_prover]
#[verifier::rlimit(60)]
fn nodes_changes(state: &State, action: &StateAction, now: Clock) -> (r: bool)
    requires
        nan_free(state@),
        action_group(*action) == 3,
    ensures
        r == !state_same(next_state(state@, *action, now), state@),
{
    match action {
        StateAction::MyNodeKeySet(k) => my_node_changes(state, *k, now),
        StateAction::NodeAdd(n) => node_add_changes(state, n, now),
        StateAction::NodeUpdateLastHeard { node_key, hops, snr } => {
            last_heard_changes(state, *node_key, *hops, *snr, now)
        },
        StateAction::NodesSortBySet(by) => {
            proof {
                reveal(next_state);
            }
            *by != state.nodes_sort_by
        },
        _ => false,
    }
}

/// Whether an action of the screen group changes the state.
#[verifier::spinoff_prover]
#[verifier::rlimit(60)]
fn screen_changes(state: &State, action: &StateAction, now: Clock) -> (r: bool)
    requires
        nan_free(state@),
        action_group(*action) == 4,
    ensures
        r == !state_same(next_state(state@, *action, now), state@),
{
    proof {
        reveal(next_state);
    }
    let ghost pre = state@;
    match action {
        StateAction::RxTrigger => !(state.rx_t == now.ms && state.rx),
        StateAction::TabSwitchTo(t) => !(*t == state.active_tab && state.need_clear_frame),
        StateAction::TabSwitchToNext => {
            proof {
                assert(Tab::at((pre.active_tab.index() + 1) % 5) != pre.active_tab);
            }
            true
        },
        StateAction::TabSwitchToPrevious => {
            proof {
                assert(Tab::at((pre.active_tab.index() + 4) % 5) != pre.active_tab);
            }
            true
        },
        StateAction::FrameCleared => state.need_clear_frame,
        StateAction::Toast(_) => {
            proof {
                assert(next_state(pre, *action, now).toast_queue.len() == pre.toast_queue.len() + 1);
            }
            true
        },
        _ => false,
    }
}

fn same_form_state(a: &SettingsFormState, b: &SettingsFormState) -> (r: bool)
    ensures
        r == form_state_same(*a, *b),
{
    match (a, b) {
        (SettingsFormState::Inactive, SettingsFormState::Inactive) => true,
        (SettingsFormState::Loading { id: x }, SettingsFormState::Loading { id: y }) => *x == *y,
        (
            SettingsFormState::LoadingFailed { id: x, error: e },
            SettingsFormState::LoadingFailed { id: y, error: f },
        ) => *x == *y && *e == *f,
        (SettingsFormState::Loaded { id: x }, SettingsFormState::Loaded { id: y }) => *x == *y,
        (SettingsFormState::Saving { id: x }, SettingsFormState::Saving { id: y }) => *x == *y,
        (
            SettingsFormState::SavingFailed { id: x, error: e },
            SettingsFormState::SavingFailed { id: y, error: f },
        ) => *x == *y && *e == *f,
        (SettingsFormState::Saved { id: x }, SettingsFormState::Saved { id: y }) => *x == *y,
        _ => false,
    }
}

/// Whether setting a form value changes the state: a form is open, and its field with the key
/// is new or held another value.
#[verifier::spinoff_prover]
#[verifier::rlimit(60)]
fn value_set_changes(state: &State, key: &String, value: &FormValue, now: Clock) -> (r: bool)
    requires
        nan_free(state@),
    ensures
        r == !state_same(
            next_state(state@, StateAction::SettingsFormValueSet { key: *key, value: *value }, now),
            state@,
        ),
{
    proof {
        reveal(next_state);
    }
    let ghost pre = state@;
    let ghost post = next_state(
        pre,
        StateAction::SettingsFormValueSet { key: *key, value: *value },
        now,
    );
    match &state.settings_form_data {
        Some(fs) => match field_position(fs, key) {
            Some(i) => {
                let same = same_value(value, &fs[i].value);
                proof {
                    let nf = post.settings_form_data->0;
                    assert(nf[i as int] == FormField { key: fs@[i as int].key, value: *value });
                    if same {
                        assert(fields_same(nf, fs@));
                        lemma_state_same_refl(pre);
                    } else {
                        assert(!field_same(nf[i as int], fs@[i as int]));
                        assert(!fields_same(nf, fs@));
                    }
                }
                !same
            },
            None => {
                proof {
                    assert(post.settings_form_data->0.len() == fs@.len() + 1);
                }
                true
            },
        },
        None => {
            proof {
                assert(post == pre);
                lemma_state_same_refl(pre);
            }
            false
        },
    }
}

/// Whether an action of the settings form group changes the state.
#[verifier::spinoff_prover]
#[verifier::rlimit(60)]
fn settings_changes(state: &State, action: &StateAction, now: Clock) -> (r: bool)
    requires
        nan_free(state@),
        action_group(*action) == 5,
    ensures
        r == !state_same(next_state(state@, *action, now), state@),
{
    proof {
        reveal(next_state);
    }
    let ghost pre = state@;
    match action {
        StateAction::SettingsFormLoadingStart { id } => {
            !same_form_state(&SettingsFormState::Loading { id: *id }, &state.settings_form_state)
        },
        StateAction::SettingsFormLoadingFail { id, error } => {
            let target = SettingsFormState::LoadingFailed { id: *id, error: error.clone() };
            !same_form_state(&target, &state.settings_form_state)
        },
        StateAction::SettingsFormLoadingDone { id, data } => {
            let loaded = same_form_state(&SettingsFormState::Loaded { id: *id }, &state.settings_form_state);
            let same_data = match &state.settings_form_data {
                Some(fs) => same_fields(data, fs),
                None => false,
            };
            !(loaded && same_data)
        },
        StateAction::SettingsFormSavingStart { id } => {
            !same_form_state(&SettingsFormState::Saving { id: *id }, &state.settings_form_state)
        },
        StateAction::SettingsFormSavingFail { id, error } => {
            let target = SettingsFormState::SavingFailed { id: *id, error: error.clone() };
            !same_form_state(&target, &state.settings_form_state)
        },
        StateAction::SettingsFormSavingDone { id } => {
            !same_form_state(&SettingsFormState::Saved { id: *id }, &state.settings_form_state)
        },
        StateAction::SettingsFormClose => {
            let inactive = same_form_state(&SettingsFormState::Inactive, &state.settings_form_state);
            !(inactive && state.settings_form_data.is_none())
        },
        StateAction::SettingsFormValueSet { key, value } => value_set_changes(state, key, value, now),
        _ => false,
    }
}

/// Whether an action changes the state, the order of the node list aside: what `handle_action`
/// publishes, together with a change of that order.
pub(crate) fn changes(state: &State, action: &StateAction, now: Clock) -> (r: bool)
    requires
        action_allowed(state@, *action),
    ensures
        r == !state_same(next_state(state@, *action, now), state@),
{
    if has_nan(state) {
        proof {
            if state_same(next_state(state@, *action, now), state@) {
                lemma_same_is_nan_free(next_state(state@, *action, now), state@);
            }
        }
        return true;
    }
    let g = group_of(action);
    if g == 0 {
        devices_changes(state, action, now)
    } else if g == 1 {
        connection_changes(state, action, now)
    } else if g == 2 {
        messages_changes(state, action, now)
    } else if g == 3 {
        nodes_changes(state, action, now)
    } else if g == 4 {
        screen_changes(state, action, now)
    } else {
        settings_changes(state, action, now)
    }
}

} // verus!

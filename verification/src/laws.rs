use vstd::prelude::*;

use crate::chat::{message_index, Message, MessageView};
use crate::device::{TcpAddr, TcpAddrView};
use crate::state::{Clock, StateView};
use crate::store::{
    elapsed, handled, message_acked, next_state, resorts, tcp_added, tcp_index, tcp_removed, tick_state,
    StateAction, RX_TIMEOUT_MILLIS,
};
use crate::types::{Channel, Node};

verus! {

spec fn first_tcp_from(s: Seq<TcpAddrView>, a: TcpAddrView, i: int) -> int
    decreases s.len() - i,
{
    if i >= s.len() || i < 0 {
        i
    } else if s[i] == a {
        i
    } else {
        first_tcp_from(s, a, i + 1)
    }
}

proof fn lemma_first_tcp_from(s: Seq<TcpAddrView>, a: TcpAddrView, i: int, k: int)
    requires
        0 <= i <= k < s.len(),
        s[k] == a,
    ensures
        i <= first_tcp_from(s, a, i) <= k,
        s[first_tcp_from(s, a, i)] == a,
        forall|j: int| i <= j < first_tcp_from(s, a, i) ==> s[j] != a,
    decreases s.len() - i,
{
    if s[i] != a {
        lemma_first_tcp_from(s, a, i + 1, k);
    }
}

/// A listed address has a first position.
proof fn lemma_tcp_index_some(s: Seq<TcpAddrView>, a: TcpAddrView, k: int)
    requires
        0 <= k < s.len(),
        s[k] == a,
    ensures
        tcp_index(s, a) is Some,
        0 <= tcp_index(s, a)->0 < s.len(),
        s[tcp_index(s, a)->0] == a,
{
    lemma_first_tcp_from(s, a, 0, k);
    let r = first_tcp_from(s, a, 0);
    assert(0 <= r < s.len() && s[r] == a && (forall|j: int| 0 <= j < r ==> s[j] != a));
}

spec fn first_message_from(s: Seq<MessageView>, id: u32, i: int) -> int
    decreases s.len() - i,
{
    if i >= s.len() || i < 0 {
        i
    } else if s[i].id == id {
        i
    } else {
        first_message_from(s, id, i + 1)
    }
}

proof fn lemma_first_message_from(s: Seq<MessageView>, id: u32, i: int, k: int)
    requires
        0 <= i <= k < s.len(),
        s[k].id == id,
    ensures
        i <= first_message_from(s, id, i) <= k,
        s[first_message_from(s, id, i)].id == id,
        forall|j: int| i <= j < first_message_from(s, id, i) ==> s[j].id != id,
    decreases s.len() - i,
{
    if s[i].id != id {
        lemma_first_message_from(s, id, i + 1, k);
    }
}

/// A message with the id has a first position, the one before which no message has the id.
proof fn lemma_message_index_some(s: Seq<MessageView>, id: u32, k: int)
    requires
        0 <= k < s.len(),
        s[k].id == id,
    ensures
        message_index(s, id) is Some,
        0 <= message_index(s, id)->0 < s.len(),
        s[message_index(s, id)->0].id == id,
        forall|j: int| 0 <= j < message_index(s, id)->0 ==> s[j].id != id,
{
    lemma_first_message_from(s, id, 0, k);
    let r = first_message_from(s, id, 0);
    assert(0 <= r < s.len() && s[r].id == id && (forall|j: int| 0 <= j < r ==> s[j].id != id));
}

proof fn lemma_tab_next(pre: StateView, now: Clock)
    ensures
        next_state(pre, StateAction::TabSwitchToNext, now).active_tab.index() == (
        pre.active_tab.index() + 1) % 5,
{
    reveal(next_state);
}

proof fn lemma_tab_prev(pre: StateView, now: Clock)
    ensures
        next_state(pre, StateAction::TabSwitchToPrevious, now).active_tab.index() == (
        pre.active_tab.index() + 4) % 5,
{
    reveal(next_state);
}

/// Moving to the next tab and then to the previous one returns to the tab shown before.
pub proof fn law_next_then_previous_tab(pre: StateView, now: Clock)
    ensures
        next_state(
            next_state(pre, StateAction::TabSwitchToNext, now),
            StateAction::TabSwitchToPrevious,
            now,
        ).active_tab == pre.active_tab,
        next_state(
            next_state(pre, StateAction::TabSwitchToPrevious, now),
            StateAction::TabSwitchToNext,
            now,
        ).active_tab == pre.active_tab,
{
    let a = next_state(pre, StateAction::TabSwitchToNext, now);
    let b = next_state(pre, StateAction::TabSwitchToPrevious, now);
    lemma_tab_next(pre, now);
    lemma_tab_prev(a, now);
    lemma_tab_prev(pre, now);
    lemma_tab_next(b, now);
}

/// Five moves to the next tab return to the tab shown before.
pub proof fn law_tabs_cycle(pre: StateView, now: Clock)
    ensures
        ({
            let n = StateAction::TabSwitchToNext;
            next_state(
                next_state(
                    next_state(next_state(next_state(pre, n, now), n, now), n, now),
                    n,
                    now,
                ),
                n,
                now,
            ).active_tab == pre.active_tab
        }),
{
    let n = StateAction::TabSwitchToNext;
    let s1 = next_state(pre, n, now);
    let s2 = next_state(s1, n, now);
    let s3 = next_state(s2, n, now);
    let s4 = next_state(s3, n, now);
    lemma_tab_next(pre, now);
    lemma_tab_next(s1, now);
    lemma_tab_next(s2, now);
    lemma_tab_next(s3, now);
    lemma_tab_next(s4, now);
}

/// Adding a TCP device that is already listed leaves the list as it is; adding one twice
/// gives the list that adding it once gives.
#[verifier::spinoff_prover]
pub proof fn law_add_tcp_idempotent(pre: StateView, t: TcpAddr, now: Clock)
    ensures
        pre.tcp_devices.contains(t@) ==> next_state(pre, StateAction::DevicesAddTcp(t), now)
            == pre,
        next_state(
            next_state(pre, StateAction::DevicesAddTcp(t), now),
            StateAction::DevicesAddTcp(t),
            now,
        ) == next_state(pre, StateAction::DevicesAddTcp(t), now),
{
    reveal(next_state);
    let once = next_state(pre, StateAction::DevicesAddTcp(t), now);
    if !pre.tcp_devices.contains(t@) {
        assert(once.tcp_devices[pre.tcp_devices.len() as int] == t@);
    }
}

proof fn lemma_add_tcp_state(pre: StateView, t: TcpAddr, now: Clock)
    ensures
        next_state(pre, StateAction::DevicesAddTcp(t), now) == (StateView {
            tcp_devices: tcp_added(pre.tcp_devices, t@),
            ..pre
        }),
{
    reveal(next_state);
}

proof fn lemma_remove_tcp_state(pre: StateView, t: TcpAddr, now: Clock)
    ensures
        next_state(pre, StateAction::DevicesRemoveTcp(t), now) == (StateView {
            tcp_devices: tcp_removed(pre.tcp_devices, t@),
            ..pre
        }),
{
    reveal(next_state);
}

/// Adding a TCP device that was not listed and then removing it restores the list.
pub proof fn law_add_then_remove_tcp(pre: StateView, t: TcpAddr, now: Clock)
    requires
        !pre.tcp_devices.contains(t@),
    ensures
        next_state(
            next_state(pre, StateAction::DevicesAddTcp(t), now),
            StateAction::DevicesRemoveTcp(t),
            now,
        ) == pre,
{
    lemma_add_tcp_state(pre, t, now);
    let added = next_state(pre, StateAction::DevicesAddTcp(t), now);
    lemma_remove_tcp_state(added, t, now);
    let n = pre.tcp_devices.len() as int;
    assert(added.tcp_devices == pre.tcp_devices.push(t@));
    assert(added.tcp_devices[n] == t@);
    let i = tcp_index(added.tcp_devices, t@)->0;
    if i < n {
        assert(pre.tcp_devices[i] == t@);
    }
    assert(added.tcp_devices.remove(n) =~= pre.tcp_devices);
}

proof fn lemma_remove_tcp_effect(pre: StateView, t: TcpAddr, now: Clock)
    ensures
        next_state(pre, StateAction::DevicesRemoveTcp(t), now).tcp_devices == match tcp_index(
            pre.tcp_devices,
            t@,
        ) {
            Some(i) => pre.tcp_devices.remove(i),
            None => pre.tcp_devices,
        },
{
    reveal(next_state);
}

/// Removing a listed TCP device shortens the list by one; where the list held no address
/// twice, the address is no longer listed.
pub proof fn law_remove_tcp(pre: StateView, t: TcpAddr, now: Clock)
    requires
        pre.tcp_devices.contains(t@),
    ensures
        next_state(pre, StateAction::DevicesRemoveTcp(t), now).tcp_devices.len()
            == pre.tcp_devices.len() - 1,
        pre.tcp_devices.no_duplicates() ==> !next_state(
            pre,
            StateAction::DevicesRemoveTcp(t),
            now,
        ).tcp_devices.contains(t@),
{
    let s = pre.tcp_devices;
    let w = choose|i: int| 0 <= i < s.len() && s[i] == t@;
    lemma_tcp_index_some(s, t@, w);
    let i = tcp_index(s, t@)->0;
    let after = s.remove(i);
    lemma_remove_tcp_effect(pre, t, now);
    if s.no_duplicates() && after.contains(t@) {
        let m = choose|m: int| 0 <= m < after.len() && after[m] == t@;
        if m < i {
            assert(s[m] == t@);
        } else {
            assert(s[m + 1] == t@);
        }
    }
}

/// A channel already known is never replaced by an ensure.
#[verifier::spinoff_prover]
pub proof fn law_channel_ensure_keeps_existing(pre: StateView, k: u32, ch: Channel, now: Clock)
    ensures
        pre.channels.contains_key(k) ==> next_state(pre, StateAction::ChannelEnsure(k, ch), now)
            == pre,
        !pre.channels.contains_key(k) ==> next_state(
            pre,
            StateAction::ChannelEnsure(k, ch),
            now,
        ).channels[k] == ch@,
{
    reveal(next_state);
}

/// Stopping the connection forgets the device, the channels and the nodes, and leaves the
/// connection idle with no attempt counted.
#[verifier::spinoff_prover]
pub proof fn law_connection_stop_resets(pre: StateView, now: Clock)
    ensures
        ({
            let post = next_state(pre, StateAction::ConnectionStop, now);
            &&& post.connection_state is NotConnected
            &&& post.connection_attempt == 0
            &&& post.reconnection_backoff is None
            &&& post.active_device is None
            &&& post.channels.dom().len() == 0
            &&& post.nodes.dom().len() == 0
            &&& post.nodes_sort.len() == 0
            &&& post.online_nodes == 0
            &&& post.wf()
        }),
{
    reveal(next_state);
    let post = next_state(pre, StateAction::ConnectionStop, now);
    assert(post.nodes_sort.to_set() =~= post.nodes.dom());
}

/// Each connection start counts one more attempt; a success resets the count.
#[verifier::spinoff_prover]
pub proof fn law_connection_attempts(pre: StateView, now: Clock)
    requires
        pre.connection_attempt < u16::MAX,
    ensures
        next_state(pre, StateAction::ConnectionStart, now).connection_attempt
            == pre.connection_attempt + 1,
        next_state(
            next_state(pre, StateAction::ConnectionStart, now),
            StateAction::ConnectionSuccess,
            now,
        ).connection_attempt == 0,
{
    reveal(next_state);
}

/// A message added to a channel is its last message; the messages before it, and all other
/// channels, are unchanged.
#[verifier::spinoff_prover]
pub proof fn law_message_add_appends(pre: StateView, k: u32, m: Message, other: u32, now: Clock)
    ensures
        ({
            let post = next_state(pre, StateAction::MessageAdd(k, m), now);
            &&& post.messages.contains_key(k)
            &&& post.messages[k].last() == m@
            &&& pre.messages.contains_key(k) ==> post.messages[k].drop_last() == pre.messages[k]
            &&& other != k ==> post.messages.contains_key(other) == pre.messages.contains_key(
                other,
            )
            &&& other != k && pre.messages.contains_key(other) ==> post.messages[other]
                == pre.messages[other]
        }),
{
    reveal(next_state);
    let post = next_state(pre, StateAction::MessageAdd(k, m), now);
    if pre.messages.contains_key(k) {
        assert(post.messages[k].drop_last() =~= pre.messages[k]);
    }
}

/// Acknowledging a message twice has the effect of acknowledging it once.
#[verifier::spinoff_prover]
pub proof fn law_message_ack_idempotent(pre: StateView, k: u32, id: u32, now: Clock)
    ensures
        next_state(
            next_state(pre, StateAction::MessageAck(k, id), now),
            StateAction::MessageAck(k, id),
            now,
        ) == next_state(pre, StateAction::MessageAck(k, id), now),
{
    let once = next_state(pre, StateAction::MessageAck(k, id), now);
    let twice = next_state(once, StateAction::MessageAck(k, id), now);
    assert(once == (StateView {
        messages: if pre.messages.contains_key(k) {
            pre.messages.insert(k, message_acked(pre.messages[k], id))
        } else {
            pre.messages
        },
        ..pre
    })) by {
        reveal(next_state);
    }
    assert(twice == (StateView {
        messages: if once.messages.contains_key(k) {
            once.messages.insert(k, message_acked(once.messages[k], id))
        } else {
            once.messages
        },
        ..once
    })) by {
        reveal(next_state);
    }
    if pre.messages.contains_key(k) {
        let msgs = pre.messages[k];
        let acked = message_acked(msgs, id);
        if message_index(msgs, id) is Some {
            let w = choose|i: int| 0 <= i < msgs.len() && msgs[i].id == id;
            lemma_message_index_some(msgs, id, w);
            let i = message_index(msgs, id)->0;
            assert(acked[i].id == id);
            lemma_message_index_some(acked, id, i);
            let j = message_index(acked, id)->0;
            if j < i {
                assert(msgs[j].id == acked[j].id);
            }
            if i < j {
                assert(acked[i].id == id);
            }
            assert(message_acked(acked, id) =~= acked);
        }
        assert(once.messages.insert(k, message_acked(once.messages[k], id)) =~= once.messages);
    }
}

/// A node added while its key is the local node's key is marked as the local node.
#[verifier::spinoff_prover]
pub proof fn law_node_add_marks_local(pre: StateView, n: Node, now: Clock)
    requires
        pre.my_node_key == Some(n.key),
    ensures
        next_state(pre, StateAction::NodeAdd(n), now).nodes[n.key].my,
{
    reveal(next_state);
}

/// The receive indicator goes out once its timeout has passed, and not before.
pub proof fn law_rx_indicator(pre: StateView, now: u64)
    requires
        pre.rx,
    ensures
        elapsed(pre.rx_t, now) > RX_TIMEOUT_MILLIS ==> !tick_state(pre, now).rx,
        elapsed(pre.rx_t, now) <= RX_TIMEOUT_MILLIS ==> tick_state(pre, now).rx,
{
}

/// Queued toasts are shown in the order they were queued: a tick with no toast on screen
/// shows the first queued toast and leaves the rest queued in order.
pub proof fn law_toasts_in_order(pre: StateView, now: u64)
    requires
        pre.toast is None,
        pre.toast_queue.len() > 0,
    ensures
        tick_state(pre, now).toast == Some(pre.toast_queue[0]),
        tick_state(pre, now).toast_queue == pre.toast_queue.drop_first(),
        tick_state(pre, now).toast_t == now,
{
}

/// A toast on screen stays until its kind's timeout has passed; until then no queued toast
/// replaces it.
pub proof fn law_toast_stays_until_timeout(pre: StateView, now: u64)
    requires
        pre.toast is Some,
        elapsed(pre.toast_t, now) <= pre.toast->0.kind.spec_timeout(),
    ensures
        tick_state(pre, now).toast == pre.toast,
        tick_state(pre, now).toast_queue == pre.toast_queue,
{
}


/// Every action the store accepts keeps the node list a listing of the known nodes' keys, each
/// once: here for the actions that leave the list's order alone (`handle_action` states it for
/// those that reorder the list).
#[verifier::spinoff_prover]
pub proof fn law_node_listing_kept(pre: StateView, a: StateAction, now: Clock)
    requires
        pre.wf(),
        !resorts(pre, a),
    ensures
        next_state(pre, a, now).wf(),
{
    reveal(next_state);
    let post = next_state(pre, a, now);
    match a {
        StateAction::ConnectionStop => {
            assert(post.nodes_sort.to_set() =~= post.nodes.dom());
        },
        StateAction::MyNodeKeySet(k) => {
            assert(post.nodes.dom() =~= pre.nodes.dom());
        },
        StateAction::NodeUpdateLastHeard { node_key, .. } => {
            assert(post.nodes.dom() =~= pre.nodes.dom());
        },
        _ => {},
    }
}

/// Whatever action the store handles, the node list afterwards lists each known node's key
/// exactly once, and no key of a node that is gone.
pub proof fn law_node_listing_permutation(pre: StateView, a: StateAction, now: Clock, post: StateView)
    requires
        pre.wf(),
        handled(pre, a, now, post),
    ensures
        post.wf(),
        post.nodes_sort.to_set() == post.nodes.dom(),
        post.nodes_sort.no_duplicates(),
{
    if !resorts(pre, a) {
        law_node_listing_kept(pre, a, now);
    }
}

} // verus!

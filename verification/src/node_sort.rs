use std::collections::HashMap;

use itertools::Itertools;
use vstd::prelude::*;
use vstd::std_specs::iter::IteratorSpec;

use crate::order::Order;
use crate::types::{
    compare_nodes, lemma_node_order_flip, lemma_node_order_transitive, node_le, node_order, Node,
    NodesSortBy,
};

verus! {

broadcast use vstd::std_specs::hash::group_hash_axioms;

/// The node order under a sort key is a total preorder on all nodes.
pub open spec fn node_order_is_total(by: NodesSortBy) -> bool {
    &&& forall|a: Node, b: Node| #[trigger]
        node_order(b, a, by) == node_order(a, b, by).flip()
    &&& forall|a: Node, b: Node, c: Node|
        #![trigger node_le(a, b, by), node_le(b, c, by)]
        node_le(a, b, by) && node_le(b, c, by) ==> node_le(a, c, by)
}

/// Under every sort key, the node order is a total preorder.
pub proof fn lemma_node_order_is_total(by: NodesSortBy)
    ensures
        node_order_is_total(by),
{
    assert forall|a: Node, b: Node| #[trigger]
        node_order(b, a, by) == node_order(a, b, by).flip() by {
        lemma_node_order_flip(a, b, by);
    }
    assert forall|a: Node, b: Node, c: Node|
        node_le(a, b, by) && node_le(b, c, by) implies node_le(a, c, by) by {
        lemma_node_order_transitive(a, b, c, by);
    }
}

/// The standard ordering value that a three-way comparison result stands for.
pub open spec fn std_ordering(o: Order) -> std::cmp::Ordering {
    match o {
        Order::Less => std::cmp::Ordering::Less,
        Order::Equal => std::cmp::Ordering::Equal,
        Order::Greater => std::cmp::Ordering::Greater,
    }
}

/// Compares the nodes that two keys name; keys missing from the map compare equal.
pub fn node_key_ordering(nodes: &HashMap<u32, Node>, a: u32, b: u32, by: NodesSortBy) -> (r:
    std::cmp::Ordering)
    ensures
        nodes@.contains_key(a) && nodes@.contains_key(b) ==> r == std_ordering(
            node_order(nodes@[a], nodes@[b], by),
        ),
{
    match (nodes.get(&a), nodes.get(&b)) {
        (Some(x), Some(y)) => match compare_nodes(x, y, by) {
            Order::Less => std::cmp::Ordering::Less,
            Order::Equal => std::cmp::Ordering::Equal,
            Order::Greater => std::cmp::Ordering::Greater,
        },
        _ => std::cmp::Ordering::Equal,
    }
}

/// Sorts node keys with `Itertools::sorted_by`, comparing the nodes they name.
/// The contract is what `sorted_by` (a stable `slice::sort_by`) gives for a comparator
/// that is a total order: the same keys, in non-decreasing order of their nodes.
#[verifier::external_body]
fn sorted_by_node_order(keys: Vec<u32>, nodes: &HashMap<u32, Node>, by: NodesSortBy) -> (r: Vec<
    u32,
>)
    requires
        node_order_is_total(by),
        forall|i: int| 0 <= i < keys.len() ==> nodes@.contains_key(#[trigger] keys[i]),
    ensures
        r@.to_multiset() == keys@.to_multiset(),
        forall|i: int, j: int|
            0 <= i < j < r.len() ==> node_le(nodes@[#[trigger] r[i]], nodes@[#[trigger] r[j]], by),
{
    keys.into_iter().sorted_by(|a, b| node_key_ordering(nodes, *a, *b, by)).collect()
}

/// The keys of the node map, each once, in the order of the node list under a sort key.
pub open spec fn is_sorted_node_listing(keys: Seq<u32>, nodes: Map<u32, Node>, by: NodesSortBy) -> bool {
    &&& keys.no_duplicates()
    &&& keys.to_set() == nodes.dom()
    &&& forall|i: int, j: int|
        0 <= i < j < keys.len() ==> node_le(nodes[#[trigger] keys[i]], nodes[#[trigger] keys[j]], by)
}

/// Lists the keys of the node map in the order of the node list: the local node first,
/// the others by the sort key.
pub fn sorted_node_keys(nodes: &HashMap<u32, Node>, by: NodesSortBy) -> (r: Vec<u32>)
    ensures
        is_sorted_node_listing(r@, nodes@, by),
{
    let mut keys: Vec<u32> = Vec::new();
    let iter = nodes.keys();
    let ghost r = vstd::std_specs::hash::spec_keys_iter(nodes).remaining();
    for k in it: iter
        invariant
            keys.len() == it.index(),
            it.seq() == r,
            forall|i: int| 0 <= i < it.index() ==> keys[i] == *it.seq()[i],
    {
        keys.push(*k);
    }
    assert(keys@ =~= r.unref());
    proof {
        lemma_node_order_is_total(by);
    }
    let sorted = sorted_by_node_order(keys, nodes, by);
    proof {
        keys@.lemma_multiset_has_no_duplicates();
        assert forall|x: u32| sorted@.to_multiset().contains(x) implies sorted@.to_multiset().count(x) == 1 by {
            assert(keys@.to_multiset().contains(x));
        }
        sorted@.lemma_multiset_has_no_duplicates_conv();
        assert forall|x: u32| sorted@.to_set().contains(x) <==> keys@.to_set().contains(x) by {
            broadcast use vstd::seq_lib::group_to_multiset_ensures;
            assert(sorted@.contains(x) <==> sorted@.to_multiset().count(x) > 0);
            assert(keys@.contains(x) <==> keys@.to_multiset().count(x) > 0);
        }
        assert(sorted@.to_set() =~= nodes@.dom());
    }
    sorted
}

} // verus!

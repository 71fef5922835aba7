//! The switch state of each node and the events that a change of it gives.
use vstd::prelude::*;

use bitvec::array::BitArray;
use bitvec::order::Lsb0;
use std::collections::HashMap;

use crate::{NodeSwitchEvent, SwitchEventKind};

verus! {

broadcast use vstd::std_specs::hash::group_hash_axioms;

/// Bit `i` of a snapshot: bit `i % 8` of byte `i / 8`, counted from the
/// least significant bit. A set bit means that the switch is open.
pub open spec fn bit_set(bits: Seq<u8>, i: int) -> bool {
    &&& 0 <= i < 8 * bits.len()
    &&& (bits[i / 8] >> ((i % 8) as u8)) & 1u8 == 1u8
}

/// The indices of the set bits of a snapshot of 64 switches, in
/// increasing order.
pub open spec fn set_bits(bits: Seq<u8>) -> Seq<int> {
    Seq::new(64, |i: int| i).filter(|i: int| bit_set(bits, i))
}

/// The switches whose bit differs between two snapshots, in increasing order.
pub open spec fn changed_switches(before: Seq<u8>, after: Seq<u8>) -> Seq<int> {
    Seq::new(64, |i: int| i).filter(|i: int| bit_set(before, i) != bit_set(after, i))
}

/// The state that a bit of a snapshot stands for.
pub open spec fn kind_of(bit: bool) -> SwitchEventKind {
    if bit {
        SwitchEventKind::Open
    } else {
        SwitchEventKind::Close
    }
}

/// The events of a node whose snapshot goes from `before` to `after`: one
/// for each switch that changed, in increasing order of switch, with the
/// switch's new state.
pub open spec fn switch_events(node: u8, before: Seq<u8>, after: Seq<u8>) -> Seq<NodeSwitchEvent> {
    changed_switches(before, after).map_values(
        |i: int| NodeSwitchEvent { node, switch: i as u8, kind: kind_of(bit_set(after, i)) },
    )
}

/// A snapshot that did not change gives no event.
pub proof fn lemma_unchanged_snapshot_no_events(node: u8, bits: Seq<u8>)
    ensures
        switch_events(node, bits, bits).len() == 0,
{
    broadcast use vstd::seq_lib::group_filter_ensures;

    let c = changed_switches(bits, bits);
    if c.len() > 0 {
        let x: int = c[0];
        assert(false);
    }
}

/// A switch is reported exactly when its bit changed, and each event
/// carries its node and the switch's new state.
pub proof fn lemma_events_match_changes(node: u8, before: Seq<u8>, after: Seq<u8>)
    requires
        before.len() == 8,
        after.len() == 8,
    ensures
        forall|i: int|
            0 <= i < 64 ==> (bit_set(before, i) != bit_set(after, i) <==> exists|k: int|
                0 <= k < switch_events(node, before, after).len() && #[trigger] switch_events(
                    node,
                    before,
                    after,
                )[k].switch == i),
        forall|k: int|
            0 <= k < switch_events(node, before, after).len() ==> {
                let e = #[trigger] switch_events(node, before, after)[k];
                &&& e.node == node
                &&& e.switch < 64
                &&& bit_set(before, e.switch as int) != bit_set(after, e.switch as int)
                &&& e.kind == kind_of(bit_set(after, e.switch as int))
            },
{
    broadcast use vstd::seq_lib::group_filter_ensures;

    let all = Seq::new(64, |i: int| i);
    let p = |i: int| bit_set(before, i) != bit_set(after, i);
    let c = changed_switches(before, after);
    let evs = switch_events(node, before, after);
    assert forall|k: int| 0 <= k < evs.len() implies {
        let e = #[trigger] evs[k];
        &&& e.node == node
        &&& e.switch < 64
        &&& bit_set(before, e.switch as int) != bit_set(after, e.switch as int)
        &&& e.kind == kind_of(bit_set(after, e.switch as int))
    } by {
        assert(p(c[k]));
        assert(0 <= c[k] < 64);
    }
    assert forall|i: int| 0 <= i < 64 implies (bit_set(before, i) != bit_set(after, i) <==> exists|
        k: int,
    | 0 <= k < evs.len() && #[trigger] evs[k].switch == i) by {
        if bit_set(before, i) != bit_set(after, i) {
            assert(all[i] == i);
            assert(c.contains(all[i]));
            let k = choose|k: int| 0 <= k < c.len() && c[k] == i;
            assert(evs[k].switch == i);
        } else {
            if exists|k: int| 0 <= k < evs.len() && #[trigger] evs[k].switch == i {
                let k = choose|k: int| 0 <= k < evs.len() && #[trigger] evs[k].switch == i;
                assert(p(c[k]));
                assert(0 <= c[k] < 64);
                assert(c[k] == i);
            }
        }
    }
}

/// How many of the first `n` switches differ between two snapshots.
pub open spec fn count_changed(before: Seq<u8>, after: Seq<u8>, n: nat) -> nat
    decreases n,
{
    if n == 0 {
        0
    } else {
        count_changed(before, after, (n - 1) as nat) + if bit_set(before, n - 1) != bit_set(
            after,
            n - 1,
        ) {
            1nat
        } else {
            0nat
        }
    }
}

spec fn differs(before: Seq<u8>, after: Seq<u8>) -> spec_fn(int) -> bool {
    |i: int| bit_set(before, i) != bit_set(after, i)
}

proof fn lemma_changed_upto(before: Seq<u8>, after: Seq<u8>, n: nat)
    ensures
        ({
            let c = Seq::new(n, |i: int| i).filter(differs(before, after));
            &&& c.len() == count_changed(before, after, n)
            &&& forall|k: int| 0 <= k < c.len() ==> 0 <= #[trigger] c[k] < n
            &&& forall|k1: int, k2: int| 0 <= k1 < k2 < c.len() ==> #[trigger] c[k1] < #[trigger] c[k2]
        }),
    decreases n,
{
    reveal(Seq::filter);
    let s = Seq::new(n, |i: int| i);
    let c = s.filter(differs(before, after));
    if n > 0 {
        let m = (n - 1) as nat;
        assert(s.drop_last() =~= Seq::new(m, |i: int| i));
        lemma_changed_upto(before, after, m);
        let c0 = Seq::new(m, |i: int| i).filter(differs(before, after));
        assert(s.last() == m);
        if differs(before, after)(m as int) {
            assert(c == c0.push(m as int));
        } else {
            assert(c == c0);
        }
    }
}

/// Every switch that changed gives exactly one event, in increasing
/// order: there are as many events as switches whose bit differs, and
/// each event's switch is above the one before.
pub proof fn lemma_one_event_per_changed_switch(node: u8, before: Seq<u8>, after: Seq<u8>)
    ensures
        switch_events(node, before, after).len() == count_changed(before, after, 64),
        forall|k1: int, k2: int|
            0 <= k1 < k2 < switch_events(node, before, after).len() ==> (#[trigger] switch_events(
                node,
                before,
                after,
            )[k1]).switch < (#[trigger] switch_events(node, before, after)[k2]).switch,
{
    lemma_changed_upto(before, after, 64);
    let c = changed_switches(before, after);
    assert(differs(before, after) =~= (|i: int| bit_set(before, i) != bit_set(after, i)));
    assert(c == Seq::new(64, |i: int| i).filter(differs(before, after)));
    let evs = switch_events(node, before, after);
    assert forall|k1: int, k2: int| 0 <= k1 < k2 < evs.len() implies (#[trigger] evs[k1]).switch
        < (#[trigger] evs[k2]).switch by {
        assert(c[k1] < c[k2]);
        assert(0 <= c[k1] < 64);
        assert(0 <= c[k2] < 64);
    }
}

/// Reads one bit of a `bitvec::array::BitArray<[u8; 8], Lsb0>` built on
/// the bytes, through its `Index<usize>`: the claim is that bit `index` is
/// bit `index % 8` of byte `index / 8`, least significant first, as the
/// `Lsb0` ordering documents. Indexing panics at 64 and beyond.
#[verifier::external_body]
fn bit_at(bits: &[u8; 8], index: usize) -> (set: bool)
    requires
        index < 64,
    ensures
        set == bit_set(bits@, index as int),
{
    BitArray::<[u8; 8], Lsb0>::new(*bits)[index]
}

/// Lists the set bits of a `bitvec::array::BitArray<[u8; 8], Lsb0>`
/// through `BitSlice::iter_ones`: the claim is that it yields the index of
/// every set bit, in increasing order, and nothing else.
#[verifier::external_body]
fn ones(bits: &[u8; 8]) -> (indices: Vec<usize>)
    ensures
        indices@.map_values(|i: usize| i as int) == set_bits(bits@),
{
    BitArray::<[u8; 8], Lsb0>::new(*bits).iter_ones().collect()
}

proof fn lemma_xor_bit(a: u8, b: u8, k: u8)
    requires
        k < 8,
    ensures
        ((a ^ b) >> k) & 1u8 == 1u8 <==> (((a >> k) & 1u8 == 1u8) != ((b >> k) & 1u8 == 1u8)),
{
    assert(((a ^ b) >> k) & 1u8 == 1u8 <==> (((a >> k) & 1u8 == 1u8) != ((b >> k) & 1u8
        == 1u8))) by (bit_vector)
        requires
            k < 8,
    ;
}

/// The bitwise difference of two snapshots.
fn xor_bits(a: &[u8; 8], b: &[u8; 8]) -> (c: [u8; 8])
    ensures
        forall|i: int| 0 <= i < 8 ==> c@[i] == a@[i] ^ b@[i],
        set_bits(c@) == changed_switches(a@, b@),
{
    let c = [
        a[0] ^ b[0],
        a[1] ^ b[1],
        a[2] ^ b[2],
        a[3] ^ b[3],
        a[4] ^ b[4],
        a[5] ^ b[5],
        a[6] ^ b[6],
        a[7] ^ b[7],
    ];
    proof {
        assert forall|i: int| #[trigger] bit_set(c@, i) == (bit_set(a@, i) != bit_set(b@, i)) by {
            if 0 <= i < 64 {
                lemma_xor_bit(a@[i / 8], b@[i / 8], (i % 8) as u8);
            }
        }
        let p1 = |i: int| bit_set(c@, i);
        let p2 = |i: int| bit_set(a@, i) != bit_set(b@, i);
        assert(p1 =~= p2);
    }
    c
}

/// The last known switch snapshot of each node.
pub struct SwitchStates {
    states: HashMap<u8, [u8; 8]>,
}

impl View for SwitchStates {
    type V = Map<u8, [u8; 8]>;

    closed spec fn view(&self) -> Map<u8, [u8; 8]> {
        self.states@
    }
}

impl SwitchStates {
    /// No node known yet.
    pub fn new() -> (s: Self)
        ensures
            s@ == Map::<u8, [u8; 8]>::empty(),
    {
        SwitchStates { states: HashMap::new() }
    }

    /// Records a snapshot of a node without reporting any event.
    pub fn insert(&mut self, node: u8, bits: [u8; 8])
        ensures
            final(self)@ == old(self)@.insert(node, bits),
    {
        self.states.insert(node, bits);
    }

    /// The last snapshot of a node, if the node is known.
    pub fn get(&self, node: u8) -> (bits: Option<[u8; 8]>)
        ensures
            bits == (if self@.contains_key(node) {
                Some(self@[node])
            } else {
                None
            }),
    {
        match self.states.get(&node) {
            Some(b) => Some(*b),
            None => None,
        }
    }

    /// Replaces the snapshot of a known node and reports, in increasing order
    /// of switch, one event for each switch whose state changed, with the
    /// new state.
    pub fn update_switch_state_for_node(&mut self, node: u8, new_state: &[u8; 8]) -> (events: Vec<
        NodeSwitchEvent,
    >)
        requires
            old(self)@.contains_key(node),
        ensures
            final(self)@ == old(self)@.insert(node, *new_state),
            events@ == switch_events(node, old(self)@[node]@, new_state@),
    {
        let previous_state = match self.states.get(&node) {
            Some(b) => *b,
            None => [0u8; 8],
        };
        let changes = xor_bits(&previous_state, new_state);
        self.states.insert(node, *new_state);
        let indices = ones(&changes);
        let ghost changed = changed_switches(previous_state@, new_state@);
        let ghost f = |i: int|
            NodeSwitchEvent { node, switch: i as u8, kind: kind_of(bit_set(new_state@, i)) };
        let mut events: Vec<NodeSwitchEvent> = Vec::new();
        let mut j: usize = 0;
        while j < indices.len()
            invariant
                j <= indices@.len(),
                changed == changed_switches(previous_state@, new_state@),
                f == (|i: int|
                    NodeSwitchEvent { node, switch: i as u8, kind: kind_of(bit_set(new_state@, i)) }),
                indices@.map_values(|i: usize| i as int) == changed,
                events@ == changed.take(j as int).map_values(f),
            decreases indices@.len() - j,
        {
            let switch: usize = indices[j];
            proof {
                assert(changed[j as int] == switch as int);
                broadcast use vstd::seq_lib::group_filter_ensures;
                assert(bit_set(previous_state@, switch as int) != bit_set(new_state@, switch as int));
            }
            let kind = SwitchEventKind::from(bit_at(new_state, switch));
            events.push(NodeSwitchEvent { node, switch: switch as u8, kind });
            j = j + 1;
            proof {
                assert(events@ =~= changed.take(j as int).map_values(f));
            }
        }
        assert(changed.take(j as int) =~= changed);
        events
    }
}

} // verus!

//! Waiting for switch events: poll the bridge, read the switches of the
//! node it names (or the local switches when it names none), and report
//! what changed.
use vstd::prelude::*;

use crate::messages::bus::PollResponse;
use crate::messages::node::{FromNode, GetInputStateResponse};
use crate::messages::Response;
use crate::node_bus::{capture, capture_step, poll, poll_step, BusAction, Step};
use crate::switches::{switch_events, SwitchStates};
use crate::NodeSwitchEvent;

verus! {

/// Where a polling cycle stands.
#[derive(Debug, Clone, Copy, PartialEq, Eq, Structural)]
pub enum WatchPhase {
    /// A new cycle starts with a poll.
    Idle,
    /// The poll was sent; its answer is awaited.
    AwaitPoll,
    /// No node has pending input: the local switches are read next.
    QueryLocal,
    /// This node has pending input: its switches are read next.
    QueryNode(u8),
    /// The local switches are awaited.
    AwaitLocal,
    /// The reply of this node is awaited.
    AwaitNode(u8),
    /// Nothing changed anywhere: a pause ends the cycle.
    Resting,
}

/// The polling of the switches, with the last snapshot of every node.
pub struct SwitchWatch {
    states: SwitchStates,
    phase: WatchPhase,
}

impl SwitchWatch {
    pub closed spec fn phase(&self) -> WatchPhase {
        self.phase
    }

    pub closed spec fn states(&self) -> Map<u8, [u8; 8]> {
        self.states@
    }

    /// Starts polling from the given snapshots.
    pub fn new(states: SwitchStates) -> (w: Self)
        ensures
            w.phase() == WatchPhase::Idle,
            w.states() == states@,
    {
        SwitchWatch { states, phase: WatchPhase::Idle }
    }

    /// Drops a cycle left unfinished: the next action is a new poll.
    pub fn restart(&mut self)
        ensures
            final(self).phase() == WatchPhase::Idle,
            final(self).states() == old(self).states(),
    {
        self.phase = WatchPhase::Idle;
    }

    /// The snapshots kept.
    pub fn into_switch_states(self) -> (states: SwitchStates)
        ensures
            states@ == self.states(),
    {
        self.states
    }

    /// Whether a cycle has ended (or none has started).
    pub fn cycle_done(&self) -> (done: bool)
        ensures
            done == (self.phase() == WatchPhase::Idle),
    {
        self.phase == WatchPhase::Idle
    }

    /// Whether the watch waits for a reply to a transmission.
    pub fn awaits_reply(&self) -> (r: bool)
        ensures
            r == (self.phase() == WatchPhase::AwaitPoll || self.phase() is AwaitNode),
    {
        match self.phase {
            WatchPhase::AwaitPoll => true,
            WatchPhase::AwaitNode(_) => true,
            _ => false,
        }
    }

    /// Whether a node has a snapshot, so that its switches can be compared.
    pub fn knows(&self, node: u8) -> (known: bool)
        ensures
            known == self.states().contains_key(node),
    {
        self.states.get(node).is_some()
    }

    /// The next action of the cycle: a poll to start it, the read of the
    /// local switches or of the named node's switches, or a pause of
    /// `rest_millis` that ends a cycle in which nothing changed.
    pub fn next_action(&mut self, rest_millis: u64) -> (action: BusAction)
        requires
            old(self).phase() == WatchPhase::Idle || old(self).phase() == WatchPhase::QueryLocal
                || old(self).phase() is QueryNode || old(self).phase() == WatchPhase::Resting,
        ensures
            final(self).states() == old(self).states(),
            match old(self).phase() {
                WatchPhase::Idle => action@ == poll_step() && final(self).phase()
                    == WatchPhase::AwaitPoll,
                WatchPhase::QueryLocal => action@ == Step::ReadLocalSwitches && final(self).phase()
                    == WatchPhase::AwaitLocal,
                WatchPhase::QueryNode(n) => action@ == capture_step(n) && final(self).phase()
                    == WatchPhase::AwaitNode(n),
                _ => action@ == (Step::Sleep { millis: rest_millis }) && final(self).phase()
                    == WatchPhase::Idle,
            },
    {
        match self.phase {
            WatchPhase::Idle => {
                self.phase = WatchPhase::AwaitPoll;
                poll()
            },
            WatchPhase::QueryLocal => {
                self.phase = WatchPhase::AwaitLocal;
                BusAction::ReadLocalSwitches
            },
            WatchPhase::QueryNode(n) => {
                self.phase = WatchPhase::AwaitNode(n);
                capture(n)
            },
            _ => {
                self.phase = WatchPhase::Idle;
                BusAction::Sleep { millis: rest_millis }
            },
        }
    }

    /// Takes the reply to the poll or to a node's switch read. A poll that
    /// names node 0 leads to the local switches, another node to that
    /// node's switches. A node's reply replaces its snapshot, ends the cycle
    /// and reports the switches that changed, if any.
    pub fn answer(&mut self, reply: &[u8]) -> (events: Option<Vec<NodeSwitchEvent>>)
        requires
            old(self).phase() == WatchPhase::AwaitPoll ==> reply@.len() == 1,
            old(self).phase() is AwaitNode ==> {
                &&& reply@.len() == 12
                &&& old(self).states().contains_key(old(self).phase()->AwaitNode_0)
            },
            old(self).phase() == WatchPhase::AwaitPoll || old(self).phase() is AwaitNode,
        ensures
            old(self).phase() == WatchPhase::AwaitPoll ==> {
                &&& events is None
                &&& final(self).states() == old(self).states()
                &&& final(self).phase() == if reply@[0] == 0 {
                    WatchPhase::QueryLocal
                } else {
                    WatchPhase::QueryNode(reply@[0])
                }
            },
            old(self).phase() matches WatchPhase::AwaitNode(n) ==> {
                let evs = switch_events(n, old(self).states()[n]@, reply@.subrange(0, 8));
                &&& final(self).states() == old(self).states().insert(n, final(self).states()[n])
                &&& final(self).states()[n]@ == reply@.subrange(0, 8)
                &&& final(self).phase() == WatchPhase::Idle
                &&& evs.len() > 0 ==> (events matches Some(v) && v@ == evs)
                &&& evs.len() == 0 ==> events is None
            },
    {
        match self.phase {
            WatchPhase::AwaitNode(n) => {
                let response = FromNode::<GetInputStateResponse>::from_bytes(reply);
                let bits = response.0.switches();
                proof {
                    response.0.lemma_wire_len();
                    assert(reply@.subrange(0, 8) =~= response.0.wire().subrange(0, 8));
                }
                let events = self.states.update_switch_state_for_node(n, &bits);
                self.phase = WatchPhase::Idle;
                if events.len() > 0 {
                    Some(events)
                } else {
                    None
                }
            },
            _ => {
                let node: u8 = PollResponse::from_bytes(reply).0;
                assert(node == reply@[0]);
                self.phase = if node == 0 {
                    WatchPhase::QueryLocal
                } else {
                    WatchPhase::QueryNode(node)
                };
                None
            },
        }
    }

    /// Takes the local switches: they replace the snapshot of node 0 and
    /// the switches that changed are reported; when none did, the cycle
    /// ends with a pause.
    pub fn local_switches(&mut self, bits: [u8; 8]) -> (events: Option<Vec<NodeSwitchEvent>>)
        requires
            old(self).phase() == WatchPhase::AwaitLocal,
            old(self).states().contains_key(0),
        ensures
            final(self).states() == old(self).states().insert(0, bits),
            ({
                let evs = switch_events(0, old(self).states()[0]@, bits@);
                &&& evs.len() > 0 ==> (events matches Some(v) && v@ == evs && final(self).phase()
                    == WatchPhase::Idle)
                &&& evs.len() == 0 ==> events is None && final(self).phase() == WatchPhase::Resting
            }),
    {
        let events = self.states.update_switch_state_for_node(0, &bits);
        if events.len() > 0 {
            self.phase = WatchPhase::Idle;
            Some(events)
        } else {
            self.phase = WatchPhase::Resting;
            None
        }
    }
}

} // verus!

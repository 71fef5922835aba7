//! Bringing the system up: powering the bus, discovering the nodes,
//! configuring them and taking the first snapshot of every switch.
use vstd::prelude::*;

use crate::messages::bus::{GetBridgeState, GetBridgeVersion, PollResponse};
use crate::messages::node::{
    FromNode, GetInputState, GetInputStateResponse, GetNodeStatus, GetNodeVersion,
    SetLEDsAndInputs, SetTrafficFlags, ToNode,
};
use crate::messages::Response;
use crate::node_bus::{
    capture, capture_step, poll, poll_step, power_up_script, power_up_steps, send, send_step,
    steps_of, Answer, BusAction, Step,
};
use crate::switches::SwitchStates;

verus! {

/// The rounds that are run once for each node.
#[derive(Debug, Clone, Copy, PartialEq, Eq, Structural)]
pub enum Round {
    /// A node named by the bridge's poll: the poll, then its traffic flags.
    Discover,
    /// Asking for the node's version.
    Version,
    /// Status, LED and input configuration, status again.
    Configure,
    /// A first read of the switches, whose answer is dropped.
    Flush,
    /// A read of the switches that is kept.
    Capture,
}

/// The steps of one round for one node.
pub open spec fn round_script(round: Round, node: u8) -> Seq<Step> {
    match round {
        Round::Discover => seq![
            poll_step(),
            send_step(ToNode(node, SetTrafficFlags(0x20))),
            send_step(ToNode(node, SetTrafficFlags(0x10))),
        ],
        Round::Version => seq![send_step(ToNode(node, GetNodeVersion))],
        Round::Configure => seq![
            send_step(ToNode(node, GetNodeStatus)),
            send_step(ToNode(node, SetLEDsAndInputs(0x60, 0x40))),
            send_step(ToNode(node, GetNodeStatus)),
        ],
        Round::Flush => seq![send_step(ToNode(node, GetInputState))],
        Round::Capture => seq![capture_step(node)],
    }
}

/// One round for each node, in the order of the nodes.
pub open spec fn per_node(nodes: Seq<u8>, round: Round) -> Seq<Step>
    decreases nodes.len(),
{
    if nodes.len() == 0 {
        Seq::empty()
    } else {
        per_node(nodes.drop_last(), round) + round_script(round, nodes.last())
    }
}

/// Before discovery: the bridge's state, the bus powered up, the bridge's
/// state again, and the traffic flags of node 0.
pub open spec fn startup_script() -> Seq<Step> {
    seq![send_step(GetBridgeState)] + power_up_script() + seq![
        send_step(GetBridgeState),
        send_step(ToNode(0, SetTrafficFlags(0x22))),
        send_step(ToNode(0, SetTrafficFlags(0x11))),
    ]
}

/// After discovery, for all nodes (the discovered ones, then node 0).
pub open spec fn configure_script(all: Seq<u8>) -> Seq<Step> {
    seq![send_step(ToNode(0, SetTrafficFlags(0x22))), send_step(GetBridgeVersion)] + per_node(
        all,
        Round::Version,
    ) + seq![send_step(ToNode(0, SetTrafficFlags(0x11)))] + per_node(all, Round::Configure)
        + per_node(all, Round::Flush) + per_node(all, Round::Capture) + seq![
        Step::ReadLocalSwitches,
    ]
}

/// The whole bring-up when the bridge's polls name `nodes`, in order,
/// before it answers 0.
pub open spec fn init_script(nodes: Seq<u8>) -> Seq<Step> {
    startup_script() + per_node(nodes, Round::Discover) + seq![poll_step()] + configure_script(
        nodes.push(0),
    )
}

/// What the machine waits for before it can go on.
#[derive(Debug, Clone, Copy, PartialEq, Eq, Structural)]
pub enum Expect {
    Nothing,
    /// The reply to the last transmission: this many bytes.
    Reply { len: usize, answer: Answer },
    /// The eight bytes of the local switches.
    LocalSwitches,
}

/// What a step leaves the machine waiting for.
pub open spec fn expect_of(s: Step) -> Expect {
    match s {
        Step::Transmit { response_len, answer, .. } => Expect::Reply {
            len: response_len as usize,
            answer,
        },
        Step::ReadLocalSwitches => Expect::LocalSwitches,
        _ => Expect::Nothing,
    }
}

/// A transmission whose reply is kept has the length of that reply: one
/// byte for a poll, twelve for a node's switches.
pub open spec fn sane(s: Step) -> bool {
    match s {
        Step::Transmit { response_len, answer, .. } => match answer {
            Answer::Snapshot(_) => response_len == 12,
            Answer::PollAnswer => response_len == 1,
            Answer::Ignored => true,
        },
        _ => true,
    }
}

pub open spec fn all_sane(s: Seq<Step>) -> bool {
    forall|i: int| 0 <= i < s.len() ==> sane(#[trigger] s[i])
}

proof fn lemma_all_sane_concat(a: Seq<Step>, b: Seq<Step>)
    requires
        all_sane(a),
        all_sane(b),
    ensures
        all_sane(a + b),
{
    assert forall|i: int| 0 <= i < (a + b).len() implies sane(#[trigger] (a + b)[i]) by {
        if i < a.len() {
            assert((a + b)[i] == a[i]);
        } else {
            assert((a + b)[i] == b[i - a.len()]);
        }
    }
}

proof fn lemma_per_node_sane(nodes: Seq<u8>, round: Round)
    ensures
        all_sane(per_node(nodes, round)),
    decreases nodes.len(),
{
    if nodes.len() > 0 {
        lemma_per_node_sane(nodes.drop_last(), round);
        let r = round_script(round, nodes.last());
        assert(all_sane(r));
        lemma_all_sane_concat(per_node(nodes.drop_last(), round), r);
    }
}

proof fn lemma_configure_sane(all: Seq<u8>)
    ensures
        all_sane(configure_script(all)),
{
    lemma_per_node_sane(all, Round::Version);
    lemma_per_node_sane(all, Round::Configure);
    lemma_per_node_sane(all, Round::Flush);
    lemma_per_node_sane(all, Round::Capture);
    let a = seq![send_step(ToNode(0, SetTrafficFlags(0x22))), send_step(GetBridgeVersion)];
    let b = seq![send_step(ToNode(0, SetTrafficFlags(0x11)))];
    let c = seq![Step::ReadLocalSwitches];
    assert(all_sane(a));
    assert(all_sane(b));
    assert(all_sane(c));
    lemma_all_sane_concat(a, per_node(all, Round::Version));
    lemma_all_sane_concat(a + per_node(all, Round::Version), b);
    lemma_all_sane_concat(a + per_node(all, Round::Version) + b, per_node(all, Round::Configure));
    lemma_all_sane_concat(
        a + per_node(all, Round::Version) + b + per_node(all, Round::Configure),
        per_node(all, Round::Flush),
    );
    lemma_all_sane_concat(
        a + per_node(all, Round::Version) + b + per_node(all, Round::Configure) + per_node(
            all,
            Round::Flush,
        ),
        per_node(all, Round::Capture),
    );
    lemma_all_sane_concat(
        a + per_node(all, Round::Version) + b + per_node(all, Round::Configure) + per_node(
            all,
            Round::Flush,
        ) + per_node(all, Round::Capture),
        c,
    );
}

pub proof fn lemma_per_node_concat(a: Seq<u8>, b: Seq<u8>, round: Round)
    ensures
        per_node(a + b, round) == per_node(a, round) + per_node(b, round),
    decreases b.len(),
{
    if b.len() == 0 {
        assert(a + b =~= a);
        assert(per_node(a, round) + per_node(b, round) =~= per_node(a, round));
    } else {
        assert((a + b).drop_last() =~= a + b.drop_last());
        lemma_per_node_concat(a, b.drop_last(), round);
        assert(per_node(a + b, round) =~= per_node(a, round) + per_node(b, round));
    }
}

proof fn lemma_discovery_starts_with_poll(nodes: Seq<u8>)
    requires
        nodes.len() > 0,
    ensures
        per_node(nodes, Round::Discover).len() > 0,
        per_node(nodes, Round::Discover)[0] == poll_step(),
    decreases nodes.len(),
{
    let prev = per_node(nodes.drop_last(), Round::Discover);
    let r = round_script(Round::Discover, nodes.last());
    assert(per_node(nodes, Round::Discover) == prev + r);
    if nodes.len() > 1 {
        lemma_discovery_starts_with_poll(nodes.drop_last());
        assert((prev + r)[0] == prev[0]);
    } else {
        assert(nodes.drop_last().len() == 0);
        assert(prev.len() == 0);
        assert((prev + r)[0] == r[0]);
    }
}

/// `a` is where `b` begins.
pub open spec fn is_prefix(a: Seq<Step>, b: Seq<Step>) -> bool {
    a.len() <= b.len() && b.subrange(0, a.len() as int) == a
}

proof fn lemma_per_node_step(nodes: Seq<u8>, i: int, round: Round)
    requires
        0 <= i < nodes.len(),
    ensures
        per_node(nodes.take(i + 1), round) == per_node(nodes.take(i), round) + round_script(
            round,
            nodes[i],
        ),
{
    assert(nodes.take(i + 1).drop_last() =~= nodes.take(i));
}

proof fn lemma_steps_of_concat(a: Seq<BusAction>, b: Seq<BusAction>)
    ensures
        steps_of(a + b) == steps_of(a) + steps_of(b),
{
    assert(steps_of(a + b) =~= steps_of(a) + steps_of(b));
}

/// The actions of one round for one node.
fn round_actions(round: Round, node: u8) -> (actions: Vec<BusAction>)
    ensures
        steps_of(actions@) == round_script(round, node),
{
    let mut v: Vec<BusAction> = Vec::new();
    match round {
        Round::Discover => {
            v.push(poll());
            v.push(send(&ToNode(node, SetTrafficFlags(0x20))));
            v.push(send(&ToNode(node, SetTrafficFlags(0x10))));
        },
        Round::Version => {
            v.push(send(&ToNode(node, GetNodeVersion)));
        },
        Round::Configure => {
            v.push(send(&ToNode(node, GetNodeStatus)));
            v.push(send(&ToNode(node, SetLEDsAndInputs(0x60, 0x40))));
            v.push(send(&ToNode(node, GetNodeStatus)));
        },
        Round::Flush => {
            v.push(send(&ToNode(node, GetInputState)));
        },
        Round::Capture => {
            v.push(capture(node));
        },
    }
    assert(steps_of(v@) =~= round_script(round, node));
    v
}

/// Appends one round for each node.
fn push_rounds(actions: &mut Vec<BusAction>, nodes: &Vec<u8>, round: Round)
    ensures
        steps_of(final(actions)@) == steps_of(old(actions)@) + per_node(nodes@, round),
{
    let mut i: usize = 0;
    assert(nodes@.take(0) =~= Seq::<u8>::empty());
    assert(steps_of(actions@) + per_node(Seq::<u8>::empty(), round) =~= steps_of(actions@));
    while i < nodes.len()
        invariant
            i <= nodes@.len(),
            steps_of(actions@) == steps_of(old(actions)@) + per_node(nodes@.take(i as int), round),
        decreases nodes@.len() - i,
    {
        let mut r = round_actions(round, nodes[i]);
        proof {
            lemma_per_node_step(nodes@, i as int, round);
            lemma_steps_of_concat(actions@, r@);
        }
        actions.append(&mut r);
        i = i + 1;
    }
    assert(nodes@.take(i as int) =~= nodes@);
}

/// The actions before discovery.
fn startup_actions() -> (actions: Vec<BusAction>)
    ensures
        steps_of(actions@) == startup_script(),
{
    let mut v: Vec<BusAction> = Vec::new();
    v.push(send(&GetBridgeState));
    let mut p = power_up_steps();
    proof {
        lemma_steps_of_concat(v@, p@);
    }
    v.append(&mut p);
    v.push(send(&GetBridgeState));
    v.push(send(&ToNode(0, SetTrafficFlags(0x22))));
    v.push(send(&ToNode(0, SetTrafficFlags(0x11))));
    assert(steps_of(v@) =~= startup_script());
    v
}

/// The discovered nodes and node 0 after them.
fn with_node_zero(nodes: &Vec<u8>) -> (all: Vec<u8>)
    ensures
        all@ == nodes@.push(0),
{
    let mut all: Vec<u8> = Vec::new();
    let mut i: usize = 0;
    while i < nodes.len()
        invariant
            i <= nodes@.len(),
            all@ == nodes@.take(i as int),
        decreases nodes@.len() - i,
    {
        all.push(nodes[i]);
        i = i + 1;
        assert(all@ =~= nodes@.take(i as int));
    }
    all.push(0);
    assert(all@ =~= nodes@.push(0));
    all
}

/// The actions after discovery, for all nodes.
fn configure_actions(all: &Vec<u8>) -> (actions: Vec<BusAction>)
    ensures
        steps_of(actions@) == configure_script(all@),
{
    let mut v: Vec<BusAction> = Vec::new();
    v.push(send(&ToNode(0, SetTrafficFlags(0x22))));
    v.push(send(&GetBridgeVersion));
    let ghost a = seq![send_step(ToNode(0, SetTrafficFlags(0x22))), send_step(GetBridgeVersion)];
    assert(steps_of(v@) =~= a);
    push_rounds(&mut v, all, Round::Version);
    let ghost b = a + per_node(all@, Round::Version);
    let ghost s1 = steps_of(v@);
    v.push(send(&ToNode(0, SetTrafficFlags(0x11))));
    let ghost c = b + seq![send_step(ToNode(0, SetTrafficFlags(0x11)))];
    assert(steps_of(v@) =~= s1.push(send_step(ToNode(0, SetTrafficFlags(0x11)))));
    assert(steps_of(v@) =~= c);
    push_rounds(&mut v, all, Round::Configure);
    push_rounds(&mut v, all, Round::Flush);
    push_rounds(&mut v, all, Round::Capture);
    let ghost d = c + per_node(all@, Round::Configure) + per_node(all@, Round::Flush) + per_node(
        all@,
        Round::Capture,
    );
    assert(steps_of(v@) == d);
    let ghost s2 = steps_of(v@);
    v.push(BusAction::ReadLocalSwitches);
    assert(steps_of(v@) =~= s2.push(Step::ReadLocalSwitches));
    assert(steps_of(v@) =~= configure_script(all@));
    v
}

/// The bring-up of the system as a sequence of bus actions: each call of
/// [`Initializer::next_action`] gives the next one, and each transmission's
/// reply, or the local switches, are handed back before the next call.
pub struct Initializer {
    pending: Vec<BusAction>,
    discovering: bool,
    nodes: Vec<u8>,
    polling: bool,
    expecting: Expect,
    states: SwitchStates,
    trace: Ghost<Seq<Step>>,
}

impl Initializer {
    /// The steps handed out so far.
    pub closed spec fn trace(&self) -> Seq<Step> {
        self.trace@
    }

    /// The nodes named by the bridge's polls so far, in order.
    pub closed spec fn nodes(&self) -> Seq<u8> {
        self.nodes@
    }

    /// Whether the bridge has not yet answered a poll with 0.
    pub closed spec fn discovering(&self) -> bool {
        self.discovering
    }

    /// What the machine waits for.
    pub closed spec fn expecting(&self) -> Expect {
        self.expecting
    }

    /// The switch snapshots kept so far.
    pub closed spec fn states(&self) -> Map<u8, [u8; 8]> {
        self.states@
    }

    /// The steps planned so far: all of the bring-up once discovery is over,
    /// else up to the next poll.
    closed spec fn planned(&self) -> Seq<Step> {
        if self.discovering {
            startup_script() + per_node(self.nodes@, Round::Discover)
        } else {
            init_script(self.nodes@)
        }
    }

    /// Whether the machine waits for the answer to a discovery poll.
    pub closed spec fn polling(&self) -> bool {
        self.polling
    }

    pub closed spec fn wf(&self) -> bool {
        &&& self.polling ==> {
            &&& self.discovering
            &&& self.trace@ == startup_script() + per_node(self.nodes@, Round::Discover) + seq![
                poll_step(),
            ]
            &&& self.pending@.len() == 0
            &&& self.expecting == expect_of(poll_step())
        }
        &&& !self.polling ==> self.trace@ + steps_of(self.pending@) == self.planned()
        &&& all_sane(self.trace@)
        &&& all_sane(steps_of(self.pending@))
        &&& self.expecting != Expect::Nothing ==> self.trace@.len() > 0 && self.expecting
            == expect_of(self.trace@.last())
    }

    /// Nothing sent yet, and no snapshot kept.
    pub fn new() -> (s: Self)
        ensures
            s.wf(),
            s.trace() == Seq::<Step>::empty(),
            s.nodes() == Seq::<u8>::empty(),
            s.discovering(),
            !s.polling(),
            s.expecting() == Expect::Nothing,
            s.states() == Map::<u8, [u8; 8]>::empty(),
    {
        Self::with_states(SwitchStates::new())
    }

    /// Nothing sent yet; the snapshots taken during the bring-up are added
    /// to `states`, and the snapshots of other nodes stay.
    pub fn with_states(states: SwitchStates) -> (s: Self)
        ensures
            s.wf(),
            s.trace() == Seq::<Step>::empty(),
            s.nodes() == Seq::<u8>::empty(),
            s.discovering(),
            !s.polling(),
            s.expecting() == Expect::Nothing,
            s.states() == states@,
    {
        let pending = startup_actions();
        let s = Initializer {
            pending,
            discovering: true,
            polling: false,
            nodes: Vec::new(),
            expecting: Expect::Nothing,
            states,
            trace: Ghost(Seq::empty()),
        };
        assert(per_node(Seq::<u8>::empty(), Round::Discover) =~= Seq::<Step>::empty());
        assert(s.trace@ + steps_of(s.pending@) =~= s.planned());
        s
    }

    /// The next action of the bring-up, or `None` once the whole bring-up
    /// for the nodes that the bridge named has been handed out.
    pub fn next_action(&mut self) -> (action: Option<BusAction>)
        requires
            old(self).wf(),
            old(self).expecting() == Expect::Nothing,
        ensures
            final(self).wf(),
            final(self).nodes() == old(self).nodes(),
            final(self).discovering() == old(self).discovering(),
            final(self).states() == old(self).states(),
            match action {
                None => {
                    &&& final(self).trace() == old(self).trace()
                    &&& !old(self).discovering()
                    &&& old(self).trace() == init_script(old(self).nodes())
                    &&& final(self).expecting() == Expect::Nothing
                    &&& !final(self).polling()
                },
                Some(a) => {
                    &&& final(self).trace() == old(self).trace().push(a@)
                    &&& final(self).expecting() == expect_of(a@)
                },
            },
    {
        if self.pending.len() > 0 {
            let ghost before = self.pending@;
            let action = self.pending.remove(0);
            proof {
                assert(before =~= seq![action] + self.pending@);
                lemma_steps_of_concat(seq![action], self.pending@);
                assert(steps_of(seq![action]) =~= seq![action@]);
                assert(sane(steps_of(before)[0]));
                assert forall|i: int| 0 <= i < self.pending@.len() implies sane(
                    #[trigger] steps_of(self.pending@)[i],
                ) by {
                    assert(steps_of(self.pending@)[i] == steps_of(before)[i + 1]);
                }
                lemma_all_sane_concat(self.trace@, seq![action@]);
                self.trace@ = self.trace@.push(action@);
                assert(self.trace@ + steps_of(self.pending@) =~= old(self).trace@ + steps_of(
                    before,
                ));
            }
            self.polling = false;
            self.expecting = match &action {
                BusAction::Transmit { response_len, answer, .. } => Expect::Reply {
                    len: *response_len,
                    answer: *answer,
                },
                BusAction::ReadLocalSwitches => Expect::LocalSwitches,
                _ => Expect::Nothing,
            };
            Some(action)
        } else if self.discovering {
            let action = poll();
            proof {
                assert(old(self).trace@ =~= old(self).trace@ + steps_of(old(self).pending@));
                assert(steps_of(old(self).pending@) =~= Seq::<Step>::empty());
                assert(all_sane(seq![action@]));
                lemma_all_sane_concat(self.trace@, seq![action@]);
                self.trace@ = self.trace@.push(action@);
                assert(self.trace@ =~= startup_script() + per_node(self.nodes@, Round::Discover)
                    + seq![poll_step()]);
            }
            self.polling = true;
            self.expecting = Expect::Reply { len: 1, answer: Answer::PollAnswer };
            Some(action)
        } else {
            proof {
                assert(self.trace@ =~= self.trace@ + steps_of(self.pending@));
            }
            None
        }
    }

    /// Takes the reply to the last transmission. The answer to a discovery
    /// poll names a node, which is then discovered, or is 0, which ends the
    /// discovery; the reply of a node's kept switch read becomes that node's
    /// snapshot; other replies are dropped.
    pub fn answer(&mut self, reply: &[u8])
        requires
            old(self).wf(),
            old(self).expecting() matches Expect::Reply { len, .. } && reply@.len() == len,
        ensures
            final(self).wf(),
            final(self).expecting() == Expect::Nothing,
            final(self).trace() == old(self).trace(),
            !final(self).polling(),
            old(self).polling() ==> {
                &&& final(self).states() == old(self).states()
                &&& reply@[0] != 0 ==> final(self).nodes() == old(self).nodes().push(reply@[0])
                    && final(self).discovering()
                &&& reply@[0] == 0 ==> final(self).nodes() == old(self).nodes()
                    && !final(self).discovering()
            },
            !old(self).polling() ==> {
                &&& final(self).nodes() == old(self).nodes()
                &&& final(self).discovering() == old(self).discovering()
                &&& old(self).expecting() matches Expect::Reply { answer: Answer::Snapshot(n), .. }
                    ==> {
                    &&& final(self).states().dom() == old(self).states().dom().insert(n)
                    &&& final(self).states() == old(self).states().insert(n, final(self).states()[n])
                    &&& final(self).states()[n]@ == reply@.subrange(0, 8)
                }
                &&& !(old(self).expecting() matches Expect::Reply {
                    answer: Answer::Snapshot(_),
                    ..
                }) ==> final(self).states() == old(self).states()
            },
    {
        if self.polling {
            let node: u8 = PollResponse::from_bytes(reply).0;
            assert(node == reply@[0]);
            self.polling = false;
            self.expecting = Expect::Nothing;
            if node != 0 {
                let ghost old_nodes = self.nodes@;
                self.nodes.push(node);
                let mut pending: Vec<BusAction> = Vec::new();
                pending.push(send(&ToNode(node, SetTrafficFlags(0x20))));
                pending.push(send(&ToNode(node, SetTrafficFlags(0x10))));
                self.pending = pending;
                proof {
                    assert(self.nodes@.drop_last() =~= old_nodes);
                    assert(self.trace@ + steps_of(self.pending@) =~= startup_script() + per_node(
                        self.nodes@,
                        Round::Discover,
                    ));
                    assert(all_sane(steps_of(self.pending@)));
                }
            } else {
                self.discovering = false;
                let all = with_node_zero(&self.nodes);
                self.pending = configure_actions(&all);
                proof {
                    lemma_configure_sane(all@);
                    assert(self.trace@ + steps_of(self.pending@) =~= init_script(self.nodes@));
                }
            }
        } else {
            match self.expecting {
                Expect::Reply { answer: Answer::Snapshot(node), .. } => {
                    let response = FromNode::<GetInputStateResponse>::from_bytes(reply);
                    let bits = response.0.switches();
                    proof {
                        response.0.lemma_wire_len();
                        assert(reply@.subrange(0, 8) =~= response.0.wire().subrange(0, 8));
                    }
                    self.states.insert(node, bits);
                },
                _ => {},
            }
            self.expecting = Expect::Nothing;
        }
    }

    /// Takes the local switches: they become the snapshot of node 0.
    pub fn local_switches(&mut self, bits: [u8; 8])
        requires
            old(self).wf(),
            old(self).expecting() == Expect::LocalSwitches,
        ensures
            final(self).wf(),
            final(self).expecting() == Expect::Nothing,
            final(self).trace() == old(self).trace(),
            final(self).nodes() == old(self).nodes(),
            final(self).discovering() == old(self).discovering(),
            final(self).polling() == old(self).polling(),
            final(self).states() == old(self).states().insert(0, bits),
    {
        self.states.insert(0, bits);
        self.expecting = Expect::Nothing;
    }

    /// The snapshots taken during the bring-up.
    pub fn into_switch_states(self) -> (states: SwitchStates)
        ensures
            states@ == self.states(),
    {
        self.states
    }

    /// What has been handed out is always where the bring-up script
    /// begins: once discovery is over, the script for the nodes named; during
    /// discovery, the script for the nodes named so far followed by any
    /// nodes that later polls may name.
    pub proof fn lemma_trace_begins_script(&self, later: Seq<u8>)
        requires
            self.wf(),
        ensures
            self.discovering() ==> is_prefix(self.trace(), init_script(self.nodes() + later)),
            !self.discovering() ==> is_prefix(self.trace(), init_script(self.nodes())),
    {
        let t = self.trace@;
        if self.discovering {
            let head = startup_script() + per_node(self.nodes@, Round::Discover);
            let all = (self.nodes@ + later).push(0);
            lemma_per_node_concat(self.nodes@, later, Round::Discover);
            let script = init_script(self.nodes@ + later);
            assert(script =~= head + (per_node(later, Round::Discover) + seq![poll_step()]
                + configure_script(all)));
            if self.polling {
                let rest = per_node(later, Round::Discover) + seq![poll_step()];
                if later.len() > 0 {
                    lemma_discovery_starts_with_poll(later);
                }
                assert(rest[0] == poll_step());
                assert(script.subrange(0, t.len() as int) =~= t);
            } else {
                assert(script.subrange(0, t.len() as int) =~= t);
            }
        } else {
            assert(init_script(self.nodes@).subrange(0, t.len() as int) =~= t);
        }
    }
}

} // verus!

//! The actions by which the library drives the node bus, and the steps of
//! powering the bus up and down.
use vstd::prelude::*;

use crate::messages::bus::{Poll, SetAmpPower, SetPower};
use crate::messages::node::{GetInputState, Reset, ToNode};
use crate::messages::{Message, Response};

verus! {

/// Whether the bus has been powered up. A bus that was is reset and
/// powered off when it is closed.
#[derive(Debug, Clone, Copy, PartialEq, Eq, Structural, PartialOrd, Ord)]
pub enum NodeBusState {
    Open,
    Initialized,
}

/// What the reply to a transmission is for.
#[derive(Debug, Clone, Copy, PartialEq, Eq, Structural)]
pub enum Answer {
    /// The reply is read and dropped.
    Ignored,
    /// The reply is the answer to a poll.
    PollAnswer,
    /// The reply carries the switch snapshot of this node.
    Snapshot(u8),
}

/// One thing for the caller to do on the bus.
#[derive(Debug)]
pub enum BusAction {
    /// From now on the bus counts as initialized.
    MarkInitialized,
    /// Write `frame`, then read exactly `response_len` bytes and hand them
    /// back.
    Transmit { frame: Vec<u8>, response_len: usize, answer: Answer },
    /// Wait this many milliseconds.
    Sleep { millis: u64 },
    /// Read the eight bytes of the switches wired to the CPU board and hand
    /// them back.
    ReadLocalSwitches,
}

/// A [`BusAction`] as a value.
pub enum Step {
    MarkInitialized,
    Transmit { frame: Seq<u8>, response_len: nat, answer: Answer },
    Sleep { millis: u64 },
    ReadLocalSwitches,
}

impl View for BusAction {
    type V = Step;

    open spec fn view(&self) -> Step {
        match self {
            BusAction::MarkInitialized => Step::MarkInitialized,
            BusAction::Transmit { frame, response_len, answer } => Step::Transmit {
                frame: frame@,
                response_len: *response_len as nat,
                answer: *answer,
            },
            BusAction::Sleep { millis } => Step::Sleep { millis: *millis },
            BusAction::ReadLocalSwitches => Step::ReadLocalSwitches,
        }
    }
}

/// The steps of a list of actions.
pub open spec fn steps_of(actions: Seq<BusAction>) -> Seq<Step> {
    actions.map_values(|a: BusAction| a@)
}

/// Sending a message whose reply is read and dropped.
pub open spec fn send_step<M: Message>(m: M) -> Step {
    Step::Transmit {
        frame: m.spec_serialize(),
        response_len: M::Response::spec_size(),
        answer: Answer::Ignored,
    }
}

/// Polling the bridge for a node with pending input.
pub open spec fn poll_step() -> Step {
    Step::Transmit {
        frame: Poll.spec_serialize(),
        response_len: <Poll as Message>::Response::spec_size(),
        answer: Answer::PollAnswer,
    }
}

/// Asking a node for its switches and keeping the answer.
pub open spec fn capture_step(node: u8) -> Step {
    Step::Transmit {
        frame: ToNode(node, GetInputState).spec_serialize(),
        response_len: <ToNode<GetInputState> as Message>::Response::spec_size(),
        answer: Answer::Snapshot(node),
    }
}

/// The action of sending a message whose reply is dropped.
pub fn send<M: Message>(m: &M) -> (a: BusAction)
    ensures
        a@ == send_step(*m),
{
    BusAction::Transmit { frame: m.serialize(), response_len: M::Response::size(), answer: Answer::Ignored }
}

/// The action of polling the bridge.
pub fn poll() -> (a: BusAction)
    ensures
        a@ == poll_step(),
{
    BusAction::Transmit {
        frame: Poll.serialize(),
        response_len: <Poll as Message>::Response::size(),
        answer: Answer::PollAnswer,
    }
}

/// The action of asking a node for its switches.
pub fn capture(node: u8) -> (a: BusAction)
    ensures
        a@ == capture_step(node),
{
    BusAction::Transmit {
        frame: ToNode(node, GetInputState).serialize(),
        response_len: <ToNode<GetInputState> as Message>::Response::size(),
        answer: Answer::Snapshot(node),
    }
}

/// Powering the bus up: the bus counts as initialized first; then power
/// on, off, the amplifier on, power on again, and a reset of node 0, with
/// pauses for the hardware to settle.
pub open spec fn power_up_script() -> Seq<Step> {
    seq![
        Step::MarkInitialized,
        send_step(SetPower(true)),
        send_step(SetPower(false)),
        Step::Sleep { millis: 500 },
        send_step(SetAmpPower(true)),
        Step::Sleep { millis: 500 },
        send_step(SetPower(true)),
        Step::Sleep { millis: 500 },
        send_step(ToNode(0, Reset)),
        Step::Sleep { millis: 250 },
    ]
}

/// The steps that power the bus up.
pub fn power_up_steps() -> (actions: Vec<BusAction>)
    ensures
        steps_of(actions@) == power_up_script(),
{
    let mut v: Vec<BusAction> = Vec::new();
    v.push(BusAction::MarkInitialized);
    v.push(send(&SetPower(true)));
    v.push(send(&SetPower(false)));
    v.push(BusAction::Sleep { millis: 500 });
    v.push(send(&SetAmpPower(true)));
    v.push(BusAction::Sleep { millis: 500 });
    v.push(send(&SetPower(true)));
    v.push(BusAction::Sleep { millis: 500 });
    v.push(send(&ToNode(0, Reset)));
    v.push(BusAction::Sleep { millis: 250 });
    assert(steps_of(v@) =~= power_up_script());
    v
}

/// Closing the bus: a bus that was initialized gets a reset of node 0 and
/// its power switched off; an open one gets nothing.
pub open spec fn shutdown_script(state: NodeBusState) -> Seq<Step> {
    match state {
        NodeBusState::Initialized => seq![send_step(ToNode(0, Reset)), send_step(SetPower(false))],
        NodeBusState::Open => Seq::empty(),
    }
}

/// The steps that close the bus.
pub fn shutdown_steps(state: NodeBusState) -> (actions: Vec<BusAction>)
    ensures
        steps_of(actions@) == shutdown_script(state),
{
    let mut v: Vec<BusAction> = Vec::new();
    if state == NodeBusState::Initialized {
        v.push(send(&ToNode(0, Reset)));
        v.push(send(&SetPower(false)));
    }
    assert(steps_of(v@) =~= shutdown_script(state));
    v
}

} // verus!

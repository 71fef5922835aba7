//! Logic of the Spike 2 node bus used in Stern pinball machines: the wire
//! format of bus and node messages, the tracking of switch states, the
//! bring-up sequence of the bus, and the turning of switch events into
//! keyboard events.
use vstd::prelude::*;

pub mod messages;
pub mod switches;
pub mod input;
pub mod toggle;
pub mod node_bus;
pub mod startup;
pub mod watch;

verus! {

/// Whether a switch was seen open or closed.
#[derive(Debug, Copy, Clone, PartialEq, Eq, Structural)]
pub enum SwitchEventKind {
    Open,
    Close,
}

impl SwitchEventKind {
    /// The other state.
    pub open spec fn spec_inverted(self) -> SwitchEventKind {
        match self {
            SwitchEventKind::Close => SwitchEventKind::Open,
            SwitchEventKind::Open => SwitchEventKind::Close,
        }
    }

    /// The value of a key event for this state: 1 for a closed switch (key
    /// pressed), 0 for an open one (key released).
    pub open spec fn spec_value(self) -> i32 {
        match self {
            SwitchEventKind::Close => 1,
            SwitchEventKind::Open => 0,
        }
    }

    pub fn value(&self) -> (v: i32)
        ensures
            v == self.spec_value(),
    {
        match self {
            SwitchEventKind::Close => 1,
            SwitchEventKind::Open => 0,
        }
    }

    pub fn inverted(&self) -> (k: Self)
        ensures
            k == self.spec_inverted(),
    {
        match self {
            SwitchEventKind::Close => SwitchEventKind::Open,
            SwitchEventKind::Open => SwitchEventKind::Close,
        }
    }
}

impl From<bool> for SwitchEventKind {
    /// A set bit in a switch snapshot means that the switch is open.
    fn from(value: bool) -> (kind: Self) {
        if value {
            SwitchEventKind::Open
        } else {
            SwitchEventKind::Close
        }
    }
}

impl vstd::std_specs::convert::FromSpecImpl<bool> for SwitchEventKind {
    open spec fn obeys_from_spec() -> bool {
        true
    }

    open spec fn from_spec(v: bool) -> Self {
        if v {
            SwitchEventKind::Open
        } else {
            SwitchEventKind::Close
        }
    }
}

/// A change of one switch of one node.
#[derive(Debug, Copy, Clone, PartialEq, Eq, Structural)]
pub struct NodeSwitchEvent {
    pub node: u8,
    pub switch: u8,
    pub kind: SwitchEventKind,
}

} // verus!

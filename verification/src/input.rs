//! The switches of the machine, the keyboard keys they stand for, and the
//! turning of switch events into key events.
use vstd::prelude::*;

use crate::{NodeSwitchEvent, SwitchEventKind};

verus! {

/// A switch of the machine, named by its role.
#[derive(Debug, Copy, Clone, PartialEq, Eq, Structural, PartialOrd, Ord, Hash)]
pub enum Switch {
    LeftFlipperButton,
    LeftFlipperButtonUpper,
    RightFlipperButton,
    ActionButton,
    StartButton,
    Tilt,
    ServiceSelect,
    ServicePlus,
    ServiceMinus,
    ServiceBack,
    LeftCoin,
    CenterCoin,
    RightCoin,
    /// A switch that the mapping does not name: its node and its index.
    Unknown(u8, u8),
}

/// A key of the virtual keyboard.
#[derive(Debug, Copy, Clone, PartialEq, Eq, Structural, PartialOrd, Ord, Hash)]
pub enum KeyboardKey {
    Left,
    Right,
    Up,
    Down,
    LeftCtrl,
    Esc,
    Enter,
    Digit2,
    Digit3,
    Digit4,
}

/// Where the switches sit: node and switch index of each named switch.
pub open spec fn switch_mapping() -> Map<(u8, u8), Switch> {
    map![
        (8u8, 24u8) => Switch::RightFlipperButton,
        (8u8, 25u8) => Switch::LeftFlipperButton,
        (8u8, 27u8) => Switch::LeftFlipperButtonUpper,
        (1u8, 2u8) => Switch::ActionButton,
        (1u8, 11u8) => Switch::StartButton,
        (1u8, 14u8) => Switch::Tilt,
        (1u8, 16u8) => Switch::LeftCoin,
        (1u8, 17u8) => Switch::RightCoin,
        (1u8, 18u8) => Switch::CenterCoin,
        (0u8, 8u8) => Switch::ServiceSelect,
        (0u8, 9u8) => Switch::ServicePlus,
        (0u8, 10u8) => Switch::ServiceMinus,
        (0u8, 11u8) => Switch::ServiceBack,
    ]
}

/// The switch at a node and index: the mapped one, else an unknown switch.
pub open spec fn switch_at(location: (u8, u8)) -> Switch {
    if switch_mapping().contains_key(location) {
        switch_mapping()[location]
    } else {
        Switch::Unknown(location.0, location.1)
    }
}

impl Switch {
    /// The key that a switch stands for, if any.
    pub open spec fn spec_key(self) -> Option<KeyboardKey> {
        match self {
            Switch::LeftFlipperButton => Some(KeyboardKey::Left),
            Switch::RightFlipperButton => Some(KeyboardKey::Right),
            Switch::ActionButton => Some(KeyboardKey::LeftCtrl),
            Switch::StartButton => Some(KeyboardKey::Up),
            Switch::Tilt => Some(KeyboardKey::Esc),
            Switch::ServiceSelect => Some(KeyboardKey::Enter),
            Switch::ServicePlus => Some(KeyboardKey::Down),
            Switch::ServiceMinus => Some(KeyboardKey::Up),
            Switch::ServiceBack => Some(KeyboardKey::Esc),
            Switch::LeftCoin => Some(KeyboardKey::Digit2),
            Switch::CenterCoin => Some(KeyboardKey::Digit3),
            Switch::RightCoin => Some(KeyboardKey::Digit4),
            Switch::LeftFlipperButtonUpper => None,
            Switch::Unknown(..) => None,
        }
    }

    pub fn key(&self) -> (key: Option<KeyboardKey>)
        ensures
            key == self.spec_key(),
    {
        match self {
            Switch::LeftFlipperButton => Some(KeyboardKey::Left),
            Switch::RightFlipperButton => Some(KeyboardKey::Right),
            Switch::ActionButton => Some(KeyboardKey::LeftCtrl),
            Switch::StartButton => Some(KeyboardKey::Up),
            Switch::Tilt => Some(KeyboardKey::Esc),
            Switch::ServiceSelect => Some(KeyboardKey::Enter),
            Switch::ServicePlus => Some(KeyboardKey::Down),
            Switch::ServiceMinus => Some(KeyboardKey::Up),
            Switch::ServiceBack => Some(KeyboardKey::Esc),
            Switch::LeftCoin => Some(KeyboardKey::Digit2),
            Switch::CenterCoin => Some(KeyboardKey::Digit3),
            Switch::RightCoin => Some(KeyboardKey::Digit4),
            Switch::LeftFlipperButtonUpper => None,
            Switch::Unknown(..) => None,
        }
    }

    /// No switch of this machine is wired normally open: every one reports
    /// its state as it is.
    pub fn normally_open(&self) -> (open: bool)
        ensures
            !open,
    {
        match self {
            _ => false,
        }
    }

    /// Only the start button toggles: each press flips its reported state.
    pub open spec fn spec_is_toggle(self) -> bool {
        self == Switch::StartButton
    }

    pub fn is_toggle(&self) -> (toggle: bool)
        ensures
            toggle == self.spec_is_toggle(),
    {
        match self {
            Switch::StartButton => true,
            _ => false,
        }
    }
}

/// Where the manual places each named switch: its node and index.
pub open spec fn manual_location(switch: Switch) -> Option<(u8, u8)> {
    match switch {
        Switch::RightFlipperButton => Some((8, 24)),
        Switch::LeftFlipperButton => Some((8, 25)),
        Switch::LeftFlipperButtonUpper => Some((8, 27)),
        Switch::ActionButton => Some((1, 2)),
        Switch::StartButton => Some((1, 11)),
        Switch::Tilt => Some((1, 14)),
        Switch::LeftCoin => Some((1, 16)),
        Switch::RightCoin => Some((1, 17)),
        Switch::CenterCoin => Some((1, 18)),
        Switch::ServiceSelect => Some((0, 8)),
        Switch::ServicePlus => Some((0, 9)),
        Switch::ServiceMinus => Some((0, 10)),
        Switch::ServiceBack => Some((0, 11)),
        Switch::Unknown(..) => None,
    }
}

/// Naming a switch by its location agrees with the manual: a named switch
/// is given at its own location and at no other, and every location that
/// the manual does not name gives the unknown switch of that location.
pub proof fn lemma_switch_at_follows_manual(location: (u8, u8))
    ensures
        switch_at(location) is Unknown ==> switch_at(location) == Switch::Unknown(
            location.0,
            location.1,
        ),
        !(switch_at(location) is Unknown) ==> manual_location(switch_at(location)) == Some(
            location,
        ),
        forall|switch: Switch| #[trigger]
            manual_location(switch) == Some(location) ==> switch_at(location) == switch,
{
}

impl From<(u8, u8)> for Switch {
    fn from(value: (u8, u8)) -> (s: Self) {
        let s = match value {
            (8, 24) => Switch::RightFlipperButton,
            (8, 25) => Switch::LeftFlipperButton,
            (8, 27) => Switch::LeftFlipperButtonUpper,
            (1, 2) => Switch::ActionButton,
            (1, 11) => Switch::StartButton,
            (1, 14) => Switch::Tilt,
            (1, 16) => Switch::LeftCoin,
            (1, 17) => Switch::RightCoin,
            (1, 18) => Switch::CenterCoin,
            (0, 8) => Switch::ServiceSelect,
            (0, 9) => Switch::ServicePlus,
            (0, 10) => Switch::ServiceMinus,
            (0, 11) => Switch::ServiceBack,
            _ => Switch::Unknown(value.0, value.1),
        };
        assert(s == switch_at(value));
        s
    }
}

impl vstd::std_specs::convert::FromSpecImpl<(u8, u8)> for Switch {
    open spec fn obeys_from_spec() -> bool {
        true
    }

    open spec fn from_spec(v: (u8, u8)) -> Self {
        switch_at(v)
    }
}

/// A switch event, the switch named by its role.
#[derive(Debug, Copy, Clone, PartialEq, Eq, Structural)]
pub struct SwitchEvent {
    pub kind: SwitchEventKind,
    pub switch: Switch,
}

/// A key press (value 1) or release (value 0).
#[derive(Debug, Copy, Clone, PartialEq, Eq, Structural)]
pub struct KeyEvent {
    pub key: KeyboardKey,
    pub value: i32,
}

/// The event of a named switch: the switch at the node and index, with
/// the reported state (inverted for a normally open switch, of which this
/// machine has none).
pub open spec fn spec_switch_event(e: NodeSwitchEvent) -> SwitchEvent {
    SwitchEvent { switch: switch_at((e.node, e.switch)), kind: e.kind }
}

impl From<NodeSwitchEvent> for SwitchEvent {
    fn from(switch_event: NodeSwitchEvent) -> (e: Self)
        ensures
            e.kind == switch_event.kind,
            e.switch == switch_at((switch_event.node, switch_event.switch)),
    {
        let switch = Switch::from((switch_event.node, switch_event.switch));
        let kind = if switch.normally_open() {
            switch_event.kind.inverted()
        } else {
            switch_event.kind
        };
        SwitchEvent { switch, kind }
    }
}

/// No switch of this machine is wired normally open, so a named event
/// keeps the state that the node reported, and names the switch at the
/// event's location.
pub proof fn lemma_switch_event_keeps_state(e: NodeSwitchEvent)
    ensures
        spec_switch_event(e).kind == e.kind,
        spec_switch_event(e).switch == switch_at((e.node, e.switch)),
{
}

impl vstd::std_specs::convert::FromSpecImpl<NodeSwitchEvent> for SwitchEvent {
    open spec fn obeys_from_spec() -> bool {
        true
    }

    open spec fn from_spec(v: NodeSwitchEvent) -> Self {
        spec_switch_event(v)
    }
}

impl SwitchEvent {
    /// The key event of a switch event, if its switch stands for a key.
    pub open spec fn spec_key_event(self) -> Option<KeyEvent> {
        match self.switch.spec_key() {
            Some(key) => Some(KeyEvent { key, value: self.kind.spec_value() }),
            None => None,
        }
    }

    pub fn key_event(&self) -> (k: Option<KeyEvent>)
        ensures
            k == self.spec_key_event(),
    {
        match self.switch.key() {
            Some(key) => Some(KeyEvent { key, value: self.kind.value() }),
            None => None,
        }
    }
}

/// The key events of a sequence of switch events, in order, leaving out
/// the switches that stand for no key.
pub open spec fn spec_key_events(events: Seq<SwitchEvent>) -> Seq<KeyEvent>
    decreases events.len(),
{
    if events.len() == 0 {
        Seq::empty()
    } else {
        let rest = spec_key_events(events.drop_last());
        match events.last().spec_key_event() {
            Some(k) => rest.push(k),
            None => rest,
        }
    }
}

/// One switch event gives one key event when its switch stands for a key:
/// that key, pressed (1) when the switch closed and released (0) when it
/// opened; else none.
pub proof fn lemma_key_events_single(e: SwitchEvent)
    ensures
        spec_key_events(seq![e]) == match e.switch.spec_key() {
            Some(key) => seq![
                KeyEvent {
                    key,
                    value: if e.kind == SwitchEventKind::Close {
                        1i32
                    } else {
                        0i32
                    },
                },
            ],
            None => Seq::<KeyEvent>::empty(),
        },
{
    assert(seq![e].drop_last() =~= Seq::<SwitchEvent>::empty());
    assert(seq![e].last() == e);
    assert(spec_key_events(Seq::<SwitchEvent>::empty()) == Seq::<KeyEvent>::empty());
    assert(e.kind.spec_value() == if e.kind == SwitchEventKind::Close {
        1i32
    } else {
        0i32
    });
    if let Some(key) = e.switch.spec_key() {
        assert(Seq::<KeyEvent>::empty().push(KeyEvent { key, value: e.kind.spec_value() }) =~= seq![
            KeyEvent { key, value: e.kind.spec_value() },
        ]);
    }
}

/// The key events of two batches in a row are those of the first batch
/// followed by those of the second: every switch event is turned on its own,
/// and none is skipped or merged with its neighbours.
pub proof fn lemma_key_events_concat(a: Seq<SwitchEvent>, b: Seq<SwitchEvent>)
    ensures
        spec_key_events(a + b) == spec_key_events(a) + spec_key_events(b),
    decreases b.len(),
{
    if b.len() == 0 {
        assert(a + b =~= a);
        assert(spec_key_events(a) + spec_key_events(b) =~= spec_key_events(a));
    } else {
        assert((a + b).drop_last() =~= a + b.drop_last());
        assert((a + b).last() == b.last());
        lemma_key_events_concat(a, b.drop_last());
        match b.last().spec_key_event() {
            Some(k) => {
                assert((spec_key_events(a) + spec_key_events(b.drop_last())).push(k)
                    =~= spec_key_events(a) + spec_key_events(b.drop_last()).push(k));
            },
            None => {},
        }
    }
}

/// The key events to emit for a batch of switch events.
pub fn key_events(events: &Vec<SwitchEvent>) -> (keys: Vec<KeyEvent>)
    ensures
        keys@ == spec_key_events(events@),
{
    let mut keys: Vec<KeyEvent> = Vec::new();
    let mut i: usize = 0;
    while i < events.len()
        invariant
            i <= events@.len(),
            keys@ == spec_key_events(events@.take(i as int)),
        decreases events@.len() - i,
    {
        assert(events@.take(i as int + 1).drop_last() =~= events@.take(i as int));
        if let Some(k) = events[i].key_event() {
            keys.push(k);
        }
        i = i + 1;
    }
    assert(events@.take(i as int) =~= events@);
    keys
}

} // verus!

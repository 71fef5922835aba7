use spike::input::{key_events, KeyEvent, KeyboardKey, Switch, SwitchEvent};
use spike::switches::SwitchStates;
use spike::toggle::StatefulEvents;
use spike::{NodeSwitchEvent, SwitchEventKind};

fn ev(node: u8, switch: u8, kind: SwitchEventKind) -> NodeSwitchEvent {
    NodeSwitchEvent { node, switch, kind }
}

#[test]
fn set_bit_means_open() {
    assert_eq!(SwitchEventKind::from(true), SwitchEventKind::Open);
    assert_eq!(SwitchEventKind::from(false), SwitchEventKind::Close);
}

#[test]
fn kind_values_and_inversion() {
    assert_eq!(SwitchEventKind::Close.value(), 1);
    assert_eq!(SwitchEventKind::Open.value(), 0);
    assert_eq!(SwitchEventKind::Close.inverted(), SwitchEventKind::Open);
    assert_eq!(SwitchEventKind::Open.inverted(), SwitchEventKind::Close);
}

#[test]
fn update_reports_changed_switches_in_order() {
    let mut states = SwitchStates::new();
    states.insert(1, [0; 8]);
    // switch 0 (bit 0 of byte 0), switch 9 (bit 1 of byte 1), switch 63
    let new = [0b0000_0001, 0b0000_0010, 0, 0, 0, 0, 0, 0b1000_0000];
    let events = states.update_switch_state_for_node(1, &new);
    assert_eq!(
        events,
        vec![
            ev(1, 0, SwitchEventKind::Open),
            ev(1, 9, SwitchEventKind::Open),
            ev(1, 63, SwitchEventKind::Open),
        ]
    );
    assert_eq!(states.get(1), Some(new));
    // switch 9 clears, switch 10 sets
    let next = [0b0000_0001, 0b0000_0100, 0, 0, 0, 0, 0, 0b1000_0000];
    let events = states.update_switch_state_for_node(1, &next);
    assert_eq!(
        events,
        vec![ev(1, 9, SwitchEventKind::Close), ev(1, 10, SwitchEventKind::Open)]
    );
}

#[test]
fn unchanged_snapshot_reports_nothing() {
    let mut states = SwitchStates::new();
    let bits = [0x5a, 0xa5, 0xff, 0x00, 0x01, 0x80, 0x42, 0x24];
    states.insert(0, bits);
    assert!(states.update_switch_state_for_node(0, &bits).is_empty());
    assert_eq!(states.get(0), Some(bits));
    assert_eq!(states.get(2), None);
}

#[test]
fn switches_are_named_by_the_mapping() {
    assert_eq!(Switch::from((8, 24)), Switch::RightFlipperButton);
    assert_eq!(Switch::from((8, 25)), Switch::LeftFlipperButton);
    assert_eq!(Switch::from((8, 27)), Switch::LeftFlipperButtonUpper);
    assert_eq!(Switch::from((1, 2)), Switch::ActionButton);
    assert_eq!(Switch::from((1, 11)), Switch::StartButton);
    assert_eq!(Switch::from((1, 14)), Switch::Tilt);
    assert_eq!(Switch::from((1, 16)), Switch::LeftCoin);
    assert_eq!(Switch::from((1, 17)), Switch::RightCoin);
    assert_eq!(Switch::from((1, 18)), Switch::CenterCoin);
    assert_eq!(Switch::from((0, 8)), Switch::ServiceSelect);
    assert_eq!(Switch::from((0, 9)), Switch::ServicePlus);
    assert_eq!(Switch::from((0, 10)), Switch::ServiceMinus);
    assert_eq!(Switch::from((0, 11)), Switch::ServiceBack);
    assert_eq!(Switch::from((0, 12)), Switch::Unknown(0, 12));
    assert_eq!(Switch::from((9, 9)), Switch::Unknown(9, 9));
}

#[test]
fn switch_keys() {
    assert_eq!(Switch::LeftFlipperButton.key(), Some(KeyboardKey::Left));
    assert_eq!(Switch::RightFlipperButton.key(), Some(KeyboardKey::Right));
    assert_eq!(Switch::ActionButton.key(), Some(KeyboardKey::LeftCtrl));
    assert_eq!(Switch::StartButton.key(), Some(KeyboardKey::Up));
    assert_eq!(Switch::Tilt.key(), Some(KeyboardKey::Esc));
    assert_eq!(Switch::ServiceSelect.key(), Some(KeyboardKey::Enter));
    assert_eq!(Switch::ServicePlus.key(), Some(KeyboardKey::Down));
    assert_eq!(Switch::ServiceMinus.key(), Some(KeyboardKey::Up));
    assert_eq!(Switch::ServiceBack.key(), Some(KeyboardKey::Esc));
    assert_eq!(Switch::LeftCoin.key(), Some(KeyboardKey::Digit2));
    assert_eq!(Switch::CenterCoin.key(), Some(KeyboardKey::Digit3));
    assert_eq!(Switch::RightCoin.key(), Some(KeyboardKey::Digit4));
    assert_eq!(Switch::LeftFlipperButtonUpper.key(), None);
    assert_eq!(Switch::Unknown(3, 4).key(), None);
}

#[test]
fn only_the_start_button_toggles_and_none_is_normally_open() {
    assert!(Switch::StartButton.is_toggle());
    assert!(!Switch::Tilt.is_toggle());
    assert!(!Switch::Unknown(1, 11).is_toggle());
    assert!(!Switch::StartButton.normally_open());
    assert!(!Switch::LeftCoin.normally_open());
}

#[test]
fn node_events_become_named_events() {
    let e = SwitchEvent::from(ev(1, 11, SwitchEventKind::Open));
    assert_eq!(e, SwitchEvent { switch: Switch::StartButton, kind: SwitchEventKind::Open });
    let e = SwitchEvent::from(ev(4, 4, SwitchEventKind::Close));
    assert_eq!(e, SwitchEvent { switch: Switch::Unknown(4, 4), kind: SwitchEventKind::Close });
}

#[test]
fn key_events_skip_switches_without_key() {
    let events = vec![
        SwitchEvent { switch: Switch::LeftFlipperButton, kind: SwitchEventKind::Close },
        SwitchEvent { switch: Switch::LeftFlipperButtonUpper, kind: SwitchEventKind::Close },
        SwitchEvent { switch: Switch::Unknown(2, 2), kind: SwitchEventKind::Open },
        SwitchEvent { switch: Switch::LeftFlipperButton, kind: SwitchEventKind::Open },
    ];
    assert_eq!(
        key_events(&events),
        vec![
            KeyEvent { key: KeyboardKey::Left, value: 1 },
            KeyEvent { key: KeyboardKey::Left, value: 0 },
        ]
    );
    assert!(key_events(&vec![]).is_empty());
}

#[test]
fn toggle_switch_flips_on_each_press() {
    let mut toggles = StatefulEvents::new();
    let press = SwitchEvent { switch: Switch::StartButton, kind: SwitchEventKind::Open };
    let release = SwitchEvent { switch: Switch::StartButton, kind: SwitchEventKind::Close };
    assert_eq!(
        toggles.translate(vec![press]),
        vec![SwitchEvent { switch: Switch::StartButton, kind: SwitchEventKind::Close }]
    );
    assert!(toggles.translate(vec![release]).is_empty());
    assert_eq!(
        toggles.translate(vec![press, release, press]),
        vec![
            SwitchEvent { switch: Switch::StartButton, kind: SwitchEventKind::Open },
            SwitchEvent { switch: Switch::StartButton, kind: SwitchEventKind::Close },
        ]
    );
}

#[test]
fn ordinary_switches_pass_unchanged() {
    let mut toggles = StatefulEvents::new();
    let events = vec![
        SwitchEvent { switch: Switch::Tilt, kind: SwitchEventKind::Close },
        SwitchEvent { switch: Switch::LeftCoin, kind: SwitchEventKind::Open },
        SwitchEvent { switch: Switch::Unknown(1, 1), kind: SwitchEventKind::Close },
    ];
    assert_eq!(toggles.translate(events.clone()), events);
}

#[test]
fn toggle_parity_across_batches() {
    let mut toggles = StatefulEvents::new();
    let press = SwitchEvent { switch: Switch::StartButton, kind: SwitchEventKind::Open };
    let other = SwitchEvent { switch: Switch::Tilt, kind: SwitchEventKind::Open };
    let mut kinds = Vec::new();
    for batch in [vec![press, other], vec![], vec![other, press, press], vec![press]] {
        for e in toggles.translate(batch) {
            if e.switch == Switch::StartButton {
                kinds.push(e.kind);
            }
        }
    }
    assert_eq!(
        kinds,
        vec![
            SwitchEventKind::Close,
            SwitchEventKind::Open,
            SwitchEventKind::Close,
            SwitchEventKind::Open,
        ]
    );
}

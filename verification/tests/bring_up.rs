use spike::messages::bus::{GetBridgeState, GetBridgeVersion, Poll, SetAmpPower, SetPower};
use spike::messages::node::{
    GetInputState, GetNodeStatus, GetNodeVersion, Reset, SetLEDsAndInputs, SetTrafficFlags,
    ToNode,
};
use spike::messages::Message;
use spike::node_bus::{power_up_steps, shutdown_steps, Answer, BusAction, NodeBusState};
use spike::startup::Initializer;
use spike::watch::SwitchWatch;
use spike::{NodeSwitchEvent, SwitchEventKind};

#[derive(Debug, PartialEq)]
enum Seen {
    Mark,
    Tx(Vec<u8>, usize),
    Sleep(u64),
    Local,
}

fn seen(a: &BusAction) -> Seen {
    match a {
        BusAction::MarkInitialized => Seen::Mark,
        BusAction::Transmit { frame, response_len, .. } => Seen::Tx(frame.clone(), *response_len),
        BusAction::Sleep { millis } => Seen::Sleep(*millis),
        BusAction::ReadLocalSwitches => Seen::Local,
    }
}

fn tx<M: Message>(m: M, len: usize) -> Seen {
    Seen::Tx(m.serialize(), len)
}

fn power_up() -> Vec<Seen> {
    vec![
        Seen::Mark,
        tx(SetPower(true), 0),
        tx(SetPower(false), 0),
        Seen::Sleep(500),
        tx(SetAmpPower(true), 0),
        Seen::Sleep(500),
        tx(SetPower(true), 0),
        Seen::Sleep(500),
        tx(ToNode(0, Reset), 0),
        Seen::Sleep(250),
    ]
}

#[test]
fn power_up_sequence() {
    let steps: Vec<Seen> = power_up_steps().iter().map(seen).collect();
    assert_eq!(steps, power_up());
}

#[test]
fn shutdown_only_after_power_up() {
    assert!(shutdown_steps(NodeBusState::Open).is_empty());
    let steps: Vec<Seen> = shutdown_steps(NodeBusState::Initialized).iter().map(seen).collect();
    assert_eq!(steps, vec![tx(ToNode(0, Reset), 0), tx(SetPower(false), 0)]);
}

/// Runs the bring-up against a bridge whose polls name `polls` in turn;
/// each node `n` reports the snapshot `[n; 8]` and the local switches are
/// `[0xee; 8]`.
fn run(polls: &[u8]) -> (Vec<Seen>, spike::switches::SwitchStates) {
    run_from(polls, Initializer::new())
}

fn run_from(polls: &[u8], mut init: Initializer) -> (Vec<Seen>, spike::switches::SwitchStates) {
    let mut seen_steps = Vec::new();
    let mut next_poll = 0;
    while let Some(action) = init.next_action() {
        seen_steps.push(seen(&action));
        match action {
            BusAction::Transmit { response_len, answer, .. } => {
                let reply: Vec<u8> = match answer {
                    Answer::PollAnswer => {
                        let n = polls[next_poll];
                        next_poll += 1;
                        vec![n]
                    }
                    Answer::Snapshot(n) => {
                        let mut r = vec![n; 8];
                        r.extend([0, 0, 0, 0]);
                        r
                    }
                    Answer::Ignored => vec![0; response_len],
                };
                assert_eq!(reply.len(), response_len);
                init.answer(&reply);
            }
            BusAction::ReadLocalSwitches => init.local_switches([0xee; 8]),
            _ => {}
        }
    }
    (seen_steps, init.into_switch_states())
}

#[test]
fn bring_up_with_two_nodes() {
    let (steps, states) = run(&[3, 5, 0]);
    let mut expected = vec![tx(GetBridgeState, 2)];
    expected.extend(power_up());
    expected.extend([
        tx(GetBridgeState, 2),
        tx(ToNode(0, SetTrafficFlags(0x22)), 0),
        tx(ToNode(0, SetTrafficFlags(0x11)), 0),
    ]);
    for n in [3u8, 5] {
        expected.extend([
            tx(Poll, 1),
            tx(ToNode(n, SetTrafficFlags(0x20)), 0),
            tx(ToNode(n, SetTrafficFlags(0x10)), 0),
        ]);
    }
    expected.push(tx(Poll, 1));
    let all = [3u8, 5, 0];
    expected.extend([tx(ToNode(0, SetTrafficFlags(0x22)), 0), tx(GetBridgeVersion, 3)]);
    for n in all {
        expected.push(tx(ToNode(n, GetNodeVersion), 13));
    }
    expected.push(tx(ToNode(0, SetTrafficFlags(0x11)), 0));
    for n in all {
        expected.extend([
            tx(ToNode(n, GetNodeStatus), 10),
            tx(ToNode(n, SetLEDsAndInputs(0x60, 0x40)), 0),
            tx(ToNode(n, GetNodeStatus), 10),
        ]);
    }
    for n in all {
        expected.push(tx(ToNode(n, GetInputState), 12));
    }
    for n in all {
        expected.push(tx(ToNode(n, GetInputState), 12));
    }
    expected.push(Seen::Local);
    assert_eq!(steps, expected);
    assert_eq!(states.get(3), Some([3; 8]));
    assert_eq!(states.get(5), Some([5; 8]));
    // node 0 is read from the node bus first, then from the local switches
    assert_eq!(states.get(0), Some([0xee; 8]));
    assert_eq!(states.get(1), None);
}

#[test]
fn bring_up_without_nodes() {
    let (steps, states) = run(&[0]);
    assert_eq!(steps.iter().filter(|s| **s == tx(Poll, 1)).count(), 1);
    assert_eq!(steps.last(), Some(&Seen::Local));
    assert_eq!(states.get(0), Some([0xee; 8]));
}

#[test]
fn watch_reports_node_changes() {
    let (_, states) = run(&[2, 0]);
    let mut watch = SwitchWatch::new(states);
    assert!(watch.cycle_done());
    let a = watch.next_action(50);
    assert_eq!(seen(&a), tx(Poll, 1));
    assert!(watch.awaits_reply());
    assert!(watch.answer(&[2]).is_none());
    let a = watch.next_action(50);
    assert_eq!(seen(&a), tx(ToNode(2, GetInputState), 12));
    assert!(watch.knows(2));
    // node 2 had [2; 8]: bit 1 of every byte set; now byte 0 is 0x03
    let mut reply = vec![3u8, 2, 2, 2, 2, 2, 2, 2];
    reply.extend([0, 0, 0, 0]);
    let events = watch.answer(&reply).unwrap();
    assert_eq!(events, vec![NodeSwitchEvent { node: 2, switch: 0, kind: SwitchEventKind::Open }]);
    assert!(watch.cycle_done());
}

#[test]
fn watch_rests_when_local_switches_are_quiet() {
    let (_, states) = run(&[0]);
    let mut watch = SwitchWatch::new(states);
    let _ = watch.next_action(50);
    assert!(watch.answer(&[0]).is_none());
    let a = watch.next_action(50);
    assert_eq!(seen(&a), Seen::Local);
    assert!(watch.local_switches([0xee; 8]).is_none());
    assert!(!watch.cycle_done());
    let a = watch.next_action(50);
    assert_eq!(seen(&a), Seen::Sleep(50));
    assert!(watch.cycle_done());
    let _ = watch.next_action(50);
    assert!(watch.answer(&[0]).is_none());
    let _ = watch.next_action(50);
    let events = watch.local_switches([0xef, 0xee, 0xee, 0xee, 0xee, 0xee, 0xee, 0xee]).unwrap();
    assert_eq!(events, vec![NodeSwitchEvent { node: 0, switch: 0, kind: SwitchEventKind::Open }]);
    assert!(watch.cycle_done());
}

#[test]
fn bring_up_keeps_snapshots_of_other_nodes() {
    let mut before = spike::switches::SwitchStates::new();
    before.insert(9, [0x99; 8]);
    before.insert(3, [0x33; 8]);
    let (_, states) = run_from(&[3, 0], Initializer::with_states(before));
    assert_eq!(states.get(9), Some([0x99; 8]));
    assert_eq!(states.get(3), Some([3; 8]));
    assert_eq!(states.get(0), Some([0xee; 8]));
}

#[test]
fn watch_restart_starts_a_new_cycle() {
    let (_, states) = run(&[0]);
    let mut watch = SwitchWatch::new(states);
    let _ = watch.next_action(50);
    assert!(!watch.cycle_done());
    watch.restart();
    assert!(watch.cycle_done());
    assert_eq!(seen(&watch.next_action(50)), tx(Poll, 1));
    let states = watch.into_switch_states();
    assert_eq!(states.get(0), Some([0xee; 8]));
}

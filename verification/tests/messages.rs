use spike::messages::bus::{
    GetBridgeState, GetBridgeStateResponse, GetBridgeStatus, GetBridgeVersion,
    GetBridgeVersionResponse, Poll, PollResponse, SetAmpPower, SetPower,
};
use spike::messages::node::{
    checksum, FromNode, GetInputState, GetInputStateResponse, GetNodeStatus,
    GetNodeStatusResponse, GetNodeVersion, GetNodeVersionResponse, Reset, SetLEDsAndInputs,
    SetTrafficFlags, ToNode,
};
use spike::messages::{Message, Response};

fn sum_mod_256(bytes: &[u8]) -> u32 {
    bytes.iter().map(|b| *b as u32).sum::<u32>() % 256
}

#[test]
fn checksum_of_empty_data_is_zero() {
    assert_eq!(checksum(&[]), 0);
}

#[test]
fn checksum_closes_the_sum() {
    assert_eq!(checksum(&[0x80, 3, 0xf0, 0x22]), 0x6b);
    assert_eq!(checksum(&[0x00]), 0);
    assert_eq!(checksum(&[0x01]), 0xff);
    assert_eq!(checksum(&[0xff, 0x01]), 0);
    let data = [0x12u8, 0x34, 0x56, 0x78, 0x9a, 0xbc, 0xde, 0xf0];
    let c = checksum(&data);
    assert_eq!((sum_mod_256(&data) + c as u32) % 256, 0);
}

#[test]
fn checksum_of_long_data() {
    let data = vec![0xffu8; 1000];
    // 1000 * 255 = 255000, which is 24 modulo 256.
    assert_eq!(checksum(&data), (256 - 24) as u8);
}

#[test]
fn bus_messages_serialize() {
    assert_eq!(Poll.serialize(), vec![0x00]);
    assert_eq!(SetPower(true).serialize(), vec![0x07, 1, 1]);
    assert_eq!(SetPower(false).serialize(), vec![0x07, 1, 0]);
    assert_eq!(SetAmpPower(true).serialize(), vec![0x08, 1, 1]);
    assert_eq!(SetAmpPower(false).serialize(), vec![0x08, 1, 0]);
    assert_eq!(GetBridgeState.serialize(), vec![0x0a, 0x00]);
    assert_eq!(GetBridgeStatus.serialize(), vec![0x05, 0x00]);
    assert_eq!(GetBridgeVersion.serialize(), vec![0x03, 0x00]);
}

#[test]
fn node_frames_serialize() {
    assert_eq!(
        ToNode(0, SetTrafficFlags(0x22)).serialize(),
        vec![0x80, 3, 0xf0, 0x22, 0x6b, 0]
    );
    assert_eq!(ToNode(3, GetInputState).serialize(), vec![0x83, 2, 0x11, 0x6a, 12]);
    assert_eq!(ToNode(1, GetNodeVersion).serialize(), vec![0x81, 2, 0xfe, 0x7f, 13]);
    assert_eq!(
        ToNode(2, SetLEDsAndInputs(0x60, 0x40)).serialize(),
        vec![0x82, 6, 0x14, 0x60, 0x00, 0x40, 0x00, 0xc4, 0]
    );
    assert_eq!(ToNode(0, Reset).serialize(), vec![0x80, 2, 0xf1, 0x8d, 0]);
    assert_eq!(ToNode(4, GetNodeStatus).serialize(), vec![0x84, 2, 0xff, 0x7b, 10]);
}

#[test]
fn node_frames_sum_to_zero_before_the_answer_length() {
    for node in [0u8, 1, 7, 0x7f] {
        let frames = vec![
            ToNode(node, SetTrafficFlags(0x10)).serialize(),
            ToNode(node, GetInputState).serialize(),
            ToNode(node, SetLEDsAndInputs(0x60, 0x40)).serialize(),
        ];
        for f in frames {
            assert_eq!(f[0], 0x80 | node);
            assert_eq!(f[1] as usize, f.len() - 3);
            assert_eq!(sum_mod_256(&f[..f.len() - 1]), 0);
        }
    }
}

#[test]
fn response_sizes() {
    assert_eq!(<() as Response>::size(), 0);
    assert_eq!(PollResponse::size(), 1);
    assert_eq!(GetBridgeStateResponse::size(), 2);
    assert_eq!(GetBridgeVersionResponse::size(), 3);
    assert_eq!(GetNodeVersionResponse::size(), 11);
    assert_eq!(GetNodeStatusResponse::size(), 8);
    assert_eq!(GetInputStateResponse::size(), 10);
    assert_eq!(FromNode::<()>::size(), 0);
    assert_eq!(FromNode::<GetInputStateResponse>::size(), 12);
    assert_eq!(FromNode::<GetNodeVersionResponse>::size(), 13);
    assert_eq!(FromNode::<GetNodeStatusResponse>::size(), 10);
}

#[test]
fn responses_parse() {
    assert_eq!(PollResponse::from_bytes(&[5]), PollResponse(5));
    let v = GetNodeVersionResponse::from_bytes(&[1, 2, 3, 4, 5, 6, 7, 8, 9, 10, 11]);
    assert_eq!(v.0, [1, 2, 3, 4, 5, 6, 7, 8, 9, 10, 11]);
    let s = GetNodeStatusResponse::from_bytes(&[8, 7, 6, 5, 4, 3, 2, 1]);
    assert_eq!(s.0, [8, 7, 6, 5, 4, 3, 2, 1]);
    assert_eq!(
        GetBridgeVersionResponse::from_bytes(&[1, 2, 3]),
        GetBridgeVersionResponse::from_bytes(&[1, 2, 3])
    );
    assert_ne!(
        GetBridgeStateResponse::from_bytes(&[1, 2]),
        GetBridgeStateResponse::from_bytes(&[2, 1])
    );
}

#[test]
fn node_replies_parse_with_their_trailer() {
    let reply = [0x01u8, 0x02, 0x04, 0x08, 0x10, 0x20, 0x40, 0x80, 0xaa, 0xbb, 0xcc, 0xdd];
    let r = FromNode::<GetInputStateResponse>::from_bytes(&reply);
    assert_eq!(r.0.switches(), [0x01, 0x02, 0x04, 0x08, 0x10, 0x20, 0x40, 0x80]);
    assert_eq!(r.1, 0xcc);
    assert_eq!(r.2, 0xdd);
    let e = FromNode::<()>::from_bytes(&[]);
    assert_eq!(e, FromNode((), 0, 0));
}

#[test]
fn checksum_ignores_byte_order() {
    let a = [0x80u8, 3, 0xf0, 0x22, 0x01, 0xfe];
    let b = [0x22u8, 0xfe, 0x80, 0x01, 0xf0, 3];
    assert_eq!(checksum(&a), checksum(&b));
}

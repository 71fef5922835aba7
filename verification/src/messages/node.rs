//! Messages addressed to the nodes behind the bridge, and their framing.
use vstd::prelude::*;

use super::{Message, PlainResponse, Response};

verus! {

/// A message for one node. It travels inside a [`ToNode`] frame.
pub trait NodeMessage {
    type Response: PlainResponse;

    /// The payload bytes of the message.
    spec fn spec_serialize(&self) -> Seq<u8>;

    fn serialize(&self) -> (bytes: Vec<u8>)
        ensures
            bytes@ == self.spec_serialize(),
    ;
}

/// A node message together with the address of the node.
#[derive(Debug, Copy, Clone, PartialEq, Eq, PartialOrd, Ord)]
pub struct ToNode<T: NodeMessage>(pub u8, pub T);

/// A node's answer: the response itself and two trailer bytes.
#[derive(Debug, Copy, Clone, PartialEq, Eq, PartialOrd, Ord)]
pub struct FromNode<T: Response>(pub T, pub u8, pub u8);

/// The sum of the bytes, as an integer.
pub open spec fn byte_sum(data: Seq<u8>) -> int
    decreases data.len(),
{
    if data.len() == 0 {
        0
    } else {
        byte_sum(data.drop_last()) + data.last()
    }
}

/// The byte that brings the sum of `data` to a multiple of 256.
pub open spec fn spec_checksum(data: Seq<u8>) -> u8 {
    ((256 - byte_sum(data) % 256) % 256) as u8
}

/// The checksum byte of a node frame.
pub fn checksum(data: &[u8]) -> (c: u8)
    ensures
        c == spec_checksum(data@),
{
    let mut result: u64 = 0;
    let mut i: usize = 0;
    while i < data.len()
        invariant
            i <= data@.len(),
            result % 256 == byte_sum(data@.take(i as int)) % 256,
        decreases data@.len() - i,
    {
        let byte: u8 = data[i];
        proof {
            let t = data@.take(i as int + 1);
            assert(t.drop_last() =~= data@.take(i as int));
            assert(byte_sum(t) == byte_sum(data@.take(i as int)) + byte);
            lemma_wrapping_add_mod_256(result, byte as u64);
            vstd::arithmetic::div_mod::lemma_add_mod_noop(result as int, byte as int, 256);
            vstd::arithmetic::div_mod::lemma_add_mod_noop(
                byte_sum(data@.take(i as int)),
                byte as int,
                256,
            );
        }
        result = result.wrapping_add(byte as u64);
        i = i + 1;
    }
    assert(data@.take(data@.len() as int) =~= data@);
    ((256 - (result % 256)) % 256) as u8
}

proof fn lemma_wrapping_add_mod_256(x: u64, y: u64)
    ensures
        x.wrapping_add(y) % 256 == (x + y) % 256,
{
    if x + y > u64::MAX {
        vstd::arithmetic::div_mod::lemma_mod_multiples_vanish(
            -0x0100_0000_0000_0000int,
            x + y,
            256,
        );
    }
}

/// The checksum byte closes a frame: adding it to the frame's bytes gives
/// a multiple of 256.
pub proof fn lemma_checksum_closes_sum(data: Seq<u8>)
    ensures
        (byte_sum(data) + spec_checksum(data) as int) % 256 == 0,
        byte_sum(data.push(spec_checksum(data))) % 256 == 0,
{
    assert(data.push(spec_checksum(data)).drop_last() =~= data);
    let s: int = byte_sum(data);
    vstd::arithmetic::div_mod::lemma_fundamental_div_mod(s, 256);
}

proof fn lemma_byte_sum_remove(data: Seq<u8>, j: int)
    requires
        0 <= j < data.len(),
    ensures
        byte_sum(data) == byte_sum(data.remove(j)) + data[j],
    decreases data.len(),
{
    if j == data.len() - 1 {
        assert(data.remove(j) =~= data.drop_last());
    } else {
        assert(data.remove(j).drop_last() =~= data.drop_last().remove(j));
        assert(data.remove(j).last() == data.last());
        lemma_byte_sum_remove(data.drop_last(), j);
    }
}

/// The sum of the bytes, and so the checksum, does not depend on their
/// order: any rearrangement of the same bytes has the same checksum.
pub proof fn lemma_checksum_permutation(data: Seq<u8>, other: Seq<u8>)
    requires
        data.to_multiset() == other.to_multiset(),
    ensures
        byte_sum(data) == byte_sum(other),
        spec_checksum(data) == spec_checksum(other),
    decreases data.len(),
{
    broadcast use vstd::seq_lib::group_to_multiset_ensures;
    broadcast use vstd::multiset::group_multiset_axioms;

    if data.len() == 0 {
        assert(other.to_multiset().len() == 0);
        assert(other.len() == 0);
    } else {
        let x = data.last();
        let rest = data.drop_last();
        assert(rest.push(x) =~= data);
        assert(data.to_multiset() == rest.to_multiset().insert(x));
        assert(other.to_multiset().count(x) > 0);
        assert(other.contains(x));
        let j = choose|j: int| 0 <= j < other.len() && other[j] == x;
        assert(other.remove(j).to_multiset() == other.to_multiset().remove(x));
        assert(rest.to_multiset() =~= other.remove(j).to_multiset());
        lemma_checksum_permutation(rest, other.remove(j));
        lemma_byte_sum_remove(other, j);
    }
}

/// The bytes of a node frame: the node's address with the high bit set,
/// the length of what follows up to the checksum, the payload, the checksum
/// and the number of bytes that the node will answer with.
pub open spec fn node_frame(node: u8, payload: Seq<u8>, answer_len: nat) -> Seq<u8> {
    let head = seq![0x80u8 | node, (payload.len() + 1) as u8] + payload;
    head + seq![spec_checksum(head), answer_len as u8]
}

/// A node frame starts with the node's address (high bit set) and the
/// length of what follows up to the checksum, carries the payload, and
/// ends with the length of the expected answer; all its bytes but that
/// last one add up to a multiple of 256.
pub proof fn lemma_node_frame_layout(node: u8, payload: Seq<u8>, answer_len: nat)
    requires
        answer_len <= 255,
    ensures
        ({
            let f = node_frame(node, payload, answer_len);
            &&& f.len() == payload.len() + 4
            &&& f[0] == 0x80u8 | node
            &&& f[1] == (payload.len() + 1) as u8
            &&& f.subrange(2, 2 + payload.len() as int) == payload
            &&& f[f.len() - 1] == answer_len
            &&& byte_sum(f.drop_last()) % 256 == 0
        }),
{
    let head = seq![0x80u8 | node, (payload.len() + 1) as u8] + payload;
    let f = node_frame(node, payload, answer_len);
    assert(f.subrange(2, 2 + payload.len() as int) =~= payload);
    assert(f.drop_last() =~= head.push(spec_checksum(head)));
    lemma_checksum_closes_sum(head);
}

impl<T: PlainResponse> Response for FromNode<T> {
    open spec fn spec_size() -> nat {
        if T::spec_size() > 0 {
            T::spec_size() + 2
        } else {
            0
        }
    }

    open spec fn wire(&self) -> Seq<u8> {
        if T::spec_size() > 0 {
            self.0.wire() + seq![self.1, self.2]
        } else {
            self.0.wire()
        }
    }

    open spec fn canonical(&self) -> bool {
        &&& self.0.canonical()
        &&& T::spec_size() == 0 ==> self.1 == 0 && self.2 == 0
    }

    proof fn lemma_wire_len(&self) {
        self.0.lemma_wire_len();
    }

    proof fn lemma_wire_injective(&self, other: &Self) {
        self.0.lemma_wire_len();
        other.0.lemma_wire_len();
        if self.wire() == other.wire() {
            let n: int = T::spec_size() as int;
            if n > 0 {
                assert(self.0.wire() =~= self.wire().take(n));
                assert(other.0.wire() =~= other.wire().take(n));
                assert(self.wire()[n] == self.1);
                assert(other.wire()[n] == other.1);
                assert(self.wire()[n + 1] == self.2);
                assert(other.wire()[n + 1] == other.2);
            }
            self.0.lemma_wire_injective(&other.0);
        }
    }

    fn size() -> (n: usize) {
        let underlying: usize = T::size();
        proof {
            T::lemma_size_fits_frame();
        }
        if underlying > 0 {
            underlying + 2
        } else {
            underlying
        }
    }

    fn from_bytes(bytes: &[u8]) -> (r: Self) {
        proof {
            T::lemma_size_fits_frame();
        }
        if T::size() > 0 {
            let (response, trailer) = bytes.split_at(bytes.len() - 2);
            let r = FromNode(T::from_bytes(response), trailer[0], trailer[1]);
            assert(r.wire() =~= bytes@);
            r
        } else {
            FromNode(T::from_bytes(bytes), 0, 0)
        }
    }
}

impl<T: NodeMessage> Message for ToNode<T> {
    type Response = FromNode<T::Response>;

    open spec fn spec_serialize(&self) -> Seq<u8> {
        node_frame(self.0, self.1.spec_serialize(), FromNode::<T::Response>::spec_size())
    }

    fn serialize(&self) -> (bytes: Vec<u8>) {
        let id: u8 = 0x80 | self.0;
        let mut message = vec![id, 0];
        let mut payload = self.1.serialize();
        let ghost p = payload@;
        message.append(&mut payload);
        let len: u8 = (message.len() - 1) as u8;
        message.set(1, len);
        let ghost head = message@;
        assert(head =~= seq![0x80u8 | self.0, (p.len() + 1) as u8] + p);
        let c: u8 = checksum(message.as_slice());
        message.push(c);
        proof {
            T::Response::lemma_size_fits_frame();
        }
        message.push(Self::Response::size() as u8);
        assert(message@ =~= self.spec_serialize());
        message
    }
}

/// Resets a node.
#[derive(Debug, Copy, Clone, PartialEq, Eq, PartialOrd, Ord)]
pub struct Reset;

impl NodeMessage for Reset {
    type Response = ();

    open spec fn spec_serialize(&self) -> Seq<u8> {
        seq![0xf1]
    }

    fn serialize(&self) -> (bytes: Vec<u8>) {
        let v = vec![0xf1];
        assert(v@ =~= self.spec_serialize());
        v
    }
}

/// Asks a node for its firmware version.
#[derive(Debug, Copy, Clone, PartialEq, Eq, PartialOrd, Ord)]
pub struct GetNodeVersion;

/// The eleven bytes of a node's version.
#[derive(Debug, Copy, Clone, PartialEq, Eq, PartialOrd, Ord)]
pub struct GetNodeVersionResponse(pub [u8; 11]);

impl Response for GetNodeVersionResponse {
    open spec fn spec_size() -> nat {
        11
    }

    open spec fn wire(&self) -> Seq<u8> {
        self.0@
    }

    proof fn lemma_wire_len(&self) {
    }

    proof fn lemma_wire_injective(&self, other: &Self) {
        if self.wire() == other.wire() {
            assert(self.0 =~= other.0);
        }
    }

    fn size() -> (n: usize) {
        11
    }

    fn from_bytes(bytes: &[u8]) -> (r: Self) {
        let a = [
            bytes[0],
            bytes[1],
            bytes[2],
            bytes[3],
            bytes[4],
            bytes[5],
            bytes[6],
            bytes[7],
            bytes[8],
            bytes[9],
            bytes[10],
        ];
        assert(a@ =~= bytes@);
        GetNodeVersionResponse(a)
    }
}

impl PlainResponse for GetNodeVersionResponse {
    proof fn lemma_size_fits_frame() {
    }
}

impl NodeMessage for GetNodeVersion {
    type Response = GetNodeVersionResponse;

    open spec fn spec_serialize(&self) -> Seq<u8> {
        seq![0xfe]
    }

    fn serialize(&self) -> (bytes: Vec<u8>) {
        let v = vec![0xfe];
        assert(v@ =~= self.spec_serialize());
        v
    }
}

/// Sets the traffic flags of a node.
#[derive(Debug, Copy, Clone, PartialEq, Eq, PartialOrd, Ord)]
pub struct SetTrafficFlags(pub u8);

impl NodeMessage for SetTrafficFlags {
    type Response = ();

    open spec fn spec_serialize(&self) -> Seq<u8> {
        seq![0xf0, self.0]
    }

    fn serialize(&self) -> (bytes: Vec<u8>) {
        let v = vec![0xf0, self.0];
        assert(v@ =~= self.spec_serialize());
        v
    }
}

/// Asks a node for its status.
#[derive(Debug, Copy, Clone, PartialEq, Eq, PartialOrd, Ord)]
pub struct GetNodeStatus;

/// The eight bytes of a node's status.
#[derive(Debug, Copy, Clone, PartialEq, Eq, PartialOrd, Ord)]
pub struct GetNodeStatusResponse(pub [u8; 0x8]);

impl Response for GetNodeStatusResponse {
    open spec fn spec_size() -> nat {
        8
    }

    open spec fn wire(&self) -> Seq<u8> {
        self.0@
    }

    proof fn lemma_wire_len(&self) {
    }

    proof fn lemma_wire_injective(&self, other: &Self) {
        if self.wire() == other.wire() {
            assert(self.0 =~= other.0);
        }
    }

    fn size() -> (n: usize) {
        8
    }

    fn from_bytes(bytes: &[u8]) -> (r: Self) {
        let a = [bytes[0], bytes[1], bytes[2], bytes[3], bytes[4], bytes[5], bytes[6], bytes[7]];
        assert(a@ =~= bytes@);
        GetNodeStatusResponse(a)
    }
}

impl PlainResponse for GetNodeStatusResponse {
    proof fn lemma_size_fits_frame() {
    }
}

impl NodeMessage for GetNodeStatus {
    type Response = GetNodeStatusResponse;

    open spec fn spec_serialize(&self) -> Seq<u8> {
        seq![0xff]
    }

    fn serialize(&self) -> (bytes: Vec<u8>) {
        let v = vec![0xff];
        assert(v@ =~= self.spec_serialize());
        v
    }
}

/// Configures the LEDs and inputs of a node.
#[derive(Debug, Copy, Clone, PartialEq, Eq, PartialOrd, Ord)]
pub struct SetLEDsAndInputs(pub u8, pub u8);

impl NodeMessage for SetLEDsAndInputs {
    type Response = ();

    open spec fn spec_serialize(&self) -> Seq<u8> {
        seq![0x14, self.0, 0x00, self.1, 0x00]
    }

    fn serialize(&self) -> (bytes: Vec<u8>) {
        let v = vec![0x14, self.0, 0x0, self.1, 0x0];
        assert(v@ =~= self.spec_serialize());
        v
    }
}

/// Asks a node for the state of its switches.
#[derive(Debug, Copy, Clone, PartialEq, Eq, PartialOrd, Ord)]
pub struct GetInputState;

/// The eight bytes of switch bits of a node, and two more bytes.
#[derive(Debug, Copy, Clone, PartialEq, Eq, PartialOrd, Ord)]
pub struct GetInputStateResponse(pub [u8; 0x8], u8, u8);

impl GetInputStateResponse {
    /// The eight bytes of switch bits held in the first field.
    pub closed spec fn switch_bytes(&self) -> Seq<u8> {
        self.0@
    }

    /// The two bytes that follow the switch bits.
    pub closed spec fn trailer_bytes(&self) -> Seq<u8> {
        seq![self.1, self.2]
    }

    /// On the wire the eight switch bytes of the first field come first,
    /// then the two other bytes; so the value decoded from a reply holds the
    /// reply's first eight bytes as its switch bits.
    pub proof fn lemma_layout(&self)
        ensures
            self.switch_bytes().len() == 8,
            self.trailer_bytes().len() == 2,
            self.wire() == self.switch_bytes() + self.trailer_bytes(),
            self.wire().subrange(0, 8) == self.switch_bytes(),
    {
        assert(self.wire().subrange(0, 8) =~= self.switch_bytes());
    }

    /// The switch bits, bit `i` (least significant first within each byte)
    /// telling whether switch `i` is open.
    pub fn switches(&self) -> (bits: [u8; 8])
        ensures
            bits@ == self.wire().subrange(0, 8),
            bits@ == self.switch_bytes(),
    {
        assert(self.0@ =~= self.wire().subrange(0, 8));
        self.0
    }
}

impl Response for GetInputStateResponse {
    open spec fn spec_size() -> nat {
        10
    }

    closed spec fn wire(&self) -> Seq<u8> {
        self.0@ + seq![self.1, self.2]
    }

    proof fn lemma_wire_len(&self) {
    }

    proof fn lemma_wire_injective(&self, other: &Self) {
        if self.wire() == other.wire() {
            assert(self.0@ =~= self.wire().take(8));
            assert(other.0@ =~= other.wire().take(8));
            assert(self.0 =~= other.0);
            assert(self.wire()[8] == self.1);
            assert(other.wire()[8] == other.1);
            assert(self.wire()[9] == self.2);
            assert(other.wire()[9] == other.2);
        }
    }

    fn size() -> (n: usize) {
        10
    }

    fn from_bytes(bytes: &[u8]) -> (r: Self)
        ensures
            r.switch_bytes() == bytes@.subrange(0, 8),
            r.trailer_bytes() == bytes@.subrange(8, 10),
    {
        let a = [bytes[0], bytes[1], bytes[2], bytes[3], bytes[4], bytes[5], bytes[6], bytes[7]];
        let r = GetInputStateResponse(a, bytes[8], bytes[9]);
        assert(r.switch_bytes() =~= bytes@.subrange(0, 8));
        assert(r.trailer_bytes() =~= bytes@.subrange(8, 10));
        assert(r.wire() =~= bytes@);
        r
    }
}

impl PlainResponse for GetInputStateResponse {
    proof fn lemma_size_fits_frame() {
    }
}

impl NodeMessage for GetInputState {
    type Response = GetInputStateResponse;

    open spec fn spec_serialize(&self) -> Seq<u8> {
        seq![0x11]
    }

    fn serialize(&self) -> (bytes: Vec<u8>) {
        let v = vec![0x11];
        assert(v@ =~= self.spec_serialize());
        v
    }
}

} // verus!

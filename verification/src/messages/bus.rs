//! Messages handled by the bridge of the node bus itself.
use vstd::prelude::*;

use super::{Message, PlainResponse, Response};

verus! {

/// Asks the bridge for a node that has pending input.
#[derive(Debug, Copy, Clone, PartialEq, Eq, PartialOrd, Ord)]
pub struct Poll;

/// The node with pending input, or 0 when no node has any.
#[derive(Debug, Copy, Clone, PartialEq, Eq, PartialOrd, Ord)]
pub struct PollResponse(pub u8);

impl Response for PollResponse {
    open spec fn spec_size() -> nat {
        1
    }

    open spec fn wire(&self) -> Seq<u8> {
        seq![self.0]
    }

    proof fn lemma_wire_len(&self) {
    }

    proof fn lemma_wire_injective(&self, other: &Self) {
        if self.wire() == other.wire() {
            assert(self.wire()[0] == other.wire()[0]);
        }
    }

    fn size() -> (n: usize) {
        1
    }

    fn from_bytes(bytes: &[u8]) -> (r: Self) {
        let r = PollResponse(bytes[0]);
        assert(r.wire() =~= bytes@);
        r
    }
}

impl PlainResponse for PollResponse {
    proof fn lemma_size_fits_frame() {
    }
}

impl Message for Poll {
    type Response = PollResponse;

    open spec fn spec_serialize(&self) -> Seq<u8> {
        seq![0x00]
    }

    fn serialize(&self) -> (bytes: Vec<u8>) {
        let v = vec![0x0];
        assert(v@ =~= self.spec_serialize());
        v
    }
}

/// Switches the power of the node bus on or off.
#[derive(Debug, Copy, Clone, PartialEq, Eq, PartialOrd, Ord)]
pub struct SetPower(pub bool);

impl Message for SetPower {
    type Response = ();

    open spec fn spec_serialize(&self) -> Seq<u8> {
        seq![0x07, 1, self.0 as u8]
    }

    fn serialize(&self) -> (bytes: Vec<u8>) {
        let v = vec![0x07, 1, self.0 as u8];
        assert(v@ =~= self.spec_serialize());
        v
    }
}

/// Switches the power of the amplifier on or off.
#[derive(Debug, Copy, Clone, PartialEq, Eq, PartialOrd, Ord)]
pub struct SetAmpPower(pub bool);

impl Message for SetAmpPower {
    type Response = ();

    open spec fn spec_serialize(&self) -> Seq<u8> {
        seq![0x08, 1, self.0 as u8]
    }

    fn serialize(&self) -> (bytes: Vec<u8>) {
        let v = vec![0x08, 1, self.0 as u8];
        assert(v@ =~= self.spec_serialize());
        v
    }
}

/// Asks the bridge for its state.
#[derive(Debug, Copy, Clone, PartialEq, Eq, PartialOrd, Ord)]
pub struct GetBridgeState;

/// The two bytes of the bridge's state.
#[derive(Debug, Copy, Clone, PartialEq, Eq, PartialOrd, Ord)]
pub struct GetBridgeStateResponse(u8, u8);

impl Response for GetBridgeStateResponse {
    open spec fn spec_size() -> nat {
        2
    }

    closed spec fn wire(&self) -> Seq<u8> {
        seq![self.0, self.1]
    }

    proof fn lemma_wire_len(&self) {
    }

    proof fn lemma_wire_injective(&self, other: &Self) {
        if self.wire() == other.wire() {
            assert(self.wire()[0] == other.wire()[0]);
            assert(self.wire()[1] == other.wire()[1]);
        }
    }

    fn size() -> (n: usize) {
        2
    }

    fn from_bytes(bytes: &[u8]) -> (r: Self) {
        let r = GetBridgeStateResponse(bytes[0], bytes[1]);
        assert(r.wire() =~= bytes@);
        r
    }
}

impl PlainResponse for GetBridgeStateResponse {
    proof fn lemma_size_fits_frame() {
    }
}

impl Message for GetBridgeState {
    type Response = GetBridgeStateResponse;

    open spec fn spec_serialize(&self) -> Seq<u8> {
        seq![0x0a, 0x00]
    }

    fn serialize(&self) -> (bytes: Vec<u8>) {
        let v = vec![0x0a, 0x0];
        assert(v@ =~= self.spec_serialize());
        v
    }
}

/// Asks the bridge for its status.
#[derive(Debug, Copy, Clone, PartialEq, Eq, PartialOrd, Ord)]
pub struct GetBridgeStatus;

/// The two bytes of the bridge's status.
#[derive(Debug, Copy, Clone, PartialEq, Eq, PartialOrd, Ord)]
pub struct GetBridgeStatusResponse(u8, u8);

impl Response for GetBridgeStatusResponse {
    open spec fn spec_size() -> nat {
        2
    }

    closed spec fn wire(&self) -> Seq<u8> {
        seq![self.0, self.1]
    }

    proof fn lemma_wire_len(&self) {
    }

    proof fn lemma_wire_injective(&self, other: &Self) {
        if self.wire() == other.wire() {
            assert(self.wire()[0] == other.wire()[0]);
            assert(self.wire()[1] == other.wire()[1]);
        }
    }

    fn size() -> (n: usize) {
        2
    }

    fn from_bytes(bytes: &[u8]) -> (r: Self) {
        let r = GetBridgeStatusResponse(bytes[0], bytes[1]);
        assert(r.wire() =~= bytes@);
        r
    }
}

impl PlainResponse for GetBridgeStatusResponse {
    proof fn lemma_size_fits_frame() {
    }
}

impl Message for GetBridgeStatus {
    type Response = GetBridgeStatusResponse;

    open spec fn spec_serialize(&self) -> Seq<u8> {
        seq![0x05, 0x00]
    }

    fn serialize(&self) -> (bytes: Vec<u8>) {
        let v = vec![0x05, 0x0];
        assert(v@ =~= self.spec_serialize());
        v
    }
}

/// Asks the bridge for its firmware version.
#[derive(Debug, Copy, Clone, PartialEq, Eq, PartialOrd, Ord)]
pub struct GetBridgeVersion;

/// The three bytes of the bridge's version.
#[derive(Debug, Copy, Clone, PartialEq, Eq, PartialOrd, Ord)]
pub struct GetBridgeVersionResponse(u8, u8, u8);

impl Response for GetBridgeVersionResponse {
    open spec fn spec_size() -> nat {
        3
    }

    closed spec fn wire(&self) -> Seq<u8> {
        seq![self.0, self.1, self.2]
    }

    proof fn lemma_wire_len(&self) {
    }

    proof fn lemma_wire_injective(&self, other: &Self) {
        if self.wire() == other.wire() {
            assert(self.wire()[0] == other.wire()[0]);
            assert(self.wire()[1] == other.wire()[1]);
            assert(self.wire()[2] == other.wire()[2]);
        }
    }

    fn size() -> (n: usize) {
        3
    }

    fn from_bytes(bytes: &[u8]) -> (r: Self) {
        let r = GetBridgeVersionResponse(bytes[0], bytes[1], bytes[2]);
        assert(r.wire() =~= bytes@);
        r
    }
}

impl PlainResponse for GetBridgeVersionResponse {
    proof fn lemma_size_fits_frame() {
    }
}

impl Message for GetBridgeVersion {
    type Response = GetBridgeVersionResponse;

    open spec fn spec_serialize(&self) -> Seq<u8> {
        seq![0x03, 0x00]
    }

    fn serialize(&self) -> (bytes: Vec<u8>) {
        let v = vec![0x03, 0x0];
        assert(v@ =~= self.spec_serialize());
        v
    }
}

} // verus!

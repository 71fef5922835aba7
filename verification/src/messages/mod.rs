//! Messages sent on the node bus and the responses that come back.
use vstd::prelude::*;

pub mod bus;
pub mod node;

verus! {

/// A response read from the node bus: a fixed number of bytes, each field
/// taken in order.
pub trait Response: Sized {
    /// The number of bytes that the response occupies on the wire.
    spec fn spec_size() -> nat;

    /// The bytes by which the response travels on the wire.
    spec fn wire(&self) -> Seq<u8>;

    /// The encoding of every response has exactly the response's size.
    proof fn lemma_wire_len(&self)
        ensures
            self.wire().len() == Self::spec_size(),
    ;

    /// Holds of every response that decoding gives; fields that take no
    /// bytes on the wire are then zero.
    open spec fn canonical(&self) -> bool {
        true
    }

    /// Two canonical responses with the same bytes are the same response.
    proof fn lemma_wire_injective(&self, other: &Self)
        requires
            self.canonical(),
            other.canonical(),
        ensures
            self.wire() == other.wire() ==> *self == *other,
    ;

    /// The number of bytes to read for this response.
    fn size() -> (n: usize)
        ensures
            n == Self::spec_size(),
    ;

    /// Decodes a response from exactly `size()` bytes.
    fn from_bytes(bytes: &[u8]) -> (r: Self)
        requires
            bytes@.len() == Self::spec_size(),
        ensures
            r.wire() == bytes@,
            r.canonical(),
    ;
}

/// A response made of plain bytes, which a node wraps with its two trailer
/// bytes. Its size leaves room for the trailer within the one byte by
/// which a node frame announces the length of its answer.
pub trait PlainResponse: Response {
    proof fn lemma_size_fits_frame()
        ensures
            Self::spec_size() + 2 <= 255,
    ;
}

/// A message sent to the bridge of the node bus.
pub trait Message {
    type Response: Response;

    /// The bytes of the message on the wire.
    spec fn spec_serialize(&self) -> Seq<u8>;

    fn serialize(&self) -> (bytes: Vec<u8>)
        ensures
            bytes@ == self.spec_serialize(),
    ;
}

impl Response for () {
    open spec fn spec_size() -> nat {
        0
    }

    open spec fn wire(&self) -> Seq<u8> {
        Seq::empty()
    }

    proof fn lemma_wire_len(&self) {
    }

    proof fn lemma_wire_injective(&self, other: &Self) {
    }

    fn size() -> (n: usize) {
        0
    }

    fn from_bytes(bytes: &[u8]) -> (r: Self) {
        assert(bytes@ =~= Seq::<u8>::empty());
    }
}

impl PlainResponse for () {
    proof fn lemma_size_fits_frame() {
    }
}

} // verus!

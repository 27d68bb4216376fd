//! The payload handed from the interrupt handler to the deferred worker.

use vstd::prelude::*;

verus! {

/// Largest payload a [`Packet`] holds: the maximum packet size of the bulk
/// OUT endpoint.
pub const PACKET_CAPACITY: usize = 64;

/// One received transfer, copied out of the staging buffer.
///
/// A packet owns its bytes, so the staging buffer can be reused as soon as the
/// packet exists. Only the received bytes are kept; the rest of the storage is
/// zero, whatever the staging buffer held there.
#[derive(Clone, Copy, Debug, PartialEq, Eq)]
pub struct Packet {
    bytes: [u8; PACKET_CAPACITY],
    len: usize,
}

impl View for Packet {
    type V = Seq<u8>;

    /// The received bytes, in order.
    closed spec fn view(&self) -> Seq<u8> {
        self.bytes@.subrange(0, self.len as int)
    }
}

impl Packet {
    #[verifier::type_invariant]
    spec fn well_formed(&self) -> bool {
        &&& self.len <= PACKET_CAPACITY
        &&& forall|i: int| self.len <= i < PACKET_CAPACITY ==> self.bytes@[i] == 0
    }

    /// Copies the first `count` bytes of `buffer` into a new packet.
    ///
    /// There is no packet when `count` bytes are more than `buffer` holds or
    /// more than a packet can carry.
    pub fn capture(buffer: &[u8], count: usize) -> (packet: Option<Packet>)
        ensures
            packet is Some <==> count <= buffer@.len() && count <= PACKET_CAPACITY,
            packet matches Some(p) ==> p@ == buffer@.subrange(0, count as int),
    {
        if count > buffer.len() || count > PACKET_CAPACITY {
            return None;
        }
        let mut bytes: [u8; PACKET_CAPACITY] = [0u8; PACKET_CAPACITY];
        let mut i: usize = 0;
        while i < count
            invariant
                i <= count,
                count <= buffer@.len(),
                count <= PACKET_CAPACITY,
                forall|k: int| 0 <= k < i ==> bytes@[k] == buffer@[k],
                forall|k: int| i <= k < PACKET_CAPACITY ==> bytes@[k] == 0,
            decreases count - i,
        {
            bytes[i] = buffer[i];
            i = i + 1;
        }
        let packet = Packet { bytes, len: count };
        assert(packet@ =~= buffer@.subrange(0, count as int));
        Some(packet)
    }

    /// Number of bytes received.
    pub fn len(&self) -> (n: usize)
        ensures
            n == self@.len(),
            n <= PACKET_CAPACITY,
    {
        proof {
            use_type_invariant(self);
        }
        self.len
    }

    /// Whether the transfer was a zero-length packet.
    pub fn is_empty(&self) -> (empty: bool)
        ensures
            empty == (self@.len() == 0),
    {
        proof {
            use_type_invariant(self);
        }
        self.len == 0
    }

    /// The received bytes.
    pub fn payload(&self) -> (bytes: &[u8])
        ensures
            bytes@ == self@,
    {
        proof {
            use_type_invariant(self);
        }
        vstd::slice::slice_subrange(self.bytes.as_slice(), 0, self.len)
    }
}

} // verus!

//! Outcomes of endpoint operations that are not a byte count.

use vstd::prelude::*;

verus! {

/// What the bus driver reports when an endpoint operation does not complete.
/// One variant for each condition the driver distinguishes.
#[derive(Clone, Copy, Debug, PartialEq, Eq, Structural)]
pub enum UsbFault {
    /// The operation cannot complete now; trying again later may succeed.
    WouldBlock,
    /// A control request could not be parsed.
    ParseError,
    /// The data does not fit the buffer it was meant for.
    BufferOverflow,
    /// No endpoint is left to allocate.
    EndpointOverflow,
    /// No endpoint memory is left to allocate.
    EndpointMemoryOverflow,
    /// The endpoint address is not one that was allocated.
    InvalidEndpoint,
    /// The driver does not support the operation.
    Unsupported,
    /// The operation is not valid in the current state.
    InvalidState,
}

/// Why an attempt to drain the OUT endpoint produced no packet.
#[derive(Clone, Copy, Debug, PartialEq, Eq, Structural)]
pub enum ReadError {
    /// No transfer is pending. Expected, and not a fault.
    WouldBlock,
    /// The pending transfer is larger than the buffer offered for it.
    BufferOverflow,
    /// Any other failure of the transport.
    Other,
}

/// Why an attempt to queue a packet on the IN endpoint did not succeed.
#[derive(Clone, Copy, Debug, PartialEq, Eq, Structural)]
pub enum WriteError {
    /// The endpoint still holds an earlier packet. Expected, and not a fault.
    WouldBlock,
    /// Any other failure of the transport.
    Other,
}

/// The bus allocator could not reserve what the interface needs. Fatal at
/// start-up: no partial device may be presented to the host.
#[derive(Clone, Copy, Debug, PartialEq, Eq, Structural)]
pub struct ResourceExhausted {
    /// What the allocator reported for the first reservation that failed.
    pub fault: UsbFault,
}

} // verus!

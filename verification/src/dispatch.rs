//! The decisions of the bus interrupt handler.
//!
//! The handler runs at interrupt priority and must never wait. On every bus
//! interrupt it polls the bus, tells the dispatcher what it saw, and does what
//! the dispatcher answers: run the hardware-configuration step, service the
//! interface and attempt one read, or return at once. After a read it asks
//! again, and either hands a packet to the deferred worker or signals a fault.
//! The dispatcher itself performs no bus or board operation.

use crate::enumeration::{configuration_due, latch_after, ConfigurationLatch, EnumerationState};
use crate::fault::ReadError;
use crate::packet::{Packet, PACKET_CAPACITY};
use vstd::prelude::*;

verus! {

/// What the handler does after polling the bus.
#[derive(Clone, Copy, Debug, PartialEq, Eq, Structural)]
pub enum PollAction {
    /// Leave the interrupt: the bus had nothing pending, or the device is not
    /// configured and must not touch its endpoints.
    Return,
    /// Run the hardware-configuration step first if `configure` is set, then
    /// poll the interface and attempt one read from the OUT endpoint.
    Service {
        /// Whether the hardware-configuration step is due in this invocation.
        configure: bool,
    },
}

/// What the handler does after one settled read.
#[derive(Clone, Copy, Debug, PartialEq, Eq)]
pub enum ReadAction {
    /// Hand the packet to the deferred worker, without waiting for it.
    Dispatch(Packet),
    /// Nothing was pending. Not an error.
    Idle,
    /// Signal that a transfer exceeded the staging buffer, and carry on.
    SignalOverflow,
    /// Signal any other fault of the transport, and carry on.
    SignalFault,
}

/// A [`ReadAction`] with the packet as the bytes it carries.
pub enum ReadEffect {
    /// The deferred worker receives these bytes.
    Dispatch(Seq<u8>),
    /// Nothing happens.
    Idle,
    /// The overflow fault is signalled.
    SignalOverflow,
    /// The other fault is signalled.
    SignalFault,
}

impl View for ReadAction {
    type V = ReadEffect;

    open spec fn view(&self) -> ReadEffect {
        match *self {
            ReadAction::Dispatch(packet) => ReadEffect::Dispatch(packet@),
            ReadAction::Idle => ReadEffect::Idle,
            ReadAction::SignalOverflow => ReadEffect::SignalOverflow,
            ReadAction::SignalFault => ReadEffect::SignalFault,
        }
    }
}

/// What the handler does after a poll that reported `pending`, with the
/// device in `state` and the configuration latch at `latch`.
///
/// Without pending activity nothing is evaluated. Otherwise the device is
/// serviced exactly when it is configured, and the configuration step is due
/// exactly when the latch was still clear.
pub open spec fn poll_action(latch: bool, pending: bool, state: EnumerationState) -> PollAction {
    if pending && state is Configured {
        PollAction::Service { configure: configuration_due(latch, state) }
    } else {
        PollAction::Return
    }
}

/// The configuration latch after a poll that reported `pending` with the
/// device in `state`: untouched without pending activity, otherwise set
/// exactly when the device is configured.
pub open spec fn latch_after_poll(latch: bool, pending: bool, state: EnumerationState) -> bool {
    if pending {
        latch_after(state)
    } else {
        latch
    }
}

/// A settled read delivers a packet when it reports a count that fits both
/// the staging buffer and a packet.
pub open spec fn deliverable(result: Result<usize, ReadError>, buffer: Seq<u8>) -> bool {
    result matches Ok(count) && count <= buffer.len() && count <= PACKET_CAPACITY
}

/// What the handler does after a read settled as `result`, with `buffer` as
/// the staging buffer that the read filled.
pub open spec fn read_effect(result: Result<usize, ReadError>, buffer: Seq<u8>) -> ReadEffect {
    match result {
        Ok(count) => if deliverable(result, buffer) {
            ReadEffect::Dispatch(buffer.subrange(0, count as int))
        } else {
            ReadEffect::SignalFault
        },
        Err(ReadError::WouldBlock) => ReadEffect::Idle,
        Err(ReadError::BufferOverflow) => ReadEffect::SignalOverflow,
        Err(ReadError::Other) => ReadEffect::SignalFault,
    }
}

/// The state that the interrupt handler keeps between invocations: the
/// configuration latch, and nothing else.
#[derive(Clone, Copy, Debug, PartialEq, Eq)]
pub struct InterruptDispatcher {
    latch: ConfigurationLatch,
}

impl InterruptDispatcher {
    /// Whether the hardware-configuration step has run for the current
    /// configuration session.
    pub closed spec fn configured_spec(&self) -> bool {
        self.latch.is_set()
    }

    /// The dispatcher at power-up: not configured.
    pub fn new() -> (dispatcher: Self)
        ensures
            !dispatcher.configured(),
    {
        InterruptDispatcher { latch: ConfigurationLatch::new() }
    }

    /// Whether the hardware-configuration step has run for the current
    /// configuration session.
    #[verifier::when_used_as_spec(configured_spec)]
    pub fn configured(&self) -> (configured: bool)
        ensures
            configured == self.configured_spec(),
    {
        self.latch.is_set()
    }

    /// Decides what the handler does after polling the bus.
    ///
    /// `pending` is what the poll returned, `state` the enumeration state
    /// read after it. The configuration step is asked for only while the
    /// device is configured, and only on the first serviced invocation of a
    /// configuration session. Leaving the configured state clears the latch,
    /// so the next session configures again.
    pub fn on_poll(&mut self, pending: bool, state: EnumerationState) -> (action: PollAction)
        ensures
            action == poll_action(old(self).configured(), pending, state),
            final(self).configured() == latch_after_poll(old(self).configured(), pending, state),
            action matches PollAction::Service { configure: true } ==> state is Configured,
            action is Service <==> pending && final(self).configured(),
    {
        if !pending {
            return PollAction::Return;
        }
        let configure = self.latch.observe(state);
        if self.latch.is_set() {
            PollAction::Service { configure }
        } else {
            PollAction::Return
        }
    }

    /// Decides what the handler does after one read from the OUT endpoint.
    ///
    /// `result` is the read as the interface settled it, `buffer` the staging
    /// buffer it filled. A successful read yields exactly one packet, which
    /// carries the first `count` bytes of the buffer and owns them, so the
    /// buffer is free again when this returns. Faults are signalled and leave
    /// the dispatcher as it was: the next invocation is serviced as if the
    /// fault had not happened.
    pub fn on_read(&self, result: Result<usize, ReadError>, buffer: &[u8]) -> (action: ReadAction)
        ensures
            action@ == read_effect(result, buffer@),
    {
        match result {
            Ok(count) => match Packet::capture(buffer, count) {
                Some(packet) => ReadAction::Dispatch(packet),
                None => ReadAction::SignalFault,
            },
            Err(ReadError::WouldBlock) => ReadAction::Idle,
            Err(ReadError::BufferOverflow) => ReadAction::SignalOverflow,
            Err(ReadError::Other) => ReadAction::SignalFault,
        }
    }
}

} // verus!

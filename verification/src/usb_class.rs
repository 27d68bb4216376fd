//! The vendor-specific interface: one interrupt IN endpoint, one bulk OUT
//! endpoint, the descriptors that announce them, and the rules by which a
//! transfer on either endpoint is settled.

use crate::fault::{ReadError, ResourceExhausted, UsbFault, WriteError};
use vstd::prelude::*;

verus! {

/// Maximum packet size of the interrupt IN endpoint, in bytes.
pub const IN_MAX_PACKET_SIZE: u16 = 64;

/// Polling interval of the interrupt IN endpoint, in frames.
pub const IN_POLL_INTERVAL: u8 = 255;

/// Maximum packet size of the bulk OUT endpoint, in bytes.
pub const OUT_MAX_PACKET_SIZE: u16 = 64;

/// Interface class code: vendor-specific, so no standard class driver binds.
pub const INTERFACE_CLASS: u8 = 0xff;

/// Interface sub-class code.
pub const INTERFACE_SUB_CLASS: u8 = 0;

/// Interface protocol code.
pub const INTERFACE_PROTOCOL: u8 = 0;

/// Descriptor type of an interface descriptor.
pub const DESCRIPTOR_TYPE_INTERFACE: u8 = 4;

/// Descriptor type of an endpoint descriptor.
pub const DESCRIPTOR_TYPE_ENDPOINT: u8 = 5;

/// Transfer type bits of a bulk endpoint.
pub const TRANSFER_TYPE_BULK: u8 = 2;

/// Transfer type bits of an interrupt endpoint.
pub const TRANSFER_TYPE_INTERRUPT: u8 = 3;

/// Text that the device may transmit on the IN endpoint after a transfer
/// overflowed the staging buffer.
pub const OVERFLOW_DIAGNOSTIC: &'static str = "buffer overflow??";

/// Length of everything the class contributes to a configuration descriptor:
/// a nine-byte interface descriptor and two seven-byte endpoint descriptors.
pub const CLASS_DESCRIPTORS_LEN: usize = 23;

/// The interface descriptor of interface `interface`: default alternate
/// setting, two endpoints, vendor-specific class, no string.
pub open spec fn interface_descriptor(interface: u8) -> Seq<u8> {
    seq![
        9u8,
        DESCRIPTOR_TYPE_INTERFACE,
        interface,
        0u8,
        2u8,
        INTERFACE_CLASS,
        INTERFACE_SUB_CLASS,
        INTERFACE_PROTOCOL,
        0u8,
    ]
}

/// An endpoint descriptor: address, transfer type, maximum packet size with
/// the low byte first, polling interval.
pub open spec fn endpoint_descriptor(
    address: u8,
    transfer_type: u8,
    max_packet_size: u16,
    interval: u8,
) -> Seq<u8> {
    seq![
        7u8,
        DESCRIPTOR_TYPE_ENDPOINT,
        address,
        transfer_type,
        (max_packet_size % 256) as u8,
        (max_packet_size / 256) as u8,
        interval,
    ]
}

/// What the class contributes to the configuration descriptor: the interface
/// descriptor, then the IN endpoint's, then the OUT endpoint's.
pub open spec fn class_descriptors(interface: u8, write_address: u8, read_address: u8) -> Seq<u8> {
    interface_descriptor(interface) + endpoint_descriptor(
        write_address,
        TRANSFER_TYPE_INTERRUPT,
        IN_MAX_PACKET_SIZE,
        IN_POLL_INTERVAL,
    ) + endpoint_descriptor(read_address, TRANSFER_TYPE_BULK, OUT_MAX_PACKET_SIZE, 0)
}

/// A count reported by the OUT endpoint for a buffer of `capacity` bytes is
/// credible when it exceeds neither the buffer nor the endpoint's maximum
/// packet size.
pub open spec fn credible_read(count: usize, capacity: nat) -> bool {
    count <= capacity && count <= OUT_MAX_PACKET_SIZE
}

/// A count reported by the IN endpoint for a packet of `len` bytes is
/// credible when it exceeds neither the packet nor the endpoint's maximum
/// packet size.
pub open spec fn credible_write(count: usize, len: nat) -> bool {
    count <= len && count <= IN_MAX_PACKET_SIZE
}

/// What [`LEDragonUsbClass::read`] makes of the endpoint's report `outcome`
/// for a buffer of `capacity` bytes.
pub open spec fn read_result(outcome: Result<usize, UsbFault>, capacity: nat) -> Result<
    usize,
    ReadError,
> {
    match outcome {
        Ok(count) => if credible_read(count, capacity) {
            Ok(count)
        } else {
            Err(ReadError::Other)
        },
        Err(UsbFault::WouldBlock) => Err(ReadError::WouldBlock),
        Err(UsbFault::BufferOverflow) => Err(ReadError::BufferOverflow),
        Err(_) => Err(ReadError::Other),
    }
}

/// What [`LEDragonUsbClass::write`] makes of the endpoint's report `outcome`
/// for a packet of `len` bytes.
pub open spec fn write_result(outcome: Result<usize, UsbFault>, len: nat) -> Result<
    usize,
    WriteError,
> {
    match outcome {
        Ok(count) => if credible_write(count, len) {
            Ok(count)
        } else {
            Err(WriteError::Other)
        },
        Err(UsbFault::WouldBlock) => Err(WriteError::WouldBlock),
        Err(_) => Err(WriteError::Other),
    }
}

/// The overflow diagnostic as the bytes to transmit: one byte for each
/// character of [`OVERFLOW_DIAGNOSTIC`], few enough for a single packet on the
/// IN endpoint.
pub fn overflow_diagnostic() -> (text: &'static [u8])
    ensures
        text@ == Seq::new(OVERFLOW_DIAGNOSTIC@.len(), |i: int| OVERFLOW_DIAGNOSTIC@[i] as u8),
        text@.len() == 17,
        text@.len() <= IN_MAX_PACKET_SIZE,
{
    proof {
        reveal_strlit("buffer overflow??");
        vstd::string::is_ascii_spec_bytes(OVERFLOW_DIAGNOSTIC);
    }
    OVERFLOW_DIAGNOSTIC.as_bytes()
}

/// The custom interface: its number and the addresses of its two endpoints.
///
/// The bus allocator assigns all three at start-up. They never change
/// afterwards, and no other interface shares the endpoints.
#[derive(Clone, Copy, Debug, PartialEq, Eq)]
pub struct LEDragonUsbClass {
    interface: u8,
    write_address: u8,
    read_address: u8,
}

impl LEDragonUsbClass {
    /// The interface number.
    pub closed spec fn interface_spec(&self) -> u8 {
        self.interface
    }

    /// The address of the interrupt IN endpoint.
    pub closed spec fn write_address_spec(&self) -> u8 {
        self.write_address
    }

    /// The address of the bulk OUT endpoint.
    pub closed spec fn read_address_spec(&self) -> u8 {
        self.read_address
    }

    /// Builds the interface from what the bus allocator answered: the
    /// interface number, and for each endpoint its address or the fault that
    /// kept it from being reserved.
    ///
    /// The caller reserves the IN endpoint first, as an interrupt endpoint
    /// with [`IN_MAX_PACKET_SIZE`] and [`IN_POLL_INTERVAL`], then the OUT
    /// endpoint as a bulk endpoint with [`OUT_MAX_PACKET_SIZE`]. Construction
    /// fails only when a reservation failed, and reports the first one that
    /// did.
    pub fn new(
        interface: u8,
        write_endpoint: Result<u8, UsbFault>,
        read_endpoint: Result<u8, UsbFault>,
    ) -> (r: Result<Self, ResourceExhausted>)
        ensures
            match (write_endpoint, read_endpoint) {
                (Ok(write_address), Ok(read_address)) => {
                    &&& r matches Ok(class)
                    &&& class.interface() == interface
                    &&& class.write_address() == write_address
                    &&& class.read_address() == read_address
                },
                (Err(fault), _) => r == Err::<Self, ResourceExhausted>(
                    ResourceExhausted { fault },
                ),
                (Ok(_), Err(fault)) => r == Err::<Self, ResourceExhausted>(
                    ResourceExhausted { fault },
                ),
            },
    {
        match write_endpoint {
            Err(fault) => Err(ResourceExhausted { fault }),
            Ok(write_address) => match read_endpoint {
                Err(fault) => Err(ResourceExhausted { fault }),
                Ok(read_address) => Ok(LEDragonUsbClass { interface, write_address, read_address }),
            },
        }
    }

    /// The interface number.
    #[verifier::when_used_as_spec(interface_spec)]
    pub fn interface(&self) -> (interface: u8)
        ensures
            interface == self.interface_spec(),
    {
        self.interface
    }

    /// The address of the interrupt IN endpoint.
    #[verifier::when_used_as_spec(write_address_spec)]
    pub fn write_address(&self) -> (address: u8)
        ensures
            address == self.write_address_spec(),
    {
        self.write_address
    }

    /// The address of the bulk OUT endpoint.
    #[verifier::when_used_as_spec(read_address_spec)]
    pub fn read_address(&self) -> (address: u8)
        ensures
            address == self.read_address_spec(),
    {
        self.read_address
    }

    /// The bytes the interface contributes to the configuration descriptor.
    ///
    /// They depend on nothing but the interface itself, so every enumeration
    /// sees the same descriptors.
    pub fn configuration_descriptors(&self) -> (bytes: [u8; CLASS_DESCRIPTORS_LEN])
        ensures
            bytes@ == class_descriptors(
                self.interface(),
                self.write_address(),
                self.read_address(),
            ),
    {
        let bytes: [u8; CLASS_DESCRIPTORS_LEN] = [
            9,
            DESCRIPTOR_TYPE_INTERFACE,
            self.interface,
            0,
            2,
            INTERFACE_CLASS,
            INTERFACE_SUB_CLASS,
            INTERFACE_PROTOCOL,
            0,
            7,
            DESCRIPTOR_TYPE_ENDPOINT,
            self.write_address,
            TRANSFER_TYPE_INTERRUPT,
            (IN_MAX_PACKET_SIZE % 256) as u8,
            (IN_MAX_PACKET_SIZE / 256) as u8,
            IN_POLL_INTERVAL,
            7,
            DESCRIPTOR_TYPE_ENDPOINT,
            self.read_address,
            TRANSFER_TYPE_BULK,
            (OUT_MAX_PACKET_SIZE % 256) as u8,
            (OUT_MAX_PACKET_SIZE / 256) as u8,
            0,
        ];
        assert(bytes@ =~= class_descriptors(self.interface, self.write_address, self.read_address));
        bytes
    }

    /// Settles one attempt to drain the OUT endpoint into `data`, given the
    /// endpoint's report `outcome` of that attempt.
    ///
    /// A credible count stands; the first `count` bytes of `data` are then
    /// the packet. "Would block" and "buffer overflow" pass through. A count
    /// that is not credible, and every other fault, is [`ReadError::Other`].
    pub fn read(&self, outcome: Result<usize, UsbFault>, data: &[u8]) -> (r: Result<
        usize,
        ReadError,
    >)
        ensures
            r == read_result(outcome, data@.len()),
    {
        match outcome {
            Ok(count) => {
                if count <= data.len() && count <= OUT_MAX_PACKET_SIZE as usize {
                    Ok(count)
                } else {
                    Err(ReadError::Other)
                }
            },
            Err(UsbFault::WouldBlock) => Err(ReadError::WouldBlock),
            Err(UsbFault::BufferOverflow) => Err(ReadError::BufferOverflow),
            Err(_) => Err(ReadError::Other),
        }
    }

    /// Settles one attempt to queue `data` on the IN endpoint, given the
    /// endpoint's report `outcome` of that attempt.
    ///
    /// A credible count stands. "Would block" passes through: the endpoint is
    /// busy, and the caller may try again later. A count that is not
    /// credible, and every other fault, is [`WriteError::Other`].
    pub fn write(&self, outcome: Result<usize, UsbFault>, data: &[u8]) -> (r: Result<
        usize,
        WriteError,
    >)
        ensures
            r == write_result(outcome, data@.len()),
    {
        match outcome {
            Ok(count) => {
                if count <= data.len() && count <= IN_MAX_PACKET_SIZE as usize {
                    Ok(count)
                } else {
                    Err(WriteError::Other)
                }
            },
            Err(UsbFault::WouldBlock) => Err(WriteError::WouldBlock),
            Err(_) => Err(WriteError::Other),
        }
    }
}

} // verus!

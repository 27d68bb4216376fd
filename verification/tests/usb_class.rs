use ledragon::usb_class::{
    overflow_diagnostic, CLASS_DESCRIPTORS_LEN, INTERFACE_CLASS, INTERFACE_PROTOCOL,
    INTERFACE_SUB_CLASS, IN_MAX_PACKET_SIZE, IN_POLL_INTERVAL, OUT_MAX_PACKET_SIZE,
    OVERFLOW_DIAGNOSTIC,
};
use ledragon::{LEDragonUsbClass, ReadError, ResourceExhausted, UsbFault, WriteError};

fn class() -> LEDragonUsbClass {
    LEDragonUsbClass::new(0, Ok(0x81), Ok(0x01)).unwrap()
}

const ALL_FAULTS: [UsbFault; 8] = [
    UsbFault::WouldBlock,
    UsbFault::ParseError,
    UsbFault::BufferOverflow,
    UsbFault::EndpointOverflow,
    UsbFault::EndpointMemoryOverflow,
    UsbFault::InvalidEndpoint,
    UsbFault::Unsupported,
    UsbFault::InvalidState,
];

#[test]
fn endpoint_parameters() {
    assert_eq!(IN_MAX_PACKET_SIZE, 64);
    assert_eq!(IN_POLL_INTERVAL, 255);
    assert_eq!(OUT_MAX_PACKET_SIZE, 64);
    assert_eq!(INTERFACE_CLASS, 0xff);
    assert_eq!(INTERFACE_SUB_CLASS, 0);
    assert_eq!(INTERFACE_PROTOCOL, 0);
}

#[test]
fn new_keeps_what_the_allocator_assigned() {
    let class = LEDragonUsbClass::new(3, Ok(0x82), Ok(0x04)).unwrap();
    assert_eq!(class.interface(), 3);
    assert_eq!(class.write_address(), 0x82);
    assert_eq!(class.read_address(), 0x04);
}

#[test]
fn new_fails_when_the_in_endpoint_was_refused() {
    let r = LEDragonUsbClass::new(0, Err(UsbFault::EndpointOverflow), Ok(0x01));
    assert_eq!(r, Err(ResourceExhausted { fault: UsbFault::EndpointOverflow }));
}

#[test]
fn new_fails_when_the_out_endpoint_was_refused() {
    let r = LEDragonUsbClass::new(0, Ok(0x81), Err(UsbFault::EndpointMemoryOverflow));
    assert_eq!(r, Err(ResourceExhausted { fault: UsbFault::EndpointMemoryOverflow }));
}

#[test]
fn new_reports_the_first_refusal() {
    let r = LEDragonUsbClass::new(
        0,
        Err(UsbFault::EndpointOverflow),
        Err(UsbFault::EndpointMemoryOverflow),
    );
    assert_eq!(r, Err(ResourceExhausted { fault: UsbFault::EndpointOverflow }));
}

#[test]
fn descriptors_are_interface_then_in_then_out() {
    let bytes = class().configuration_descriptors();
    assert_eq!(bytes.len(), CLASS_DESCRIPTORS_LEN);
    let expected: [u8; 23] = [
        9, 4, 0, 0, 2, 0xff, 0, 0, 0, // interface
        7, 5, 0x81, 3, 64, 0, 255, // interrupt IN
        7, 5, 0x01, 2, 64, 0, 0, // bulk OUT
    ];
    assert_eq!(bytes, expected);
}

#[test]
fn descriptors_carry_the_assigned_numbers() {
    let class = LEDragonUsbClass::new(2, Ok(0x83), Ok(0x05)).unwrap();
    let bytes = class.configuration_descriptors();
    assert_eq!(bytes[2], 2);
    assert_eq!(bytes[11], 0x83);
    assert_eq!(bytes[18], 0x05);
}

#[test]
fn descriptors_are_the_same_every_time() {
    let class = class();
    assert_eq!(class.configuration_descriptors(), class.configuration_descriptors());
}

#[test]
fn read_without_pending_transfer_would_block() {
    let data = [0x5au8; 64];
    assert_eq!(class().read(Err(UsbFault::WouldBlock), &data), Err(ReadError::WouldBlock));
    assert_eq!(data, [0x5au8; 64]);
}

#[test]
fn read_passes_every_credible_count() {
    let data = [0u8; 64];
    for count in 0..=64usize {
        assert_eq!(class().read(Ok(count), &data), Ok(count));
    }
}

#[test]
fn read_accepts_a_zero_length_packet() {
    let data = [0u8; 64];
    assert_eq!(class().read(Ok(0), &data), Ok(0));
}

#[test]
fn read_rejects_a_count_beyond_the_endpoint() {
    let data = [0u8; 1024];
    assert_eq!(class().read(Ok(64), &data), Ok(64));
    assert_eq!(class().read(Ok(65), &data), Err(ReadError::Other));
    assert_eq!(class().read(Ok(1024), &data), Err(ReadError::Other));
}

#[test]
fn read_rejects_a_count_beyond_the_buffer() {
    let data = [0u8; 16];
    assert_eq!(class().read(Ok(16), &data), Ok(16));
    assert_eq!(class().read(Ok(17), &data), Err(ReadError::Other));
}

#[test]
fn read_reports_overflow() {
    let data = [0u8; 8];
    assert_eq!(
        class().read(Err(UsbFault::BufferOverflow), &data),
        Err(ReadError::BufferOverflow)
    );
}

#[test]
fn read_maps_every_fault() {
    let data = [0u8; 64];
    for fault in ALL_FAULTS {
        let expected = match fault {
            UsbFault::WouldBlock => ReadError::WouldBlock,
            UsbFault::BufferOverflow => ReadError::BufferOverflow,
            _ => ReadError::Other,
        };
        assert_eq!(class().read(Err(fault), &data), Err(expected));
    }
}

#[test]
fn write_passes_every_credible_count() {
    let data = [0u8; 64];
    for count in 0..=64usize {
        assert_eq!(class().write(Ok(count), &data), Ok(count));
    }
    assert_eq!(class().write(Ok(5), &data[..5]), Ok(5));
}

#[test]
fn write_rejects_a_count_that_cannot_be_right() {
    let data = [0u8; 100];
    assert_eq!(class().write(Ok(6), &data[..5]), Err(WriteError::Other));
    assert_eq!(class().write(Ok(65), &data), Err(WriteError::Other));
}

#[test]
fn write_would_block_while_the_endpoint_is_busy() {
    let data = [0u8; 4];
    assert_eq!(class().write(Err(UsbFault::WouldBlock), &data), Err(WriteError::WouldBlock));
}

#[test]
fn write_maps_every_fault() {
    let data = [0u8; 4];
    for fault in ALL_FAULTS {
        let expected = match fault {
            UsbFault::WouldBlock => WriteError::WouldBlock,
            _ => WriteError::Other,
        };
        assert_eq!(class().write(Err(fault), &data), Err(expected));
    }
}

#[test]
fn overflow_diagnostic_is_the_text() {
    assert_eq!(OVERFLOW_DIAGNOSTIC, "buffer overflow??");
    assert_eq!(overflow_diagnostic(), b"buffer overflow??");
    assert_eq!(overflow_diagnostic().len(), 17);
    assert!(overflow_diagnostic().len() <= IN_MAX_PACKET_SIZE as usize);
}

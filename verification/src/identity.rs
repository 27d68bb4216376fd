//! How the device presents itself to the host.

use vstd::prelude::*;

verus! {

/// Vendor identifier in the device descriptor.
pub const VENDOR_ID: u16 = 0x6942;

/// Product identifier in the device descriptor.
pub const PRODUCT_ID: u16 = 0x6942;

/// Maximum packet size of the control endpoint, in bytes.
pub const CONTROL_MAX_PACKET_SIZE: u8 = 64;

/// Manufacturer string.
pub const MANUFACTURER: &'static str = "wick and drac's";

/// Product string.
pub const PRODUCT: &'static str = "LEDragon";

/// The packet sizes that USB allows for the control endpoint of a full-speed
/// or high-speed device.
pub open spec fn valid_control_packet_size(size: u8) -> bool {
    size == 8 || size == 16 || size == 32 || size == 64
}

/// What the device descriptor carries, for the code that builds the device.
#[derive(Clone, Copy, Debug, PartialEq, Eq)]
pub struct DeviceIdentity {
    /// Vendor identifier.
    pub vendor_id: u16,
    /// Product identifier.
    pub product_id: u16,
    /// Manufacturer string, plain ASCII.
    pub manufacturer: &'static str,
    /// Product string, plain ASCII.
    pub product: &'static str,
    /// Maximum packet size of the control endpoint.
    pub control_max_packet_size: u8,
}

/// The identity of this device.
///
/// The control packet size is one the bus accepts, and both strings are plain
/// ASCII, so each character is one UTF-16 unit in a string descriptor.
pub fn device_identity() -> (identity: DeviceIdentity)
    ensures
        identity.vendor_id == VENDOR_ID,
        identity.product_id == PRODUCT_ID,
        identity.manufacturer@ == MANUFACTURER@,
        identity.product@ == PRODUCT@,
        identity.control_max_packet_size == CONTROL_MAX_PACKET_SIZE,
        valid_control_packet_size(identity.control_max_packet_size),
        identity.manufacturer.is_ascii(),
        identity.product.is_ascii(),
{
    proof {
        reveal_strlit("wick and drac's");
        reveal_strlit("LEDragon");
    }
    DeviceIdentity {
        vendor_id: VENDOR_ID,
        product_id: PRODUCT_ID,
        manufacturer: MANUFACTURER,
        product: PRODUCT,
        control_max_packet_size: CONTROL_MAX_PACKET_SIZE,
    }
}

} // verus!

//! Control logic of a USB peripheral with one vendor-specific interface: a
//! bulk OUT endpoint for commands and an interrupt IN endpoint for replies.
//!
//! The bus interrupt handler owns a [`dispatch::InterruptDispatcher`] and asks
//! it, after every poll of the bus, what to do next. The dispatcher decides;
//! the handler performs the bus and board operations. Nothing here blocks, and
//! nothing here touches hardware.

pub mod dispatch;
pub mod enumeration;
pub mod fault;
pub mod history;
pub mod identity;
pub mod packet;
pub mod usb_class;

pub use dispatch::{InterruptDispatcher, PollAction, ReadAction};
pub use enumeration::{ConfigurationLatch, EnumerationState};
pub use fault::{ReadError, ResourceExhausted, UsbFault, WriteError};
pub use packet::{Packet, PACKET_CAPACITY};
pub use usb_class::LEDragonUsbClass;

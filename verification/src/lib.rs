//! A typed adapter between USB class drivers and a host whose driver
//! interface is a table of callbacks on raw addresses and integer statuses.
//!
//! A driver implements [`UsbDriverTrait`], overriding the operations it
//! supports. [`UsbAdapter`] gives each operation an entry point that takes what
//! the host passes, calls the driver and reports an integer status.
//! [`IdentifierTable`] is the sentinel-terminated list of identifiers a driver
//! matches, and [`UsbDriver`] the descriptor that carries it. A
//! [`UsbRegistration`] records that the host accepted a descriptor and says
//! when the host must be told to forget it; [`init_module`] and
//! [`cleanup_module`] do the same for the process-wide module state.
//!
//! The library never touches the host itself. Addresses are plain numbers
//! here, and the code that embeds the library reads the host's memory, calls
//! the host's primitives and passes the results in.

pub mod adapter;
pub mod device_id;
pub mod driver;
pub mod error;
pub mod interface;
pub mod keyboard;
pub mod lifecycle;
pub mod registration;

pub use crate::adapter::UsbAdapter;
pub use crate::device_id::{
    usb_device_default, usb_device_interface_info, IdentifierTable, UsbDeviceId,
};
pub use crate::driver::{create_usb_driver, UsbDriver, UsbDriverTrait};
pub use crate::error::{from_result, to_result, Error};
pub use crate::interface::{PmMessage, UsbInterface};
pub use crate::keyboard::{usb_kbd_id_table, Keyboard};
pub use crate::lifecycle::{cleanup_module, init_module, InitReport, Module};
pub use crate::registration::{RegistrationState, RegistrationView, UsbRegistration};

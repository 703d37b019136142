//! The boot-protocol keyboard driver: a driver that registers for HID boot
//! keyboards and implements no operation yet.

use crate::adapter::{interface_call_status, UsbAdapter};
use crate::device_id::{IdentifierTable, UsbDeviceId};
use crate::driver::UsbDriverTrait;
use crate::error::Error;
use crate::interface::PmMessage;
use vstd::prelude::*;

verus! {

/// Interface class of human interface devices.
pub const USB_INTERFACE_CLASS_HID: u8 = 3;

/// Interface subclass of devices that support the boot protocol.
pub const USB_INTERFACE_SUBCLASS_BOOT: u8 = 1;

/// Interface protocol of keyboards.
pub const USB_INTERFACE_PROTOCOL_KEYBOARD: u8 = 1;

/// The keyboard driver. It overrides no operation.
pub struct Keyboard;

impl UsbDriverTrait for Keyboard {
    const NAME: &'static str = "UsbDriverTest";

    fn new() -> Self {
        Keyboard
    }
}

/// The identifier table of the keyboard driver: HID boot keyboards, then the
/// sentinel.
pub fn usb_kbd_id_table() -> (table: IdentifierTable)
    ensures
        table@ == seq![
            UsbDeviceId::interface_info(
                USB_INTERFACE_CLASS_HID,
                USB_INTERFACE_SUBCLASS_BOOT,
                USB_INTERFACE_PROTOCOL_KEYBOARD,
            ),
            UsbDeviceId::sentinel(),
        ],
{
    let triples: [(u8, u8, u8); 1] = [
        (USB_INTERFACE_CLASS_HID, USB_INTERFACE_SUBCLASS_BOOT, USB_INTERFACE_PROTOCOL_KEYBOARD),
    ];
    let specific: [UsbDeviceId; 0] = [];
    IdentifierTable::new(triples.as_slice(), specific.as_slice())
}

/// A driver that overrides nothing reports "unsupported" from every entry
/// point that reports an outcome, on every input that reaches the driver.
pub proof fn keyboard_reports_unsupported(
    intf: usize,
    id: UsbDeviceId,
    code: i32,
    buf: Seq<u8>,
    len: usize,
    message: PmMessage,
    status: int,
)
    requires
        intf != 0,
        len <= buf.len(),
    ensures
        UsbAdapter::<Keyboard>::probe_status(intf, Some(id), status) ==> status
            == Error::Unsupported.errno(),
        UsbAdapter::<Keyboard>::unlocked_ioctl_status(intf, code, buf, len, status) ==> status
            == Error::Unsupported.errno(),
        UsbAdapter::<Keyboard>::suspend_status(intf, Some(message), status) ==> status
            == Error::Unsupported.errno(),
        interface_call_status(Keyboard::resume, intf, status) ==> status
            == Error::Unsupported.errno(),
        interface_call_status(Keyboard::reset_resume, intf, status) ==> status
            == Error::Unsupported.errno(),
        interface_call_status(Keyboard::pre_reset, intf, status) ==> status
            == Error::Unsupported.errno(),
        interface_call_status(Keyboard::post_reset, intf, status) ==> status
            == Error::Unsupported.errno(),
{
}

} // verus!

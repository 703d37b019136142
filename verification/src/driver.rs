//! The typed contract a driver fulfils, and the descriptor built for it.

use crate::device_id::{IdentifierTable, UsbDeviceId};
use crate::error::Error;
use crate::interface::{PmMessage, UsbInterface};
use vstd::prelude::*;

verus! {

/// The operations of a USB class driver.
///
/// A driver overrides the operations it supports. An operation that is not
/// overridden reports `Error::Unsupported` and leaves its arguments as they
/// were; `disconnect` has no outcome to report and by default does nothing.
///
/// The operations take no receiver: the host may call them from any thread,
/// so state shared between calls is the driver's own to synchronise.
pub trait UsbDriverTrait: Sized {
    /// The name under which the driver is registered.
    const NAME: &'static str;

    /// Makes the driver's own value.
    fn new() -> Self;

    /// The host matched `id` against the interface and offers it to the driver.
    fn probe(intf: &mut UsbInterface, id: &mut UsbDeviceId) -> (outcome: Result<(), Error>)
        default_ensures
            outcome == Err::<(), Error>(Error::Unsupported),
            *final(intf) == *old(intf),
            *final(id) == *old(id),
    {
        Err(Error::Unsupported)
    }

    /// The interface is gone; the host calls nothing more on it.
    fn disconnect(intf: &mut UsbInterface)
        default_ensures
            *final(intf) == *old(intf),
    {
    }

    /// A control call with a command code and the bytes that came with it.
    fn unlocked_ioctl(intf: &mut UsbInterface, code: i32, buf: &[u8]) -> (outcome: Result<
        (),
        Error,
    >)
        default_ensures
            outcome == Err::<(), Error>(Error::Unsupported),
            *final(intf) == *old(intf),
    {
        Err(Error::Unsupported)
    }

    /// The interface is about to lose power.
    fn suspend(intf: &mut UsbInterface, message: &PmMessage) -> (outcome: Result<(), Error>)
        default_ensures
            outcome == Err::<(), Error>(Error::Unsupported),
            *final(intf) == *old(intf),
    {
        Err(Error::Unsupported)
    }

    /// The interface has power again.
    fn resume(intf: &mut UsbInterface) -> (outcome: Result<(), Error>)
        default_ensures
            outcome == Err::<(), Error>(Error::Unsupported),
            *final(intf) == *old(intf),
    {
        Err(Error::Unsupported)
    }

    /// The interface has power again after a reset that lost its state.
    fn reset_resume(intf: &mut UsbInterface) -> (outcome: Result<(), Error>)
        default_ensures
            outcome == Err::<(), Error>(Error::Unsupported),
            *final(intf) == *old(intf),
    {
        Err(Error::Unsupported)
    }

    /// The device is about to be reset.
    fn pre_reset(intf: &mut UsbInterface) -> (outcome: Result<(), Error>)
        default_ensures
            outcome == Err::<(), Error>(Error::Unsupported),
            *final(intf) == *old(intf),
    {
        Err(Error::Unsupported)
    }

    /// The device has been reset.
    fn post_reset(intf: &mut UsbInterface) -> (outcome: Result<(), Error>)
        default_ensures
            outcome == Err::<(), Error>(Error::Unsupported),
            *final(intf) == *old(intf),
    {
        Err(Error::Unsupported)
    }
}

/// What the host is given when a driver registers: the driver's name and the
/// table of identifiers it matches. The callbacks that go with it are those of
/// the adapter for the same driver type.
#[derive(Debug)]
pub struct UsbDriver {
    /// The name under which the driver registers.
    pub name: &'static str,
    /// The identifiers the driver matches.
    pub id_table: IdentifierTable,
}

/// Builds the descriptor of driver `T` around its identifier table.
pub fn create_usb_driver<T: UsbDriverTrait>(id_table: IdentifierTable) -> (driver: UsbDriver)
    ensures
        driver.name == T::NAME,
        driver.id_table == id_table,
{
    UsbDriver { name: T::NAME, id_table }
}

} // verus!

//! Typed views of what the host passes to a callback.

use crate::error::Error;
use vstd::prelude::*;

verus! {

/// A handle on one of the host's interface objects.
///
/// The handle stands for a single address received from the host and is only
/// meaningful during the callback it was made for. It owns nothing and frees
/// nothing; all it offers is the identity of the object it refers to. A handle
/// never refers to the null address.
#[derive(Debug, PartialEq, Eq, Structural)]
pub struct UsbInterface {
    addr: usize,
}

impl View for UsbInterface {
    type V = usize;

    /// The address of the host object.
    closed spec fn view(&self) -> usize {
        self.addr
    }
}

impl UsbInterface {
    #[verifier::type_invariant]
    spec fn non_null(&self) -> bool {
        self.addr != 0
    }

    /// Wraps an address received from the host. The null address is not a
    /// handle and is refused.
    pub fn from_raw(addr: usize) -> (handle: Result<UsbInterface, Error>)
        ensures
            addr != 0 ==> handle is Ok && handle->Ok_0@ == addr,
            addr == 0 ==> handle == Err::<UsbInterface, Error>(Error::InvalidArgument),
    {
        if addr == 0 {
            Err(Error::InvalidArgument)
        } else {
            Ok(UsbInterface { addr })
        }
    }

    /// The address this handle refers to.
    pub fn as_raw(&self) -> (addr: usize)
        ensures
            addr == self@,
            addr != 0,
    {
        proof {
            use_type_invariant(self);
        }
        self.addr
    }
}

/// A power transition announced by the host when it suspends an interface.
#[derive(Clone, Copy, Debug, PartialEq, Eq, Structural)]
pub enum PmMessage {
    /// The transition identified by the host's event code.
    Event(i32),
}

} // verus!

//! The entry points the host calls, one per driver operation.
//!
//! Each entry point takes what the host passes (addresses, integers, bytes),
//! turns every address into a typed handle, calls the driver's operation and
//! turns the typed outcome into the host's integer status. Nothing typed ever
//! crosses back to the host.
//!
//! A null address cannot be made into a handle: the entry point then reports
//! an invalid argument without calling the driver. What a driver's operation
//! may return is the driver's own business, so the contracts below speak of
//! "an outcome that the operation admits": for a driver whose operation has a
//! contract, that pins the status; for any driver, the status is the
//! translation of whatever the operation returned.

use crate::device_id::UsbDeviceId;
use crate::driver::UsbDriverTrait;
use crate::error::{from_result, host_status, is_host_status, Error};
use crate::interface::{PmMessage, UsbInterface};
use core::marker::PhantomData;
use vstd::prelude::*;
use vstd::slice::slice_subrange;

verus! {

/// What an entry point that passes only the interface reports: the status
/// for an invalid argument when the address is null, and otherwise the
/// status of an outcome that `op` admits on the handle for that address.
pub open spec fn interface_call_status<F: Fn(&mut UsbInterface) -> Result<(), Error>>(
    op: F,
    intf: usize,
    status: int,
) -> bool {
    if intf == 0 {
        status == Error::InvalidArgument.errno()
    } else {
        exists|handle: &mut UsbInterface, outcome: Result<(), Error>|
            (*handle)@ == intf && call_ensures(op, (handle,), outcome) && status == host_status(
                outcome,
            )
    }
}

/// The part of the host's buffer that a control call may look at: its first
/// `len` bytes, provided the buffer has that many.
pub open spec fn control_view(buf: Seq<u8>, len: usize) -> Option<Seq<u8>> {
    if len <= buf.len() {
        Some(buf.subrange(0, len as int))
    } else {
        None
    }
}

/// The set of entry points for driver `T`.
pub struct UsbAdapter<T: UsbDriverTrait> {
    _p: PhantomData<T>,
}

impl<T: UsbDriverTrait> UsbAdapter<T> {
    /// What `probe_callback` reports: the status for an invalid argument when
    /// either address is null, and otherwise the status of an outcome that
    /// `T::probe` admits on the handle for `intf` and on the identifier.
    pub open spec fn probe_status(intf: usize, id: Option<UsbDeviceId>, status: int) -> bool {
        if intf == 0 || id is None {
            status == Error::InvalidArgument.errno()
        } else {
            exists|handle: &mut UsbInterface, entry: &mut UsbDeviceId, outcome: Result<(), Error>|
                (*handle)@ == intf && *entry == id->0 && call_ensures(
                    T::probe,
                    (handle, entry),
                    outcome,
                ) && status == host_status(outcome)
        }
    }

    /// What `unlocked_ioctl_callback` reports: the status for an invalid
    /// argument when the address is null or the stated length exceeds the
    /// buffer, and otherwise the status of an outcome that
    /// `T::unlocked_ioctl` admits on the handle, the command code and the
    /// first `len` bytes of the buffer.
    pub open spec fn unlocked_ioctl_status(
        intf: usize,
        code: i32,
        buf: Seq<u8>,
        len: usize,
        status: int,
    ) -> bool {
        if intf == 0 || control_view(buf, len) is None {
            status == Error::InvalidArgument.errno()
        } else {
            exists|handle: &mut UsbInterface, bytes: &[u8], outcome: Result<(), Error>|
                (*handle)@ == intf && Some(bytes@) == control_view(buf, len) && call_ensures(
                    T::unlocked_ioctl,
                    (handle, code, bytes),
                    outcome,
                ) && status == host_status(outcome)
        }
    }

    /// What `suspend_callback` reports: the status for an invalid argument
    /// when either address is null, and otherwise the status of an outcome
    /// that `T::suspend` admits on the handle and the message.
    pub open spec fn suspend_status(intf: usize, message: Option<PmMessage>, status: int) -> bool {
        if intf == 0 || message is None {
            status == Error::InvalidArgument.errno()
        } else {
            exists|handle: &mut UsbInterface, transition: &PmMessage, outcome: Result<(), Error>|
                (*handle)@ == intf && *transition == message->0 && call_ensures(
                    T::suspend,
                    (handle, transition),
                    outcome,
                ) && status == host_status(outcome)
        }
    }

    /// Entry point for `probe`. `id` is the identifier the host matched, or
    /// `None` where the host passed a null address for it.
    pub fn probe_callback(intf: usize, id: Option<UsbDeviceId>) -> (status: i32)
        ensures
            Self::probe_status(intf, id, status as int),
    {
        let handle = match UsbInterface::from_raw(intf) {
            Ok(handle) => handle,
            Err(e) => {
                return from_result(Err(e));
            },
        };
        let entry = match id {
            Some(entry) => entry,
            None => {
                return from_result(Err(Error::InvalidArgument));
            },
        };
        let mut handle = handle;
        let mut entry = entry;
        let outcome = T::probe(&mut handle, &mut entry);
        from_result(outcome)
    }

    /// Entry point for `disconnect`. The host expects no retry, so it is told
    /// of success whatever happened inside: the driver is called when the
    /// address can be made into a handle, and not otherwise.
    pub fn disconnect_callback(intf: usize) -> (status: i32)
        ensures
            status == 0,
            intf != 0 ==> exists|handle: &mut UsbInterface|
                (*handle)@ == intf && call_ensures(T::disconnect, (handle,), ()),
    {
        match UsbInterface::from_raw(intf) {
            Ok(handle) => {
                let mut handle = handle;
                T::disconnect(&mut handle);
            },
            Err(_) => {},
        }
        from_result(Ok(()))
    }

    /// Entry point for the control call. `buf` is the memory the host made
    /// available and `len` the length it stated. The stated length is checked
    /// against the buffer before any typed view is made; the driver sees the
    /// first `len` bytes and nothing beyond them.
    pub fn unlocked_ioctl_callback(intf: usize, code: i32, buf: &[u8], len: usize) -> (status: i32)
        ensures
            Self::unlocked_ioctl_status(intf, code, buf@, len, status as int),
    {
        let handle = match UsbInterface::from_raw(intf) {
            Ok(handle) => handle,
            Err(e) => {
                return from_result(Err(e));
            },
        };
        if len > buf.len() {
            return from_result(Err(Error::InvalidArgument));
        }
        let bytes = slice_subrange(buf, 0, len);
        let mut handle = handle;
        let outcome = T::unlocked_ioctl(&mut handle, code, bytes);
        from_result(outcome)
    }

    /// Entry point for `suspend`. `message` is the transition the host
    /// announced, or `None` where the host passed a null address for it.
    pub fn suspend_callback(intf: usize, message: Option<PmMessage>) -> (status: i32)
        ensures
            Self::suspend_status(intf, message, status as int),
    {
        let handle = match UsbInterface::from_raw(intf) {
            Ok(handle) => handle,
            Err(e) => {
                return from_result(Err(e));
            },
        };
        let transition = match message {
            Some(transition) => transition,
            None => {
                return from_result(Err(Error::InvalidArgument));
            },
        };
        let mut handle = handle;
        let outcome = T::suspend(&mut handle, &transition);
        from_result(outcome)
    }

    fn interface_call<F: Fn(&mut UsbInterface) -> Result<(), Error>>(op: F, intf: usize) -> (status:
        i32)
        requires
            forall|handle: &mut UsbInterface| call_requires(op, (handle,)),
        ensures
            interface_call_status(op, intf, status as int),
    {
        match UsbInterface::from_raw(intf) {
            Err(e) => from_result(Err(e)),
            Ok(handle) => {
                let mut handle = handle;
                let outcome = op(&mut handle);
                from_result(outcome)
            },
        }
    }

    /// Entry point for `resume`.
    pub fn resume_callback(intf: usize) -> (status: i32)
        ensures
            interface_call_status(T::resume, intf, status as int),
    {
        Self::interface_call(T::resume, intf)
    }

    /// Entry point for `reset_resume`.
    pub fn reset_resume_callback(intf: usize) -> (status: i32)
        ensures
            interface_call_status(T::reset_resume, intf, status as int),
    {
        Self::interface_call(T::reset_resume, intf)
    }

    /// Entry point for `pre_reset`.
    pub fn pre_reset_callback(intf: usize) -> (status: i32)
        ensures
            interface_call_status(T::pre_reset, intf, status as int),
    {
        Self::interface_call(T::pre_reset, intf)
    }

    /// Entry point for `post_reset`.
    pub fn post_reset_callback(intf: usize) -> (status: i32)
        ensures
            interface_call_status(T::post_reset, intf, status as int),
    {
        Self::interface_call(T::post_reset, intf)
    }
}

/// Nothing typed reaches the host: whatever the driver does, every entry
/// point reports zero or the error number of one of the failure kinds.
pub proof fn entry_points_report_host_statuses<T: UsbDriverTrait>(
    intf: usize,
    id: Option<UsbDeviceId>,
    code: i32,
    buf: Seq<u8>,
    len: usize,
    message: Option<PmMessage>,
    status: int,
)
    ensures
        UsbAdapter::<T>::probe_status(intf, id, status) ==> is_host_status(status),
        UsbAdapter::<T>::unlocked_ioctl_status(intf, code, buf, len, status) ==> is_host_status(
            status,
        ),
        UsbAdapter::<T>::suspend_status(intf, message, status) ==> is_host_status(status),
        interface_call_status(T::resume, intf, status) ==> is_host_status(status),
        interface_call_status(T::reset_resume, intf, status) ==> is_host_status(status),
        interface_call_status(T::pre_reset, intf, status) ==> is_host_status(status),
        interface_call_status(T::post_reset, intf, status) ==> is_host_status(status),
{
    assert(host_status(Err(Error::InvalidArgument)) == Error::InvalidArgument.errno());
}

/// When an operation of the driver admits a single outcome, whatever it is
/// called on, the entry point for that operation reports the status of that
/// outcome on every input that reaches the driver. In particular an operation
/// that the driver does not override is reported as unsupported.
pub proof fn entry_points_report_the_only_outcome<T: UsbDriverTrait>(
    intf: usize,
    id: UsbDeviceId,
    code: i32,
    buf: Seq<u8>,
    len: usize,
    message: PmMessage,
    status: int,
    only: Result<(), Error>,
)
    requires
        intf != 0,
        len <= buf.len(),
    ensures
        (forall|handle: &mut UsbInterface, entry: &mut UsbDeviceId, outcome: Result<(), Error>|
            call_ensures(T::probe, (handle, entry), outcome) ==> outcome == only)
            && UsbAdapter::<T>::probe_status(intf, Some(id), status) ==> status == host_status(
            only,
        ),
        (forall|handle: &mut UsbInterface, command: i32, bytes: &[u8], outcome: Result<(), Error>|
            call_ensures(T::unlocked_ioctl, (handle, command, bytes), outcome) ==> outcome == only)
            && UsbAdapter::<T>::unlocked_ioctl_status(intf, code, buf, len, status) ==> status
            == host_status(only),
        (forall|handle: &mut UsbInterface, transition: &PmMessage, outcome: Result<(), Error>|
            call_ensures(T::suspend, (handle, transition), outcome) ==> outcome == only)
            && UsbAdapter::<T>::suspend_status(intf, Some(message), status) ==> status
            == host_status(only),
        (forall|handle: &mut UsbInterface, outcome: Result<(), Error>|
            call_ensures(T::resume, (handle,), outcome) ==> outcome == only)
            && interface_call_status(T::resume, intf, status) ==> status == host_status(only),
        (forall|handle: &mut UsbInterface, outcome: Result<(), Error>|
            call_ensures(T::reset_resume, (handle,), outcome) ==> outcome == only)
            && interface_call_status(T::reset_resume, intf, status) ==> status == host_status(
            only,
        ),
        (forall|handle: &mut UsbInterface, outcome: Result<(), Error>|
            call_ensures(T::pre_reset, (handle,), outcome) ==> outcome == only)
            && interface_call_status(T::pre_reset, intf, status) ==> status == host_status(only),
        (forall|handle: &mut UsbInterface, outcome: Result<(), Error>|
            call_ensures(T::post_reset, (handle,), outcome) ==> outcome == only)
            && interface_call_status(T::post_reset, intf, status) ==> status == host_status(only),
{
}

} // verus!

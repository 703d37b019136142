//! Loading and unloading: the two moments at which the process-wide state
//! changes.
//!
//! The state is a slot that is empty until a load succeeds and holds the
//! module from then until the unload. The embedder keeps the slot, calls the
//! host's primitives and hands the answers in; the functions here decide what
//! the slot holds next, which status the loader gets and which address, if
//! any, the host must be told to forget.

use crate::driver::UsbDriver;
use crate::error::Error;
use crate::registration::{
    register_outcome, RegistrationState, RegistrationView, UsbRegistration,
};
use vstd::prelude::*;

verus! {

/// The loaded module: it owns the registration for as long as it exists,
/// and for as long as it exists the registration is open.
#[derive(Debug)]
pub struct Module {
    _reg: UsbRegistration,
}

impl View for Module {
    type V = RegistrationView;

    /// The module's registration.
    closed spec fn view(&self) -> RegistrationView {
        self._reg@
    }
}

impl Module {
    #[verifier::type_invariant]
    spec fn holds_open_registration(&self) -> bool {
        self._reg@.state == RegistrationState::Registered
    }

    /// Makes the module from the host's answer to the registration of
    /// `driver`, pinned at `addr`. There is a module exactly when there is a
    /// registration.
    pub fn init(driver: UsbDriver, addr: usize, status: i32) -> (result: Result<Module, Error>)
        ensures
            init_view(result) == register_outcome(driver, addr, status),
    {
        match UsbRegistration::register(driver, addr, status) {
            Ok(reg) => Ok(Module { _reg: reg }),
            Err(e) => Err(e),
        }
    }

    /// The registration the module owns.
    pub fn registration(&self) -> (reg: &UsbRegistration)
        ensures
            reg@ == self@,
            reg@.state == RegistrationState::Registered,
    {
        proof {
            use_type_invariant(self);
        }
        &self._reg
    }

    /// Gives the module up and closes its registration. Returns the address
    /// the host must be told to forget.
    pub fn exit(self) -> (addr: usize)
        ensures
            Some(addr) == self@.close_request(),
            addr == self@.addr,
            addr != 0,
    {
        proof {
            use_type_invariant(&self);
        }
        let mut reg = self._reg;
        let request = reg.close();
        request.unwrap()
    }
}

/// The result of making a module as contracts see it: the module by its
/// registration, the error as it is.
pub open spec fn init_view(result: Result<Module, Error>) -> Result<RegistrationView, Error> {
    match result {
        Ok(module) => Ok(module@),
        Err(e) => Err(e),
    }
}

/// What the embedder must do after a load.
#[derive(Clone, Copy, Debug, PartialEq, Eq, Structural)]
pub struct InitReport {
    /// The status for the loader: zero, or the error number of the failure.
    pub status: i32,
    /// The address of a descriptor that the host must be told to forget
    /// because its module was replaced by this load.
    pub deregister: Option<usize>,
}

/// The slot as contracts see it: the registration of the module it holds.
pub open spec fn slot_view(slot: Option<Module>) -> Option<RegistrationView> {
    match slot {
        Some(module) => Some(module@),
        None => None,
    }
}

/// The address the host must be told to forget when the content of a slot
/// goes away.
pub open spec fn release_request(slot: Option<RegistrationView>) -> Option<usize> {
    match slot {
        Some(reg) => reg.close_request(),
        None => None,
    }
}

/// What the slot holds after a load. A successful registration takes the
/// slot; a failed one leaves the slot as it was.
pub open spec fn slot_after_load(
    slot: Option<RegistrationView>,
    driver: UsbDriver,
    addr: usize,
    status: i32,
) -> Option<RegistrationView> {
    match register_outcome(driver, addr, status) {
        Ok(reg) => Some(reg),
        Err(_) => slot,
    }
}

/// What a load reports. On success the loader gets zero, and what the slot
/// held before is released; on failure the loader gets the failure's error
/// number and nothing is released.
pub open spec fn load_report(
    slot: Option<RegistrationView>,
    driver: UsbDriver,
    addr: usize,
    status: i32,
) -> InitReport {
    match register_outcome(driver, addr, status) {
        Ok(_) => InitReport { status: 0, deregister: release_request(slot) },
        Err(e) => InitReport { status: e.errno() as i32, deregister: None },
    }
}

/// The load entry: records the host's answer to the registration of `driver`,
/// pinned at `addr`, in the slot and tells the loader how it went.
pub fn init_module(slot: &mut Option<Module>, driver: UsbDriver, addr: usize, status: i32) -> (report:
    InitReport)
    ensures
        slot_view(*final(slot)) == slot_after_load(slot_view(*old(slot)), driver, addr, status),
        report == load_report(slot_view(*old(slot)), driver, addr, status),
        report.status == 0 <==> addr != 0 && status == 0,
        report.deregister is Some <==> report.status == 0 && *old(slot) is Some,
{
    match Module::init(driver, addr, status) {
        Ok(module) => {
            let deregister = match slot.take() {
                Some(previous) => Some(previous.exit()),
                None => None,
            };
            *slot = Some(module);
            InitReport { status: 0, deregister }
        },
        Err(e) => InitReport { status: e.to_errno(), deregister: None },
    }
}

/// The unload entry: empties the slot and returns the address the host must
/// be told to forget, if a module was loaded. Unloading cannot fail.
pub fn cleanup_module(slot: &mut Option<Module>) -> (request: Option<usize>)
    ensures
        *final(slot) is None,
        request == release_request(slot_view(*old(slot))),
        request is Some <==> *old(slot) is Some,
        request matches Some(addr) ==> addr != 0,
{
    match slot.take() {
        Some(module) => Some(module.exit()),
        None => None,
    }
}

/// From an empty slot, a load followed by unloads tells the host to forget
/// the descriptor exactly once if the registration succeeded, for the address
/// that was registered, and never if it failed. The loader gets zero exactly
/// when the registration succeeded.
pub proof fn unload_deregisters_iff_loaded(driver: UsbDriver, addr: usize, status: i32)
    ensures
        ({
            let accepted = addr != 0 && status == 0;
            let slot = slot_after_load(None, driver, addr, status);
            let report = load_report(None, driver, addr, status);
            &&& slot is Some <==> accepted
            &&& report.status == 0 <==> accepted
            &&& report.status <= 0
            &&& report.deregister is None
            &&& release_request(slot) == (if accepted {
                Some(addr)
            } else {
                None
            })
            &&& release_request(None) is None
        }),
{
}

/// A load that fails changes nothing: the slot keeps what it held and the
/// host is asked to forget nothing.
pub proof fn failed_load_changes_nothing(
    slot: Option<RegistrationView>,
    driver: UsbDriver,
    addr: usize,
    status: i32,
)
    requires
        addr == 0 || status != 0,
    ensures
        slot_after_load(slot, driver, addr, status) == slot,
        load_report(slot, driver, addr, status).deregister is None,
        load_report(slot, driver, addr, status).status < 0,
{
}

} // verus!

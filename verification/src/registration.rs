//! The life of a registration: made by a successful registration with the
//! host, closed once, never reopened.
//!
//! The host's register and deregister primitives are called by the code that
//! embeds this library. This module decides: it turns the status returned by
//! the register primitive into a registration or an error, and it tells the
//! embedder when, and for which address, the deregister primitive is due.

use crate::driver::UsbDriver;
use crate::error::{to_result, Error};
use vstd::prelude::*;

verus! {

/// Whether the host currently knows the descriptor.
#[derive(Clone, Copy, Debug, PartialEq, Eq, Structural)]
pub enum RegistrationState {
    /// The host has been told, or is being told, to forget the descriptor.
    Unregistered,
    /// The host accepted the descriptor and may call its callbacks.
    Registered,
}

/// What a registration is, for the purpose of contracts.
pub struct RegistrationView {
    /// Whether the host currently knows the descriptor.
    pub state: RegistrationState,
    /// The address at which the descriptor is pinned, as given to the host.
    pub addr: usize,
    /// The descriptor the registration owns.
    pub driver: UsbDriver,
}

impl RegistrationView {
    /// A registered descriptor is never at the null address.
    pub open spec fn well_formed(self) -> bool {
        self.state == RegistrationState::Registered ==> self.addr != 0
    }

    /// The address the host must be told to forget when the registration is
    /// closed in this state, if any.
    pub open spec fn close_request(self) -> Option<usize> {
        if self.state == RegistrationState::Registered {
            Some(self.addr)
        } else {
            None
        }
    }

    /// The registration after it has been closed.
    pub open spec fn closed(self) -> RegistrationView {
        RegistrationView { state: RegistrationState::Unregistered, ..self }
    }

    /// How many times the host is told to forget the descriptor when the
    /// registration is closed `n` times in a row.
    pub open spec fn close_requests(self, n: nat) -> nat
        decreases n,
    {
        if n == 0 {
            0
        } else {
            (if self.close_request() is Some {
                1nat
            } else {
                0nat
            }) + self.closed().close_requests((n - 1) as nat)
        }
    }
}

/// What registering yields, given where the descriptor is pinned and what the
/// host's register primitive returned for it.
///
/// A descriptor at the null address is never accepted. Otherwise the host
/// decides: status zero makes a registration that owns the descriptor, any
/// other status is a refusal.
pub open spec fn register_outcome(driver: UsbDriver, addr: usize, status: i32) -> Result<
    RegistrationView,
    Error,
> {
    if addr == 0 {
        Err(Error::InvalidArgument)
    } else if status != 0 {
        Err(Error::HostRejected)
    } else {
        Ok(RegistrationView { state: RegistrationState::Registered, addr, driver })
    }
}

/// The result of registering as contracts see it: the registration by its
/// view, the error as it is.
pub open spec fn registering_view(result: Result<UsbRegistration, Error>) -> Result<
    RegistrationView,
    Error,
> {
    match result {
        Ok(reg) => Ok(reg@),
        Err(e) => Err(e),
    }
}

/// An active registration of a driver descriptor with the host.
///
/// A value of this type exists only because the host accepted the descriptor.
/// It owns the descriptor from then on. Closing it tells the embedder to call
/// the host's deregister primitive, once; a closed registration stays closed.
#[derive(Debug)]
pub struct UsbRegistration {
    driver: UsbDriver,
    addr: usize,
    state: RegistrationState,
}

impl View for UsbRegistration {
    type V = RegistrationView;

    /// The state, the pinned address and the owned descriptor.
    closed spec fn view(&self) -> RegistrationView {
        RegistrationView { state: self.state, addr: self.addr, driver: self.driver }
    }
}

impl UsbRegistration {
    #[verifier::type_invariant]
    spec fn inv(&self) -> bool {
        self.state == RegistrationState::Registered ==> self.addr != 0
    }

    /// Makes the registration for `driver`, pinned at `addr`, from the status
    /// that the host's register primitive returned for it. On failure no
    /// registration exists, so nothing will ever ask for a deregistration.
    pub fn register(driver: UsbDriver, addr: usize, status: i32) -> (result: Result<
        UsbRegistration,
        Error,
    >)
        ensures
            registering_view(result) == register_outcome(driver, addr, status),
    {
        if addr == 0 {
            return Err(Error::InvalidArgument);
        }
        match to_result(status) {
            Ok(_) => Ok(UsbRegistration { driver, addr, state: RegistrationState::Registered }),
            Err(e) => Err(e),
        }
    }

    /// The current state.
    pub fn state(&self) -> (state: RegistrationState)
        ensures
            state == self@.state,
    {
        self.state
    }

    /// Whether the host currently knows the descriptor.
    pub fn is_registered(&self) -> (registered: bool)
        ensures
            registered == (self@.state == RegistrationState::Registered),
    {
        match self.state {
            RegistrationState::Registered => true,
            RegistrationState::Unregistered => false,
        }
    }

    /// The address at which the descriptor is pinned.
    pub fn address(&self) -> (addr: usize)
        ensures
            addr == self@.addr,
            self@.well_formed(),
    {
        proof {
            use_type_invariant(self);
        }
        self.addr
    }

    /// The descriptor this registration owns.
    pub fn driver(&self) -> (driver: &UsbDriver)
        ensures
            *driver == self@.driver,
    {
        &self.driver
    }

    /// Closes the registration. Returns the address for which the host's
    /// deregister primitive must now be called, or `None` when the
    /// registration was closed before. This is what runs when the owner of
    /// the registration goes away.
    pub fn close(&mut self) -> (request: Option<usize>)
        ensures
            final(self)@ == old(self)@.closed(),
            request == old(self)@.close_request(),
            request matches Some(addr) ==> addr != 0,
    {
        proof {
            use_type_invariant(&*self);
        }
        match self.state {
            RegistrationState::Registered => {
                self.state = RegistrationState::Unregistered;
                Some(self.addr)
            },
            RegistrationState::Unregistered => None,
        }
    }
}

/// Closing is one-shot: however often a registration is closed, the host is
/// told to forget the descriptor once if it was registered, and never
/// otherwise.
pub proof fn deregisters_exactly_once(reg: RegistrationView, n: nat)
    ensures
        reg.close_requests(n) == (if n > 0 && reg.state == RegistrationState::Registered {
            1nat
        } else {
            0nat
        }),
    decreases n,
{
    if n > 0 {
        deregisters_exactly_once(reg.closed(), (n - 1) as nat);
    }
}

/// No step leads back: a closed registration is unregistered, and closing it
/// again changes nothing and asks nothing of the host.
pub proof fn closed_stays_closed(reg: RegistrationView)
    ensures
        reg.closed().state == RegistrationState::Unregistered,
        reg.closed().closed() == reg.closed(),
        reg.closed().close_request() is None,
{
}

/// Registration succeeds exactly when the descriptor is pinned at a non-null
/// address and the host returned status zero; a registration that exists is
/// registered at the address that was given to the host.
pub proof fn registered_iff_accepted(driver: UsbDriver, addr: usize, status: i32)
    ensures
        register_outcome(driver, addr, status) is Ok <==> addr != 0 && status == 0,
        register_outcome(driver, addr, status) matches Ok(reg) ==> reg.well_formed()
            && reg.close_request() == Some(addr) && reg.driver == driver,
        status != 0 ==> register_outcome(driver, addr, status) is Err,
{
}

} // verus!

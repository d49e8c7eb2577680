//! The access-controlled messenger: its persistent state and the four
//! operations the host can invoke on it.
//!
//! The host ledger serializes all calls, authenticates each caller, and
//! reverts a failing call wholesale, so each operation here is a pure,
//! atomic transition on the two persistent slots. The caller's identity is an
//! injected argument: the host supplies it, and every authorization decision
//! is made from it alone.

use vstd::prelude::*;

use crate::account::Address;
use crate::errors::ContractError;
use crate::events::Event;

verus! {

/// The persistent state: the one-time initialization marker and the
/// role-holder slot. A fresh deployment zeroes both.
#[verifier::ext_equal]
#[derive(Clone, Copy, Debug)]
pub struct Contract {
    /// Whether the one-time role assignment has already happened.
    pub initialized: bool,
    /// The account holding the pinger role; meaningful only once
    /// `initialized` is set, and never written again after that.
    pub pinger: Address,
}

impl Contract {
    /// The state a fresh deployment starts in: marker clear, holder slot
    /// zeroed.
    pub open spec fn is_fresh(self) -> bool {
        &&& !self.initialized
        &&& self.pinger.is_null()
    }

    /// Well-formedness: before the role is assigned, the holder slot still
    /// holds the null sentinel. Deployment zeroes the slot and only a
    /// successful assignment writes it, so every reachable state satisfies
    /// this.
    pub open spec fn wf(self) -> bool {
        !self.initialized ==> self.pinger.is_null()
    }

    /// The outcome of an assignment attempt: it succeeds exactly when the
    /// role is still unassigned.
    pub open spec fn init_result(self, caller: Address) -> Result<(), ContractError> {
        if self.initialized {
            Err(ContractError::AlreadyInitialized)
        } else {
            Ok(())
        }
    }

    /// The state after an assignment attempt: a failing attempt changes
    /// nothing; the one successful attempt sets the marker and fixes the
    /// caller as holder.
    pub open spec fn init_state(self, caller: Address) -> Contract {
        if self.initialized {
            self
        } else {
            Contract { initialized: true, pinger: caller }
        }
    }

    /// The outcome of the restricted operation: the `Ping` signal to emit
    /// when the caller is the holder, byte for byte, and the unauthorized
    /// error otherwise.
    pub open spec fn ping_result(self, caller: Address) -> Result<Event, ContractError> {
        if caller@ == self.pinger@ {
            Ok(Event::Ping)
        } else {
            Err(ContractError::NotPinger)
        }
    }

    /// The signal an acknowledgment emits: a `Pong` carrying the argument
    /// verbatim.
    pub open spec fn pong_event(tx_hash: [u8; 32]) -> Event {
        Event::Pong { tx_hash }
    }

    /// A fresh deployment.
    pub fn new() -> (r: Contract)
        ensures
            r.is_fresh(),
    {
        Contract { initialized: false, pinger: Address::zero() }
    }

    /// One-time role assignment: fixes the calling account as the role
    /// holder, permanently. Every attempt after the first success fails with
    /// `AlreadyInitialized` and leaves the state untouched.
    pub fn init(&mut self, caller: Address) -> (r: Result<(), ContractError>)
        ensures
            r == old(self).init_result(caller),
            *final(self) == old(self).init_state(caller),
    {
        if self.initialized {
            return Err(ContractError::AlreadyInitialized);
        }
        self.initialized = true;
        self.pinger = caller;
        Ok(())
    }

    /// Read the role holder: the value fixed by the one successful
    /// assignment, or the null sentinel if none has happened yet. Never
    /// fails and never mutates.
    pub fn pinger(&self) -> (r: Result<Address, Vec<u8>>)
        ensures
            r matches Ok(a) && a == self.pinger,
    {
        Ok(self.pinger)
    }

    /// The restricted operation: succeeds exactly when the caller equals the
    /// role holder byte for byte, handing back the `Ping` signal for the
    /// host's event log; any other caller gets `NotPinger`. Never mutates.
    pub fn ping(&self, caller: Address) -> (r: Result<Event, ContractError>)
        ensures
            r == self.ping_result(caller),
    {
        if !self.pinger.eq_addr(&caller) {
            return Err(ContractError::NotPinger);
        }
        Ok(Event::Ping)
    }

    /// The unrestricted acknowledgment: always succeeds, for any caller,
    /// handing back a `Pong` signal that carries the 32-byte argument
    /// verbatim. Touches no state.
    pub fn pong(tx_hash: [u8; 32]) -> (r: Result<Event, Vec<u8>>)
        ensures
            r matches Ok(e) && e == Contract::pong_event(tx_hash),
    {
        Ok(Event::Pong { tx_hash })
    }
}

} // verus!

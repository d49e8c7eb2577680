//! The ledger as an external observer sees it: the contract's persistent
//! state together with the append-only event log, driven one serialized,
//! atomic transaction at a time. A failing transaction reverts wholesale:
//! its state change and its signal are discarded, and the caller receives
//! the ABI-encoded revert payload.

use vstd::prelude::*;

use crate::account::Address;
use crate::contract::Contract;
use crate::errors::ContractError;
use crate::errors::revert_data;
use crate::events::Event;

verus! {

/// One call a transaction can make, with its argument. The caller's identity
/// is supplied separately by the host.
#[derive(Clone, Copy, Debug)]
pub enum Call {
    /// The one-time role assignment.
    Init,
    /// The restricted signal.
    Ping,
    /// The open acknowledgment.
    Pong { tx_hash: [u8; 32] },
}

/// What a transaction does to the persistent state.
pub open spec fn step_state(c: Contract, caller: Address, call: Call) -> Contract {
    match call {
        Call::Init => c.init_state(caller),
        Call::Ping => c,
        Call::Pong { .. } => c,
    }
}

/// What a transaction appends to the event log: one signal on success,
/// nothing on a revert. Assignment emits no signal even on success.
pub open spec fn step_events(c: Contract, caller: Address, call: Call) -> Seq<Event> {
    match call {
        Call::Init => Seq::empty(),
        Call::Ping => match c.ping_result(caller) {
            Ok(ev) => seq![ev],
            Err(_) => Seq::empty(),
        },
        Call::Pong { tx_hash } => seq![Contract::pong_event(tx_hash)],
    }
}

/// The outcome the caller sees: success, or the typed error the transaction
/// reverts with.
pub open spec fn step_result(c: Contract, caller: Address, call: Call) -> Result<
    (),
    ContractError,
> {
    match call {
        Call::Init => c.init_result(caller),
        Call::Ping => match c.ping_result(caller) {
            Ok(_) => Ok(()),
            Err(e) => Err(e),
        },
        Call::Pong { .. } => Ok(()),
    }
}

/// The persistent state after a whole sequence of transactions, each a
/// caller paired with a call.
pub open spec fn run(c: Contract, txs: Seq<(Address, Call)>) -> Contract
    decreases txs.len(),
{
    if txs.len() == 0 {
        c
    } else {
        run(step_state(c, txs[0].0, txs[0].1), txs.skip(1))
    }
}

/// The contract as deployed on the ledger, with the event log the host keeps
/// for it.
pub struct Host {
    /// The two persistent slots.
    pub contract: Contract,
    /// The append-only event log, oldest signal first.
    pub log: Vec<Event>,
}

impl Host {
    /// A fresh deployment: zeroed slots, empty log.
    pub fn deploy() -> (r: Host)
        ensures
            r.contract.is_fresh(),
            r.log@ == Seq::<Event>::empty(),
    {
        Host { contract: Contract::new(), log: Vec::new() }
    }

    /// Execute one transaction. The host has authenticated `caller`; the
    /// call either commits — its state change applied, its signal appended —
    /// or reverts whole, handing back the ABI-encoded revert payload and
    /// leaving state and log untouched.
    pub fn step(&mut self, caller: Address, call: Call) -> (r: Result<(), Vec<u8>>)
        ensures
            final(self).contract == step_state(old(self).contract, caller, call),
            final(self).log@ == old(self).log@ + step_events(old(self).contract, caller, call),
            r is Ok <==> step_result(old(self).contract, caller, call) is Ok,
            r matches Err(data) ==> (step_result(old(self).contract, caller, call) matches Err(e)
                && data@ == revert_data(e)),
    {
        match call {
            Call::Init => {
                let outcome = self.contract.init(caller);
                proof {
                    assert(self.log@ + Seq::<Event>::empty() =~= self.log@);
                }
                match outcome {
                    Ok(()) => Ok(()),
                    Err(e) => Err(e.abi_encode()),
                }
            },
            Call::Ping => {
                match self.contract.ping(caller) {
                    Ok(ev) => {
                        proof {
                            assert(old(self).log@ + seq![ev] =~= old(self).log@.push(ev));
                        }
                        self.log.push(ev);
                        Ok(())
                    },
                    Err(e) => {
                        proof {
                            assert(self.log@ + Seq::<Event>::empty() =~= self.log@);
                        }
                        Err(e.abi_encode())
                    },
                }
            },
            Call::Pong { tx_hash } => {
                match Contract::pong(tx_hash) {
                    Ok(ev) => {
                        proof {
                            assert(old(self).log@ + seq![ev] =~= old(self).log@.push(ev));
                        }
                        self.log.push(ev);
                        Ok(())
                    },
                    Err(data) => Err(data),
                }
            },
        }
    }
}

} // verus!

//! The guarantees the contract lives for, stated over the transition model
//! and proved once and for all: one-time assignment, gate correctness,
//! unrestricted acknowledgment, read consistency, and atomicity of failure.

use vstd::prelude::*;

use crate::account::Address;
use crate::account::null_address;
use crate::contract::Contract;
use crate::errors::ContractError;
use crate::events::Event;
use crate::host::Call;
use crate::host::run;
use crate::host::step_events;
use crate::host::step_result;
use crate::host::step_state;

verus! {

/// One-time assignment: from an unassigned state, the first assignment
/// succeeds and fixes its caller as the role holder permanently. No sequence
/// of further transactions, by anyone, changes the holder or clears the
/// marker, and every later assignment attempt fails with
/// `AlreadyInitialized` and leaves the state exactly as it was.
pub proof fn one_time_assignment(
    c: Contract,
    first: Address,
    txs: Seq<(Address, Call)>,
    later: Address,
)
    requires
        !c.initialized,
    ensures
        c.init_result(first) == Ok::<(), ContractError>(()),
        c.init_state(first).initialized,
        c.init_state(first).pinger == first,
        run(c.init_state(first), txs).initialized,
        run(c.init_state(first), txs).pinger == first,
        run(c.init_state(first), txs).init_result(later) == Err::<(), ContractError>(
            ContractError::AlreadyInitialized,
        ),
        run(c.init_state(first), txs).init_state(later) == run(c.init_state(first), txs),
{
    assignment_permanent(c.init_state(first), txs);
}

/// The holder survives any transaction sequence once the role is assigned.
pub proof fn assignment_permanent(c: Contract, txs: Seq<(Address, Call)>)
    requires
        c.initialized,
    ensures
        run(c, txs).initialized,
        run(c, txs).pinger == c.pinger,
    decreases txs.len(),
{
    if txs.len() > 0 {
        assignment_permanent(step_state(c, txs[0].0, txs[0].1), txs.skip(1));
    }
}

/// Gate correctness: for every account other than the null sentinel, the
/// restricted operation succeeds exactly when the role has been assigned and
/// the caller is its holder; otherwise it fails with `NotPinger`, emits no
/// signal, and the state is untouched either way.
pub proof fn gate_correctness(c: Contract, a: Address)
    requires
        c.wf(),
        a@ != null_address(),
    ensures
        c.ping_result(a) is Ok <==> (c.initialized && a@ == c.pinger@),
        c.ping_result(a) is Ok ==> c.ping_result(a) == Ok::<Event, ContractError>(Event::Ping),
        !(c.initialized && a@ == c.pinger@) ==> c.ping_result(a) == Err::<Event, ContractError>(
            ContractError::NotPinger,
        ) && step_events(c, a, Call::Ping) == Seq::<Event>::empty(),
        step_state(c, a, Call::Ping) == c,
{
}

/// Unrestricted acknowledgment: for every state, every caller and every
/// 32-byte hash, the acknowledgment succeeds, appends exactly one `Pong`
/// signal carrying the hash verbatim, and changes no state.
pub proof fn unrestricted_acknowledgment(c: Contract, a: Address, h: [u8; 32])
    ensures
        step_result(c, a, Call::Pong { tx_hash: h }) == Ok::<(), ContractError>(()),
        step_events(c, a, Call::Pong { tx_hash: h }) == seq![Event::Pong { tx_hash: h }],
        step_state(c, a, Call::Pong { tx_hash: h }) == c,
{
}

/// The caller of the first assignment call in a transaction sequence, if any
/// assignment occurs in it.
pub open spec fn first_assignee(txs: Seq<(Address, Call)>) -> Option<Address>
    decreases txs.len(),
{
    if txs.len() == 0 {
        None
    } else if txs[0].1 is Init {
        Some(txs[0].0)
    } else {
        first_assignee(txs.skip(1))
    }
}

/// Read consistency: started fresh, the role-holder slot — the value the
/// read operation returns — is exactly the caller of the first assignment
/// among the transactions so far, or the null sentinel if no assignment has
/// been made. Failed and reverted attempts leave no trace in it.
pub proof fn read_consistency(c: Contract, txs: Seq<(Address, Call)>)
    requires
        c.is_fresh(),
    ensures
        first_assignee(txs) matches Some(a) ==> run(c, txs).initialized && run(c, txs).pinger
            == a,
        first_assignee(txs) is None ==> !run(c, txs).initialized && run(c, txs).pinger@
            == null_address(),
    decreases txs.len(),
{
    if txs.len() > 0 {
        let a0 = txs[0].0;
        let call0 = txs[0].1;
        if call0 is Init {
            one_time_assignment(c, a0, txs.skip(1), a0);
        } else {
            read_consistency(step_state(c, a0, call0), txs.skip(1));
        }
    }
}

/// Atomicity: a transaction that fails — with either error kind — leaves the
/// persistent state and the event log exactly as they were.
pub proof fn atomicity(c: Contract, a: Address, call: Call)
    requires
        step_result(c, a, call) is Err,
    ensures
        step_state(c, a, call) == c,
        step_events(c, a, call) == Seq::<Event>::empty(),
{
    assert(step_events(c, a, call) =~= Seq::<Event>::empty());
}

/// Every reachable state is well-formed: a fresh deployment satisfies the
/// invariant and every transaction preserves it.
pub proof fn wf_preserved(c: Contract, a: Address, call: Call)
    requires
        c.wf(),
    ensures
        step_state(c, a, call).wf(),
{
}

} // verus!

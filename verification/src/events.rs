//! Signals appended to the host's immutable event log by successful calls.

use vstd::prelude::*;

verus! {

/// A signal the contract asks the host to append to the event log. A call
/// that fails emits nothing: the host discards every effect of a reverted
/// call.
#[derive(Clone, Copy, Debug, PartialEq, Eq)]
pub enum Event {
    /// The authenticated, zero-payload signal only the role holder may emit.
    Ping,
    /// The unauthenticated acknowledgment, carrying a 32-byte transaction
    /// hash verbatim.
    Pong { tx_hash: [u8; 32] },
}

} // verus!

//! The evaluation context of a predicate: handles naming host-resident
//! objects, and the handles the host reserves by convention.

use vstd::prelude::*;

use crate::error::Error;
use crate::error::spec_chain;
use crate::txsystem::TxOrder;

verus! {

/// Handle to a host variable: an opaque name for a host-resident object,
/// valid only for the current evaluation.
pub type ABHandle = u32;

/// Handle of the transaction order which triggered the predicate.
pub const HANDLE_TX_ORDER: ABHandle = 1;

/// Handle of the predicate argument (extracted from the proof).
pub const HANDLE_ARGUMENT: ABHandle = 2;

/// Handle of the argument provided when the predicate record was created.
pub const HANDLE_CONFIG: ABHandle = 3;

/// The transaction order which triggered the predicate, decoded from the
/// bytes the host exported for the reserved transaction-order handle.
pub fn tx_order(input: &[u8]) -> (r: Result<TxOrder, Error>)
    ensures
        match (r, TxOrder::spec_from(input@)) {
            (Ok(txo), Ok(m)) => txo.model() == m.with_handle(HANDLE_TX_ORDER),
            (Err(e), Err(c)) => e@ == spec_chain(c, 12),
            _ => false,
        },
{
    TxOrder::from_handle(HANDLE_TX_ORDER, input)
}

} // verus!

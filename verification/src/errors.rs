//! The ways in which a ledger operation can fail.

use vstd::prelude::*;

verus! {

/// Why an operation on the ledger was rejected.
#[derive(Clone, Copy, Debug, PartialEq, Eq, Structural)]
pub enum MarginfiError {
    /// The exact result of a fixed-point operation cannot be represented,
    /// or a division had a zero divisor.
    MathError,
    /// A deposit would push the total deposited value above the bank's
    /// configured capacity.
    BankDepositCapacityExceeded,
}

/// The result of a ledger operation.
pub type MarginfiResult<G = ()> = Result<G, MarginfiError>;

} // verus!

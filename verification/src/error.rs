//! The failures a request can end in.

use vstd::prelude::*;

verus! {

/// A refusal by the ledger. The code is the ledger's own and is handed on
/// as it came.
#[derive(Clone, Copy, Debug, PartialEq, Eq, Structural)]
pub struct LedgerError {
    pub code: u64,
}

/// Why a request was refused. Every failure is final for its request.
#[derive(Clone, Copy, Debug, PartialEq, Eq, Structural)]
pub enum ErrorCode {
    /// An amount does not fit the 64-bit amount type.
    ArithmeticOverflow,
    /// A sale asked for more units than are in circulation.
    InsufficientSupply,
    /// The requested quantity was zero.
    InvalidQuantity,
    /// The ledger refused one of the request's operations.
    LedgerError(LedgerError),
}

} // verus!

//! What a request asks of the ledger.
//!
//! The library never moves value itself. It names the operations of a
//! request in the order in which they must be applied; whoever drives the
//! request applies them one by one and reports each answer back.

use vstd::prelude::*;
use anchor_lang::prelude::Pubkey;

verus! {

/// A holder of value in a settlement.
#[derive(Clone, Copy, Debug, PartialEq, Eq)]
pub enum Party {
    /// Whoever submitted the request.
    Caller,
    /// The pool that backs the issuer's units.
    Reserve,
    /// Where platform fees are collected.
    FeeSink,
}

/// Whose authority a change of the asset's supply is made under.
#[derive(Clone, Copy, Debug, PartialEq, Eq)]
pub enum Authorization {
    /// The profile's own derived identity, named by the issuer's key and
    /// the stored nonce.
    Profile { authority: Pubkey, bump: u8 },
    /// The caller, as owner of the units.
    Caller,
}

/// One operation on the ledger.
#[derive(Clone, Copy, Debug, PartialEq, Eq)]
pub enum LedgerOp {
    /// Move `amount` of value from one party to another.
    TransferValue { from: Party, to: Party, amount: u64 },
    /// Create `amount` units of `asset` in the holding of `to`.
    MintUnits { asset: Pubkey, to: Party, amount: u64, authorized_by: Authorization },
    /// Destroy `amount` units of `asset` in the holding of `from`.
    BurnUnits { asset: Pubkey, from: Party, amount: u64, authorized_by: Authorization },
}

/// The balances of two accounts after `amount` has moved from the first to
/// the second, or `None` where the first holds less than `amount` or the
/// second cannot hold so much more.
pub fn move_value(from_balance: u64, to_balance: u64, amount: u64) -> (r: Option<(u64, u64)>)
    ensures
        amount <= from_balance && to_balance + amount <= u64::MAX ==> r == Some(
            ((from_balance - amount) as u64, (to_balance + amount) as u64),
        ),
        amount > from_balance || to_balance + amount > u64::MAX ==> r is None,
{
    match (from_balance.checked_sub(amount), to_balance.checked_add(amount)) {
        (Some(from_after), Some(to_after)) => Some((from_after, to_after)),
        _ => None,
    }
}

} // verus!

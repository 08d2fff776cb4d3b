//! The stages of a request and the ledger operations it is made of.
//!
//! A request is priced first. Pricing fixes the ledger operations that make
//! up the request and their order. The operations are then applied one by
//! one by whoever drives the request, and each answer of the ledger is
//! reported back. The record's supply moves only when the ledger has
//! accepted every operation, and the first refusal ends the request for
//! good.

use vstd::prelude::*;
use crate::ledger::{Authorization, LedgerOp, Party};
use crate::profile::ArtistProfile;

verus! {

/// How far a request has come.
#[derive(Clone, Copy, Debug, PartialEq, Eq, Structural)]
pub enum Stage {
    /// Priced; the payment of a purchase, or the burn of a sale, is still
    /// outstanding.
    Priced,
    /// A purchase whose payment the ledger has accepted.
    Funded,
    /// A sale whose units the ledger has burned.
    Burned,
    /// Every operation was accepted and the supply has moved.
    Settled,
    /// The ledger refused an operation. The supply has not moved.
    Aborted,
}

/// The operations of a purchase, in the order in which they are applied:
/// the cost goes to the reserve, the fee to the fee sink unless it is zero,
/// and only then are the units minted, under the profile's authority.
pub open spec fn spec_buy_plan(artist_profile: ArtistProfile, amount: u64, cost: u64, fee: u64)
    -> Seq<LedgerOp>
{
    let pay_cost = seq![
        LedgerOp::TransferValue { from: Party::Caller, to: Party::Reserve, amount: cost },
    ];
    let pay_fee = if fee > 0 {
        seq![LedgerOp::TransferValue { from: Party::Caller, to: Party::FeeSink, amount: fee }]
    } else {
        Seq::<LedgerOp>::empty()
    };
    let mint = seq![
        LedgerOp::MintUnits {
            asset: artist_profile.token_mint,
            to: Party::Caller,
            amount,
            authorized_by: Authorization::Profile {
                authority: artist_profile.authority,
                bump: artist_profile.profile_bump,
            },
        },
    ];
    pay_cost + pay_fee + mint
}

/// The operations of a sale, in the order in which they are applied: the
/// units are burned first, under the caller's authority; then the reserve
/// pays `net` to the caller and the fee to the fee sink unless it is zero.
pub open spec fn spec_sell_plan(artist_profile: ArtistProfile, amount: u64, net: u64, fee: u64)
    -> Seq<LedgerOp>
{
    let burn = seq![
        LedgerOp::BurnUnits {
            asset: artist_profile.token_mint,
            from: Party::Caller,
            amount,
            authorized_by: Authorization::Caller,
        },
    ];
    let pay_net = seq![
        LedgerOp::TransferValue { from: Party::Reserve, to: Party::Caller, amount: net },
    ];
    let pay_fee = if fee > 0 {
        seq![LedgerOp::TransferValue { from: Party::Reserve, to: Party::FeeSink, amount: fee }]
    } else {
        Seq::<LedgerOp>::empty()
    };
    burn + pay_net + pay_fee
}

/// Lays out the operations of a purchase of `amount` units that costs
/// `cost` and carries `fee`.
pub fn buy_plan(artist_profile: &ArtistProfile, amount: u64, cost: u64, fee: u64)
    -> (plan: Vec<LedgerOp>)
    ensures
        plan@ == spec_buy_plan(*artist_profile, amount, cost, fee),
{
    let mut plan: Vec<LedgerOp> = Vec::new();
    plan.push(LedgerOp::TransferValue { from: Party::Caller, to: Party::Reserve, amount: cost });
    if fee > 0 {
        plan.push(LedgerOp::TransferValue { from: Party::Caller, to: Party::FeeSink, amount: fee });
    }
    plan.push(
        LedgerOp::MintUnits {
            asset: artist_profile.token_mint,
            to: Party::Caller,
            amount,
            authorized_by: Authorization::Profile {
                authority: artist_profile.authority,
                bump: artist_profile.profile_bump,
            },
        },
    );
    plan
}

/// Lays out the operations of a sale of `amount` units that pays `net` to
/// the seller and carries `fee`.
pub fn sell_plan(artist_profile: &ArtistProfile, amount: u64, net: u64, fee: u64)
    -> (plan: Vec<LedgerOp>)
    ensures
        plan@ == spec_sell_plan(*artist_profile, amount, net, fee),
{
    let mut plan: Vec<LedgerOp> = Vec::new();
    plan.push(
        LedgerOp::BurnUnits {
            asset: artist_profile.token_mint,
            from: Party::Caller,
            amount,
            authorized_by: Authorization::Caller,
        },
    );
    plan.push(LedgerOp::TransferValue { from: Party::Reserve, to: Party::Caller, amount: net });
    if fee > 0 {
        plan.push(
            LedgerOp::TransferValue { from: Party::Reserve, to: Party::FeeSink, amount: fee },
        );
    }
    plan
}

} // verus!

//! A purchase, from pricing to the update of the record.

use vstd::prelude::*;
use crate::curve::{buy_amount, buy_cost, curve_integral, spec_buy_cost};
use crate::curve::{lemma_buy_cost_bounds, lemma_reserve_backed};
use crate::error::{ErrorCode, LedgerError};
use crate::fee::{buy_total, fee_for, spec_fee};
use crate::ledger::{Authorization, LedgerOp, Party};
use crate::profile::ArtistProfile;
use crate::progress::{lemma_run_completes_iff_all_accepted, lemma_run_counts_to_first_refusal};
use crate::progress::Progress;
use crate::settlement::{buy_plan, spec_buy_plan, Stage};

verus! {

/// What a purchase in flight is, to a contract: the record it was priced
/// against, the quantity asked for, and the ledger's answers so far.
pub struct BuyTokenView {
    pub artist_profile: ArtistProfile,
    pub amount: u64,
    pub progress: Progress,
}

impl BuyTokenView {
    /// What the units cost, before the fee.
    pub open spec fn cost(self) -> u64 {
        buy_amount(self.artist_profile.token_supply as nat, self.amount as nat) as u64
    }

    /// The fee on the cost.
    pub open spec fn fee(self) -> u64 {
        spec_fee(self.cost() as nat) as u64
    }

    /// What the caller pays in all.
    pub open spec fn total(self) -> nat {
        (self.cost() + self.fee()) as nat
    }

    /// The operations of this purchase, in order.
    pub open spec fn plan(self) -> Seq<LedgerOp> {
        spec_buy_plan(self.artist_profile, self.amount, self.cost(), self.fee())
    }

    /// The operation that is due next, if any.
    pub open spec fn pending(self) -> Option<LedgerOp> {
        self.progress.pending(self.plan())
    }

    /// The purchase after the ledger's `reply` to the pending operation.
    pub open spec fn advance(self, reply: Result<(), LedgerError>) -> BuyTokenView {
        BuyTokenView { progress: self.progress.advance(self.plan(), reply), ..self }
    }

    /// The purchase after a run of replies, taken in order.
    pub open spec fn run(self, replies: Seq<Result<(), LedgerError>>) -> BuyTokenView {
        BuyTokenView { progress: self.progress.run(self.plan(), replies), ..self }
    }

    /// How far the purchase has come. It is funded once only the mint is
    /// outstanding.
    pub open spec fn stage(self) -> Stage {
        if self.progress.failure is Some {
            Stage::Aborted
        } else if self.progress.accepted == self.plan().len() {
            Stage::Settled
        } else if self.progress.accepted + 1 == self.plan().len() {
            Stage::Funded
        } else {
            Stage::Priced
        }
    }

    /// The record that a settled purchase leaves: the new units are
    /// counted, and nothing else has changed.
    pub open spec fn record_when_settled(self) -> ArtistProfile {
        self.artist_profile.issued(self.amount)
    }

    /// The record as the ledger should hold it now: the record as loaded,
    /// until the purchase is settled.
    pub open spec fn record(self) -> ArtistProfile {
        if self.stage() == Stage::Settled {
            self.record_when_settled()
        } else {
            self.artist_profile
        }
    }

    /// How the purchase ended, once it has: with the record to store, or
    /// with the ledger's refusal.
    pub open spec fn outcome(self) -> Option<Result<ArtistProfile, ErrorCode>> {
        match self.progress.failure {
            Some(e) => Some(Err(ErrorCode::LedgerError(e))),
            None => if self.stage() == Stage::Settled {
                Some(Ok(self.record()))
            } else {
                None
            },
        }
    }

    /// The purchase was priced by `buy_token` and advanced from there.
    pub open spec fn valid(self) -> bool {
        &&& spec_buy_token(self.artist_profile, self.amount) is Ok
        &&& self.progress.accepted <= self.plan().len()
        &&& self.progress.failure is Some ==> self.progress.accepted < self.plan().len()
    }
}

/// What `buy_token` returns. A quantity of zero is refused before anything
/// is priced. A cost that, with the fee on it, does not fit 64 bits is an
/// overflow. Every other purchase is priced, with nothing asked of the
/// ledger yet.
pub open spec fn spec_buy_token(artist_profile: ArtistProfile, amount: u64)
    -> Result<BuyTokenView, ErrorCode>
{
    let cost = buy_amount(artist_profile.token_supply as nat, amount as nat);
    if amount == 0 {
        Err(ErrorCode::InvalidQuantity)
    } else if cost + spec_fee(cost) > u64::MAX {
        Err(ErrorCode::ArithmeticOverflow)
    } else {
        Ok(BuyTokenView { artist_profile, amount, progress: Progress::start() })
    }
}

/// A purchase in flight.
#[derive(Debug)]
pub struct BuyToken {
    artist_profile: ArtistProfile,
    amount: u64,
    cost: u64,
    fee: u64,
    plan: Vec<LedgerOp>,
    progress: Progress,
}

impl View for BuyToken {
    type V = BuyTokenView;

    closed spec fn view(&self) -> BuyTokenView {
        BuyTokenView {
            artist_profile: self.artist_profile,
            amount: self.amount,
            progress: self.progress,
        }
    }
}

/// Prices a purchase of `amount` units against `artist_profile` and lays
/// out its operations. Nothing has been asked of the ledger yet.
pub fn buy_token(artist_profile: ArtistProfile, amount: u64) -> (r: Result<BuyToken, ErrorCode>)
    ensures
        r matches Ok(unit) ==> ({
            &&& spec_buy_token(artist_profile, amount) == Ok::<BuyTokenView, ErrorCode>(unit@)
            &&& unit@.valid()
        }),
        r matches Err(e) ==> (spec_buy_token(artist_profile, amount) == Err::<
            BuyTokenView,
            ErrorCode,
        >(e)),
{
    if amount == 0 {
        return Err(ErrorCode::InvalidQuantity);
    }
    let cost: u64 = match buy_cost(artist_profile.token_supply, amount) {
        Ok(cost) => cost,
        Err(e) => return Err(e),
    };
    match buy_total(cost) {
        Ok(_) => {},
        Err(e) => return Err(e),
    }
    let fee: u64 = fee_for(cost);
    let plan = buy_plan(&artist_profile, amount, cost, fee);
    let progress = Progress { accepted: 0, failure: None };
    Ok(BuyToken { artist_profile, amount, cost, fee, plan, progress })
}

impl BuyToken {
    #[verifier::type_invariant]
    spec fn well_formed(self) -> bool {
        &&& self@.valid()
        &&& self.cost == self@.cost()
        &&& self.fee == self@.fee()
        &&& self.plan@ == self@.plan()
    }

    /// The quantity asked for.
    pub fn amount(&self) -> (amount: u64)
        ensures
            amount == self@.amount,
    {
        self.amount
    }

    /// What the units cost, before the fee.
    pub fn cost(&self) -> (cost: u64)
        ensures
            cost == self@.cost(),
    {
        proof {
            use_type_invariant(self);
        }
        self.cost
    }

    /// The fee on the cost.
    pub fn fee(&self) -> (fee: u64)
        ensures
            fee == self@.fee(),
    {
        proof {
            use_type_invariant(self);
        }
        self.fee
    }

    /// What the caller pays in all: the cost and the fee.
    pub fn total(&self) -> (total: u64)
        ensures
            total == self@.total(),
    {
        proof {
            use_type_invariant(self);
        }
        self.cost + self.fee
    }

    /// The operations of this purchase, in the order in which the ledger
    /// is to apply them.
    pub fn plan(&self) -> (plan: &Vec<LedgerOp>)
        ensures
            plan@ == self@.plan(),
    {
        proof {
            use_type_invariant(self);
        }
        &self.plan
    }

    /// The operation to hand to the ledger next. There is none once the
    /// purchase is settled or aborted.
    pub fn pending(&self) -> (op: Option<LedgerOp>)
        ensures
            op == self@.pending(),
    {
        proof {
            use_type_invariant(self);
        }
        self.progress.next_op(&self.plan)
    }

    /// Takes the ledger's `reply` to the pending operation. An acceptance
    /// moves on to the next operation, and the last one settles the
    /// purchase; a refusal aborts it. Where nothing is pending, the reply is
    /// ignored.
    pub fn advance(self, reply: Result<(), LedgerError>) -> (after: BuyToken)
        ensures
            after@ == self@.advance(reply),
            after@.valid(),
    {
        proof {
            use_type_invariant(&self);
        }
        let progress = self.progress.take_reply(&self.plan, reply);
        BuyToken {
            artist_profile: self.artist_profile,
            amount: self.amount,
            cost: self.cost,
            fee: self.fee,
            plan: self.plan,
            progress,
        }
    }

    /// How far the purchase has come.
    pub fn stage(&self) -> (stage: Stage)
        ensures
            stage == self@.stage(),
    {
        proof {
            use_type_invariant(self);
        }
        if self.progress.failure.is_some() {
            Stage::Aborted
        } else if self.progress.accepted == self.plan.len() {
            Stage::Settled
        } else if self.progress.accepted + 1 == self.plan.len() {
            Stage::Funded
        } else {
            Stage::Priced
        }
    }

    /// The record as the ledger should hold it now. Its supply has grown by
    /// the quantity bought if the purchase is settled, and is untouched
    /// otherwise.
    pub fn artist_profile(&self) -> (record: ArtistProfile)
        ensures
            record == self@.record(),
    {
        proof {
            use_type_invariant(self);
            lemma_buy_cost_bounds(self.artist_profile.token_supply as nat, self.amount as nat);
        }
        let mut record = self.artist_profile;
        if self.progress.failure.is_none() && self.progress.accepted == self.plan.len() {
            let counted = record.issue(self.amount);
            assert(counted is Ok);
        }
        record
    }

    /// How the purchase ended: `None` while an operation is pending, the
    /// record to store once the purchase is settled, or the ledger's
    /// refusal.
    pub fn outcome(&self) -> (r: Option<Result<ArtistProfile, ErrorCode>>)
        ensures
            r == self@.outcome(),
    {
        proof {
            use_type_invariant(self);
        }
        match self.progress.failure {
            Some(e) => Some(Err(ErrorCode::LedgerError(e))),
            None => if self.progress.accepted == self.plan.len() {
                Some(Ok(self.artist_profile()))
            } else {
                None
            },
        }
    }
}

/// What pricing settles about a purchase: the cost is the area under the
/// curve, the fee is charged on it and is never zero, the total fits 64
/// bits and so does the supply after the purchase; and the plan is the
/// payment of the cost, the payment of the fee and the mint, in this order.
pub proof fn lemma_buy_priced(unit: BuyTokenView)
    requires
        unit.valid(),
    ensures
        unit.amount > 0,
        spec_buy_cost(unit.artist_profile.token_supply as nat, unit.amount as nat)
            == Ok::<u64, ErrorCode>(unit.cost()),
        unit.fee() == spec_fee(unit.cost() as nat),
        0 < unit.fee() <= unit.cost(),
        unit.total() <= u64::MAX,
        unit.artist_profile.token_supply + unit.amount <= u64::MAX,
        unit.plan() == (seq![
            LedgerOp::TransferValue {
                from: Party::Caller,
                to: Party::Reserve,
                amount: unit.cost(),
            },
            LedgerOp::TransferValue {
                from: Party::Caller,
                to: Party::FeeSink,
                amount: unit.fee(),
            },
            LedgerOp::MintUnits {
                asset: unit.artist_profile.token_mint,
                to: Party::Caller,
                amount: unit.amount,
                authorized_by: Authorization::Profile {
                    authority: unit.artist_profile.authority,
                    bump: unit.artist_profile.profile_bump,
                },
            },
        ]),
{
    lemma_buy_cost_bounds(unit.artist_profile.token_supply as nat, unit.amount as nat);
}

/// The reserve stays fully backed across a purchase: the cost that the
/// plan moves into the reserve is what the area under the curve grows by.
pub proof fn lemma_buy_backs_reserve(unit: BuyTokenView)
    requires
        unit.valid(),
    ensures
        curve_integral(unit.artist_profile.token_supply as nat) + unit.cost() == curve_integral(
            unit.record_when_settled().token_supply as nat,
        ),
{
    lemma_buy_priced(unit);
    lemma_reserve_backed(unit.artist_profile.token_supply as nat, unit.amount as nat);
}

/// Payment comes before the mint: the mint is asked of the ledger exactly
/// when the purchase is funded, that is, when the ledger has accepted both
/// payments. Nothing is asked once the purchase is settled or aborted.
pub proof fn lemma_buy_pays_before_mint(unit: BuyTokenView)
    requires
        unit.valid(),
    ensures
        unit.stage() != Stage::Burned,
        unit.stage() == Stage::Priced <==> (unit.pending() matches Some(
            LedgerOp::TransferValue { from, .. },
        ) && from == Party::Caller),
        unit.stage() == Stage::Funded <==> (unit.pending() matches Some(
            LedgerOp::MintUnits { .. },
        )),
        unit.stage() == Stage::Funded ==> unit.progress.accepted == 2,
        (unit.stage() == Stage::Settled || unit.stage() == Stage::Aborted)
            <==> unit.pending() is None,
{
    lemma_buy_priced(unit);
}

/// A purchase is all or nothing: whatever the ledger replies, the record
/// ends with the new units counted if the ledger accepted every operation
/// of the plan, and exactly as it was loaded if not.
pub proof fn lemma_buy_all_or_nothing(unit: BuyTokenView, replies: Seq<Result<(), LedgerError>>)
    requires
        unit.valid(),
        unit.progress == Progress::start(),
    ensures
        unit.run(replies).valid(),
        unit.run(replies).record() == (if replies.len() >= unit.plan().len() && (forall|i: int|
            0 <= i < unit.plan().len() ==> (#[trigger] replies[i]) is Ok) {
            unit.record_when_settled()
        } else {
            unit.artist_profile
        }),
{
    lemma_buy_priced(unit);
    lemma_run_counts_to_first_refusal(unit.plan(), replies);
    lemma_run_completes_iff_all_accepted(unit.plan(), replies);
}

} // verus!

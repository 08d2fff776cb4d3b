//! A sale, from pricing to the update of the record.

use vstd::prelude::*;
use crate::buy::{lemma_buy_priced, spec_buy_token};
use crate::curve::{curve_integral, lemma_buy_sell_symmetric, lemma_reserve_backed};
use crate::curve::lemma_sell_refund_bounds;
use crate::curve::{sell_amount, sell_refund, spec_sell_refund};
use crate::error::{ErrorCode, LedgerError};
use crate::fee::{fee_for, sell_net, spec_fee};
use crate::ledger::{Authorization, LedgerOp, Party};
use crate::profile::ArtistProfile;
use crate::progress::{lemma_run_completes_iff_all_accepted, lemma_run_counts_to_first_refusal};
use crate::progress::Progress;
use crate::settlement::{sell_plan, spec_sell_plan, Stage};

verus! {

/// What a sale in flight is, to a contract: the record it was priced
/// against, the quantity asked for, and the ledger's answers so far.
pub struct SellTokenView {
    pub artist_profile: ArtistProfile,
    pub amount: u64,
    pub progress: Progress,
}

impl SellTokenView {
    /// What the units refund, before the fee.
    pub open spec fn refund(self) -> u64 {
        sell_amount(self.artist_profile.token_supply as nat, self.amount as nat) as u64
    }

    /// The fee on the refund.
    pub open spec fn fee(self) -> u64 {
        spec_fee(self.refund() as nat) as u64
    }

    /// What the caller receives: the refund less the fee.
    pub open spec fn net(self) -> u64 {
        (self.refund() - self.fee()) as u64
    }

    /// The operations of this sale, in order.
    pub open spec fn plan(self) -> Seq<LedgerOp> {
        spec_sell_plan(self.artist_profile, self.amount, self.net(), self.fee())
    }

    /// The operation that is due next, if any.
    pub open spec fn pending(self) -> Option<LedgerOp> {
        self.progress.pending(self.plan())
    }

    /// The sale after the ledger's `reply` to the pending operation.
    pub open spec fn advance(self, reply: Result<(), LedgerError>) -> SellTokenView {
        SellTokenView { progress: self.progress.advance(self.plan(), reply), ..self }
    }

    /// The sale after a run of replies, taken in order.
    pub open spec fn run(self, replies: Seq<Result<(), LedgerError>>) -> SellTokenView {
        SellTokenView { progress: self.progress.run(self.plan(), replies), ..self }
    }

    /// How far the sale has come. It is burned from the acceptance of the
    /// burn until the last payout is accepted.
    pub open spec fn stage(self) -> Stage {
        if self.progress.failure is Some {
            Stage::Aborted
        } else if self.progress.accepted == self.plan().len() {
            Stage::Settled
        } else if self.progress.accepted >= 1 {
            Stage::Burned
        } else {
            Stage::Priced
        }
    }

    /// The record that a settled sale leaves: the burned units are no
    /// longer counted, and nothing else has changed.
    pub open spec fn record_when_settled(self) -> ArtistProfile {
        self.artist_profile.retired(self.amount)
    }

    /// The record as the ledger should hold it now: the record as loaded,
    /// until the sale is settled.
    pub open spec fn record(self) -> ArtistProfile {
        if self.stage() == Stage::Settled {
            self.record_when_settled()
        } else {
            self.artist_profile
        }
    }

    /// How the sale ended, once it has: with the record to store, or with
    /// the ledger's refusal.
    pub open spec fn outcome(self) -> Option<Result<ArtistProfile, ErrorCode>> {
        match self.progress.failure {
            Some(e) => Some(Err(ErrorCode::LedgerError(e))),
            None => if self.stage() == Stage::Settled {
                Some(Ok(self.record()))
            } else {
                None
            },
        }
    }

    /// The sale was priced by `sell_token` and advanced from there.
    pub open spec fn valid(self) -> bool {
        &&& spec_sell_token(self.artist_profile, self.amount) is Ok
        &&& self.progress.accepted <= self.plan().len()
        &&& self.progress.failure is Some ==> self.progress.accepted < self.plan().len()
    }
}

/// What `sell_token` returns. A quantity of zero is refused before anything
/// is priced; then a quantity beyond the units in circulation; then a refund
/// that does not fit 64 bits. Every other sale is priced, with nothing asked
/// of the ledger yet.
pub open spec fn spec_sell_token(artist_profile: ArtistProfile, amount: u64)
    -> Result<SellTokenView, ErrorCode>
{
    if amount == 0 {
        Err(ErrorCode::InvalidQuantity)
    } else if amount > artist_profile.token_supply {
        Err(ErrorCode::InsufficientSupply)
    } else if sell_amount(artist_profile.token_supply as nat, amount as nat) > u64::MAX {
        Err(ErrorCode::ArithmeticOverflow)
    } else {
        Ok(SellTokenView { artist_profile, amount, progress: Progress::start() })
    }
}

/// A sale in flight.
#[derive(Debug)]
pub struct SellToken {
    artist_profile: ArtistProfile,
    amount: u64,
    refund: u64,
    fee: u64,
    plan: Vec<LedgerOp>,
    progress: Progress,
}

impl View for SellToken {
    type V = SellTokenView;

    closed spec fn view(&self) -> SellTokenView {
        SellTokenView {
            artist_profile: self.artist_profile,
            amount: self.amount,
            progress: self.progress,
        }
    }
}

/// Prices a sale of `amount` units against `artist_profile` and lays out
/// its operations. Nothing has been asked of the ledger yet.
pub fn sell_token(artist_profile: ArtistProfile, amount: u64) -> (r: Result<SellToken, ErrorCode>)
    ensures
        r matches Ok(unit) ==> ({
            &&& spec_sell_token(artist_profile, amount) == Ok::<SellTokenView, ErrorCode>(unit@)
            &&& unit@.valid()
        }),
        r matches Err(e) ==> (spec_sell_token(artist_profile, amount) == Err::<
            SellTokenView,
            ErrorCode,
        >(e)),
{
    if amount == 0 {
        return Err(ErrorCode::InvalidQuantity);
    }
    let refund: u64 = match sell_refund(artist_profile.token_supply, amount) {
        Ok(refund) => refund,
        Err(e) => return Err(e),
    };
    let fee: u64 = fee_for(refund);
    let plan = sell_plan(&artist_profile, amount, sell_net(refund), fee);
    let progress = Progress { accepted: 0, failure: None };
    Ok(SellToken { artist_profile, amount, refund, fee, plan, progress })
}

impl SellToken {
    #[verifier::type_invariant]
    spec fn well_formed(self) -> bool {
        &&& self@.valid()
        &&& self.refund == self@.refund()
        &&& self.fee == self@.fee()
        &&& self.plan@ == self@.plan()
    }

    /// The quantity asked for.
    pub fn amount(&self) -> (amount: u64)
        ensures
            amount == self@.amount,
    {
        self.amount
    }

    /// What the units refund, before the fee.
    pub fn refund(&self) -> (refund: u64)
        ensures
            refund == self@.refund(),
    {
        proof {
            use_type_invariant(self);
        }
        self.refund
    }

    /// The fee on the refund.
    pub fn fee(&self) -> (fee: u64)
        ensures
            fee == self@.fee(),
    {
        proof {
            use_type_invariant(self);
        }
        self.fee
    }

    /// What the caller receives: the refund less the fee.
    pub fn net(&self) -> (net: u64)
        ensures
            net == self@.net(),
    {
        proof {
            use_type_invariant(self);
        }
        self.refund - self.fee
    }

    /// The operations of this sale, in the order in which the ledger is to
    /// apply them.
    pub fn plan(&self) -> (plan: &Vec<LedgerOp>)
        ensures
            plan@ == self@.plan(),
    {
        proof {
            use_type_invariant(self);
        }
        &self.plan
    }

    /// The operation to hand to the ledger next. There is none once the
    /// sale is settled or aborted.
    pub fn pending(&self) -> (op: Option<LedgerOp>)
        ensures
            op == self@.pending(),
    {
        proof {
            use_type_invariant(self);
        }
        self.progress.next_op(&self.plan)
    }

    /// Takes the ledger's `reply` to the pending operation. An acceptance
    /// moves on to the next operation, and the last one settles the sale; a
    /// refusal aborts it. Where nothing is pending, the reply is ignored.
    pub fn advance(self, reply: Result<(), LedgerError>) -> (after: SellToken)
        ensures
            after@ == self@.advance(reply),
            after@.valid(),
    {
        proof {
            use_type_invariant(&self);
        }
        let progress = self.progress.take_reply(&self.plan, reply);
        SellToken {
            artist_profile: self.artist_profile,
            amount: self.amount,
            refund: self.refund,
            fee: self.fee,
            plan: self.plan,
            progress,
        }
    }

    /// How far the sale has come.
    pub fn stage(&self) -> (stage: Stage)
        ensures
            stage == self@.stage(),
    {
        proof {
            use_type_invariant(self);
        }
        if self.progress.failure.is_some() {
            Stage::Aborted
        } else if self.progress.accepted == self.plan.len() {
            Stage::Settled
        } else if self.progress.accepted >= 1 {
            Stage::Burned
        } else {
            Stage::Priced
        }
    }

    /// The record as the ledger should hold it now. Its supply has shrunk
    /// by the quantity sold if the sale is settled, and is untouched
    /// otherwise.
    pub fn artist_profile(&self) -> (record: ArtistProfile)
        ensures
            record == self@.record(),
    {
        proof {
            use_type_invariant(self);
        }
        let mut record = self.artist_profile;
        if self.progress.failure.is_none() && self.progress.accepted == self.plan.len() {
            let counted = record.retire(self.amount);
            assert(counted is Ok);
        }
        record
    }

    /// How the sale ended: `None` while an operation is pending, the record
    /// to store once the sale is settled, or the ledger's refusal.
    pub fn outcome(&self) -> (r: Option<Result<ArtistProfile, ErrorCode>>)
        ensures
            r == self@.outcome(),
    {
        proof {
            use_type_invariant(self);
        }
        match self.progress.failure {
            Some(e) => Some(Err(ErrorCode::LedgerError(e))),
            None => if self.progress.accepted == self.plan.len() {
                Some(Ok(self.artist_profile()))
            } else {
                None
            },
        }
    }
}

/// A sale of more units than are in circulation is refused for want of
/// supply, whatever the record and the quantity are otherwise.
pub proof fn lemma_oversell_refused(artist_profile: ArtistProfile, amount: u64)
    requires
        amount > artist_profile.token_supply,
    ensures
        spec_sell_refund(artist_profile.token_supply as nat, amount as nat)
            == Err::<u64, ErrorCode>(ErrorCode::InsufficientSupply),
        spec_sell_token(artist_profile, amount)
            == Err::<SellTokenView, ErrorCode>(ErrorCode::InsufficientSupply),
{
}

/// What pricing settles about a sale: the units exist, the refund is the
/// area under the curve, the fee is charged on it and is never zero; and
/// the plan is the burn, the payout to the caller and the payment of the
/// fee, in this order.
pub proof fn lemma_sell_priced(unit: SellTokenView)
    requires
        unit.valid(),
    ensures
        0 < unit.amount <= unit.artist_profile.token_supply,
        spec_sell_refund(unit.artist_profile.token_supply as nat, unit.amount as nat)
            == Ok::<u64, ErrorCode>(unit.refund()),
        unit.fee() == spec_fee(unit.refund() as nat),
        0 < unit.fee() <= unit.refund(),
        unit.net() + unit.fee() == unit.refund(),
        unit.plan() == (seq![
            LedgerOp::BurnUnits {
                asset: unit.artist_profile.token_mint,
                from: Party::Caller,
                amount: unit.amount,
                authorized_by: Authorization::Caller,
            },
            LedgerOp::TransferValue {
                from: Party::Reserve,
                to: Party::Caller,
                amount: unit.net(),
            },
            LedgerOp::TransferValue {
                from: Party::Reserve,
                to: Party::FeeSink,
                amount: unit.fee(),
            },
        ]),
{
    lemma_sell_refund_bounds(unit.artist_profile.token_supply as nat, unit.amount as nat);
}

/// The reserve stays fully backed across a sale: what the plan moves out
/// of the reserve, to the caller and to the fee sink, is what the area
/// under the curve shrinks by.
pub proof fn lemma_sell_backs_reserve(unit: SellTokenView)
    requires
        unit.valid(),
    ensures
        curve_integral(unit.record_when_settled().token_supply as nat) + unit.net() + unit.fee()
            == curve_integral(unit.artist_profile.token_supply as nat),
{
    lemma_sell_priced(unit);
    lemma_reserve_backed(unit.artist_profile.token_supply as nat, unit.amount as nat);
}

/// The burn comes before any payout: the reserve is asked to pay only
/// while the sale is burned, that is, after the ledger has accepted the
/// burn. Nothing is asked once the sale is settled or aborted.
pub proof fn lemma_sell_burns_before_payout(unit: SellTokenView)
    requires
        unit.valid(),
    ensures
        unit.stage() != Stage::Funded,
        unit.stage() == Stage::Priced <==> (unit.pending() matches Some(
            LedgerOp::BurnUnits { .. },
        )),
        unit.stage() == Stage::Burned <==> (unit.pending() matches Some(
            LedgerOp::TransferValue { from, .. },
        ) && from == Party::Reserve),
        unit.stage() == Stage::Burned ==> unit.progress.accepted >= 1,
        (unit.stage() == Stage::Settled || unit.stage() == Stage::Aborted)
            <==> unit.pending() is None,
{
    lemma_sell_priced(unit);
}

/// A sale is all or nothing: whatever the ledger replies, the record ends
/// without the burned units if the ledger accepted every operation of the
/// plan, and exactly as it was loaded if not.
pub proof fn lemma_sell_all_or_nothing(unit: SellTokenView, replies: Seq<Result<(), LedgerError>>)
    requires
        unit.valid(),
        unit.progress == Progress::start(),
    ensures
        unit.run(replies).valid(),
        unit.run(replies).record() == (if replies.len() >= unit.plan().len() && (forall|i: int|
            0 <= i < unit.plan().len() ==> (#[trigger] replies[i]) is Ok) {
            unit.record_when_settled()
        } else {
            unit.artist_profile
        }),
{
    lemma_sell_priced(unit);
    lemma_run_counts_to_first_refusal(unit.plan(), replies);
    lemma_run_completes_iff_all_accepted(unit.plan(), replies);
}

/// A purchase followed at once by the sale of the same units: the sale is
/// priced, its refund is the cost of the purchase and its fee is the fee of
/// the purchase, so that the caller is out exactly two fees; and once both
/// are settled the record is as it was before the purchase.
pub proof fn lemma_round_trip(artist_profile: ArtistProfile, amount: u64)
    requires
        spec_buy_token(artist_profile, amount) is Ok,
    ensures
        ({
            let bought = spec_buy_token(artist_profile, amount)->Ok_0;
            let sold = spec_sell_token(bought.record_when_settled(), amount);
            &&& sold is Ok
            &&& sold->Ok_0.refund() == bought.cost()
            &&& sold->Ok_0.fee() == bought.fee()
            &&& bought.total() - sold->Ok_0.net() == 2 * bought.fee()
            &&& sold->Ok_0.record_when_settled() == artist_profile
        }),
{
    let bought = spec_buy_token(artist_profile, amount)->Ok_0;
    lemma_buy_priced(bought);
    lemma_buy_sell_symmetric(artist_profile.token_supply as nat, amount as nat);
}

} // verus!

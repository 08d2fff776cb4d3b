//! What a history of settled requests leaves behind: the supply counts what
//! was issued less what was retired, and the reserve holds exactly the area
//! under the curve up to that supply.

use vstd::prelude::*;
use crate::buy::{lemma_buy_backs_reserve, lemma_buy_priced, spec_buy_token};
use crate::curve::curve_integral;
use crate::profile::ArtistProfile;
use crate::sell::{lemma_sell_backs_reserve, lemma_sell_priced, spec_sell_token};

verus! {

/// One entry of a history: a request that was settled.
pub enum Entry {
    /// A purchase of so many units.
    Bought(u64),
    /// A sale of so many units.
    Sold(u64),
}

/// An issuer's record together with the value held in its reserve.
pub struct Books {
    pub record: ArtistProfile,
    pub reserve: int,
}

impl Books {
    /// The reserve holds exactly the area under the curve up to the supply.
    pub open spec fn backed(self) -> bool {
        self.reserve == curve_integral(self.record.token_supply as nat)
    }

    /// The books after one more entry: a purchase adds its cost
    /// to the reserve and its units to the supply, a sale takes its payouts
    /// from the reserve and its units from the supply. There are none where
    /// the request would not have been priced.
    pub open spec fn settle(self, entry: Entry) -> Option<Books> {
        match entry {
            Entry::Bought(amount) => match spec_buy_token(self.record, amount) {
                Ok(unit) => Some(
                    Books {
                        record: unit.record_when_settled(),
                        reserve: self.reserve + unit.cost(),
                    },
                ),
                Err(_) => None,
            },
            Entry::Sold(amount) => match spec_sell_token(self.record, amount) {
                Ok(unit) => Some(
                    Books {
                        record: unit.record_when_settled(),
                        reserve: self.reserve - unit.net() - unit.fee(),
                    },
                ),
                Err(_) => None,
            },
        }
    }

    /// The books after a history of settled requests, oldest first.
    pub open spec fn settle_all(self, history: Seq<Entry>) -> Option<Books>
        decreases history.len(),
    {
        if history.len() == 0 {
            Some(self)
        } else {
            match self.settle_all(history.drop_last()) {
                Some(before) => before.settle(history.last()),
                None => None,
            }
        }
    }
}

/// The units issued less the units retired over a history.
pub open spec fn net_issued(history: Seq<Entry>) -> int
    decreases history.len(),
{
    if history.len() == 0 {
        0
    } else {
        net_issued(history.drop_last()) + match history.last() {
            Entry::Bought(amount) => amount as int,
            Entry::Sold(amount) => -(amount as int),
        }
    }
}

/// The books of a newly registered issuer are backed: nothing is in
/// circulation and nothing is owed.
pub proof fn lemma_new_books_backed(record: ArtistProfile)
    requires
        record.token_supply == 0,
    ensures
        (Books { record, reserve: 0 }).backed(),
{
}

/// Books that are backed stay backed through any history of settled
/// requests. The supply moves by the units issued less the units retired,
/// and the authority, the asset and the nonce never change.
pub proof fn lemma_books_stay_backed(books: Books, history: Seq<Entry>)
    requires
        books.backed(),
    ensures
        books.settle_all(history) matches Some(after) ==> ({
            &&& after.backed()
            &&& after.record.token_supply == books.record.token_supply + net_issued(history)
            &&& after.record.authority == books.record.authority
            &&& after.record.token_mint == books.record.token_mint
            &&& after.record.profile_bump == books.record.profile_bump
        }),
    decreases history.len(),
{
    if history.len() > 0 {
        lemma_books_stay_backed(books, history.drop_last());
        if let Some(before) = books.settle_all(history.drop_last()) {
            match history.last() {
                Entry::Bought(amount) => {
                    if let Ok(unit) = spec_buy_token(before.record, amount) {
                        lemma_buy_priced(unit);
                        lemma_buy_backs_reserve(unit);
                    }
                },
                Entry::Sold(amount) => {
                    if let Ok(unit) = spec_sell_token(before.record, amount) {
                        lemma_sell_priced(unit);
                        lemma_sell_backs_reserve(unit);
                    }
                },
            }
        }
    }
}

} // verus!

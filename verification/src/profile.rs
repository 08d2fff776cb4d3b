//! The per-issuer record: who controls it, which asset it issues, and how
//! many units of that asset are in circulation.

use vstd::prelude::*;
use anchor_lang::prelude::Pubkey;
use crate::error::ErrorCode;

verus! {

/// `anchor_lang::prelude::Pubkey`, the 32-byte address of an account. The
/// library stores and hands on such addresses and never looks inside one.
#[verifier::external_type_specification]
#[verifier::external_body]
pub struct ExPubkey(anchor_lang::prelude::Pubkey);

/// One issuer's record.
#[derive(Clone, Copy, Debug, PartialEq, Eq)]
pub struct ArtistProfile {
    /// The controlling party. Fixed at registration.
    pub authority: Pubkey,
    /// The asset this profile issues. Fixed at registration.
    pub token_mint: Pubkey,
    /// Units in circulation.
    pub token_supply: u64,
    /// The nonce from which the ledger re-derives the record's own address.
    pub profile_bump: u8,
}

/// What a registration supplies.
#[derive(Clone, Copy, Debug, PartialEq, Eq)]
pub struct RegisterArtist {
    /// The party that will control the profile.
    pub authority: Pubkey,
    /// The asset created for the profile.
    pub token_mint: Pubkey,
    /// The nonce of the record's derived address.
    pub profile_bump: u8,
}

/// The record of a newly registered issuer: nothing is in circulation yet.
pub fn register_artist(ctx: &RegisterArtist) -> (profile: ArtistProfile)
    ensures
        profile == (ArtistProfile {
            authority: ctx.authority,
            token_mint: ctx.token_mint,
            token_supply: 0,
            profile_bump: ctx.profile_bump,
        }),
{
    ArtistProfile {
        authority: ctx.authority,
        token_mint: ctx.token_mint,
        token_supply: 0,
        profile_bump: ctx.profile_bump,
    }
}

impl ArtistProfile {
    /// The record with `quantity` more units in circulation.
    pub open spec fn issued(self, quantity: u64) -> ArtistProfile {
        ArtistProfile { token_supply: (self.token_supply + quantity) as u64, ..self }
    }

    /// The record with `quantity` fewer units in circulation.
    pub open spec fn retired(self, quantity: u64) -> ArtistProfile {
        ArtistProfile { token_supply: (self.token_supply - quantity) as u64, ..self }
    }

    /// Counts `quantity` newly minted units. A count that would leave 64
    /// bits is refused and the record stays as it was.
    pub fn issue(&mut self, quantity: u64) -> (r: Result<(), ErrorCode>)
        ensures
            old(self).token_supply + quantity <= u64::MAX ==> r is Ok
                && *final(self) == old(self).issued(quantity),
            old(self).token_supply + quantity > u64::MAX ==> r == Err::<(), ErrorCode>(
                ErrorCode::ArithmeticOverflow,
            ) && *final(self) == *old(self),
    {
        match self.token_supply.checked_add(quantity) {
            Some(supply) => {
                self.token_supply = supply;
                Ok(())
            },
            None => Err(ErrorCode::ArithmeticOverflow),
        }
    }

    /// Counts `quantity` burned units. More than are in circulation cannot
    /// be burned: the request is refused and the record stays as it was.
    pub fn retire(&mut self, quantity: u64) -> (r: Result<(), ErrorCode>)
        ensures
            quantity <= old(self).token_supply ==> r is Ok
                && *final(self) == old(self).retired(quantity),
            quantity > old(self).token_supply ==> r == Err::<(), ErrorCode>(
                ErrorCode::InsufficientSupply,
            ) && *final(self) == *old(self),
    {
        match self.token_supply.checked_sub(quantity) {
            Some(supply) => {
                self.token_supply = supply;
                Ok(())
            },
            None => Err(ErrorCode::InsufficientSupply),
        }
    }
}

} // verus!

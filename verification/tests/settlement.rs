use anchor_lang::prelude::Pubkey;
use sol_proj::{buy_token, register_artist, sell_token};
use sol_proj::{ArtistProfile, Authorization, ErrorCode, LedgerError, LedgerOp, Party};
use sol_proj::{RegisterArtist, Stage};

fn key(byte: u8) -> Pubkey {
    Pubkey::new_from_array([byte; 32])
}

fn profile_with_supply(token_supply: u64) -> ArtistProfile {
    ArtistProfile { authority: key(1), token_mint: key(2), token_supply, profile_bump: 254 }
}

fn mint(amount: u64) -> LedgerOp {
    LedgerOp::MintUnits {
        asset: key(2),
        to: Party::Caller,
        amount,
        authorized_by: Authorization::Profile { authority: key(1), bump: 254 },
    }
}

fn burn(amount: u64) -> LedgerOp {
    LedgerOp::BurnUnits {
        asset: key(2),
        from: Party::Caller,
        amount,
        authorized_by: Authorization::Caller,
    }
}

fn transfer(from: Party, to: Party, amount: u64) -> LedgerOp {
    LedgerOp::TransferValue { from, to, amount }
}

#[test]
fn buy_ten_from_a_new_profile() {
    let registration = RegisterArtist { authority: key(1), token_mint: key(2), profile_bump: 254 };
    let unit = buy_token(register_artist(&registration), 10).unwrap();
    assert_eq!(unit.amount(), 10);
    assert_eq!(unit.cost(), 50_000_000);
    assert_eq!(unit.fee(), 2_500_000);
    assert_eq!(unit.total(), 52_500_000);
    assert_eq!(unit.stage(), Stage::Priced);
    assert_eq!(unit.outcome(), None);
    assert_eq!(unit.artist_profile().token_supply, 0);

    assert_eq!(unit.pending(), Some(transfer(Party::Caller, Party::Reserve, 50_000_000)));
    let unit = unit.advance(Ok(()));
    assert_eq!(unit.stage(), Stage::Priced);
    assert_eq!(unit.pending(), Some(transfer(Party::Caller, Party::FeeSink, 2_500_000)));
    let unit = unit.advance(Ok(()));
    assert_eq!(unit.stage(), Stage::Funded);
    assert_eq!(unit.artist_profile().token_supply, 0);
    assert_eq!(unit.pending(), Some(mint(10)));
    let unit = unit.advance(Ok(()));
    assert_eq!(unit.stage(), Stage::Settled);
    assert_eq!(unit.pending(), None);
    assert_eq!(unit.artist_profile(), profile_with_supply(10));
    assert_eq!(unit.outcome(), Some(Ok(profile_with_supply(10))));
}

#[test]
fn sell_ten_from_a_supply_of_ten() {
    let unit = sell_token(profile_with_supply(10), 10).unwrap();
    assert_eq!(unit.amount(), 10);
    assert_eq!(unit.refund(), 50_000_000);
    assert_eq!(unit.fee(), 2_500_000);
    assert_eq!(unit.net(), 47_500_000);
    assert_eq!(unit.stage(), Stage::Priced);
    assert_eq!(unit.outcome(), None);

    assert_eq!(unit.pending(), Some(burn(10)));
    let unit = unit.advance(Ok(()));
    assert_eq!(unit.stage(), Stage::Burned);
    assert_eq!(unit.pending(), Some(transfer(Party::Reserve, Party::Caller, 47_500_000)));
    let unit = unit.advance(Ok(()));
    assert_eq!(unit.stage(), Stage::Burned);
    assert_eq!(unit.artist_profile().token_supply, 10);
    assert_eq!(unit.pending(), Some(transfer(Party::Reserve, Party::FeeSink, 2_500_000)));
    let unit = unit.advance(Ok(()));
    assert_eq!(unit.stage(), Stage::Settled);
    assert_eq!(unit.pending(), None);
    assert_eq!(unit.artist_profile(), profile_with_supply(0));
    assert_eq!(unit.outcome(), Some(Ok(profile_with_supply(0))));
}

#[test]
fn buy_then_sell_costs_the_caller_two_fees() {
    let before = profile_with_supply(25);
    let mut bought = buy_token(before, 7).unwrap();
    while bought.pending().is_some() {
        bought = bought.advance(Ok(()));
    }
    let mut sold = sell_token(bought.artist_profile(), 7).unwrap();
    while sold.pending().is_some() {
        sold = sold.advance(Ok(()));
    }
    assert_eq!(bought.cost(), 199_500_000);
    assert_eq!(sold.refund(), bought.cost());
    assert_eq!(sold.fee(), bought.fee());
    assert_eq!(bought.total() - sold.net(), 2 * bought.fee());
    assert_eq!(sold.artist_profile(), before);
}

#[test]
fn buying_nothing_is_an_invalid_quantity() {
    assert_eq!(buy_token(profile_with_supply(10), 0).unwrap_err(), ErrorCode::InvalidQuantity);
}

#[test]
fn selling_nothing_is_an_invalid_quantity() {
    assert_eq!(sell_token(profile_with_supply(10), 0).unwrap_err(), ErrorCode::InvalidQuantity);
    assert_eq!(sell_token(profile_with_supply(0), 0).unwrap_err(), ErrorCode::InvalidQuantity);
}

#[test]
fn selling_more_than_supply_is_refused() {
    let profile = profile_with_supply(10);
    assert_eq!(sell_token(profile, 11).unwrap_err(), ErrorCode::InsufficientSupply);
    assert_eq!(sell_token(profile, u64::MAX).unwrap_err(), ErrorCode::InsufficientSupply);
    assert_eq!(profile.token_supply, 10);
    assert_eq!(sell_token(profile_with_supply(0), 1).unwrap_err(), ErrorCode::InsufficientSupply);
}

#[test]
fn purchase_whose_cost_leaves_64_bits_is_refused() {
    assert_eq!(
        buy_token(profile_with_supply(0), 6_074_001).unwrap_err(),
        ErrorCode::ArithmeticOverflow
    );
    assert_eq!(
        buy_token(profile_with_supply(u64::MAX), 1).unwrap_err(),
        ErrorCode::ArithmeticOverflow
    );
}

#[test]
fn purchase_whose_total_leaves_64_bits_is_refused() {
    // The cost alone still fits.
    assert_eq!(
        buy_token(profile_with_supply(0), 6_074_000).unwrap_err(),
        ErrorCode::ArithmeticOverflow
    );
    assert_eq!(
        buy_token(profile_with_supply(0), 5_927_619).unwrap_err(),
        ErrorCode::ArithmeticOverflow
    );
    let unit = buy_token(profile_with_supply(0), 5_927_618).unwrap();
    assert_eq!(unit.cost(), 17_568_327_576_962_000_000);
    assert_eq!(unit.fee(), 878_416_378_848_100_000);
    assert_eq!(unit.total(), 18_446_743_955_810_100_000);
}

#[test]
fn sale_whose_refund_leaves_64_bits_is_refused() {
    assert_eq!(
        sell_token(profile_with_supply(6_074_001), 6_074_001).unwrap_err(),
        ErrorCode::ArithmeticOverflow
    );
    let unit = sell_token(profile_with_supply(6_074_000), 6_074_000).unwrap();
    assert_eq!(unit.refund(), 18_446_738_000_000_000_000);
}

#[test]
fn refused_payment_aborts_the_purchase() {
    let profile = profile_with_supply(10);
    let unit = buy_token(profile, 5).unwrap();
    let unit = unit.advance(Err(LedgerError { code: 1 }));
    assert_eq!(unit.stage(), Stage::Aborted);
    assert_eq!(unit.pending(), None);
    assert_eq!(unit.artist_profile(), profile);
    assert_eq!(unit.outcome(), Some(Err(ErrorCode::LedgerError(LedgerError { code: 1 }))));
}

#[test]
fn refused_fee_payment_aborts_the_purchase() {
    let profile = profile_with_supply(10);
    let unit = buy_token(profile, 5).unwrap();
    let unit = unit.advance(Ok(()));
    let unit = unit.advance(Err(LedgerError { code: 2 }));
    assert_eq!(unit.stage(), Stage::Aborted);
    assert_eq!(unit.pending(), None);
    assert_eq!(unit.artist_profile(), profile);
    assert_eq!(unit.outcome(), Some(Err(ErrorCode::LedgerError(LedgerError { code: 2 }))));
}

#[test]
fn refused_mint_aborts_the_purchase() {
    let profile = profile_with_supply(10);
    let unit = buy_token(profile, 5).unwrap();
    let unit = unit.advance(Ok(()));
    let unit = unit.advance(Ok(()));
    assert_eq!(unit.stage(), Stage::Funded);
    let unit = unit.advance(Err(LedgerError { code: 3 }));
    assert_eq!(unit.stage(), Stage::Aborted);
    assert_eq!(unit.artist_profile(), profile);
    assert_eq!(unit.outcome(), Some(Err(ErrorCode::LedgerError(LedgerError { code: 3 }))));
}

#[test]
fn refused_burn_aborts_the_sale() {
    let profile = profile_with_supply(10);
    let unit = sell_token(profile, 5).unwrap();
    let unit = unit.advance(Err(LedgerError { code: 4 }));
    assert_eq!(unit.stage(), Stage::Aborted);
    assert_eq!(unit.pending(), None);
    assert_eq!(unit.artist_profile(), profile);
    assert_eq!(unit.outcome(), Some(Err(ErrorCode::LedgerError(LedgerError { code: 4 }))));
}

#[test]
fn refused_payout_aborts_the_sale() {
    let profile = profile_with_supply(10);
    let unit = sell_token(profile, 5).unwrap();
    let unit = unit.advance(Ok(()));
    let unit = unit.advance(Ok(()));
    assert_eq!(unit.stage(), Stage::Burned);
    let unit = unit.advance(Err(LedgerError { code: 5 }));
    assert_eq!(unit.stage(), Stage::Aborted);
    assert_eq!(unit.artist_profile(), profile);
    assert_eq!(unit.outcome(), Some(Err(ErrorCode::LedgerError(LedgerError { code: 5 }))));
}

#[test]
fn aborted_request_stays_aborted() {
    let profile = profile_with_supply(10);
    let unit = buy_token(profile, 5).unwrap();
    let unit = unit.advance(Err(LedgerError { code: 1 }));
    let unit = unit.advance(Ok(()));
    let unit = unit.advance(Ok(()));
    let unit = unit.advance(Err(LedgerError { code: 2 }));
    let unit = unit.advance(Ok(()));
    assert_eq!(unit.stage(), Stage::Aborted);
    assert_eq!(unit.artist_profile(), profile);
    assert_eq!(unit.outcome(), Some(Err(ErrorCode::LedgerError(LedgerError { code: 1 }))));
}

#[test]
fn settled_request_stays_settled() {
    let unit = sell_token(profile_with_supply(10), 5).unwrap();
    let unit = unit.advance(Ok(())).advance(Ok(())).advance(Ok(()));
    assert_eq!(unit.stage(), Stage::Settled);
    let unit = unit.advance(Err(LedgerError { code: 6 })).advance(Ok(()));
    assert_eq!(unit.stage(), Stage::Settled);
    assert_eq!(unit.artist_profile(), profile_with_supply(5));
    assert_eq!(unit.outcome(), Some(Ok(profile_with_supply(5))));
}

#[test]
fn supply_moves_only_with_the_last_acceptance() {
    let profile = profile_with_supply(3);
    let mut unit = buy_token(profile, 4).unwrap();
    assert_eq!(unit.cost(), 20_000_000);
    let mut asked = 0;
    while unit.pending().is_some() {
        assert_eq!(unit.artist_profile(), profile);
        unit = unit.advance(Ok(()));
        asked += 1;
    }
    assert_eq!(asked, 3);
    assert_eq!(unit.artist_profile(), profile_with_supply(7));
}

#[test]
fn purchase_keeps_authority_asset_and_nonce() {
    let profile =
        ArtistProfile { authority: key(9), token_mint: key(8), token_supply: 1, profile_bump: 7 };
    let unit = buy_token(profile, 1).unwrap();
    let unit = unit.advance(Ok(())).advance(Ok(())).advance(Ok(()));
    let record = unit.artist_profile();
    assert_eq!(record.authority, key(9));
    assert_eq!(record.token_mint, key(8));
    assert_eq!(record.profile_bump, 7);
    assert_eq!(record.token_supply, 2);
}

#[test]
fn purchase_shows_its_whole_plan() {
    let unit = buy_token(profile_with_supply(10), 5).unwrap();
    assert_eq!(
        *unit.plan(),
        vec![
            transfer(Party::Caller, Party::Reserve, 62_500_000),
            transfer(Party::Caller, Party::FeeSink, 3_125_000),
            mint(5),
        ]
    );
    let unit = unit.advance(Ok(()));
    assert_eq!(unit.plan().len(), 3);
    assert_eq!(unit.pending(), Some(unit.plan()[1]));
}

#[test]
fn sale_shows_its_whole_plan() {
    let unit = sell_token(profile_with_supply(15), 5).unwrap();
    assert_eq!(
        *unit.plan(),
        vec![
            burn(5),
            transfer(Party::Reserve, Party::Caller, 59_375_000),
            transfer(Party::Reserve, Party::FeeSink, 3_125_000),
        ]
    );
}

#[test]
fn reserve_holds_the_area_under_the_curve_after_every_request() {
    let registration = RegisterArtist { authority: key(1), token_mint: key(2), profile_bump: 254 };
    let mut record = register_artist(&registration);
    let mut reserve: u64 = 0;
    let mut fees: u64 = 0;
    for (buy, amount) in [(true, 10u64), (true, 5), (false, 3), (true, 1), (false, 13)] {
        if buy {
            let mut unit = buy_token(record, amount).unwrap();
            while unit.pending().is_some() {
                unit = unit.advance(Ok(()));
            }
            reserve += unit.cost();
            fees += unit.fee();
            record = unit.artist_profile();
        } else {
            let mut unit = sell_token(record, amount).unwrap();
            while unit.pending().is_some() {
                unit = unit.advance(Ok(()));
            }
            reserve -= unit.net() + unit.fee();
            fees += unit.fee();
            record = unit.artist_profile();
        }
        assert_eq!(reserve, 500_000 * record.token_supply * record.token_supply);
    }
    assert_eq!(record.token_supply, 0);
    assert_eq!(reserve, 0);
    // 5% of 50_000_000 + 62_500_000 + 40_500_000 + 12_500_000 + 84_500_000
    assert_eq!(fees, 12_500_000);
    assert_eq!(record.authority, key(1));
    assert_eq!(record.token_mint, key(2));
    assert_eq!(record.profile_bump, 254);
}

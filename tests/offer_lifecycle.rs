use escrow::{
    make_offer, revoke_offer, take_offer, EscrowError, Ledger, MakeOffer, Offer, Owner, Pubkey, RevokeOffer,
    TakeOffer, TransitionError,
};

fn key(n: u64) -> Pubkey {
    Pubkey::from_words(n, 0, 0, 0)
}

const MAKER: u64 = 1;
const TAKER: u64 = 2;
const OTHER: u64 = 3;
const MINT_A: u64 = 10;
const MINT_B: u64 = 11;

fn make_request() -> MakeOffer {
    MakeOffer { offer_maker: key(MAKER), token_mint_a: key(MINT_A), token_mint_b: key(MINT_B), offer_bump: 254 }
}

fn take_request(taker: u64, id: u64) -> TakeOffer {
    TakeOffer {
        offer_taker: key(taker),
        offer_maker: key(MAKER),
        token_mint_a: key(MINT_A),
        token_mint_b: key(MINT_B),
        offer_id: id,
    }
}

fn revoke_request(by: u64, id: u64) -> RevokeOffer {
    RevokeOffer { offer_maker: key(by), token_mint_a: key(MINT_A), offer_id: id }
}

fn escrow_err(e: EscrowError) -> Result<(), TransitionError> {
    Err(TransitionError::Escrow(e))
}

/// A ledger where the maker holds `maker_a` of asset A and the taker holds
/// `taker_b` of asset B.
fn funded(maker_a: u64, taker_b: u64) -> Ledger {
    let mut l = Ledger::new();
    l.mint_to(key(MAKER), key(MINT_A), maker_a).unwrap();
    l.mint_to(key(TAKER), key(MINT_B), taker_b).unwrap();
    l
}

fn party(n: u64) -> Owner {
    Owner::Party(key(n))
}

#[test]
fn make_offer_funds_vault_and_records_inputs() {
    let mut l = funded(1000, 0);
    assert_eq!(make_offer(&mut l, &make_request(), 7, 100, 50), Ok(()));
    assert_eq!(l.balance(Owner::Offer(7), key(MINT_A)), Some(100));
    assert_eq!(l.balance(party(MAKER), key(MINT_A)), Some(900));
    assert_eq!(
        l.offer(7),
        Some(Offer {
            id: 7,
            offer_maker: key(MAKER),
            token_mint_a: key(MINT_A),
            token_mint_b: key(MINT_B),
            token_b_demanded_amount: 50,
            bump: 254,
        })
    );
}

#[test]
fn make_offer_with_zero_amount_is_invalid() {
    let mut l = funded(1000, 0);
    assert_eq!(make_offer(&mut l, &make_request(), 7, 0, 50), escrow_err(EscrowError::InvalidAmount));
    assert_eq!(make_offer(&mut l, &make_request(), 7, 100, 0), escrow_err(EscrowError::InvalidAmount));
    assert_eq!(l.offer(7), None);
    assert_eq!(l.balance(Owner::Offer(7), key(MINT_A)), None);
    assert_eq!(l.balance(party(MAKER), key(MINT_A)), Some(1000));
}

#[test]
fn make_offer_with_same_mint_is_invalid() {
    let mut l = funded(1000, 0);
    let same = MakeOffer { token_mint_b: key(MINT_A), ..make_request() };
    assert_eq!(make_offer(&mut l, &same, 7, 100, 50), escrow_err(EscrowError::InvalidTokenMint));
    assert_eq!(l.offer(7), None);
}

#[test]
fn make_offer_by_underfunded_maker_fails() {
    let mut l = funded(99, 0);
    assert_eq!(make_offer(&mut l, &make_request(), 7, 100, 50), escrow_err(EscrowError::InsufficentOfferMakerBalance));
    assert_eq!(l.balance(party(MAKER), key(MINT_A)), Some(99));
    assert_eq!(l.offer(7), None);
    assert_eq!(l.balance(Owner::Offer(7), key(MINT_A)), None);
}

#[test]
fn make_offer_needs_the_makers_account() {
    let mut l = Ledger::new();
    assert_eq!(make_offer(&mut l, &make_request(), 7, 100, 50), Err(TransitionError::AccountNotInitialized));
}

#[test]
fn make_offer_with_live_id_is_refused() {
    let mut l = funded(1000, 0);
    assert_eq!(make_offer(&mut l, &make_request(), 7, 100, 50), Ok(()));
    assert_eq!(make_offer(&mut l, &make_request(), 7, 100, 50), Err(TransitionError::AccountAlreadyInUse));
    assert_eq!(l.balance(Owner::Offer(7), key(MINT_A)), Some(100));
    assert_eq!(l.balance(party(MAKER), key(MINT_A)), Some(900));
}

#[test]
fn make_then_take_settles_both_legs() {
    let mut l = funded(100, 50);
    assert_eq!(make_offer(&mut l, &make_request(), 1, 100, 50), Ok(()));
    assert_eq!(take_offer(&mut l, &take_request(TAKER, 1)), Ok(()));
    assert_eq!(l.balance(party(TAKER), key(MINT_A)), Some(100));
    assert_eq!(l.balance(party(MAKER), key(MINT_B)), Some(50));
    assert_eq!(l.balance(party(TAKER), key(MINT_B)), Some(0));
    assert_eq!(l.balance(party(MAKER), key(MINT_A)), Some(0));
    assert_eq!(l.offer(1), None);
    assert_eq!(l.balance(Owner::Offer(1), key(MINT_A)), None);
}

#[test]
fn take_adds_to_existing_balances() {
    let mut l = funded(300, 80);
    l.mint_to(key(TAKER), key(MINT_A), 5).unwrap();
    l.mint_to(key(MAKER), key(MINT_B), 7).unwrap();
    assert_eq!(make_offer(&mut l, &make_request(), 1, 100, 50), Ok(()));
    assert_eq!(take_offer(&mut l, &take_request(TAKER, 1)), Ok(()));
    assert_eq!(l.balance(party(TAKER), key(MINT_A)), Some(105));
    assert_eq!(l.balance(party(TAKER), key(MINT_B)), Some(30));
    assert_eq!(l.balance(party(MAKER), key(MINT_B)), Some(57));
    assert_eq!(l.balance(party(MAKER), key(MINT_A)), Some(200));
}

#[test]
fn take_by_underfunded_taker_changes_nothing() {
    let mut l = funded(100, 49);
    assert_eq!(make_offer(&mut l, &make_request(), 1, 100, 50), Ok(()));
    assert_eq!(take_offer(&mut l, &take_request(TAKER, 1)), escrow_err(EscrowError::InsufficentOfferTakerBalance));
    assert_eq!(l.balance(Owner::Offer(1), key(MINT_A)), Some(100));
    assert_eq!(l.balance(party(TAKER), key(MINT_B)), Some(49));
    assert_eq!(l.balance(party(TAKER), key(MINT_A)), None);
    assert_eq!(l.balance(party(MAKER), key(MINT_B)), None);
    assert!(l.offer(1).is_some());
}

#[test]
fn take_overflowing_the_takers_balance_fails_withdrawal() {
    let mut l = funded(100, 50);
    l.mint_to(key(TAKER), key(MINT_A), u64::MAX - 50).unwrap();
    assert_eq!(make_offer(&mut l, &make_request(), 1, 100, 50), Ok(()));
    assert_eq!(take_offer(&mut l, &take_request(TAKER, 1)), escrow_err(EscrowError::FailedVaultWithdrawal));
    assert_eq!(l.balance(Owner::Offer(1), key(MINT_A)), Some(100));
    assert_eq!(l.balance(party(TAKER), key(MINT_A)), Some(u64::MAX - 50));
}

#[test]
fn take_naming_another_maker_is_refused() {
    let mut l = funded(100, 50);
    assert_eq!(make_offer(&mut l, &make_request(), 1, 100, 50), Ok(()));
    let wrong = TakeOffer { offer_maker: key(OTHER), ..take_request(TAKER, 1) };
    assert_eq!(take_offer(&mut l, &wrong), Err(TransitionError::ConstraintHasOne));
    assert_eq!(l.balance(Owner::Offer(1), key(MINT_A)), Some(100));
}

#[test]
fn take_without_the_takers_asset_b_account_is_refused() {
    let mut l = funded(100, 0);
    assert_eq!(make_offer(&mut l, &make_request(), 1, 100, 50), Ok(()));
    assert_eq!(take_offer(&mut l, &take_request(OTHER, 1)), Err(TransitionError::AccountNotInitialized));
}

#[test]
fn maker_may_take_own_offer() {
    let mut l = funded(100, 0);
    l.mint_to(key(MAKER), key(MINT_B), 60).unwrap();
    assert_eq!(make_offer(&mut l, &make_request(), 1, 100, 50), Ok(()));
    assert_eq!(take_offer(&mut l, &take_request(MAKER, 1)), Ok(()));
    assert_eq!(l.balance(party(MAKER), key(MINT_A)), Some(100));
    assert_eq!(l.balance(party(MAKER), key(MINT_B)), Some(60));
    assert_eq!(l.offer(1), None);
}

#[test]
fn revoke_by_another_party_is_refused() {
    let mut l = funded(100, 0);
    l.mint_to(key(OTHER), key(MINT_A), 1).unwrap();
    assert_eq!(make_offer(&mut l, &make_request(), 1, 100, 50), Ok(()));
    assert_eq!(revoke_offer(&mut l, &revoke_request(OTHER, 1)), Err(TransitionError::ConstraintHasOne));
    assert_eq!(revoke_offer(&mut l, &revoke_request(TAKER, 1)), Err(TransitionError::AccountNotInitialized));
    assert_eq!(l.balance(Owner::Offer(1), key(MINT_A)), Some(100));
    assert_eq!(l.balance(party(OTHER), key(MINT_A)), Some(1));
    assert!(l.offer(1).is_some());
}

#[test]
fn make_then_revoke_returns_the_deposit() {
    let mut l = funded(100, 0);
    assert_eq!(make_offer(&mut l, &make_request(), 1, 100, 50), Ok(()));
    assert_eq!(l.balance(party(MAKER), key(MINT_A)), Some(0));
    assert_eq!(revoke_offer(&mut l, &revoke_request(MAKER, 1)), Ok(()));
    assert_eq!(l.balance(party(MAKER), key(MINT_A)), Some(100));
    assert_eq!(l.offer(1), None);
    assert_eq!(l.balance(Owner::Offer(1), key(MINT_A)), None);
}

#[test]
fn revoke_overflowing_the_makers_balance_fails_refund() {
    let mut l = funded(u64::MAX, 0);
    assert_eq!(make_offer(&mut l, &make_request(), 1, 100, 50), Ok(()));
    l.mint_to(key(MAKER), key(MINT_A), 100).unwrap();
    assert_eq!(revoke_offer(&mut l, &revoke_request(MAKER, 1)), escrow_err(EscrowError::FailedRefund));
    assert_eq!(l.balance(Owner::Offer(1), key(MINT_A)), Some(100));
    assert!(l.offer(1).is_some());
}

#[test]
fn settled_offer_cannot_be_taken_or_revoked_again() {
    let mut l = funded(100, 100);
    assert_eq!(make_offer(&mut l, &make_request(), 1, 100, 50), Ok(()));
    assert_eq!(take_offer(&mut l, &take_request(TAKER, 1)), Ok(()));
    assert_eq!(take_offer(&mut l, &take_request(TAKER, 1)), Err(TransitionError::AccountNotInitialized));
    assert_eq!(revoke_offer(&mut l, &revoke_request(MAKER, 1)), Err(TransitionError::AccountNotInitialized));
    assert_eq!(l.balance(party(TAKER), key(MINT_B)), Some(50));
    assert_eq!(l.balance(party(MAKER), key(MINT_B)), Some(50));
}

#[test]
fn revoked_offer_cannot_be_taken_or_revoked_again() {
    let mut l = funded(100, 100);
    assert_eq!(make_offer(&mut l, &make_request(), 1, 100, 50), Ok(()));
    assert_eq!(revoke_offer(&mut l, &revoke_request(MAKER, 1)), Ok(()));
    assert_eq!(revoke_offer(&mut l, &revoke_request(MAKER, 1)), Err(TransitionError::AccountNotInitialized));
    assert_eq!(take_offer(&mut l, &take_request(TAKER, 1)), Err(TransitionError::AccountNotInitialized));
    assert_eq!(l.balance(party(MAKER), key(MINT_A)), Some(100));
    assert_eq!(l.balance(party(TAKER), key(MINT_B)), Some(100));
}

#[test]
fn identifier_is_free_again_after_settlement() {
    let mut l = funded(300, 100);
    assert_eq!(make_offer(&mut l, &make_request(), 1, 100, 50), Ok(()));
    assert_eq!(revoke_offer(&mut l, &revoke_request(MAKER, 1)), Ok(()));
    assert_eq!(make_offer(&mut l, &make_request(), 1, 30, 20), Ok(()));
    assert_eq!(l.balance(Owner::Offer(1), key(MINT_A)), Some(30));
}

#[test]
fn program_entry_points_run_the_transitions() {
    let mut l = funded(100, 50);
    assert_eq!(escrow::escrow::make_offer(&mut l, &make_request(), 4, 100, 50), Ok(()));
    assert_eq!(escrow::escrow::revoke_offer(&mut l, &revoke_request(OTHER, 4)), Err(TransitionError::AccountNotInitialized));
    assert_eq!(escrow::escrow::take_offer(&mut l, &take_request(TAKER, 4)), Ok(()));
    assert_eq!(l.balance(party(TAKER), key(MINT_A)), Some(100));
    assert_eq!(escrow::escrow::revoke_offer(&mut l, &revoke_request(MAKER, 4)), Err(TransitionError::AccountNotInitialized));
}

//! The three transitions of an offer: make, take and revoke. Each either
//! commits all of its effects or leaves the ledger as it was.
use vstd::prelude::*;
use crate::error::{EscrowError, TransitionError};
use crate::ledger::{open_spec, transfer_spec, Ledger, LedgerView};
use crate::pubkey::{Owner, Pubkey};
use crate::state::{vault_key, Offer};

verus! {

/// The accounts that a maker names to open an offer.
#[derive(Clone, Copy, Debug, PartialEq, Eq, Structural)]
pub struct MakeOffer {
    pub offer_maker: Pubkey,
    pub token_mint_a: Pubkey,
    pub token_mint_b: Pubkey,
    /// The derivation byte of the offer's address, as the ledger found it.
    pub offer_bump: u8,
}

/// The accounts that a taker names to settle an offer.
#[derive(Clone, Copy, Debug, PartialEq, Eq, Structural)]
pub struct TakeOffer {
    pub offer_taker: Pubkey,
    pub offer_maker: Pubkey,
    pub token_mint_a: Pubkey,
    pub token_mint_b: Pubkey,
    pub offer_id: u64,
}

/// The accounts that a maker names to cancel an offer.
#[derive(Clone, Copy, Debug, PartialEq, Eq, Structural)]
pub struct RevokeOffer {
    pub offer_maker: Pubkey,
    pub token_mint_a: Pubkey,
    pub offer_id: u64,
}

/// What opening offer `id` does to ledger `v`: the ledger after it, or why
/// it aborts.
pub open spec fn make_offer_outcome(
    v: LedgerView,
    accounts: MakeOffer,
    id: u64,
    token_a_offered_amount: u64,
    token_b_demanded_amount: u64,
) -> Result<LedgerView, TransitionError> {
    let source = (Owner::Party(accounts.offer_maker), accounts.token_mint_a);
    let vault = vault_key(id, accounts.token_mint_a);
    if !v.balances.contains_key(source) {
        Err(TransitionError::AccountNotInitialized)
    } else if v.offers.contains_key(id) || v.balances.contains_key(vault) {
        Err(TransitionError::AccountAlreadyInUse)
    } else if token_a_offered_amount == 0 || token_b_demanded_amount == 0 {
        Err(TransitionError::Escrow(EscrowError::InvalidAmount))
    } else if accounts.token_mint_a == accounts.token_mint_b {
        Err(TransitionError::Escrow(EscrowError::InvalidTokenMint))
    } else if v.balances[source] < token_a_offered_amount {
        Err(TransitionError::Escrow(EscrowError::InsufficentOfferMakerBalance))
    } else {
        Ok(LedgerView {
            balances: v.balances.insert(source, (v.balances[source] - token_a_offered_amount) as u64).insert(
                vault,
                token_a_offered_amount,
            ),
            offers: v.offers.insert(
                id,
                Offer {
                    id,
                    offer_maker: accounts.offer_maker,
                    token_mint_a: accounts.token_mint_a,
                    token_mint_b: accounts.token_mint_b,
                    token_b_demanded_amount,
                    bump: accounts.offer_bump,
                },
            ),
        })
    }
}

/// What settling an offer does to ledger `v`: the vault's whole balance goes
/// to the taker, the vault closes, the demanded amount goes from the taker to
/// the maker, and the offer is destroyed; the taker's and the maker's
/// receiving accounts are opened where missing.
pub open spec fn take_offer_outcome(v: LedgerView, accounts: TakeOffer) -> Result<LedgerView, TransitionError> {
    let id = accounts.offer_id;
    let vault = vault_key(id, accounts.token_mint_a);
    let taker_a = (Owner::Party(accounts.offer_taker), accounts.token_mint_a);
    let taker_b = (Owner::Party(accounts.offer_taker), accounts.token_mint_b);
    let maker_b = (Owner::Party(accounts.offer_maker), accounts.token_mint_b);
    if !v.offers.contains_key(id) {
        Err(TransitionError::AccountNotInitialized)
    } else if v.offers[id].offer_maker != accounts.offer_maker || v.offers[id].token_mint_b != accounts.token_mint_b {
        Err(TransitionError::ConstraintHasOne)
    } else if !v.balances.contains_key(vault) || !v.balances.contains_key(taker_b) {
        Err(TransitionError::AccountNotInitialized)
    } else {
        let opened = open_spec(open_spec(v.balances, taker_a), maker_b);
        match transfer_spec(opened, vault, taker_a, opened[vault]) {
            None => Err(TransitionError::Escrow(EscrowError::FailedVaultWithdrawal)),
            // Only an empty vault can be closed.
            Some(withdrawn) => if withdrawn[vault] != 0 {
                Err(TransitionError::Escrow(EscrowError::FailedVaultClosure))
            } else {
                match transfer_spec(withdrawn.remove(vault), taker_b, maker_b, v.offers[id].token_b_demanded_amount) {
                    None => Err(TransitionError::Escrow(EscrowError::InsufficentOfferTakerBalance)),
                    Some(paid) => Ok(LedgerView { balances: paid, offers: v.offers.remove(id) }),
                }
            },
        }
    }
}

/// What cancelling an offer does to ledger `v`: the vault's whole balance goes
/// back to the maker, the vault closes and the offer is destroyed.
pub open spec fn revoke_offer_outcome(v: LedgerView, accounts: RevokeOffer) -> Result<LedgerView, TransitionError> {
    let id = accounts.offer_id;
    let vault = vault_key(id, accounts.token_mint_a);
    let maker_a = (Owner::Party(accounts.offer_maker), accounts.token_mint_a);
    if !v.balances.contains_key(maker_a) || !v.offers.contains_key(id) {
        Err(TransitionError::AccountNotInitialized)
    } else if v.offers[id].offer_maker != accounts.offer_maker || v.offers[id].token_mint_a != accounts.token_mint_a {
        Err(TransitionError::ConstraintHasOne)
    } else if !v.balances.contains_key(vault) {
        Err(TransitionError::AccountNotInitialized)
    } else {
        match transfer_spec(v.balances, vault, maker_a, v.balances[vault]) {
            None => Err(TransitionError::Escrow(EscrowError::FailedRefund)),
            Some(refunded) => if refunded[vault] != 0 {
                Err(TransitionError::Escrow(EscrowError::FailedVaultClosure))
            } else {
                Ok(LedgerView { balances: refunded.remove(vault), offers: v.offers.remove(id) })
            },
        }
    }
}

/// The ledger after a transition with outcome `outcome` from `before`: the
/// new ledger where it commits, `before` where it aborts.
pub open spec fn committed(before: LedgerView, outcome: Result<LedgerView, TransitionError>) -> LedgerView {
    match outcome {
        Ok(next) => next,
        Err(_) => before,
    }
}

/// The result that a transition with outcome `outcome` returns.
pub open spec fn reported(outcome: Result<LedgerView, TransitionError>) -> Result<(), TransitionError> {
    match outcome {
        Ok(_) => Ok(()),
        Err(e) => Err(e),
    }
}

/// Opens offer `id`: creates its record and its vault, and moves
/// `token_a_offered_amount` of asset A from the maker into the vault.
pub fn make_offer(
    ledger: &mut Ledger,
    accounts: &MakeOffer,
    id: u64,
    token_a_offered_amount: u64,
    token_b_demanded_amount: u64,
) -> (r: Result<(), TransitionError>)
    requires
        old(ledger).wf(),
    ensures
        final(ledger).wf(),
        ({
            let outcome = make_offer_outcome(old(ledger)@, *accounts, id, token_a_offered_amount, token_b_demanded_amount);
            &&& r == reported(outcome)
            &&& final(ledger)@ == committed(old(ledger)@, outcome)
        }),
{
    let maker = Owner::Party(accounts.offer_maker);
    let mint_a = accounts.token_mint_a;
    let vault = Owner::Offer(id);
    let available = match ledger.balance(maker, mint_a) {
        Some(amount) => amount,
        None => return Err(TransitionError::AccountNotInitialized),
    };
    if ledger.offer(id).is_some() || ledger.balance(vault, mint_a).is_some() {
        return Err(TransitionError::AccountAlreadyInUse);
    }
    if !(token_a_offered_amount > 0 && token_b_demanded_amount > 0) {
        return Err(TransitionError::Escrow(EscrowError::InvalidAmount));
    }
    if accounts.token_mint_a == accounts.token_mint_b {
        return Err(TransitionError::Escrow(EscrowError::InvalidTokenMint));
    }
    if available < token_a_offered_amount {
        return Err(TransitionError::Escrow(EscrowError::InsufficentOfferMakerBalance));
    }
    ledger.open_account(vault, mint_a);
    let deposited = ledger.transfer_tokens(mint_a, maker, vault, token_a_offered_amount);
    proof {
        assert(deposited is Ok);
    }
    ledger.insert_offer(
        Offer {
            id,
            offer_maker: accounts.offer_maker,
            token_mint_a: mint_a,
            token_mint_b: accounts.token_mint_b,
            token_b_demanded_amount,
            bump: accounts.offer_bump,
        },
    );
    proof {
        let goal = make_offer_outcome(old(ledger)@, *accounts, id, token_a_offered_amount, token_b_demanded_amount);
        assert(ledger@.balances =~= goal->Ok_0.balances);
        assert(ledger@.offers =~= goal->Ok_0.offers);
    }
    Ok(())
}

/// Settles an offer: the taker receives the vault's whole balance of asset A,
/// the vault closes, the maker receives the demanded amount of asset B, and
/// the offer is destroyed.
pub fn take_offer(ledger: &mut Ledger, accounts: &TakeOffer) -> (r: Result<(), TransitionError>)
    requires
        old(ledger).wf(),
    ensures
        final(ledger).wf(),
        ({
            let outcome = take_offer_outcome(old(ledger)@, *accounts);
            &&& r == reported(outcome)
            &&& final(ledger)@ == committed(old(ledger)@, outcome)
        }),
{
    let id = accounts.offer_id;
    let mint_a = accounts.token_mint_a;
    let mint_b = accounts.token_mint_b;
    let taker = Owner::Party(accounts.offer_taker);
    let maker = Owner::Party(accounts.offer_maker);
    let vault = Owner::Offer(id);
    let offer = match ledger.offer(id) {
        Some(o) => o,
        None => return Err(TransitionError::AccountNotInitialized),
    };
    if offer.offer_maker != accounts.offer_maker || offer.token_mint_b != mint_b {
        return Err(TransitionError::ConstraintHasOne);
    }
    let held = match ledger.balance(vault, mint_a) {
        Some(amount) => amount,
        None => return Err(TransitionError::AccountNotInitialized),
    };
    let taker_b = match ledger.balance(taker, mint_b) {
        Some(amount) => amount,
        None => return Err(TransitionError::AccountNotInitialized),
    };
    let taker_a = match ledger.balance(taker, mint_a) {
        Some(amount) => amount,
        None => 0,
    };
    if taker_a > u64::MAX - held {
        return Err(TransitionError::Escrow(EscrowError::FailedVaultWithdrawal));
    }
    let demanded = offer.token_b_demanded_amount;
    if taker_b < demanded {
        return Err(TransitionError::Escrow(EscrowError::InsufficentOfferTakerBalance));
    }
    if accounts.offer_taker != accounts.offer_maker {
        let maker_b = match ledger.balance(maker, mint_b) {
            Some(amount) => amount,
            None => 0,
        };
        if maker_b > u64::MAX - demanded {
            return Err(TransitionError::Escrow(EscrowError::InsufficentOfferTakerBalance));
        }
    }
    ledger.open_account(taker, mint_a);
    ledger.open_account(maker, mint_b);
    let withdrawn = ledger.transfer_tokens(mint_a, vault, taker, held);
    let closed = ledger.close_token_account(vault, mint_a);
    let paid = ledger.transfer_tokens(mint_b, taker, maker, demanded);
    ledger.remove_offer(id);
    proof {
        assert(withdrawn is Ok);
        assert(closed is Ok);
        assert(paid is Ok);
        let goal = take_offer_outcome(old(ledger)@, *accounts);
        assert(ledger@.balances =~= goal->Ok_0.balances);
        assert(ledger@.offers =~= goal->Ok_0.offers);
    }
    Ok(())
}

/// Cancels an offer: the maker gets the vault's whole balance of asset A
/// back, the vault closes, and the offer is destroyed.
pub fn revoke_offer(ledger: &mut Ledger, accounts: &RevokeOffer) -> (r: Result<(), TransitionError>)
    requires
        old(ledger).wf(),
    ensures
        final(ledger).wf(),
        ({
            let outcome = revoke_offer_outcome(old(ledger)@, *accounts);
            &&& r == reported(outcome)
            &&& final(ledger)@ == committed(old(ledger)@, outcome)
        }),
{
    let id = accounts.offer_id;
    let mint_a = accounts.token_mint_a;
    let maker = Owner::Party(accounts.offer_maker);
    let vault = Owner::Offer(id);
    let maker_a = match ledger.balance(maker, mint_a) {
        Some(amount) => amount,
        None => return Err(TransitionError::AccountNotInitialized),
    };
    let offer = match ledger.offer(id) {
        Some(o) => o,
        None => return Err(TransitionError::AccountNotInitialized),
    };
    if offer.offer_maker != accounts.offer_maker || offer.token_mint_a != mint_a {
        return Err(TransitionError::ConstraintHasOne);
    }
    let held = match ledger.balance(vault, mint_a) {
        Some(amount) => amount,
        None => return Err(TransitionError::AccountNotInitialized),
    };
    if maker_a > u64::MAX - held {
        return Err(TransitionError::Escrow(EscrowError::FailedRefund));
    }
    let refunded = ledger.transfer_tokens(mint_a, vault, maker, held);
    let closed = ledger.close_token_account(vault, mint_a);
    ledger.remove_offer(id);
    proof {
        assert(refunded is Ok);
        assert(closed is Ok);
        let goal = revoke_offer_outcome(old(ledger)@, *accounts);
        assert(ledger@.balances =~= goal->Ok_0.balances);
        assert(ledger@.offers =~= goal->Ok_0.offers);
    }
    Ok(())
}

} // verus!

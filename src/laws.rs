//! What holds of every run of the transitions.
use vstd::prelude::*;
use crate::error::{EscrowError, TransitionError};
use crate::instructions::{
    committed, make_offer_outcome, revoke_offer_outcome, take_offer_outcome, MakeOffer, RevokeOffer, TakeOffer,
};
use crate::ledger::{open_spec, LedgerView};
use crate::pubkey::{Owner, Pubkey};
use crate::state::{vault_key, Offer};

verus! {

/// A request that names an open account of the maker and a free identifier,
/// positive amounts, two distinct asset types and no more than the maker
/// holds is committed: the vault holds exactly the offered amount and the
/// offer records exactly the inputs.
pub proof fn lemma_make_offer_records_inputs(v: LedgerView, accounts: MakeOffer, id: u64, a_amount: u64, b_amount: u64)
    requires
        v.wf(),
        v.balances.contains_key((Owner::Party(accounts.offer_maker), accounts.token_mint_a)),
        !v.offers.contains_key(id),
        a_amount > 0,
        b_amount > 0,
        accounts.token_mint_a != accounts.token_mint_b,
        v.balances[(Owner::Party(accounts.offer_maker), accounts.token_mint_a)] >= a_amount,
    ensures
        make_offer_outcome(v, accounts, id, a_amount, b_amount) is Ok,
        ({
            let next = committed(v, make_offer_outcome(v, accounts, id, a_amount, b_amount));
            &&& next.wf()
            &&& next.balances[vault_key(id, accounts.token_mint_a)] == a_amount
            &&& next.offers[id] == (Offer {
                id,
                offer_maker: accounts.offer_maker,
                token_mint_a: accounts.token_mint_a,
                token_mint_b: accounts.token_mint_b,
                token_b_demanded_amount: b_amount,
                bump: accounts.offer_bump,
            })
        }),
{
    let next = committed(v, make_offer_outcome(v, accounts, id, a_amount, b_amount));
    let vault = vault_key(id, accounts.token_mint_a);
    assert(!v.balances.contains_key(vault));
    assert forall|i: u64| #[trigger] next.offers.contains_key(i) implies {
        let o = next.offers[i];
        &&& o.id == i
        &&& o.token_mint_a != o.token_mint_b
        &&& o.token_b_demanded_amount > 0
        &&& next.balances.contains_key(vault_key(i, o.token_mint_a))
    } by {
        if i != id {
            assert(v.offers.contains_key(i));
        }
    }
}

/// A request with a zero amount, whose accounts are in order, aborts with
/// `InvalidAmount` and leaves no offer and no vault.
pub proof fn lemma_make_offer_zero_amount(v: LedgerView, accounts: MakeOffer, id: u64, a_amount: u64, b_amount: u64)
    requires
        v.wf(),
        v.balances.contains_key((Owner::Party(accounts.offer_maker), accounts.token_mint_a)),
        !v.offers.contains_key(id),
        a_amount == 0 || b_amount == 0,
    ensures
        make_offer_outcome(v, accounts, id, a_amount, b_amount) == Err::<LedgerView, TransitionError>(
            TransitionError::Escrow(EscrowError::InvalidAmount),
        ),
        !committed(v, make_offer_outcome(v, accounts, id, a_amount, b_amount)).offers.contains_key(id),
        !committed(v, make_offer_outcome(v, accounts, id, a_amount, b_amount)).balances.contains_key(
            vault_key(id, accounts.token_mint_a),
        ),
{
}

/// A request that offers an asset type for itself, whose accounts and
/// amounts are in order, aborts with `InvalidTokenMint`.
pub proof fn lemma_make_offer_same_mint(v: LedgerView, accounts: MakeOffer, id: u64, a_amount: u64, b_amount: u64)
    requires
        v.wf(),
        v.balances.contains_key((Owner::Party(accounts.offer_maker), accounts.token_mint_a)),
        !v.offers.contains_key(id),
        a_amount > 0,
        b_amount > 0,
        accounts.token_mint_a == accounts.token_mint_b,
    ensures
        make_offer_outcome(v, accounts, id, a_amount, b_amount) == Err::<LedgerView, TransitionError>(
            TransitionError::Escrow(EscrowError::InvalidTokenMint),
        ),
{
}

/// A maker who holds less than the offered amount gets
/// `InsufficentOfferMakerBalance`, and keeps the balance they had.
pub proof fn lemma_make_offer_underfunded(v: LedgerView, accounts: MakeOffer, id: u64, a_amount: u64, b_amount: u64)
    requires
        v.wf(),
        v.balances.contains_key((Owner::Party(accounts.offer_maker), accounts.token_mint_a)),
        !v.offers.contains_key(id),
        a_amount > 0,
        b_amount > 0,
        accounts.token_mint_a != accounts.token_mint_b,
        v.balances[(Owner::Party(accounts.offer_maker), accounts.token_mint_a)] < a_amount,
    ensures
        make_offer_outcome(v, accounts, id, a_amount, b_amount) == Err::<LedgerView, TransitionError>(
            TransitionError::Escrow(EscrowError::InsufficentOfferMakerBalance),
        ),
        committed(v, make_offer_outcome(v, accounts, id, a_amount, b_amount)).balances[(
            Owner::Party(accounts.offer_maker),
            accounts.token_mint_a,
        )] == v.balances[(Owner::Party(accounts.offer_maker), accounts.token_mint_a)],
{
    assert(!v.balances.contains_key(vault_key(id, accounts.token_mint_a)));
}

/// Only the recorded maker can revoke an offer: anyone else is refused and
/// the ledger stays as it was.
pub proof fn lemma_revoke_only_by_maker(v: LedgerView, accounts: RevokeOffer)
    requires
        v.wf(),
        v.offers.contains_key(accounts.offer_id),
        v.offers[accounts.offer_id].offer_maker != accounts.offer_maker,
    ensures
        revoke_offer_outcome(v, accounts) is Err,
        committed(v, revoke_offer_outcome(v, accounts)) == v,
{
}

/// Once an offer is settled, a second take or revoke of it fails.
pub proof fn lemma_taken_offer_is_gone(v: LedgerView, taken: TakeOffer, again: TakeOffer, revoke: RevokeOffer)
    requires
        v.wf(),
        take_offer_outcome(v, taken) is Ok,
        again.offer_id == taken.offer_id,
        revoke.offer_id == taken.offer_id,
    ensures
        !committed(v, take_offer_outcome(v, taken)).offers.contains_key(taken.offer_id),
        take_offer_outcome(committed(v, take_offer_outcome(v, taken)), again) is Err,
        revoke_offer_outcome(committed(v, take_offer_outcome(v, taken)), revoke) is Err,
{
}

/// Once an offer is revoked, a second take or revoke of it fails.
pub proof fn lemma_revoked_offer_is_gone(v: LedgerView, revoked: RevokeOffer, take: TakeOffer, again: RevokeOffer)
    requires
        v.wf(),
        revoke_offer_outcome(v, revoked) is Ok,
        take.offer_id == revoked.offer_id,
        again.offer_id == revoked.offer_id,
    ensures
        !committed(v, revoke_offer_outcome(v, revoked)).offers.contains_key(revoked.offer_id),
        take_offer_outcome(committed(v, revoke_offer_outcome(v, revoked)), take) is Err,
        revoke_offer_outcome(committed(v, revoke_offer_outcome(v, revoked)), again) is Err,
{
}

/// Opening an offer and then revoking it as its maker leaves the ledger
/// exactly as it was: the maker has the deposit back, and neither the offer
/// nor its vault remains.
pub proof fn lemma_make_then_revoke_restores(v: LedgerView, accounts: MakeOffer, id: u64, a_amount: u64, b_amount: u64)
    requires
        v.wf(),
        make_offer_outcome(v, accounts, id, a_amount, b_amount) is Ok,
    ensures
        ({
            let opened = committed(v, make_offer_outcome(v, accounts, id, a_amount, b_amount));
            let revoke = RevokeOffer { offer_maker: accounts.offer_maker, token_mint_a: accounts.token_mint_a, offer_id: id };
            &&& revoke_offer_outcome(opened, revoke) is Ok
            &&& committed(opened, revoke_offer_outcome(opened, revoke)) == v
        }),
{
    let opened = committed(v, make_offer_outcome(v, accounts, id, a_amount, b_amount));
    let revoke = RevokeOffer { offer_maker: accounts.offer_maker, token_mint_a: accounts.token_mint_a, offer_id: id };
    let next = committed(opened, revoke_offer_outcome(opened, revoke));
    assert(next.balances =~= v.balances);
    assert(next.offers =~= v.offers);
}

/// Opening an offer and having another party take it, where the taker holds
/// the demanded amount and no balance would overflow: the taker gains the
/// offered amount of asset A, the taker loses and the maker gains the
/// demanded amount of asset B, and neither the offer nor its vault remains.
pub proof fn lemma_make_then_take_settles(
    v: LedgerView,
    accounts: MakeOffer,
    id: u64,
    a_amount: u64,
    b_amount: u64,
    taker: Pubkey,
)
    requires
        v.wf(),
        make_offer_outcome(v, accounts, id, a_amount, b_amount) is Ok,
        taker != accounts.offer_maker,
        v.balances.contains_key((Owner::Party(taker), accounts.token_mint_b)),
        v.balances[(Owner::Party(taker), accounts.token_mint_b)] >= b_amount,
        open_spec(v.balances, (Owner::Party(taker), accounts.token_mint_a))[(
            Owner::Party(taker),
            accounts.token_mint_a,
        )] + a_amount <= u64::MAX,
        open_spec(v.balances, (Owner::Party(accounts.offer_maker), accounts.token_mint_b))[(
            Owner::Party(accounts.offer_maker),
            accounts.token_mint_b,
        )] + b_amount <= u64::MAX,
    ensures
        ({
            let opened = committed(v, make_offer_outcome(v, accounts, id, a_amount, b_amount));
            let take = TakeOffer {
                offer_taker: taker,
                offer_maker: accounts.offer_maker,
                token_mint_a: accounts.token_mint_a,
                token_mint_b: accounts.token_mint_b,
                offer_id: id,
            };
            let taker_a = (Owner::Party(taker), accounts.token_mint_a);
            let taker_b = (Owner::Party(taker), accounts.token_mint_b);
            let maker_b = (Owner::Party(accounts.offer_maker), accounts.token_mint_b);
            let next = committed(opened, take_offer_outcome(opened, take));
            &&& take_offer_outcome(opened, take) is Ok
            &&& next.balances[taker_a] == open_spec(v.balances, taker_a)[taker_a] + a_amount
            &&& next.balances[taker_b] == v.balances[taker_b] - b_amount
            &&& next.balances[maker_b] == open_spec(v.balances, maker_b)[maker_b] + b_amount
            &&& !next.offers.contains_key(id)
            &&& !next.balances.contains_key(vault_key(id, accounts.token_mint_a))
        }),
{
}

} // verus!

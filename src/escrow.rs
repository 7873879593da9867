//! The entry points of the escrow, one per transition.
use vstd::prelude::*;
use crate::error::TransitionError;
use crate::instructions::{
    committed, make_offer_outcome, reported, revoke_offer_outcome, take_offer_outcome, MakeOffer, RevokeOffer,
    TakeOffer,
};
use crate::ledger::Ledger;

verus! {

/// Opens an offer of `token_a_offered_amount` of asset A for
/// `token_b_demanded_amount` of asset B.
pub fn make_offer(
    ledger: &mut Ledger,
    accounts: &MakeOffer,
    id: u64,
    token_a_offered_amount: u64,
    token_b_demanded_amount: u64,
) -> (r: Result<(), TransitionError>)
    requires
        old(ledger).wf(),
    ensures
        final(ledger).wf(),
        ({
            let outcome = make_offer_outcome(old(ledger)@, *accounts, id, token_a_offered_amount, token_b_demanded_amount);
            &&& r == reported(outcome)
            &&& final(ledger)@ == committed(old(ledger)@, outcome)
        }),
{
    crate::instructions::make_offer(ledger, accounts, id, token_a_offered_amount, token_b_demanded_amount)
}

/// Settles an offer in exchange for its demanded amount.
pub fn take_offer(ledger: &mut Ledger, accounts: &TakeOffer) -> (r: Result<(), TransitionError>)
    requires
        old(ledger).wf(),
    ensures
        final(ledger).wf(),
        ({
            let outcome = take_offer_outcome(old(ledger)@, *accounts);
            &&& r == reported(outcome)
            &&& final(ledger)@ == committed(old(ledger)@, outcome)
        }),
{
    crate::instructions::take_offer(ledger, accounts)
}

/// Cancels an offer and returns its deposit to the maker.
pub fn revoke_offer(ledger: &mut Ledger, accounts: &RevokeOffer) -> (r: Result<(), TransitionError>)
    requires
        old(ledger).wf(),
    ensures
        final(ledger).wf(),
        ({
            let outcome = revoke_offer_outcome(old(ledger)@, *accounts);
            &&& r == reported(outcome)
            &&& final(ledger)@ == committed(old(ledger)@, outcome)
        }),
{
    crate::instructions::revoke_offer(ledger, accounts)
}

} // verus!

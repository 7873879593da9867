//! The records kept on the ledger.
use vstd::prelude::*;
use crate::pubkey::{Owner, Pubkey};

verus! {

/// One open bilateral trade proposal.
#[derive(Clone, Copy, Debug, PartialEq, Eq, Structural)]
pub struct Offer {
    pub id: u64,
    pub offer_maker: Pubkey,
    pub token_mint_a: Pubkey,
    pub token_mint_b: Pubkey,
    pub token_b_demanded_amount: u64,
    pub bump: u8,
}

/// A balance of one asset type, held for one owner.
#[derive(Clone, Copy, Debug, PartialEq, Eq, Structural)]
pub struct TokenAccount {
    pub authority: Owner,
    pub mint: Pubkey,
    pub amount: u64,
}

/// The key under which a token account is found: its owner and asset type.
pub open spec fn account_key(a: TokenAccount) -> (Owner, Pubkey) {
    (a.authority, a.mint)
}

pub open spec fn account_amount(a: TokenAccount) -> u64 {
    a.amount
}

pub open spec fn offer_key(o: Offer) -> u64 {
    o.id
}

pub open spec fn offer_itself(o: Offer) -> Offer {
    o
}

/// The vault of offer `id`: the account of asset `mint` owned by the offer.
pub open spec fn vault_key(id: u64, mint: Pubkey) -> (Owner, Pubkey) {
    (Owner::Offer(id), mint)
}

} // verus!

//! Identities of parties, asset types and authorities on the ledger.
use vstd::prelude::*;

verus! {

/// A 256-bit identity, held as four 64-bit words.
#[derive(Clone, Copy, Debug, PartialEq, Eq, Structural)]
pub struct Pubkey {
    pub w0: u64,
    pub w1: u64,
    pub w2: u64,
    pub w3: u64,
}

impl Pubkey {
    /// The identity made of the four given words.
    pub fn from_words(w0: u64, w1: u64, w2: u64, w3: u64) -> (r: Pubkey)
        ensures
            r == (Pubkey { w0, w1, w2, w3 }),
    {
        Pubkey { w0, w1, w2, w3 }
    }
}

/// Who may move the tokens of a token account: a party holding a key, or
/// an offer record, which no party controls.
#[derive(Clone, Copy, Debug, PartialEq, Eq, Structural)]
pub enum Owner {
    Party(Pubkey),
    Offer(u64),
}

} // verus!

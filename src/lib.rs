//! An escrow for swapping two fungible token balances on an account ledger.
pub mod error;
pub mod escrow;
pub mod instructions;
pub mod keyed;
pub mod laws;
pub mod ledger;
pub mod pubkey;
pub mod state;

pub use error::{EscrowError, TokenError, TransitionError};
pub use instructions::{make_offer, revoke_offer, take_offer, MakeOffer, RevokeOffer, TakeOffer};
pub use ledger::{Ledger, LedgerView};
pub use pubkey::{Owner, Pubkey};
pub use state::{Offer, TokenAccount};

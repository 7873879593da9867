//! The ledger that the escrow works on: token accounts, each holding one
//! asset type for one owner, and offer records, each under its identifier.
use vstd::prelude::*;
use crate::error::{EscrowError, TokenError, TransitionError};
use crate::keyed::{keys_unique, lemma_map_of_at, lemma_map_of_push, lemma_map_of_remove, lemma_map_of_update, map_of};
use crate::pubkey::{Owner, Pubkey};
use crate::state::{account_amount, account_key, offer_itself, offer_key, vault_key, Offer, TokenAccount};

verus! {

/// What the ledger holds: the balance of each token account, keyed by owner
/// and asset type, and the offer record under each identifier.
pub struct LedgerView {
    pub balances: Map<(Owner, Pubkey), u64>,
    pub offers: Map<u64, Offer>,
}

impl LedgerView {
    /// Every offer is recorded under its own identifier, offers one asset
    /// type for another, demands a positive amount, and has its vault; every
    /// account owned by an offer is the vault of a live offer.
    pub open spec fn wf(self) -> bool {
        &&& forall|id: u64| #[trigger] self.offers.contains_key(id) ==> {
            let o = self.offers[id];
            &&& o.id == id
            &&& o.token_mint_a != o.token_mint_b
            &&& o.token_b_demanded_amount > 0
            &&& self.balances.contains_key(vault_key(id, o.token_mint_a))
        }
        &&& forall|id: u64, m: Pubkey| #[trigger] self.balances.contains_key((Owner::Offer(id), m)) ==> {
            &&& self.offers.contains_key(id)
            &&& self.offers[id].token_mint_a == m
        }
    }
}

/// The balances after moving `amount` from account `from` to account `to`, or
/// `None` where the source holds too little or the destination would overflow.
pub open spec fn transfer_spec(
    b: Map<(Owner, Pubkey), u64>,
    from: (Owner, Pubkey),
    to: (Owner, Pubkey),
    amount: u64,
) -> Option<Map<(Owner, Pubkey), u64>> {
    if b[from] < amount {
        None
    } else if from == to {
        Some(b)
    } else if b[to] + amount > u64::MAX {
        None
    } else {
        Some(b.insert(from, (b[from] - amount) as u64).insert(to, (b[to] + amount) as u64))
    }
}

/// The balances with account `k` opened empty, if it was not there.
pub open spec fn open_spec(b: Map<(Owner, Pubkey), u64>, k: (Owner, Pubkey)) -> Map<(Owner, Pubkey), u64> {
    if b.contains_key(k) {
        b
    } else {
        b.insert(k, 0)
    }
}

pub open spec fn account_key_fn() -> spec_fn(TokenAccount) -> (Owner, Pubkey) {
    |a: TokenAccount| account_key(a)
}

pub open spec fn account_amount_fn() -> spec_fn(TokenAccount) -> u64 {
    |a: TokenAccount| account_amount(a)
}

pub open spec fn offer_key_fn() -> spec_fn(Offer) -> u64 {
    |o: Offer| offer_key(o)
}

pub open spec fn offer_itself_fn() -> spec_fn(Offer) -> Offer {
    |o: Offer| offer_itself(o)
}

/// The ledger's storage. Its contents are seen through `LedgerView`.
pub struct Ledger {
    accounts: Vec<TokenAccount>,
    offers: Vec<Offer>,
}

impl View for Ledger {
    type V = LedgerView;

    closed spec fn view(&self) -> LedgerView {
        LedgerView {
            balances: map_of(self.accounts@, account_key_fn(), account_amount_fn()),
            offers: map_of(self.offers@, offer_key_fn(), offer_itself_fn()),
        }
    }
}

impl Ledger {
    /// No two token accounts share owner and asset type, and no two offers
    /// share an identifier.
    pub closed spec fn rep_ok(&self) -> bool {
        &&& keys_unique(self.accounts@, account_key_fn())
        &&& keys_unique(self.offers@, offer_key_fn())
    }

    pub open spec fn wf(&self) -> bool {
        &&& self.rep_ok()
        &&& self@.wf()
    }

    /// An empty ledger.
    pub fn new() -> (r: Ledger)
        ensures
            r.wf(),
            r@.balances == Map::<(Owner, Pubkey), u64>::empty(),
            r@.offers == Map::<u64, Offer>::empty(),
    {
        let r = Ledger { accounts: Vec::new(), offers: Vec::new() };
        assert(r@.balances =~= Map::<(Owner, Pubkey), u64>::empty());
        assert(r@.offers =~= Map::<u64, Offer>::empty());
        r
    }

    /// The position of the token account of `owner` for asset `mint`.
    fn find_account(&self, owner: Owner, mint: Pubkey) -> (r: Option<usize>)
        requires
            self.rep_ok(),
        ensures
            match r {
                Some(i) => i < self.accounts@.len() && account_key(self.accounts@[i as int]) == (owner, mint)
                    && self@.balances.contains_key((owner, mint))
                    && self@.balances[(owner, mint)] == self.accounts@[i as int].amount,
                None => !self@.balances.contains_key((owner, mint)),
            },
    {
        let mut i: usize = 0;
        while i < self.accounts.len()
            invariant
                self.rep_ok(),
                i <= self.accounts@.len(),
                forall|j: int| 0 <= j < i ==> account_key(#[trigger] self.accounts@[j]) != (owner, mint),
            decreases self.accounts@.len() - i,
        {
            let a = self.accounts[i];
            if a.authority == owner && a.mint == mint {
                proof {
                    lemma_map_of_at(self.accounts@, account_key_fn(), account_amount_fn(), i as int);
                }
                return Some(i);
            }
            i = i + 1;
        }
        proof {
            if self@.balances.contains_key((owner, mint)) {
                let j = choose|j: int| 0 <= j < self.accounts@.len()
                    && account_key_fn()(self.accounts@[j]) == (owner, mint);
                assert(account_key(self.accounts@[j]) == (owner, mint));
            }
        }
        None
    }

    /// The position of the offer recorded under `id`.
    fn find_offer(&self, id: u64) -> (r: Option<usize>)
        requires
            self.rep_ok(),
        ensures
            match r {
                Some(i) => i < self.offers@.len() && self.offers@[i as int].id == id
                    && self@.offers.contains_key(id) && self@.offers[id] == self.offers@[i as int],
                None => !self@.offers.contains_key(id),
            },
    {
        let mut i: usize = 0;
        while i < self.offers.len()
            invariant
                self.rep_ok(),
                i <= self.offers@.len(),
                forall|j: int| 0 <= j < i ==> (#[trigger] self.offers@[j]).id != id,
            decreases self.offers@.len() - i,
        {
            if self.offers[i].id == id {
                proof {
                    lemma_map_of_at(self.offers@, offer_key_fn(), offer_itself_fn(), i as int);
                }
                return Some(i);
            }
            i = i + 1;
        }
        proof {
            if self@.offers.contains_key(id) {
                let j = choose|j: int| 0 <= j < self.offers@.len() && offer_key_fn()(self.offers@[j]) == id;
                assert(self.offers@[j].id == id);
            }
        }
        None
    }

    /// The balance of the token account of `owner` for asset `mint`, if it exists.
    pub fn balance(&self, owner: Owner, mint: Pubkey) -> (r: Option<u64>)
        requires
            self.rep_ok(),
        ensures
            r == (if self@.balances.contains_key((owner, mint)) {
                Some(self@.balances[(owner, mint)])
            } else {
                None::<u64>
            }),
    {
        match self.find_account(owner, mint) {
            Some(i) => Some(self.accounts[i].amount),
            None => None,
        }
    }

    /// The offer recorded under `id`, if there is one.
    pub fn offer(&self, id: u64) -> (r: Option<Offer>)
        requires
            self.rep_ok(),
        ensures
            r == (if self@.offers.contains_key(id) { Some(self@.offers[id]) } else { None::<Offer> }),
    {
        match self.find_offer(id) {
            Some(i) => Some(self.offers[i]),
            None => None,
        }
    }

    /// Opens the empty token account of `owner` for asset `mint`, unless it
    /// is open already.
    pub(crate) fn open_account(&mut self, owner: Owner, mint: Pubkey)
        requires
            old(self).rep_ok(),
        ensures
            final(self).rep_ok(),
            final(self)@.balances == open_spec(old(self)@.balances, (owner, mint)),
            final(self)@.offers == old(self)@.offers,
    {
        if self.find_account(owner, mint).is_none() {
            let a = TokenAccount { authority: owner, mint, amount: 0 };
            proof {
                lemma_map_of_push(self.accounts@, account_key_fn(), account_amount_fn(), a);
            }
            self.accounts.push(a);
        }
    }

    /// Sets the balance of an open token account.
    fn set_balance(&mut self, owner: Owner, mint: Pubkey, amount: u64)
        requires
            old(self).rep_ok(),
            old(self)@.balances.contains_key((owner, mint)),
        ensures
            final(self).rep_ok(),
            final(self)@.balances == old(self)@.balances.insert((owner, mint), amount),
            final(self)@.offers == old(self)@.offers,
    {
        let i = self.find_account(owner, mint).unwrap();
        let a = TokenAccount { authority: owner, mint, amount };
        proof {
            lemma_map_of_update(self.accounts@, account_key_fn(), account_amount_fn(), i as int, a);
        }
        self.accounts.set(i, a);
    }

    /// Moves `amount` of asset `mint` from the account of `from` to the
    /// account of `to`.
    pub(crate) fn transfer_tokens(&mut self, mint: Pubkey, from: Owner, to: Owner, amount: u64) -> (r: Result<(), TokenError>)
        requires
            old(self).rep_ok(),
            old(self)@.balances.contains_key((from, mint)),
            old(self)@.balances.contains_key((to, mint)),
        ensures
            final(self).rep_ok(),
            final(self)@.offers == old(self)@.offers,
            match transfer_spec(old(self)@.balances, (from, mint), (to, mint), amount) {
                Some(b) => r is Ok && final(self)@.balances == b,
                None => final(self)@ == old(self)@ && r == Err::<(), TokenError>(
                    if old(self)@.balances[(from, mint)] < amount {
                        TokenError::InsufficientFunds
                    } else {
                        TokenError::Overflow
                    },
                ),
            },
    {
        let src = self.balance(from, mint).unwrap();
        if src < amount {
            return Err(TokenError::InsufficientFunds);
        }
        if from == to {
            return Ok(());
        }
        let dst = self.balance(to, mint).unwrap();
        if dst > u64::MAX - amount {
            return Err(TokenError::Overflow);
        }
        self.set_balance(from, mint, src - amount);
        self.set_balance(to, mint, dst + amount);
        Ok(())
    }

    /// Closes the token account of `owner` for asset `mint`, which must be empty.
    pub(crate) fn close_token_account(&mut self, owner: Owner, mint: Pubkey) -> (r: Result<(), TokenError>)
        requires
            old(self).rep_ok(),
            old(self)@.balances.contains_key((owner, mint)),
        ensures
            final(self).rep_ok(),
            final(self)@.offers == old(self)@.offers,
            if old(self)@.balances[(owner, mint)] == 0 {
                r is Ok && final(self)@.balances == old(self)@.balances.remove((owner, mint))
            } else {
                r == Err::<(), TokenError>(TokenError::NonZeroBalance) && final(self)@ == old(self)@
            },
    {
        let i = self.find_account(owner, mint).unwrap();
        if self.accounts[i].amount != 0 {
            return Err(TokenError::NonZeroBalance);
        }
        proof {
            lemma_map_of_remove(self.accounts@, account_key_fn(), account_amount_fn(), i as int);
        }
        self.accounts.remove(i);
        Ok(())
    }

    /// Records `offer` under its identifier, which must be free.
    pub(crate) fn insert_offer(&mut self, offer: Offer)
        requires
            old(self).rep_ok(),
            !old(self)@.offers.contains_key(offer.id),
        ensures
            final(self).rep_ok(),
            final(self)@.balances == old(self)@.balances,
            final(self)@.offers == old(self)@.offers.insert(offer.id, offer),
    {
        proof {
            lemma_map_of_push(self.offers@, offer_key_fn(), offer_itself_fn(), offer);
        }
        self.offers.push(offer);
    }

    /// Destroys the offer recorded under `id`.
    pub(crate) fn remove_offer(&mut self, id: u64)
        requires
            old(self).rep_ok(),
            old(self)@.offers.contains_key(id),
        ensures
            final(self).rep_ok(),
            final(self)@.balances == old(self)@.balances,
            final(self)@.offers == old(self)@.offers.remove(id),
    {
        let i = self.find_offer(id).unwrap();
        proof {
            lemma_map_of_remove(self.offers@, offer_key_fn(), offer_itself_fn(), i as int);
        }
        self.offers.remove(i);
    }

    /// Opens the empty token account of party `owner` for asset `mint`,
    /// unless it is open already.
    pub fn create_token_account(&mut self, owner: Pubkey, mint: Pubkey)
        requires
            old(self).wf(),
        ensures
            final(self).wf(),
            final(self)@.balances == open_spec(old(self)@.balances, (Owner::Party(owner), mint)),
            final(self)@.offers == old(self)@.offers,
    {
        self.open_account(Owner::Party(owner), mint);
    }

    /// Issues `amount` new tokens of asset `mint` to party `owner`, opening
    /// the account if needed; fails where the balance would overflow.
    pub fn mint_to(&mut self, owner: Pubkey, mint: Pubkey, amount: u64) -> (r: Result<(), TokenError>)
        requires
            old(self).wf(),
        ensures
            final(self).wf(),
            final(self)@.offers == old(self)@.offers,
            ({
                let k = (Owner::Party(owner), mint);
                let b = open_spec(old(self)@.balances, k);
                if b[k] + amount <= u64::MAX {
                    r is Ok && final(self)@.balances == b.insert(k, (b[k] + amount) as u64)
                } else {
                    r == Err::<(), TokenError>(TokenError::Overflow) && final(self)@ == old(self)@
                }
            }),
    {
        let k = Owner::Party(owner);
        let cur = match self.balance(k, mint) {
            Some(v) => v,
            None => 0,
        };
        if cur > u64::MAX - amount {
            return Err(TokenError::Overflow);
        }
        self.open_account(k, mint);
        self.set_balance(k, mint, cur + amount);
        Ok(())
    }

    /// Records an offer read from storage, with its vault holding `vault_amount`.
    /// Refused where the identifier or the vault is taken, or the offer breaks
    /// the rules that every offer keeps.
    pub fn load_offer(&mut self, offer: Offer, vault_amount: u64) -> (r: Result<(), TransitionError>)
        requires
            old(self).wf(),
        ensures
            final(self).wf(),
            ({
                let vault = vault_key(offer.id, offer.token_mint_a);
                if old(self)@.offers.contains_key(offer.id) || old(self)@.balances.contains_key(vault) {
                    r == Err::<(), TransitionError>(TransitionError::AccountAlreadyInUse) && final(self)@ == old(self)@
                } else if offer.token_b_demanded_amount == 0 {
                    r == Err::<(), TransitionError>(TransitionError::Escrow(EscrowError::InvalidAmount))
                        && final(self)@ == old(self)@
                } else if offer.token_mint_a == offer.token_mint_b {
                    r == Err::<(), TransitionError>(TransitionError::Escrow(EscrowError::InvalidTokenMint))
                        && final(self)@ == old(self)@
                } else {
                    &&& r is Ok
                    &&& final(self)@.balances == old(self)@.balances.insert(vault, vault_amount)
                    &&& final(self)@.offers == old(self)@.offers.insert(offer.id, offer)
                }
            }),
    {
        let vault = Owner::Offer(offer.id);
        if self.offer(offer.id).is_some() || self.balance(vault, offer.token_mint_a).is_some() {
            return Err(TransitionError::AccountAlreadyInUse);
        }
        if offer.token_b_demanded_amount == 0 {
            return Err(TransitionError::Escrow(EscrowError::InvalidAmount));
        }
        if offer.token_mint_a == offer.token_mint_b {
            return Err(TransitionError::Escrow(EscrowError::InvalidTokenMint));
        }
        self.open_account(vault, offer.token_mint_a);
        self.set_balance(vault, offer.token_mint_a, vault_amount);
        self.insert_offer(offer);
        proof {
            assert(self@.balances =~= old(self)@.balances.insert(vault_key(offer.id, offer.token_mint_a), vault_amount));
        }
        Ok(())
    }
}

} // verus!

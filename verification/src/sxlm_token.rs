//! The share ledger: balances, allowances and the total supply of the share
//! token, with the operations that move them.
//!
//! Accounts are named by a `u64`. Every operation that changes the ledger
//! takes the caller, the account that the host has authenticated, and
//! refuses a caller that is not the one the operation is reserved for: the
//! minter, the admin, the owner of the balance, or the spender.

use crate::balances::{lemma_entry_at_most_total, lemma_total_insert};
use crate::error::Error;
use crate::sxlm_token::model::LedgerView;
use std::collections::HashMap;
use vstd::prelude::*;

pub mod laws;
pub mod model;

verus! {

broadcast use vstd::std_specs::hash::group_hash_axioms;

/// The number of decimal digits of the share token.
pub const DECIMALS: u32 = 7;

/// The share ledger.
pub struct SxlmToken {
    admin: Option<u64>,
    minter: Option<u64>,
    total_supply: i128,
    balances: HashMap<u64, i128>,
    allowances: HashMap<u128, i128>,
}

/// The key under which the allowance of `spender` on `owner` is kept: the
/// two names side by side.
spec fn pair_key(owner: u64, spender: u64) -> u128 {
    (owner as u128 * 0x1_0000_0000_0000_0000u128 + spender as u128) as u128
}

fn make_pair_key(owner: u64, spender: u64) -> (key: u128)
    ensures
        key == pair_key(owner, spender),
{
    owner as u128 * 0x1_0000_0000_0000_0000u128 + spender as u128
}

proof fn lemma_pair_key_injective(a: u64, b: u64, c: u64, d: u64)
    requires
        pair_key(a, b) == pair_key(c, d),
    ensures
        a == c,
        b == d,
{
}

impl View for SxlmToken {
    type V = LedgerView;

    closed spec fn view(&self) -> LedgerView {
        LedgerView {
            admin: self.admin,
            minter: self.minter,
            total_supply: self.total_supply as int,
            balances: Map::new(
                |id: u64| self.balances@.contains_key(id),
                |id: u64| self.balances@[id] as int,
            ),
            allowances: Map::new(
                |p: (u64, u64)| self.allowances@.contains_key(pair_key(p.0, p.1)),
                |p: (u64, u64)| self.allowances@[pair_key(p.0, p.1)] as int,
            ),
        }
    }
}

impl SxlmToken {
    /// The ledger is in order: see [`LedgerView::valid`].
    pub open spec fn wf(&self) -> bool {
        self@.valid()
    }

    /// Whether an admin and a minter have been bound.
    pub open spec fn initialized(&self) -> bool {
        self@.admin is Some
    }

    /// A ledger that holds nothing and has not been initialized.
    pub fn new() -> (token: SxlmToken)
        ensures
            token.wf(),
            token@ == LedgerView::empty(),
    {
        let token = SxlmToken {
            admin: None,
            minter: None,
            total_supply: 0,
            balances: HashMap::new(),
            allowances: HashMap::new(),
        };
        assert(token@.balances =~= Map::empty());
        assert(token@.allowances =~= Map::empty());
        token
    }

    /// A ledger as it was stored: the roles (admin, minter) if it was
    /// initialized, the balance of each account and the allowance of each
    /// pair. The supply is the sum of the balances. `None` where an amount is
    /// negative or the balances add up to more than an `i128` holds.
    pub fn restore(
        roles: Option<(u64, u64)>,
        balances: &Vec<(u64, i128)>,
        allowances: &Vec<(u64, u64, i128)>,
    ) -> (r: Option<SxlmToken>)
        ensures
            match r {
                Some(token) => token.wf() && LedgerView::stored(roles, balances@, allowances@)
                    == Some(token@),
                None => LedgerView::stored(roles, balances@, allowances@) is None,
            },
    {
        let mut token = SxlmToken::new();
        match roles {
            Some((admin, minter)) => {
                token.admin = Some(admin);
                token.minter = Some(minter);
            },
            None => {},
        }
        assert(balances@.subrange(0, balances@.len() as int) =~= balances@);
        let mut i: usize = 0;
        while i < balances.len()
            invariant
                i <= balances.len(),
                token.wf(),
                LedgerView::stored(roles, balances@, allowances@) == (match token@.with_balances(
                    balances@.subrange(i as int, balances@.len() as int),
                ) {
                    None => None,
                    Some(ledger) => ledger.with_allowances(allowances@),
                }),
            decreases balances.len() - i,
        {
            let (id, amount) = balances[i];
            let ghost rest = balances@.subrange(i as int, balances@.len() as int);
            assert(rest[0] == balances@[i as int]);
            assert(rest.subrange(1, rest.len() as int) =~= balances@.subrange(
                i as int + 1,
                balances@.len() as int,
            ));
            if amount < 0 {
                return None;
            }
            let total = match token.total_supply.checked_add(amount) {
                Some(t) => t,
                None => { return None; },
            };
            let balance = token.balance(id);
            proof {
                lemma_entry_at_most_total(token@.balances, id);
                lemma_total_insert(token@.balances, id, balance + amount);
            }
            token.set_balance(id, balance + amount);
            token.total_supply = total;
            i = i + 1;
        }
        assert(balances@.subrange(balances@.len() as int, balances@.len() as int).len() == 0);
        assert(allowances@.subrange(0, allowances@.len() as int) =~= allowances@);
        let mut j: usize = 0;
        while j < allowances.len()
            invariant
                j <= allowances.len(),
                token.wf(),
                LedgerView::stored(roles, balances@, allowances@) == token@.with_allowances(
                    allowances@.subrange(j as int, allowances@.len() as int),
                ),
            decreases allowances.len() - j,
        {
            let (owner, spender, amount) = allowances[j];
            let ghost rest = allowances@.subrange(j as int, allowances@.len() as int);
            assert(rest[0] == allowances@[j as int]);
            assert(rest.subrange(1, rest.len() as int) =~= allowances@.subrange(
                j as int + 1,
                allowances@.len() as int,
            ));
            if amount < 0 {
                return None;
            }
            token.set_allowance(owner, spender, amount);
            j = j + 1;
        }
        assert(allowances@.subrange(allowances@.len() as int, allowances@.len() as int).len()
            == 0);
        Some(token)
    }

    /// Binds the admin and the minter, once.
    pub fn initialize(&mut self, admin: u64, minter: u64) -> (r: Result<(), Error>)
        requires
            old(self).wf(),
        ensures
            final(self).wf(),
            r == old(self)@.initialize_result(),
            final(self)@ == (if r is Ok {
                LedgerView { admin: Some(admin), minter: Some(minter), ..old(self)@ }
            } else {
                old(self)@
            }),
    {
        if self.admin.is_some() {
            return Err(Error::AlreadyInitialized);
        }
        self.admin = Some(admin);
        self.minter = Some(minter);
        Ok(())
    }

    /// Whether [`SxlmToken::initialize`] has succeeded on this ledger.
    pub fn is_initialized(&self) -> (b: bool)
        ensures
            b == self.initialized(),
    {
        self.admin.is_some()
    }

    /// The shares of `id`.
    pub fn balance(&self, id: u64) -> (b: i128)
        ensures
            b == self@.balance_of(id),
    {
        match self.balances.get(&id) {
            Some(b) => *b,
            None => 0,
        }
    }

    /// The number of shares in existence.
    pub fn total_supply(&self) -> (supply: i128)
        ensures
            supply == self@.total_supply,
    {
        self.total_supply
    }

    fn set_balance(&mut self, id: u64, amount: i128)
        ensures
            final(self)@ == (LedgerView {
                balances: old(self)@.balances.insert(id, amount as int),
                ..old(self)@
            }),
    {
        self.balances.insert(id, amount);
        assert(self@.balances =~= old(self)@.balances.insert(id, amount as int));
    }

    /// Whether minting `amount` to `to` at the request of `caller` would go
    /// through, without doing it.
    pub fn check_mint(&self, caller: u64, to: u64, amount: i128) -> (r: Result<(), Error>)
        requires
            self.wf(),
        ensures
            r == self@.mint_result(caller, to, amount as int),
    {
        if self.minter != Some(caller) {
            return Err(Error::Unauthorized);
        }
        if amount <= 0 {
            return Err(Error::InvalidAmount);
        }
        if self.balance(to).checked_add(amount).is_none() {
            return Err(Error::Overflow);
        }
        if self.total_supply.checked_add(amount).is_none() {
            return Err(Error::Overflow);
        }
        Ok(())
    }

    /// Whether burning `amount` of `from` at the request of `caller` would go
    /// through, without doing it.
    pub fn check_burn(&self, caller: u64, from: u64, amount: i128) -> (r: Result<(), Error>)
        requires
            self.wf(),
        ensures
            r == self@.burn_result(caller, from, amount as int),
    {
        if self.minter != Some(caller) {
            return Err(Error::Unauthorized);
        }
        if amount <= 0 {
            return Err(Error::InvalidAmount);
        }
        if self.balance(from) < amount {
            return Err(Error::InsufficientBalance);
        }
        Ok(())
    }

    /// Creates `amount` shares for `to`. Only the minter may.
    pub fn mint(&mut self, caller: u64, to: u64, amount: i128) -> (r: Result<(), Error>)
        requires
            old(self).wf(),
        ensures
            final(self).wf(),
            r == old(self)@.mint_result(caller, to, amount as int),
            final(self)@ == (if r is Ok {
                old(self)@.minted(to, amount as int)
            } else {
                old(self)@
            }),
    {
        match self.check_mint(caller, to, amount) {
            Err(e) => { return Err(e); },
            Ok(()) => {},
        }
        let new_balance = self.balance(to) + amount;
        proof {
            lemma_total_insert(self@.balances, to, new_balance as int);
        }
        self.set_balance(to, new_balance);
        self.total_supply = self.total_supply + amount;
        Ok(())
    }

    /// Takes `amount` shares of `from` out of existence.
    fn remove_shares(&mut self, from: u64, amount: i128)
        requires
            old(self).wf(),
            old(self)@.take_result(from, amount as int) is Ok,
        ensures
            final(self).wf(),
            final(self)@ == old(self)@.burned(from, amount as int),
    {
        let new_balance = self.balance(from) - amount;
        proof {
            lemma_total_insert(self@.balances, from, new_balance as int);
            lemma_entry_at_most_total(self@.balances, from);
        }
        self.set_balance(from, new_balance);
        self.total_supply = self.total_supply - amount;
    }

    /// Destroys `amount` shares of `from`. Only the minter may.
    pub fn burn(&mut self, caller: u64, from: u64, amount: i128) -> (r: Result<(), Error>)
        requires
            old(self).wf(),
        ensures
            final(self).wf(),
            r == old(self)@.burn_result(caller, from, amount as int),
            final(self)@ == (if r is Ok {
                old(self)@.burned(from, amount as int)
            } else {
                old(self)@
            }),
    {
        match self.check_burn(caller, from, amount) {
            Err(e) => { return Err(e); },
            Ok(()) => {},
        }
        self.remove_shares(from, amount);
        Ok(())
    }

    /// Destroys `amount` of the shares of `from`. Only `from` itself may.
    pub fn burn_self(&mut self, caller: u64, from: u64, amount: i128) -> (r: Result<(), Error>)
        requires
            old(self).wf(),
        ensures
            final(self).wf(),
            r == old(self)@.owner_result(caller, from, amount as int),
            final(self)@ == (if r is Ok {
                old(self)@.burned(from, amount as int)
            } else {
                old(self)@
            }),
    {
        if caller != from {
            return Err(Error::Unauthorized);
        }
        if amount <= 0 {
            return Err(Error::InvalidAmount);
        }
        if self.balance(from) < amount {
            return Err(Error::InsufficientBalance);
        }
        self.remove_shares(from, amount);
        Ok(())
    }

    /// Who may mint and burn.
    pub fn minter(&self) -> (id: u64)
        requires
            self.wf(),
            self.initialized(),
        ensures
            self@.minter == Some(id),
    {
        match self.minter {
            Some(id) => id,
            None => 0,
        }
    }

    /// Hands the right to mint and burn to `new_minter`. Only the admin may.
    pub fn set_minter(&mut self, caller: u64, new_minter: u64) -> (r: Result<(), Error>)
        requires
            old(self).wf(),
        ensures
            final(self).wf(),
            r == old(self)@.admin_result(caller),
            final(self)@ == (if r is Ok {
                LedgerView { minter: Some(new_minter), ..old(self)@ }
            } else {
                old(self)@
            }),
    {
        if self.admin != Some(caller) {
            return Err(Error::Unauthorized);
        }
        self.minter = Some(new_minter);
        Ok(())
    }

    /// Who may replace the minter.
    pub fn admin(&self) -> (id: u64)
        requires
            self.initialized(),
        ensures
            self@.admin == Some(id),
    {
        match self.admin {
            Some(id) => id,
            None => 0,
        }
    }

    /// What `from` lets `spender` take.
    pub fn allowance(&self, from: u64, spender: u64) -> (a: i128)
        ensures
            a == self@.allowance_of(from, spender),
    {
        let key = make_pair_key(from, spender);
        match self.allowances.get(&key) {
            Some(a) => *a,
            None => 0,
        }
    }

    fn set_allowance(&mut self, from: u64, spender: u64, amount: i128)
        ensures
            final(self)@ == old(self)@.approved(from, spender, amount as int),
    {
        let key = make_pair_key(from, spender);
        if amount > 0 {
            self.allowances.insert(key, amount);
        } else {
            self.allowances.remove(&key);
        }
        proof {
            assert forall|p: (u64, u64)| p != (from, spender) implies pair_key(p.0, p.1)
                != key by {
                if pair_key(p.0, p.1) == key {
                    lemma_pair_key_injective(p.0, p.1, from, spender);
                }
            }
            assert(self@.allowances =~= old(self)@.approved(
                from,
                spender,
                amount as int,
            ).allowances);
        }
    }

    /// Sets what `spender` may take from `from` to `amount`. Only `from`
    /// itself may. Zero withdraws the approval. The expiration is kept by the
    /// host, not by the ledger.
    pub fn approve(
        &mut self,
        caller: u64,
        from: u64,
        spender: u64,
        amount: i128,
        expiration_ledger: u32,
    ) -> (r: Result<(), Error>)
        requires
            old(self).wf(),
        ensures
            final(self).wf(),
            r == old(self)@.approve_result(caller, from, amount as int),
            final(self)@ == (if r is Ok {
                old(self)@.approved(from, spender, amount as int)
            } else {
                old(self)@
            }),
    {
        if caller != from {
            return Err(Error::Unauthorized);
        }
        if amount < 0 {
            return Err(Error::InvalidAmount);
        }
        self.set_allowance(from, spender, amount);
        Ok(())
    }

    /// Moves `amount` shares between two balances; the supply stays.
    fn move_shares(&mut self, from: u64, to: u64, amount: i128)
        requires
            old(self).wf(),
            old(self)@.take_result(from, amount as int) is Ok,
        ensures
            final(self).wf(),
            final(self)@ == old(self)@.transferred(from, to, amount as int),
    {
        let from_balance = self.balance(from);
        proof {
            lemma_total_insert(self@.balances, from, from_balance - amount);
        }
        self.set_balance(from, from_balance - amount);
        let to_balance = self.balance(to);
        proof {
            lemma_entry_at_most_total(self@.balances, to);
            lemma_total_insert(self@.balances, to, to_balance + amount);
        }
        self.set_balance(to, to_balance + amount);
    }

    /// Moves `amount` shares from `from` to `to`. Only `from` itself may.
    pub fn transfer(&mut self, caller: u64, from: u64, to: u64, amount: i128) -> (r: Result<
        (),
        Error,
    >)
        requires
            old(self).wf(),
        ensures
            final(self).wf(),
            r == old(self)@.owner_result(caller, from, amount as int),
            final(self)@ == (if r is Ok {
                old(self)@.transferred(from, to, amount as int)
            } else {
                old(self)@
            }),
    {
        if caller != from {
            return Err(Error::Unauthorized);
        }
        if amount <= 0 {
            return Err(Error::InvalidAmount);
        }
        if self.balance(from) < amount {
            return Err(Error::InsufficientBalance);
        }
        self.move_shares(from, to, amount);
        Ok(())
    }

    fn check_spend(&self, caller: u64, spender: u64, from: u64, amount: i128) -> (r: Result<
        (),
        Error,
    >)
        ensures
            r == self@.spend_result(caller, spender, from, amount as int),
    {
        if caller != spender {
            return Err(Error::Unauthorized);
        }
        if amount <= 0 {
            return Err(Error::InvalidAmount);
        }
        if self.allowance(from, spender) < amount {
            return Err(Error::InsufficientAllowance);
        }
        if self.balance(from) < amount {
            return Err(Error::InsufficientBalance);
        }
        Ok(())
    }

    /// Moves `amount` shares from `from` to `to` under the allowance that
    /// `from` gave `spender`, which shrinks by `amount`. Only `spender`
    /// itself may.
    pub fn transfer_from(
        &mut self,
        caller: u64,
        spender: u64,
        from: u64,
        to: u64,
        amount: i128,
    ) -> (r: Result<(), Error>)
        requires
            old(self).wf(),
        ensures
            final(self).wf(),
            r == old(self)@.spend_result(caller, spender, from, amount as int),
            final(self)@ == (if r is Ok {
                old(self)@.spent(from, spender, amount as int).transferred(from, to, amount as int)
            } else {
                old(self)@
            }),
    {
        match self.check_spend(caller, spender, from, amount) {
            Err(e) => { return Err(e); },
            Ok(()) => {},
        }
        let allowance = self.allowance(from, spender);
        self.set_allowance(from, spender, allowance - amount);
        self.move_shares(from, to, amount);
        Ok(())
    }

    /// Destroys `amount` shares of `from` under the allowance that `from`
    /// gave `spender`, which shrinks by `amount`. Only `spender` itself may.
    pub fn burn_from(&mut self, caller: u64, spender: u64, from: u64, amount: i128) -> (r: Result<
        (),
        Error,
    >)
        requires
            old(self).wf(),
        ensures
            final(self).wf(),
            r == old(self)@.spend_result(caller, spender, from, amount as int),
            final(self)@ == (if r is Ok {
                old(self)@.spent(from, spender, amount as int).burned(from, amount as int)
            } else {
                old(self)@
            }),
    {
        match self.check_spend(caller, spender, from, amount) {
            Err(e) => { return Err(e); },
            Ok(()) => {},
        }
        let allowance = self.allowance(from, spender);
        self.set_allowance(from, spender, allowance - amount);
        self.remove_shares(from, amount);
        Ok(())
    }

    /// The number of decimal digits of a share.
    pub fn decimals(&self) -> (d: u32)
        ensures
            d == DECIMALS,
    {
        DECIMALS
    }

    /// The name of the share token.
    pub fn name(&self) -> (name: &'static str)
        requires
            self.initialized(),
        ensures
            name@ == "Staked XLM"@,
    {
        "Staked XLM"
    }

    /// The ticker of the share token.
    pub fn symbol(&self) -> (symbol: &'static str)
        requires
            self.initialized(),
        ensures
            symbol@ == "sXLM"@,
    {
        "sXLM"
    }
}

} // verus!

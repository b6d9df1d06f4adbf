//! The share-accounting engine: it takes deposits of a principal asset,
//! issues shares for them at the current exchange rate, and redeems shares
//! for principal.
//!
//! The vault keeps the counters; the share ledger keeps the shares; the
//! principal itself lies in custody outside, and only the host can move it.
//! So an operation comes in two forms. `deposit` and `withdraw` work on a
//! ledger held in the same process and do everything but the movement of
//! principal. `begin_deposit`, `begin_withdraw` and their `complete_`
//! counterparts are for a host whose ledger and custody are both elsewhere:
//! `begin_` decides and locks, the host mints or burns and moves the
//! principal, `complete_` commits and unlocks, `abort` unlocks alone.

use crate::amount::{
    agrees, checked_mul_div, lemma_floor_at_least, lemma_floor_at_most, lemma_rate_nonnegative,
    saturating_reduce, DEFAULT_MAX_DEPOSIT, MIN_AMOUNT, PRECISION,
};
use crate::balances::lemma_total_nonnegative;
use crate::error::Error;
use crate::sxlm_token::SxlmToken;
use crate::vault::model::{at_least, VaultView};
use std::collections::HashMap;
use vstd::prelude::*;

pub mod laws;
pub mod model;
pub mod yield_strategy;

verus! {

broadcast use vstd::std_specs::hash::group_hash_axioms;

/// The guard against a deposit or withdrawal that starts while another is
/// under way.
#[derive(Clone, Copy, Debug, PartialEq, Eq, Structural)]
pub enum ReentrancyState {
    Unlocked,
    Locked,
}

/// A deposit or withdrawal that has been decided and awaits the host.
#[derive(Clone, Copy, Debug, PartialEq, Eq, Structural)]
pub enum Pending {
    /// `user` pays `amount` of principal into custody and is minted `shares`.
    Deposit { user: u64, amount: i128, shares: i128 },
    /// `shares` of `user` are burned and `principal` leaves custody for it;
    /// the two portions are what the counters of deposits and of yield give up.
    Withdrawal {
        user: u64,
        shares: i128,
        principal: i128,
        deposit_portion: i128,
        yield_portion: i128,
    },
}

/// All of a vault but the deposits of its users, as a host stores it.
#[derive(Clone, Copy, Debug)]
pub struct VaultRecord {
    /// The vault's own name.
    pub address: u64,
    /// The admin, the principal asset and the share token, if the vault is
    /// initialized.
    pub roles: Option<(u64, u64, u64)>,
    pub total_deposits: i128,
    pub yield_accrued: i128,
    pub paused: bool,
    pub max_deposit: i128,
    pub total_cap: i128,
    pub reentrancy: ReentrancyState,
}

/// Holds a result against the least that the caller accepts: `Slippage`
/// where `actual` is under `minimum`, else `actual`.
pub fn require_at_least(actual: i128, minimum: i128) -> (r: Result<i128, Error>)
    ensures
        agrees(r, at_least(Ok(actual as int), minimum as int)),
{
    if actual < minimum {
        Err(Error::Slippage { expected: minimum, actual })
    } else {
        Ok(actual)
    }
}

/// The share-accounting engine.
pub struct Vault {
    address: u64,
    admin: Option<u64>,
    xlm_token: Option<u64>,
    sxlm_token: Option<u64>,
    total_deposits: i128,
    yield_accrued: i128,
    paused: bool,
    max_deposit: i128,
    total_cap: i128,
    user_deposits: HashMap<u64, i128>,
    reentrancy: ReentrancyState,
    pending: Option<Pending>,
}

impl View for Vault {
    type V = VaultView;

    closed spec fn view(&self) -> VaultView {
        VaultView {
            address: self.address,
            admin: self.admin,
            xlm_token: self.xlm_token,
            sxlm_token: self.sxlm_token,
            total_deposits: self.total_deposits as int,
            yield_accrued: self.yield_accrued as int,
            paused: self.paused,
            max_deposit: self.max_deposit as int,
            total_cap: self.total_cap as int,
            user_deposits: Map::new(
                |user: u64| self.user_deposits@.contains_key(user),
                |user: u64| self.user_deposits@[user] as int,
            ),
            reentrancy: self.reentrancy,
            pending: self.pending,
        }
    }
}

impl Vault {
    /// The vault is in order: see [`VaultView::valid`].
    pub open spec fn wf(&self) -> bool {
        self@.valid()
    }

    /// Whether the admin and the two tokens have been bound.
    pub open spec fn initialized(&self) -> bool {
        self@.admin is Some
    }

    /// A vault at `address`, not yet initialized.
    pub fn new(address: u64) -> (vault: Vault)
        ensures
            vault.wf(),
            vault@ == VaultView::empty(address),
    {
        let vault = Vault {
            address,
            admin: None,
            xlm_token: None,
            sxlm_token: None,
            total_deposits: 0,
            yield_accrued: 0,
            paused: false,
            max_deposit: DEFAULT_MAX_DEPOSIT,
            total_cap: i128::MAX,
            user_deposits: HashMap::new(),
            reentrancy: ReentrancyState::Unlocked,
            pending: None,
        };
        assert(vault@.user_deposits =~= Map::empty());
        vault
    }

    /// A vault as it was stored: its record, and what each user has paid in.
    /// Nothing is pending in it, whatever the guard says. `None` where the
    /// store holds a negative counter or deposit, or a largest deposit under
    /// the smallest.
    pub fn restore(record: VaultRecord, deposits: &Vec<(u64, i128)>) -> (r: Option<Vault>)
        ensures
            match r {
                Some(vault) => vault.wf() && VaultView::stored(record, deposits@) == Some(vault@),
                None => VaultView::stored(record, deposits@) is None,
            },
    {
        if record.total_deposits < 0 || record.yield_accrued < 0 || record.max_deposit
            < MIN_AMOUNT {
            return None;
        }
        let mut vault = Vault {
            address: record.address,
            admin: None,
            xlm_token: None,
            sxlm_token: None,
            total_deposits: record.total_deposits,
            yield_accrued: record.yield_accrued,
            paused: record.paused,
            max_deposit: record.max_deposit,
            total_cap: record.total_cap,
            user_deposits: HashMap::new(),
            reentrancy: record.reentrancy,
            pending: None,
        };
        match record.roles {
            Some((admin, xlm_token, sxlm_token)) => {
                vault.admin = Some(admin);
                vault.xlm_token = Some(xlm_token);
                vault.sxlm_token = Some(sxlm_token);
            },
            None => {},
        }
        assert(vault@.user_deposits =~= Map::empty());
        assert(deposits@.subrange(0, deposits@.len() as int) =~= deposits@);
        let mut i: usize = 0;
        while i < deposits.len()
            invariant
                i <= deposits.len(),
                vault.wf(),
                vault@.pending is None,
                VaultView::stored(record, deposits@) == vault@.with_deposits(
                    deposits@.subrange(i as int, deposits@.len() as int),
                ),
            decreases deposits.len() - i,
        {
            let (user, amount) = deposits[i];
            let ghost rest = deposits@.subrange(i as int, deposits@.len() as int);
            assert(rest[0] == deposits@[i as int]);
            assert(rest.subrange(1, rest.len() as int) =~= deposits@.subrange(
                i as int + 1,
                deposits@.len() as int,
            ));
            if amount < 0 {
                return None;
            }
            vault.set_user_deposit(user, amount);
            i = i + 1;
        }
        assert(deposits@.subrange(deposits@.len() as int, deposits@.len() as int).len() == 0);
        Some(vault)
    }

    /// The record of the vault, for a host to store.
    pub fn record(&self) -> (record: VaultRecord)
        requires
            self.wf(),
        ensures
            record == self@.record(),
    {
        VaultRecord {
            address: self.address,
            roles: match (self.admin, self.xlm_token, self.sxlm_token) {
                (Some(admin), Some(xlm_token), Some(sxlm_token)) => Some(
                    (admin, xlm_token, sxlm_token),
                ),
                _ => None,
            },
            total_deposits: self.total_deposits,
            yield_accrued: self.yield_accrued,
            paused: self.paused,
            max_deposit: self.max_deposit,
            total_cap: self.total_cap,
            reentrancy: self.reentrancy,
        }
    }

    /// Binds the admin and the two tokens, once, and puts the vault in its
    /// starting state: nothing deposited, no yield, not paused, the default
    /// largest deposit, the guard free.
    pub fn initialize(&mut self, admin: u64, xlm_token: u64, sxlm_token: u64) -> (r: Result<
        (),
        Error,
    >)
        requires
            old(self).wf(),
        ensures
            final(self).wf(),
            r == old(self)@.initialize_result(),
            final(self)@ == (if r is Ok {
                old(self)@.initialized_with(admin, xlm_token, sxlm_token)
            } else {
                old(self)@
            }),
    {
        if self.admin.is_some() {
            return Err(Error::AlreadyInitialized);
        }
        self.admin = Some(admin);
        self.xlm_token = Some(xlm_token);
        self.sxlm_token = Some(sxlm_token);
        self.total_deposits = 0;
        self.yield_accrued = 0;
        self.paused = false;
        self.max_deposit = DEFAULT_MAX_DEPOSIT;
        self.reentrancy = ReentrancyState::Unlocked;
        self.pending = None;
        Ok(())
    }

    /// Whether [`Vault::initialize`] has succeeded on this vault.
    pub fn is_initialized(&self) -> (b: bool)
        ensures
            b == self.initialized(),
    {
        self.admin.is_some()
    }

    /// The exchange rate, principal per share scaled by `PRECISION`, against
    /// a share supply of `total_supply`.
    pub fn get_exchange_rate(&self, total_supply: i128) -> (r: Result<i128, Error>)
        requires
            self.wf(),
            0 <= total_supply,
        ensures
            agrees(r, self@.rate_result(total_supply as int)),
            r matches Ok(rate) ==> 0 <= rate,
    {
        if total_supply == 0 {
            return Ok(PRECISION);
        }
        let total_assets = match self.total_deposits.checked_add(self.yield_accrued) {
            Some(t) => t,
            None => { return Err(Error::Overflow); },
        };
        proof {
            lemma_rate_nonnegative(total_assets as int, total_supply as int);
        }
        checked_mul_div(total_assets, PRECISION, total_supply)
    }

    /// Deposits plus yield.
    pub fn get_total_assets(&self) -> (r: Result<i128, Error>)
        requires
            self.wf(),
        ensures
            match r {
                Ok(assets) => assets == self@.total_assets(),
                Err(e) => e == Error::Overflow && self@.total_assets() > i128::MAX,
            },
    {
        match self.total_deposits.checked_add(self.yield_accrued) {
            Some(t) => Ok(t),
            None => Err(Error::Overflow),
        }
    }

    /// The principal deposited and not yet withdrawn.
    pub fn get_total_deposits(&self) -> (d: i128)
        ensures
            d == self@.total_deposits,
    {
        self.total_deposits
    }

    /// The yield credited and not yet withdrawn.
    pub fn get_yield_accrued(&self) -> (y: i128)
        ensures
            y == self@.yield_accrued,
    {
        self.yield_accrued
    }

    /// What `user` has paid in and not taken out.
    pub fn get_user_deposit(&self, user: u64) -> (d: i128)
        ensures
            d == self@.deposit_of(user),
    {
        match self.user_deposits.get(&user) {
            Some(d) => *d,
            None => 0,
        }
    }

    fn set_user_deposit(&mut self, user: u64, amount: i128)
        ensures
            final(self)@ == (VaultView {
                user_deposits: old(self)@.user_deposits.insert(user, amount as int),
                ..old(self)@
            }),
    {
        self.user_deposits.insert(user, amount);
        assert(self@.user_deposits =~= old(self)@.user_deposits.insert(user, amount as int));
    }

    /// The vault's own name.
    pub fn address(&self) -> (id: u64)
        ensures
            id == self@.address,
    {
        self.address
    }

    /// Who may administer the vault.
    pub fn admin(&self) -> (id: u64)
        requires
            self.initialized(),
        ensures
            self@.admin == Some(id),
    {
        match self.admin {
            Some(id) => id,
            None => 0,
        }
    }

    /// The principal asset.
    pub fn xlm_token(&self) -> (id: u64)
        requires
            self.wf(),
            self.initialized(),
        ensures
            self@.xlm_token == Some(id),
    {
        match self.xlm_token {
            Some(id) => id,
            None => 0,
        }
    }

    /// The share token.
    pub fn sxlm_token(&self) -> (id: u64)
        requires
            self.wf(),
            self.initialized(),
        ensures
            self@.sxlm_token == Some(id),
    {
        match self.sxlm_token {
            Some(id) => id,
            None => 0,
        }
    }

    /// Whether deposits and withdrawals are suspended.
    pub fn is_paused(&self) -> (b: bool)
        ensures
            b == self@.paused,
    {
        self.paused
    }

    /// The largest single deposit.
    pub fn max_deposit(&self) -> (m: i128)
        ensures
            m == self@.max_deposit,
    {
        self.max_deposit
    }

    /// The most that the total of deposits may reach.
    pub fn total_cap(&self) -> (c: i128)
        ensures
            c == self@.total_cap,
    {
        self.total_cap
    }

    /// The state of the reentrancy guard.
    pub fn reentrancy(&self) -> (state: ReentrancyState)
        ensures
            state == self@.reentrancy,
    {
        self.reentrancy
    }
}

impl Vault {
    /// What a deposit of `amount` by `user` would buy, without any change.
    fn quote_deposit(&self, caller: u64, user: u64, amount: i128, total_supply: i128) -> (r: Result<
        i128,
        Error,
    >)
        requires
            self.wf(),
            0 <= total_supply,
        ensures
            agrees(r, self@.deposit_quote(caller, user, amount as int, total_supply as int)),
            r matches Ok(shares) ==> 0 < shares && self@.admits(
                Pending::Deposit { user, amount, shares },
            ),
    {
        if self.reentrancy == ReentrancyState::Locked {
            return Err(Error::ReentrantCall);
        }
        if caller != user {
            return Err(Error::Unauthorized);
        }
        if self.paused {
            return Err(Error::Paused);
        }
        if amount < MIN_AMOUNT {
            return Err(Error::BelowMinimum);
        }
        if amount > self.max_deposit {
            return Err(Error::ExceedsMaximum);
        }
        let total_after = match self.total_deposits.checked_add(amount) {
            Some(t) => t,
            None => { return Err(Error::Overflow); },
        };
        if total_after > self.total_cap {
            return Err(Error::ExceedsCap);
        }
        let rate = match self.get_exchange_rate(total_supply) {
            Ok(rate) => rate,
            Err(e) => { return Err(e); },
        };
        let shares = match checked_mul_div(amount, PRECISION, rate) {
            Ok(shares) => shares,
            Err(e) => { return Err(e); },
        };
        proof {
            lemma_floor_at_least(amount * PRECISION, rate as int, 0);
        }
        if shares == 0 {
            return Err(Error::DepositTooSmall);
        }
        if self.get_user_deposit(user).checked_add(amount).is_none() {
            return Err(Error::Overflow);
        }
        Ok(shares)
    }

    /// What redeeming `sxlm_amount` shares would return, without any change.
    fn quote_withdraw(
        &self,
        caller: u64,
        user: u64,
        sxlm_amount: i128,
        total_supply: i128,
        share_balance: i128,
        custody_balance: i128,
    ) -> (r: Result<i128, Error>)
        requires
            self.wf(),
            0 <= total_supply,
        ensures
            agrees(
                r,
                self@.withdraw_quote(
                    caller,
                    user,
                    sxlm_amount as int,
                    total_supply as int,
                    share_balance as int,
                    custody_balance as int,
                ),
            ),
            r matches Ok(principal) ==> 0 < principal && 0 < sxlm_amount,
    {
        if self.reentrancy == ReentrancyState::Locked {
            return Err(Error::ReentrantCall);
        }
        if caller != user {
            return Err(Error::Unauthorized);
        }
        if self.paused {
            return Err(Error::Paused);
        }
        if sxlm_amount < MIN_AMOUNT {
            return Err(Error::BelowMinimum);
        }
        if share_balance < sxlm_amount {
            return Err(Error::InsufficientShares);
        }
        let rate = match self.get_exchange_rate(total_supply) {
            Ok(rate) => rate,
            Err(e) => { return Err(e); },
        };
        assert(0 <= sxlm_amount * rate) by (nonlinear_arith)
            requires
                0 <= sxlm_amount,
                0 <= rate,
        ;
        let principal = match checked_mul_div(sxlm_amount, rate, PRECISION) {
            Ok(principal) => principal,
            Err(e) => { return Err(e); },
        };
        proof {
            lemma_floor_at_least(sxlm_amount * rate, PRECISION as int, 0);
        }
        if principal == 0 {
            return Err(Error::WithdrawalTooSmall);
        }
        if custody_balance < principal {
            return Err(Error::InsufficientLiquidity);
        }
        Ok(principal)
    }

    /// Splits `principal` between the counter of deposits and that of yield.
    fn split_withdrawal(&self, principal: i128) -> (r: Result<(i128, i128), Error>)
        requires
            self.wf(),
            0 < principal,
        ensures
            match r {
                Ok((deposit_portion, yield_portion)) => self@.split(principal as int) == Ok::<
                    (int, int),
                    Error,
                >((deposit_portion as int, yield_portion as int)) && 0 <= deposit_portion && 0
                    <= yield_portion,
                Err(e) => self@.split(principal as int) == Err::<(int, int), Error>(e),
            },
    {
        let total_assets = match self.total_deposits.checked_add(self.yield_accrued) {
            Some(t) => t,
            None => { return Err(Error::Overflow); },
        };
        if total_assets > 0 {
            assert(0 <= principal * self.total_deposits) by (nonlinear_arith)
                requires
                    0 <= principal,
                    0 <= self.total_deposits,
            ;
            let deposit_portion = match checked_mul_div(
                principal,
                self.total_deposits,
                total_assets,
            ) {
                Ok(p) => p,
                Err(e) => { return Err(e); },
            };
            proof {
                lemma_floor_at_least(
                    principal * self.total_deposits,
                    total_assets as int,
                    0,
                );
                assert(principal * self.total_deposits < (principal + 1) * total_assets)
                    by (nonlinear_arith)
                    requires
                        0 <= principal,
                        0 <= self.total_deposits <= total_assets,
                        0 < total_assets,
                ;
                lemma_floor_at_most(
                    principal * self.total_deposits,
                    total_assets as int,
                    principal as int,
                );
            }
            Ok((deposit_portion, principal - deposit_portion))
        } else {
            Ok((0, 0))
        }
    }

    /// Writes a deposit into the counters.
    fn apply_deposit(&mut self, user: u64, amount: i128)
        requires
            old(self).wf(),
            0 < amount,
            old(self)@.total_deposits + amount <= i128::MAX,
            old(self)@.deposit_of(user) + amount <= i128::MAX,
        ensures
            final(self)@ == old(self)@.deposited(user, amount as int),
    {
        self.total_deposits = self.total_deposits + amount;
        let user_total = self.get_user_deposit(user) + amount;
        self.set_user_deposit(user, user_total);
    }

    /// Writes a withdrawal into the counters.
    fn apply_withdrawal(
        &mut self,
        user: u64,
        principal: i128,
        deposit_portion: i128,
        yield_portion: i128,
    )
        requires
            old(self).wf(),
            0 <= principal,
            0 <= deposit_portion,
            0 <= yield_portion,
        ensures
            final(self)@ == old(self)@.withdrawn(
                user,
                principal as int,
                deposit_portion as int,
                yield_portion as int,
            ),
    {
        self.total_deposits = saturating_reduce(self.total_deposits, deposit_portion);
        self.yield_accrued = saturating_reduce(self.yield_accrued, yield_portion);
        let user_deposit = self.get_user_deposit(user);
        if user_deposit > 0 {
            self.set_user_deposit(user, saturating_reduce(user_deposit, principal));
        }
    }

    /// Decides a deposit of `amount` by `user` and takes the guard. On `Ok`
    /// the host owes two things before it calls [`Vault::complete_deposit`]:
    /// to move `amount` of principal from `user` into custody, and to mint
    /// the shares returned to `user`. Should either fail, it calls
    /// [`Vault::abort`] instead, and nothing has happened.
    pub fn begin_deposit(
        &mut self,
        caller: u64,
        user: u64,
        amount: i128,
        total_supply: i128,
    ) -> (r: Result<i128, Error>)
        requires
            old(self).wf(),
            old(self).initialized(),
            0 <= total_supply,
        ensures
            final(self).wf(),
            agrees(r, old(self)@.deposit_quote(caller, user, amount as int, total_supply as int)),
            final(self)@ == (match r {
                Ok(shares) => old(self)@.locked_for(Pending::Deposit { user, amount, shares }),
                Err(_) => old(self)@,
            }),
    {
        let shares = match self.quote_deposit(caller, user, amount, total_supply) {
            Ok(shares) => shares,
            Err(e) => { return Err(e); },
        };
        self.reentrancy = ReentrancyState::Locked;
        self.pending = Some(Pending::Deposit { user, amount, shares });
        Ok(shares)
    }

    /// Commits the pending deposit and frees the guard; returns the shares
    /// that the deposit bought. Where no deposit is pending it returns `None`
    /// and changes nothing.
    pub fn complete_deposit(&mut self) -> (r: Option<i128>)
        requires
            old(self).wf(),
        ensures
            final(self).wf(),
            match old(self)@.pending {
                Some(Pending::Deposit { user, amount, shares }) => r == Some(shares)
                    && final(self)@ == old(self)@.deposited(user, amount as int).released(),
                _ => r is None && final(self)@ == old(self)@,
            },
    {
        match self.pending {
            Some(Pending::Deposit { user, amount, shares }) => {
                self.apply_deposit(user, amount);
                self.reentrancy = ReentrancyState::Unlocked;
                self.pending = None;
                Some(shares)
            },
            _ => None,
        }
    }

    /// Decides the redemption of `sxlm_amount` shares of `user` and takes the
    /// guard. `share_balance` is what the ledger holds for `user`,
    /// `custody_balance` what custody holds for the vault. On `Ok` the host
    /// owes two things before it calls [`Vault::complete_withdraw`]: to burn
    /// the shares, and to move the principal returned from custody to
    /// `user`. Should either fail, it calls [`Vault::abort`] instead.
    pub fn begin_withdraw(
        &mut self,
        caller: u64,
        user: u64,
        sxlm_amount: i128,
        total_supply: i128,
        share_balance: i128,
        custody_balance: i128,
    ) -> (r: Result<i128, Error>)
        requires
            old(self).wf(),
            old(self).initialized(),
            0 <= total_supply,
        ensures
            final(self).wf(),
            match old(self)@.withdrawal_plan(
                caller,
                user,
                sxlm_amount as int,
                total_supply as int,
                share_balance as int,
                custody_balance as int,
            ) {
                Ok(plan) => {
                    &&& plan matches Pending::Withdrawal { principal, .. }
                    &&& r == Ok::<i128, Error>(principal)
                    &&& final(self)@ == old(self)@.locked_for(plan)
                },
                Err(e) => r == Err::<i128, Error>(e) && final(self)@ == old(self)@,
            },
    {
        let principal = match self.quote_withdraw(
            caller,
            user,
            sxlm_amount,
            total_supply,
            share_balance,
            custody_balance,
        ) {
            Ok(principal) => principal,
            Err(e) => { return Err(e); },
        };
        let (deposit_portion, yield_portion) = match self.split_withdrawal(principal) {
            Ok(portions) => portions,
            Err(e) => { return Err(e); },
        };
        self.reentrancy = ReentrancyState::Locked;
        self.pending = Some(
            Pending::Withdrawal {
                user,
                shares: sxlm_amount,
                principal,
                deposit_portion,
                yield_portion,
            },
        );
        Ok(principal)
    }

    /// Commits the pending withdrawal and frees the guard; returns the
    /// principal that left. Where no withdrawal is pending it returns `None`
    /// and changes nothing.
    pub fn complete_withdraw(&mut self) -> (r: Option<i128>)
        requires
            old(self).wf(),
        ensures
            final(self).wf(),
            match old(self)@.pending {
                Some(
                    Pending::Withdrawal { user, shares, principal, deposit_portion, yield_portion },
                ) => r == Some(principal) && final(self)@ == old(self)@.withdrawn(
                    user,
                    principal as int,
                    deposit_portion as int,
                    yield_portion as int,
                ).released(),
                _ => r is None && final(self)@ == old(self)@,
            },
    {
        match self.pending {
            Some(
                Pending::Withdrawal { user, shares, principal, deposit_portion, yield_portion },
            ) => {
                self.apply_withdrawal(user, principal, deposit_portion, yield_portion);
                self.reentrancy = ReentrancyState::Unlocked;
                self.pending = None;
                Some(principal)
            },
            _ => None,
        }
    }

    /// Frees the guard and forgets what was pending; the counters stay.
    pub fn abort(&mut self)
        requires
            old(self).wf(),
        ensures
            final(self).wf(),
            final(self)@ == old(self)@.released(),
    {
        self.reentrancy = ReentrancyState::Unlocked;
        self.pending = None;
    }

    /// Takes a deposit of `amount` from `user`, mints the shares it buys on
    /// `ledger` and returns their number. All or nothing: a refusal changes
    /// neither the vault nor the ledger. The movement of `amount` into
    /// custody is the host's.
    pub fn deposit(
        &mut self,
        ledger: &mut SxlmToken,
        caller: u64,
        user: u64,
        amount: i128,
    ) -> (r: Result<i128, Error>)
        requires
            old(self).wf(),
            old(self).initialized(),
            old(ledger).wf(),
        ensures
            final(self).wf(),
            final(ledger).wf(),
            agrees(r, old(self)@.deposit_result(old(ledger)@, caller, user, amount as int)),
            match r {
                Ok(shares) => {
                    &&& final(self)@ == old(self)@.deposited(user, amount as int)
                    &&& final(ledger)@ == old(ledger)@.minted(user, shares as int)
                },
                Err(_) => final(self)@ == old(self)@ && final(ledger)@ == old(ledger)@,
            },
    {
        proof {
            lemma_total_nonnegative(ledger@.balances);
        }
        let shares = match self.quote_deposit(caller, user, amount, ledger.total_supply()) {
            Ok(shares) => shares,
            Err(e) => { return Err(e); },
        };
        match ledger.mint(self.address, user, shares) {
            Ok(()) => {},
            Err(e) => { return Err(e); },
        }
        self.apply_deposit(user, amount);
        Ok(shares)
    }

    /// As [`Vault::deposit`], but refuses with `Slippage` where the shares
    /// would be fewer than `min_sxlm_out`. The refusal comes before anything
    /// is changed.
    pub fn deposit_with_min_out(
        &mut self,
        ledger: &mut SxlmToken,
        caller: u64,
        user: u64,
        amount: i128,
        min_sxlm_out: i128,
    ) -> (r: Result<i128, Error>)
        requires
            old(self).wf(),
            old(self).initialized(),
            old(ledger).wf(),
        ensures
            final(self).wf(),
            final(ledger).wf(),
            agrees(
                r,
                at_least(
                    old(self)@.deposit_result(old(ledger)@, caller, user, amount as int),
                    min_sxlm_out as int,
                ),
            ),
            match r {
                Ok(shares) => {
                    &&& final(self)@ == old(self)@.deposited(user, amount as int)
                    &&& final(ledger)@ == old(ledger)@.minted(user, shares as int)
                },
                Err(_) => final(self)@ == old(self)@ && final(ledger)@ == old(ledger)@,
            },
    {
        proof {
            lemma_total_nonnegative(ledger@.balances);
        }
        let shares = match self.quote_deposit(caller, user, amount, ledger.total_supply()) {
            Ok(shares) => shares,
            Err(e) => { return Err(e); },
        };
        match ledger.check_mint(self.address, user, shares) {
            Ok(()) => {},
            Err(e) => { return Err(e); },
        }
        match require_at_least(shares, min_sxlm_out) {
            Ok(_) => {},
            Err(e) => { return Err(e); },
        }
        let minted = ledger.mint(self.address, user, shares);
        assert(minted is Ok);
        self.apply_deposit(user, amount);
        Ok(shares)
    }

    /// Everything that can refuse a withdrawal, decided without any change:
    /// the principal and its split.
    fn decide_withdraw(
        &self,
        ledger: &SxlmToken,
        caller: u64,
        user: u64,
        sxlm_amount: i128,
        custody_balance: i128,
    ) -> (r: Result<(i128, i128, i128), Error>)
        requires
            self.wf(),
            ledger.wf(),
        ensures
            match r {
                Ok((principal, deposit_portion, yield_portion)) => {
                    &&& self@.withdraw_result(
                        ledger@,
                        caller,
                        user,
                        sxlm_amount as int,
                        custody_balance as int,
                    ) == Ok::<int, Error>(principal as int)
                    &&& self@.split(principal as int) == Ok::<(int, int), Error>(
                        (deposit_portion as int, yield_portion as int),
                    )
                    &&& ledger@.burn_result(self@.address, user, sxlm_amount as int) is Ok
                    &&& 0 < principal
                    &&& 0 <= deposit_portion
                    &&& 0 <= yield_portion
                },
                Err(e) => self@.withdraw_result(
                    ledger@,
                    caller,
                    user,
                    sxlm_amount as int,
                    custody_balance as int,
                ) == Err::<int, Error>(e),
            },
    {
        proof {
            lemma_total_nonnegative(ledger@.balances);
        }
        let principal = match self.quote_withdraw(
            caller,
            user,
            sxlm_amount,
            ledger.total_supply(),
            ledger.balance(user),
            custody_balance,
        ) {
            Ok(principal) => principal,
            Err(e) => { return Err(e); },
        };
        match ledger.check_burn(self.address, user, sxlm_amount) {
            Ok(()) => {},
            Err(e) => { return Err(e); },
        }
        match self.split_withdrawal(principal) {
            Ok((deposit_portion, yield_portion)) => Ok((principal, deposit_portion, yield_portion)),
            Err(e) => Err(e),
        }
    }

    /// Redeems `sxlm_amount` shares of `user`: burns them on `ledger`, takes
    /// the principal they are worth off the counters and returns it. All or
    /// nothing. `custody_balance` is what custody holds for the vault; the
    /// movement of the principal to `user` is the host's.
    pub fn withdraw(
        &mut self,
        ledger: &mut SxlmToken,
        caller: u64,
        user: u64,
        sxlm_amount: i128,
        custody_balance: i128,
    ) -> (r: Result<i128, Error>)
        requires
            old(self).wf(),
            old(self).initialized(),
            old(ledger).wf(),
        ensures
            final(self).wf(),
            final(ledger).wf(),
            agrees(
                r,
                old(self)@.withdraw_result(
                    old(ledger)@,
                    caller,
                    user,
                    sxlm_amount as int,
                    custody_balance as int,
                ),
            ),
            match r {
                Ok(principal) => {
                    &&& final(self)@ == old(self)@.after_withdrawal(user, principal as int)
                    &&& final(ledger)@ == old(ledger)@.burned(user, sxlm_amount as int)
                },
                Err(_) => final(self)@ == old(self)@ && final(ledger)@ == old(ledger)@,
            },
    {
        let (principal, deposit_portion, yield_portion) = match self.decide_withdraw(
            ledger,
            caller,
            user,
            sxlm_amount,
            custody_balance,
        ) {
            Ok(decided) => decided,
            Err(e) => { return Err(e); },
        };
        let burned = ledger.burn(self.address, user, sxlm_amount);
        assert(burned is Ok);
        self.apply_withdrawal(user, principal, deposit_portion, yield_portion);
        Ok(principal)
    }

    /// As [`Vault::withdraw`], but refuses with `Slippage` where the
    /// principal would be less than `min_xlm_out`. The refusal comes before
    /// anything is changed.
    pub fn withdraw_with_min_out(
        &mut self,
        ledger: &mut SxlmToken,
        caller: u64,
        user: u64,
        sxlm_amount: i128,
        custody_balance: i128,
        min_xlm_out: i128,
    ) -> (r: Result<i128, Error>)
        requires
            old(self).wf(),
            old(self).initialized(),
            old(ledger).wf(),
        ensures
            final(self).wf(),
            final(ledger).wf(),
            agrees(
                r,
                at_least(
                    old(self)@.withdraw_result(
                        old(ledger)@,
                        caller,
                        user,
                        sxlm_amount as int,
                        custody_balance as int,
                    ),
                    min_xlm_out as int,
                ),
            ),
            match r {
                Ok(principal) => {
                    &&& final(self)@ == old(self)@.after_withdrawal(user, principal as int)
                    &&& final(ledger)@ == old(ledger)@.burned(user, sxlm_amount as int)
                },
                Err(_) => final(self)@ == old(self)@ && final(ledger)@ == old(ledger)@,
            },
    {
        let (principal, deposit_portion, yield_portion) = match self.decide_withdraw(
            ledger,
            caller,
            user,
            sxlm_amount,
            custody_balance,
        ) {
            Ok(decided) => decided,
            Err(e) => { return Err(e); },
        };
        match require_at_least(principal, min_xlm_out) {
            Ok(_) => {},
            Err(e) => { return Err(e); },
        }
        let burned = ledger.burn(self.address, user, sxlm_amount);
        assert(burned is Ok);
        self.apply_withdrawal(user, principal, deposit_portion, yield_portion);
        Ok(principal)
    }
}

impl Vault {
    /// The shares that `xlm_amount` of principal would buy at the current
    /// rate. Nothing is checked but the arithmetic, and nothing changes.
    pub fn preview_deposit(&self, xlm_amount: i128, total_supply: i128) -> (r: Result<i128, Error>)
        requires
            self.wf(),
            0 <= total_supply,
        ensures
            agrees(r, self@.deposit_preview(xlm_amount as int, total_supply as int)),
    {
        let rate = match self.get_exchange_rate(total_supply) {
            Ok(rate) => rate,
            Err(e) => { return Err(e); },
        };
        checked_mul_div(xlm_amount, PRECISION, rate)
    }

    /// The principal that `sxlm_amount` shares would redeem at the current
    /// rate. Nothing is checked but the arithmetic, and nothing changes.
    pub fn preview_withdraw(&self, sxlm_amount: i128, total_supply: i128) -> (r: Result<
        i128,
        Error,
    >)
        requires
            self.wf(),
            0 <= total_supply,
        ensures
            agrees(r, self@.withdraw_preview(sxlm_amount as int, total_supply as int)),
    {
        let rate = match self.get_exchange_rate(total_supply) {
            Ok(rate) => rate,
            Err(e) => { return Err(e); },
        };
        checked_mul_div(sxlm_amount, rate, PRECISION)
    }

    /// Credits `amount` of realized yield. Only the admin may. The movement
    /// of `amount` from the admin into custody is the host's.
    pub fn add_yield(&mut self, caller: u64, amount: i128) -> (r: Result<(), Error>)
        requires
            old(self).wf(),
        ensures
            final(self).wf(),
            r == old(self)@.yield_result(caller, amount as int),
            final(self)@ == (if r is Ok {
                VaultView { yield_accrued: old(self)@.yield_accrued + amount, ..old(self)@ }
            } else {
                old(self)@
            }),
    {
        if self.admin != Some(caller) {
            return Err(Error::Unauthorized);
        }
        if amount <= 0 {
            return Err(Error::InvalidAmount);
        }
        match self.yield_accrued.checked_add(amount) {
            Some(y) => {
                self.yield_accrued = y;
                Ok(())
            },
            None => Err(Error::Overflow),
        }
    }

    /// Suspends deposits and withdrawals. Only the admin may.
    pub fn pause(&mut self, caller: u64) -> (r: Result<(), Error>)
        requires
            old(self).wf(),
        ensures
            final(self).wf(),
            r == old(self)@.admin_result(caller),
            final(self)@ == (if r is Ok {
                VaultView { paused: true, ..old(self)@ }
            } else {
                old(self)@
            }),
    {
        if self.admin != Some(caller) {
            return Err(Error::Unauthorized);
        }
        self.paused = true;
        Ok(())
    }

    /// Resumes deposits and withdrawals. Only the admin may.
    pub fn unpause(&mut self, caller: u64) -> (r: Result<(), Error>)
        requires
            old(self).wf(),
        ensures
            final(self).wf(),
            r == old(self)@.admin_result(caller),
            final(self)@ == (if r is Ok {
                VaultView { paused: false, ..old(self)@ }
            } else {
                old(self)@
            }),
    {
        if self.admin != Some(caller) {
            return Err(Error::Unauthorized);
        }
        self.paused = false;
        Ok(())
    }

    /// Sets the largest single deposit, which may not be under the smallest.
    /// Only the admin may.
    pub fn set_max_deposit(&mut self, caller: u64, max_deposit: i128) -> (r: Result<(), Error>)
        requires
            old(self).wf(),
        ensures
            final(self).wf(),
            r == old(self)@.max_deposit_result(caller, max_deposit as int),
            final(self)@ == (if r is Ok {
                VaultView { max_deposit: max_deposit as int, ..old(self)@ }
            } else {
                old(self)@
            }),
    {
        if self.admin != Some(caller) {
            return Err(Error::Unauthorized);
        }
        if max_deposit < MIN_AMOUNT {
            return Err(Error::BelowMinimum);
        }
        self.max_deposit = max_deposit;
        Ok(())
    }

    /// Sets the most that the total of deposits may reach. Only the admin may.
    pub fn set_total_cap(&mut self, caller: u64, total_cap: i128) -> (r: Result<(), Error>)
        requires
            old(self).wf(),
        ensures
            final(self).wf(),
            r == old(self)@.admin_result(caller),
            final(self)@ == (if r is Ok {
                VaultView { total_cap: total_cap as int, ..old(self)@ }
            } else {
                old(self)@
            }),
    {
        if self.admin != Some(caller) {
            return Err(Error::Unauthorized);
        }
        self.total_cap = total_cap;
        Ok(())
    }

    /// Whether `caller` may replace the code that runs the vault: only the
    /// admin may. The replacement itself is the host's, and changes nothing
    /// that the vault holds.
    pub fn upgrade(&self, caller: u64) -> (r: Result<(), Error>)
        ensures
            r == self@.admin_result(caller),
    {
        if self.admin != Some(caller) {
            return Err(Error::Unauthorized);
        }
        Ok(())
    }

    /// Hands the administration to `new_admin`. Only the admin may.
    pub fn transfer_admin(&mut self, caller: u64, new_admin: u64) -> (r: Result<(), Error>)
        requires
            old(self).wf(),
        ensures
            final(self).wf(),
            r == old(self)@.admin_result(caller),
            final(self)@ == (if r is Ok {
                VaultView { admin: Some(new_admin), ..old(self)@ }
            } else {
                old(self)@
            }),
    {
        if self.admin != Some(caller) {
            return Err(Error::Unauthorized);
        }
        self.admin = Some(new_admin);
        Ok(())
    }
}

} // verus!

//! The vault as mathematics: what it holds, what each operation decides and
//! in which order it refuses, and how a decision changes the counters.

use crate::amount::{
    clamped_sub, mul_div, principal_for, rate_of, shares_for, DEFAULT_MAX_DEPOSIT, MIN_AMOUNT,
    PRECISION,
};
use crate::balances::entry_or_zero;
use crate::error::Error;
use crate::sxlm_token::model::LedgerView;
use crate::vault::{Pending, ReentrancyState, VaultRecord};
use vstd::prelude::*;

verus! {

/// What a vault holds, as mathematics.
#[verifier::ext_equal]
pub struct VaultView {
    /// The vault's own name: the account under which it holds custody and
    /// mints and burns shares.
    pub address: u64,
    /// Who may administer the vault; `None` until it is initialized.
    pub admin: Option<u64>,
    /// The principal asset; `None` until the vault is initialized.
    pub xlm_token: Option<u64>,
    /// The share token; `None` until the vault is initialized.
    pub sxlm_token: Option<u64>,
    /// The principal deposited and not yet withdrawn.
    pub total_deposits: int,
    /// The yield credited and not yet withdrawn.
    pub yield_accrued: int,
    /// Whether deposits and withdrawals are suspended.
    pub paused: bool,
    /// The largest single deposit.
    pub max_deposit: int,
    /// The most that `total_deposits` may reach.
    pub total_cap: int,
    /// What each user has paid in and not taken out; for reporting only.
    pub user_deposits: Map<u64, int>,
    /// The reentrancy guard.
    pub reentrancy: ReentrancyState,
    /// What the guard is held for, where the vault itself knows.
    pub pending: Option<Pending>,
}

impl VaultView {
    /// A vault at `address` that nobody has touched.
    pub open spec fn empty(address: u64) -> VaultView {
        VaultView {
            address,
            admin: None,
            xlm_token: None,
            sxlm_token: None,
            total_deposits: 0,
            yield_accrued: 0,
            paused: false,
            max_deposit: DEFAULT_MAX_DEPOSIT as int,
            total_cap: i128::MAX as int,
            user_deposits: Map::empty(),
            reentrancy: ReentrancyState::Unlocked,
            pending: None,
        }
    }

    /// Deposits plus yield: all the principal that the shares stand for.
    pub open spec fn total_assets(self) -> int {
        self.total_deposits + self.yield_accrued
    }

    /// What `user` has paid in and not taken out; a user never seen has zero.
    pub open spec fn deposit_of(self, user: u64) -> int {
        entry_or_zero(self.user_deposits, user)
    }

    /// Whether a pending operation can be committed on this state.
    pub open spec fn admits(self, pending: Pending) -> bool {
        match pending {
            Pending::Deposit { user, amount, shares } => {
                &&& 0 < amount
                &&& 0 < shares
                &&& self.total_deposits + amount <= i128::MAX
                &&& self.deposit_of(user) + amount <= i128::MAX
            },
            Pending::Withdrawal { user, shares, principal, deposit_portion, yield_portion } => {
                &&& 0 < shares
                &&& 0 < principal
                &&& 0 <= deposit_portion
                &&& 0 <= yield_portion
            },
        }
    }

    /// No counter is negative, the largest deposit is at least the smallest,
    /// and a pending operation holds the guard.
    pub open spec fn valid(self) -> bool {
        &&& 0 <= self.total_deposits <= i128::MAX
        &&& 0 <= self.yield_accrued <= i128::MAX
        &&& MIN_AMOUNT <= self.max_deposit <= i128::MAX
        &&& i128::MIN <= self.total_cap <= i128::MAX
        &&& forall|user: u64|
            self.user_deposits.contains_key(user) ==> 0 <= self.user_deposits[user] <= i128::MAX
        &&& (self.admin is Some <==> self.xlm_token is Some)
        &&& (self.admin is Some <==> self.sxlm_token is Some)
        &&& match self.pending {
            None => true,
            Some(pending) => self.reentrancy == ReentrancyState::Locked && self.admits(pending),
        }
    }

    /// Whether, and why, binding the admin and the tokens is refused: it can
    /// be done once.
    pub open spec fn initialize_result(self) -> Result<(), Error> {
        if self.admin is Some {
            Err(Error::AlreadyInitialized)
        } else {
            Ok(())
        }
    }

    /// The vault in its starting state with the admin and the tokens bound:
    /// nothing deposited, no yield, not paused, the default largest deposit,
    /// the guard free. The cap and the records of the users stay.
    pub open spec fn initialized_with(
        self,
        admin: u64,
        xlm_token: u64,
        sxlm_token: u64,
    ) -> VaultView {
        VaultView {
            admin: Some(admin),
            xlm_token: Some(xlm_token),
            sxlm_token: Some(sxlm_token),
            total_deposits: 0,
            yield_accrued: 0,
            paused: false,
            max_deposit: DEFAULT_MAX_DEPOSIT as int,
            reentrancy: ReentrancyState::Unlocked,
            pending: None,
            ..self
        }
    }

    /// The exchange rate against a share supply of `supply`, or `Overflow`
    /// where the assets times `PRECISION` leave the range of `i128`. With no
    /// share outstanding the rate is `PRECISION`, whatever the assets.
    pub open spec fn rate_result(self, supply: int) -> Result<int, Error> {
        if supply != 0 && self.total_assets() * PRECISION > i128::MAX {
            Err(Error::Overflow)
        } else {
            Ok(rate_of(self.total_assets(), supply))
        }
    }

    /// The shares that a deposit of `amount` by `user` buys, or the first
    /// reason, in this order, why the vault refuses it. Only `user` itself
    /// may deposit for `user`.
    pub open spec fn deposit_quote(
        self,
        caller: u64,
        user: u64,
        amount: int,
        supply: int,
    ) -> Result<int, Error> {
        if self.reentrancy == ReentrancyState::Locked {
            Err(Error::ReentrantCall)
        } else if caller != user {
            Err(Error::Unauthorized)
        } else if self.paused {
            Err(Error::Paused)
        } else if amount < MIN_AMOUNT {
            Err(Error::BelowMinimum)
        } else if amount > self.max_deposit {
            Err(Error::ExceedsMaximum)
        } else if self.total_deposits + amount > i128::MAX {
            Err(Error::Overflow)
        } else if self.total_deposits + amount > self.total_cap {
            Err(Error::ExceedsCap)
        } else {
            match self.rate_result(supply) {
                Err(e) => Err(e),
                Ok(rate) => {
                    if amount * PRECISION > i128::MAX {
                        Err(Error::Overflow)
                    } else if rate == 0 {
                        Err(Error::DivisionError)
                    } else if shares_for(amount, rate) == 0 {
                        Err(Error::DepositTooSmall)
                    } else if self.deposit_of(user) + amount > i128::MAX {
                        Err(Error::Overflow)
                    } else {
                        Ok(shares_for(amount, rate))
                    }
                },
            }
        }
    }

    /// The principal that redeeming `shares` of `user` returns, or the first
    /// reason, in this order, why the vault refuses: `share_balance` is what
    /// the user holds, `custody_balance` what custody holds for the vault.
    /// Only `user` itself may redeem its shares.
    pub open spec fn withdraw_quote(
        self,
        caller: u64,
        user: u64,
        shares: int,
        supply: int,
        share_balance: int,
        custody_balance: int,
    ) -> Result<int, Error> {
        if self.reentrancy == ReentrancyState::Locked {
            Err(Error::ReentrantCall)
        } else if caller != user {
            Err(Error::Unauthorized)
        } else if self.paused {
            Err(Error::Paused)
        } else if shares < MIN_AMOUNT {
            Err(Error::BelowMinimum)
        } else if share_balance < shares {
            Err(Error::InsufficientShares)
        } else {
            match self.rate_result(supply) {
                Err(e) => Err(e),
                Ok(rate) => {
                    if shares * rate > i128::MAX {
                        Err(Error::Overflow)
                    } else if principal_for(shares, rate) == 0 {
                        Err(Error::WithdrawalTooSmall)
                    } else if custody_balance < principal_for(shares, rate) {
                        Err(Error::InsufficientLiquidity)
                    } else {
                        Ok(principal_for(shares, rate))
                    }
                },
            }
        }
    }

    /// How `principal` on its way out is split between the counter of
    /// deposits and that of yield: in proportion, the deposits' part rounded
    /// down and the yield's part the rest. A vault without assets gives up
    /// nothing.
    pub open spec fn split(self, principal: int) -> Result<(int, int), Error> {
        if self.total_assets() > i128::MAX {
            Err(Error::Overflow)
        } else if self.total_assets() > 0 {
            if principal * self.total_deposits > i128::MAX {
                Err(Error::Overflow)
            } else {
                let deposit_portion = principal * self.total_deposits / self.total_assets();
                Ok((deposit_portion, principal - deposit_portion))
            }
        } else {
            Ok((0, 0))
        }
    }

    /// The vault after `user` paid in `amount`.
    pub open spec fn deposited(self, user: u64, amount: int) -> VaultView {
        VaultView {
            total_deposits: self.total_deposits + amount,
            user_deposits: self.user_deposits.insert(user, self.deposit_of(user) + amount),
            ..self
        }
    }

    /// The vault after `principal` left for `user`, the two counters giving
    /// up their portions. No counter goes under zero. A user without a
    /// recorded deposit gets no record.
    pub open spec fn withdrawn(
        self,
        user: u64,
        principal: int,
        deposit_portion: int,
        yield_portion: int,
    ) -> VaultView {
        VaultView {
            total_deposits: clamped_sub(self.total_deposits, deposit_portion),
            yield_accrued: clamped_sub(self.yield_accrued, yield_portion),
            user_deposits: if self.deposit_of(user) > 0 {
                self.user_deposits.insert(user, clamped_sub(self.deposit_of(user), principal))
            } else {
                self.user_deposits
            },
            ..self
        }
    }

    /// What the redemption of `shares` of `user` awaits once it is decided:
    /// the pending withdrawal, or the first reason why the vault refuses, an
    /// overflow in the split being the last.
    pub open spec fn withdrawal_plan(
        self,
        caller: u64,
        user: u64,
        shares: int,
        supply: int,
        share_balance: int,
        custody_balance: int,
    ) -> Result<Pending, Error> {
        match self.withdraw_quote(caller, user, shares, supply, share_balance, custody_balance) {
            Err(e) => Err(e),
            Ok(principal) => match self.split(principal) {
                Err(e) => Err(e),
                Ok((deposit_portion, yield_portion)) => Ok(
                    Pending::Withdrawal {
                        user,
                        shares: shares as i128,
                        principal: principal as i128,
                        deposit_portion: deposit_portion as i128,
                        yield_portion: yield_portion as i128,
                    },
                ),
            },
        }
    }

    /// The outcome of a deposit against a ledger in the same process: the
    /// vault's own refusals first, then the ledger's refusal to mint.
    pub open spec fn deposit_result(
        self,
        ledger: LedgerView,
        caller: u64,
        user: u64,
        amount: int,
    ) -> Result<int, Error> {
        match self.deposit_quote(caller, user, amount, ledger.total_supply) {
            Err(e) => Err(e),
            Ok(shares) => match ledger.mint_result(self.address, user, shares) {
                Err(e) => Err(e),
                Ok(()) => Ok(shares),
            },
        }
    }

    /// The outcome of a withdrawal against a ledger in the same process: the
    /// vault's refusals up to the check of custody, then the ledger's refusal
    /// to burn, then an overflow in the split.
    pub open spec fn withdraw_result(
        self,
        ledger: LedgerView,
        caller: u64,
        user: u64,
        shares: int,
        custody_balance: int,
    ) -> Result<int, Error> {
        match self.withdraw_quote(
            caller,
            user,
            shares,
            ledger.total_supply,
            ledger.balance_of(user),
            custody_balance,
        ) {
            Err(e) => Err(e),
            Ok(principal) => match ledger.burn_result(self.address, user, shares) {
                Err(e) => Err(e),
                Ok(()) => match self.split(principal) {
                    Err(e) => Err(e),
                    Ok(_) => Ok(principal),
                },
            },
        }
    }

    /// The vault after a withdrawal of `principal` for `user`, split as
    /// [`VaultView::split`] says.
    pub open spec fn after_withdrawal(self, user: u64, principal: int) -> VaultView {
        let (deposit_portion, yield_portion) = self.split(principal)->Ok_0;
        self.withdrawn(user, principal, deposit_portion, yield_portion)
    }

    /// What a deposit of `amount` would buy at the current rate, with none of
    /// the checks of a deposit.
    pub open spec fn deposit_preview(self, amount: int, supply: int) -> Result<int, Error> {
        match self.rate_result(supply) {
            Err(e) => Err(e),
            Ok(rate) => mul_div(amount, PRECISION as int, rate),
        }
    }

    /// What redeeming `shares` would return at the current rate, with none of
    /// the checks of a withdrawal.
    pub open spec fn withdraw_preview(self, shares: int, supply: int) -> Result<int, Error> {
        match self.rate_result(supply) {
            Err(e) => Err(e),
            Ok(rate) => mul_div(shares, rate, PRECISION as int),
        }
    }

    /// Whether, and why, the admin's crediting of `amount` of yield at the
    /// request of `caller` is refused.
    pub open spec fn yield_result(self, caller: u64, amount: int) -> Result<(), Error> {
        if self.admin != Some(caller) {
            Err(Error::Unauthorized)
        } else if amount <= 0 {
            Err(Error::InvalidAmount)
        } else if self.yield_accrued + amount > i128::MAX {
            Err(Error::Overflow)
        } else {
            Ok(())
        }
    }

    /// Whether, and why, the setting of the largest deposit to `max_deposit`
    /// at the request of `caller` is refused.
    pub open spec fn max_deposit_result(self, caller: u64, max_deposit: int) -> Result<
        (),
        Error,
    > {
        if self.admin != Some(caller) {
            Err(Error::Unauthorized)
        } else if max_deposit < MIN_AMOUNT {
            Err(Error::BelowMinimum)
        } else {
            Ok(())
        }
    }

    /// Whether, and why, an act of administration at the request of `caller`
    /// is refused: only the admin may.
    pub open spec fn admin_result(self, caller: u64) -> Result<(), Error> {
        if self.admin != Some(caller) {
            Err(Error::Unauthorized)
        } else {
            Ok(())
        }
    }

    /// The vault with the stored deposits `entries` (user, amount) written
    /// one after the other, or `None` where one of them is negative.
    pub open spec fn with_deposits(self, entries: Seq<(u64, i128)>) -> Option<VaultView>
        decreases entries.len(),
    {
        if entries.len() == 0 {
            Some(self)
        } else {
            let (user, amount) = entries[0];
            if amount < 0 {
                None
            } else {
                (VaultView {
                    user_deposits: self.user_deposits.insert(user, amount as int),
                    ..self
                }).with_deposits(entries.subrange(1, entries.len() as int))
            }
        }
    }

    /// The vault that a record and the stored deposits stand for, or `None`
    /// where a counter is negative or the largest deposit is under the
    /// smallest.
    pub open spec fn stored(record: VaultRecord, deposits: Seq<(u64, i128)>) -> Option<VaultView> {
        if record.total_deposits < 0 || record.yield_accrued < 0 || record.max_deposit
            < MIN_AMOUNT {
            None
        } else {
            (VaultView {
                address: record.address,
                admin: match record.roles {
                    Some((admin, _, _)) => Some(admin),
                    None => None,
                },
                xlm_token: match record.roles {
                    Some((_, xlm_token, _)) => Some(xlm_token),
                    None => None,
                },
                sxlm_token: match record.roles {
                    Some((_, _, sxlm_token)) => Some(sxlm_token),
                    None => None,
                },
                total_deposits: record.total_deposits as int,
                yield_accrued: record.yield_accrued as int,
                paused: record.paused,
                max_deposit: record.max_deposit as int,
                total_cap: record.total_cap as int,
                user_deposits: Map::empty(),
                reentrancy: record.reentrancy,
                pending: None,
            }).with_deposits(deposits)
        }
    }

    /// The record of the vault: all of it but the deposits of the users and
    /// what is pending.
    pub open spec fn record(self) -> VaultRecord
        recommends
            self.valid(),
    {
        VaultRecord {
            address: self.address,
            roles: if self.admin is Some {
                Some((self.admin->Some_0, self.xlm_token->Some_0, self.sxlm_token->Some_0))
            } else {
                None
            },
            total_deposits: self.total_deposits as i128,
            yield_accrued: self.yield_accrued as i128,
            paused: self.paused,
            max_deposit: self.max_deposit as i128,
            total_cap: self.total_cap as i128,
            reentrancy: self.reentrancy,
        }
    }

    /// The vault with the guard free and nothing pending.
    pub open spec fn released(self) -> VaultView {
        VaultView { reentrancy: ReentrancyState::Unlocked, pending: None, ..self }
    }

    /// The vault with the guard held for `pending`.
    pub open spec fn locked_for(self, pending: Pending) -> VaultView {
        VaultView { reentrancy: ReentrancyState::Locked, pending: Some(pending), ..self }
    }
}

/// An outcome held against the least that the caller accepts: a result under
/// `minimum` becomes a `Slippage`, a refusal stays what it is.
pub open spec fn at_least(outcome: Result<int, Error>, minimum: int) -> Result<int, Error> {
    match outcome {
        Err(e) => Err(e),
        Ok(actual) => if actual < minimum {
            Err(Error::Slippage { expected: minimum as i128, actual: actual as i128 })
        } else {
            Ok(actual)
        },
    }
}

} // verus!

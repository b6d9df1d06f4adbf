//! The books of a yield strategy that keeps the vault's principal in a
//! liquidity pool: half of each deposit is swapped for the paired asset, both
//! halves go into the pool, and the strategy holds the pool's tokens.
//!
//! The swaps and the pool are the host's to call. The strategy decides who
//! may deposit and withdraw, how a deposit is split, and what the position is
//! worth; the host reports what the pool answered.

use crate::amount::{agrees, checked_mul_div, lemma_floor_at_least, lemma_floor_bounds, mul_div};
use crate::error::Error;
use vstd::prelude::*;

verus! {

/// The value of a position is its principal times this, over
/// [`VALUE_DENOMINATOR`]: a twentieth of a percent stands for the fees earned.
pub const VALUE_NUMERATOR: i128 = 10_005;

/// See [`VALUE_NUMERATOR`].
pub const VALUE_DENOMINATOR: i128 = 10_000;

/// The parties that a strategy is bound to.
#[derive(Clone, Copy, Debug, PartialEq, Eq, Structural)]
pub struct StrategyConfig {
    /// Who may harvest.
    pub admin: u64,
    /// The one depositor: the vault.
    pub vault: u64,
    /// The router of the exchange.
    pub router: u64,
    /// The factory of the exchange's pools.
    pub factory: u64,
    /// The principal asset.
    pub xlm_token: u64,
    /// The asset it is paired with in the pool.
    pub usdc_token: u64,
}

/// What a strategy holds, as mathematics.
pub struct StrategyView {
    /// The parties; `None` until the strategy is initialized.
    pub config: Option<StrategyConfig>,
    /// The pool tokens held.
    pub lp_balance: int,
    /// The principal ever put in.
    pub total_deposited: int,
}

impl StrategyView {
    /// A strategy that nobody has touched.
    pub open spec fn empty() -> StrategyView {
        StrategyView { config: None, lp_balance: 0, total_deposited: 0 }
    }

    /// The principal put in is never negative.
    pub open spec fn valid(self) -> bool {
        &&& 0 <= self.total_deposited <= i128::MAX
        &&& i128::MIN <= self.lp_balance <= i128::MAX
    }

    /// Whether `who` is the vault that the strategy serves.
    pub open spec fn serves(self, who: u64) -> bool {
        self.config matches Some(config) && config.vault == who
    }

    /// Whether `who` is the admin of the strategy.
    pub open spec fn administered_by(self, who: u64) -> bool {
        self.config matches Some(config) && config.admin == who
    }

    /// How a deposit of `amount` by `from` is split: the part to swap for the
    /// paired asset, and the part to put into the pool as it is. Only the
    /// vault may deposit, and only for itself.
    pub open spec fn deposit_plan(self, caller: u64, from: u64, amount: int) -> Result<
        (int, int),
        Error,
    > {
        if caller != from || !self.serves(from) {
            Err(Error::Unauthorized)
        } else if amount < 0 {
            Err(Error::InvalidAmount)
        } else {
            Ok((amount / 2, amount - amount / 2))
        }
    }

    /// The pool tokens booked for a deposit of `amount` by `from` that the
    /// pool answered with `liquidity` of its tokens, or why the booking is
    /// refused.
    pub open spec fn deposit_result(
        self,
        caller: u64,
        from: u64,
        amount: int,
        liquidity: int,
    ) -> Result<int, Error> {
        if caller != from || !self.serves(from) {
            Err(Error::Unauthorized)
        } else if amount < 0 {
            Err(Error::InvalidAmount)
        } else if self.lp_balance + liquidity > i128::MAX || self.lp_balance + liquidity
            < i128::MIN {
            Err(Error::Overflow)
        } else if self.total_deposited + amount > i128::MAX {
            Err(Error::Overflow)
        } else {
            Ok(liquidity)
        }
    }

    /// The books after a deposit of `amount` brought `liquidity` pool tokens.
    pub open spec fn deposited(self, amount: int, liquidity: int) -> StrategyView {
        StrategyView {
            lp_balance: self.lp_balance + liquidity,
            total_deposited: self.total_deposited + amount,
            ..self
        }
    }

    /// The books after `lp_amount` pool tokens were given up.
    pub open spec fn withdrawn(self, lp_amount: int) -> StrategyView {
        StrategyView { lp_balance: self.lp_balance - lp_amount, ..self }
    }

    /// The principal that goes back to `to` when the pool paid `xlm_received`
    /// and the swap of the paired asset paid `xlm_swapped`, or why the
    /// withdrawal of `lp_amount` pool tokens is refused.
    pub open spec fn withdraw_result(
        self,
        to: u64,
        lp_amount: int,
        xlm_received: int,
        xlm_swapped: int,
    ) -> Result<int, Error> {
        if !self.serves(to) {
            Err(Error::Unauthorized)
        } else if xlm_received + xlm_swapped > i128::MAX || xlm_received + xlm_swapped
            < i128::MIN {
            Err(Error::Overflow)
        } else if self.lp_balance - lp_amount > i128::MAX || self.lp_balance - lp_amount
            < i128::MIN {
            Err(Error::Overflow)
        } else {
            Ok(xlm_received + xlm_swapped)
        }
    }

    /// The value of the position in principal: nothing without pool tokens,
    /// else the principal put in with the fees on top.
    pub open spec fn value(self) -> Result<int, Error> {
        if self.lp_balance == 0 {
            Ok(0)
        } else {
            mul_div(self.total_deposited, VALUE_NUMERATOR as int, VALUE_DENOMINATOR as int)
        }
    }

    /// The yield that `caller` can harvest: what the position is worth over
    /// the principal put in, and never less than nothing.
    pub open spec fn harvest_result(self, caller: u64) -> Result<int, Error> {
        if !self.administered_by(caller) {
            Err(Error::Unauthorized)
        } else {
            match self.value() {
                Err(e) => Err(e),
                Ok(value) => if value > self.total_deposited {
                    Ok(value - self.total_deposited)
                } else {
                    Ok(0)
                },
            }
        }
    }
}

/// The books of a yield strategy.
pub struct YieldStrategy {
    config: Option<StrategyConfig>,
    lp_balance: i128,
    total_deposited: i128,
}

impl View for YieldStrategy {
    type V = StrategyView;

    closed spec fn view(&self) -> StrategyView {
        StrategyView {
            config: self.config,
            lp_balance: self.lp_balance as int,
            total_deposited: self.total_deposited as int,
        }
    }
}

impl YieldStrategy {
    /// The books are in order: see [`StrategyView::valid`].
    pub open spec fn wf(&self) -> bool {
        self@.valid()
    }

    /// A strategy that holds nothing and has not been initialized.
    pub fn new() -> (strategy: YieldStrategy)
        ensures
            strategy.wf(),
            strategy@ == StrategyView::empty(),
    {
        YieldStrategy { config: None, lp_balance: 0, total_deposited: 0 }
    }

    /// A strategy as it was stored: `None` where the principal put in would
    /// be negative.
    pub fn restore(config: Option<StrategyConfig>, lp_balance: i128, total_deposited: i128) -> (r:
        Option<YieldStrategy>)
        ensures
            r is Some <==> 0 <= total_deposited,
            r matches Some(strategy) ==> strategy.wf() && strategy@ == (StrategyView {
                config,
                lp_balance: lp_balance as int,
                total_deposited: total_deposited as int,
            }),
    {
        if total_deposited < 0 {
            None
        } else {
            Some(YieldStrategy { config, lp_balance, total_deposited })
        }
    }

    /// Binds the parties, once, and empties the books.
    pub fn initialize(
        &mut self,
        admin: u64,
        vault: u64,
        router: u64,
        factory: u64,
        xlm_token: u64,
        usdc_token: u64,
    ) -> (r: Result<(), Error>)
        requires
            old(self).wf(),
        ensures
            final(self).wf(),
            r is Ok <==> old(self)@.config is None,
            r is Err ==> r == Err::<(), Error>(Error::AlreadyInitialized) && final(self)@ == old(
                self,
            )@,
            r is Ok ==> final(self)@ == (StrategyView {
                config: Some(
                    StrategyConfig { admin, vault, router, factory, xlm_token, usdc_token },
                ),
                lp_balance: 0,
                total_deposited: 0,
            }),
    {
        if self.config.is_some() {
            return Err(Error::AlreadyInitialized);
        }
        self.config = Some(StrategyConfig { admin, vault, router, factory, xlm_token, usdc_token });
        self.lp_balance = 0;
        self.total_deposited = 0;
        Ok(())
    }

    /// The parties that the strategy is bound to, if it is initialized.
    pub fn config(&self) -> (config: Option<StrategyConfig>)
        ensures
            config == self@.config,
    {
        self.config
    }

    /// Whether `who` is the vault that the strategy serves: the one that may
    /// deposit and withdraw. The host asks before it calls the pool.
    pub fn serves(&self, who: u64) -> (b: bool)
        ensures
            b == self@.serves(who),
    {
        match self.config {
            Some(config) => config.vault == who,
            None => false,
        }
    }

    /// Splits a deposit of `amount` by `from`: the part that the host swaps
    /// for the paired asset, and the part that goes into the pool as it is.
    /// Only the vault may deposit, and only for itself.
    pub fn plan_deposit(&self, caller: u64, from: u64, amount: i128) -> (r: Result<
        (i128, i128),
        Error,
    >)
        ensures
            match r {
                Ok((to_swap, to_pool)) => {
                    &&& self@.deposit_plan(caller, from, amount as int) == Ok::<(int, int), Error>(
                        (to_swap as int, to_pool as int),
                    )
                    &&& to_swap + to_pool == amount
                    &&& 0 <= to_swap <= to_pool <= to_swap + 1
                },
                Err(e) => self@.deposit_plan(caller, from, amount as int) == Err::<
                    (int, int),
                    Error,
                >(e),
            },
    {
        if caller != from || !self.serves(from) {
            return Err(Error::Unauthorized);
        }
        if amount < 0 {
            return Err(Error::InvalidAmount);
        }
        let half = amount / 2;
        Ok((half, amount - half))
    }

    /// Books a deposit of `amount` by `from` that the pool answered with
    /// `liquidity` of its tokens, and returns `liquidity`. All or nothing.
    pub fn deposit(&mut self, caller: u64, from: u64, amount: i128, liquidity: i128) -> (r: Result<
        i128,
        Error,
    >)
        requires
            old(self).wf(),
        ensures
            final(self).wf(),
            agrees(
                r,
                old(self)@.deposit_result(caller, from, amount as int, liquidity as int),
            ),
            final(self)@ == (if r is Ok {
                old(self)@.deposited(amount as int, liquidity as int)
            } else {
                old(self)@
            }),
    {
        if caller != from || !self.serves(from) {
            return Err(Error::Unauthorized);
        }
        if amount < 0 {
            return Err(Error::InvalidAmount);
        }
        let lp_balance = match self.lp_balance.checked_add(liquidity) {
            Some(b) => b,
            None => { return Err(Error::Overflow); },
        };
        let total_deposited = match self.total_deposited.checked_add(amount) {
            Some(t) => t,
            None => { return Err(Error::Overflow); },
        };
        self.lp_balance = lp_balance;
        self.total_deposited = total_deposited;
        Ok(liquidity)
    }

    /// Books the withdrawal of `lp_amount` pool tokens for `to`, for which
    /// the pool paid `xlm_received` and the swap of the paired asset
    /// `xlm_swapped`, and returns the principal that goes back. Only the
    /// vault may withdraw. All or nothing.
    pub fn withdraw(
        &mut self,
        to: u64,
        lp_amount: i128,
        xlm_received: i128,
        xlm_swapped: i128,
    ) -> (r: Result<i128, Error>)
        requires
            old(self).wf(),
        ensures
            final(self).wf(),
            agrees(
                r,
                old(self)@.withdraw_result(
                    to,
                    lp_amount as int,
                    xlm_received as int,
                    xlm_swapped as int,
                ),
            ),
            final(self)@ == (if r is Ok {
                old(self)@.withdrawn(lp_amount as int)
            } else {
                old(self)@
            }),
    {
        if !self.serves(to) {
            return Err(Error::Unauthorized);
        }
        let total_xlm = match xlm_received.checked_add(xlm_swapped) {
            Some(t) => t,
            None => { return Err(Error::Overflow); },
        };
        let lp_balance = match self.lp_balance.checked_sub(lp_amount) {
            Some(b) => b,
            None => { return Err(Error::Overflow); },
        };
        self.lp_balance = lp_balance;
        Ok(total_xlm)
    }

    /// The value of the position in principal.
    pub fn get_value(&self) -> (r: Result<i128, Error>)
        requires
            self.wf(),
        ensures
            agrees(r, self@.value()),
            r matches Ok(value) ==> 0 <= value,
    {
        if self.lp_balance == 0 {
            return Ok(0);
        }
        proof {
            lemma_floor_at_least(
                self.total_deposited * VALUE_NUMERATOR,
                VALUE_DENOMINATOR as int,
                0,
            );
        }
        checked_mul_div(self.total_deposited, VALUE_NUMERATOR, VALUE_DENOMINATOR)
    }

    /// The yield that can be harvested. Only the admin may ask.
    pub fn harvest(&self, caller: u64) -> (r: Result<i128, Error>)
        requires
            self.wf(),
        ensures
            agrees(r, self@.harvest_result(caller)),
    {
        let is_admin = match self.config {
            Some(config) => config.admin == caller,
            None => false,
        };
        if !is_admin {
            return Err(Error::Unauthorized);
        }
        let current_value = match self.get_value() {
            Ok(v) => v,
            Err(e) => { return Err(e); },
        };
        if current_value > self.total_deposited {
            Ok(current_value - self.total_deposited)
        } else {
            Ok(0)
        }
    }

    /// The pool tokens held.
    pub fn get_lp_balance(&self) -> (b: i128)
        ensures
            b == self@.lp_balance,
    {
        self.lp_balance
    }

    /// The principal ever put in.
    pub fn get_total_deposited(&self) -> (t: i128)
        ensures
            t == self@.total_deposited,
    {
        self.total_deposited
    }
}

/// The harvest is never negative and at most a twentieth of a percent of the
/// principal put in; without pool tokens there is nothing to harvest.
pub proof fn lemma_harvest_is_the_fee(strategy: StrategyView, caller: u64)
    requires
        strategy.valid(),
        strategy.harvest_result(caller) is Ok,
    ensures
        ({
            let harvest = strategy.harvest_result(caller)->Ok_0;
            &&& 0 <= harvest
            &&& harvest * VALUE_DENOMINATOR <= strategy.total_deposited * (VALUE_NUMERATOR
                - VALUE_DENOMINATOR)
            &&& strategy.lp_balance == 0 ==> harvest == 0
        }),
{
    if strategy.lp_balance != 0 {
        let product = strategy.total_deposited * VALUE_NUMERATOR;
        lemma_floor_bounds(product, VALUE_DENOMINATOR as int);
    }
}

} // verus!

//! What holds of every vault: value is conserved, the exchange rate does not
//! fall while shares remain, and a round trip returns no more than was paid.

use crate::amount::{
    lemma_deposit_keeps_rate, lemma_floor_at_least, lemma_floor_at_most, lemma_floor_bounds,
    lemma_principal_at_most_assets, lemma_rate_grows_with_assets, lemma_rate_nonnegative,
    lemma_round_trip, lemma_withdrawal_keeps_rate, rate_of, PRECISION,
};
use crate::balances::lemma_total_nonnegative;
use crate::error::Error;
use crate::sxlm_token::laws::{
    lemma_balance_at_most_supply, lemma_burn_keeps_valid, lemma_mint_keeps_valid,
};
use crate::sxlm_token::model::LedgerView;
use crate::vault::model::VaultView;
use vstd::prelude::*;

verus! {

/// A deposit that is not refused adds exactly `amount` to the assets and
/// leaves both the vault and the ledger in order.
pub proof fn lemma_deposit_keeps_valid(
    vault: VaultView,
    ledger: LedgerView,
    caller: u64,
    user: u64,
    amount: int,
)
    requires
        vault.valid(),
        ledger.valid(),
        vault.deposit_result(ledger, caller, user, amount) is Ok,
    ensures
        ({
            let shares = vault.deposit_result(ledger, caller, user, amount)->Ok_0;
            &&& 0 < shares
            &&& vault.deposited(user, amount).valid()
            &&& vault.deposited(user, amount).total_assets() == vault.total_assets() + amount
            &&& ledger.minted(user, shares).valid()
            &&& ledger.minted(user, shares).total_supply == ledger.total_supply + shares
        }),
{
    let shares = vault.deposit_result(ledger, caller, user, amount)->Ok_0;
    lemma_total_nonnegative(ledger.balances);
    lemma_rate_nonnegative(vault.total_assets(), ledger.total_supply);
    let rate = rate_of(vault.total_assets(), ledger.total_supply);
    lemma_floor_at_least(amount * PRECISION, rate, 0);
    lemma_mint_keeps_valid(ledger, vault.address, user, shares);
}

/// Value is conserved on the way out: where no more principal leaves than
/// the vault has assets, neither counter is cut short, and together they fall
/// by exactly the principal.
pub proof fn lemma_withdrawal_takes_exactly(vault: VaultView, user: u64, principal: int)
    requires
        vault.valid(),
        0 <= principal <= vault.total_assets(),
        vault.split(principal) is Ok,
    ensures
        ({
            let (deposit_portion, yield_portion) = vault.split(principal)->Ok_0;
            &&& 0 <= deposit_portion <= vault.total_deposits
            &&& 0 <= yield_portion <= vault.yield_accrued
            &&& deposit_portion + yield_portion == principal
            &&& vault.after_withdrawal(user, principal).total_assets() == vault.total_assets()
                - principal
            &&& vault.after_withdrawal(user, principal).valid()
        }),
{
    let assets = vault.total_assets();
    let deposits = vault.total_deposits;
    if assets > 0 {
        let deposit_portion = principal * deposits / assets;
        lemma_floor_bounds(principal * deposits, assets);
        assert(0 <= principal * deposits) by (nonlinear_arith)
            requires
                0 <= principal,
                0 <= deposits,
        ;
        lemma_floor_at_least(principal * deposits, assets, 0);
        // The deposits' part is at most the deposits ...
        assert(principal * deposits < (deposits + 1) * assets) by (nonlinear_arith)
            requires
                0 <= principal <= assets,
                0 <= deposits,
                0 < assets,
        ;
        lemma_floor_at_most(principal * deposits, assets, deposits);
        // ... and at most the principal ...
        assert(principal * deposits < (principal + 1) * assets) by (nonlinear_arith)
            requires
                0 <= principal,
                0 <= deposits <= assets,
                0 < assets,
        ;
        lemma_floor_at_most(principal * deposits, assets, principal);
        // ... and the rest is at most the yield.
        assert((principal - vault.yield_accrued) * assets <= principal * deposits)
            by (nonlinear_arith)
            requires
                0 <= principal <= assets,
                assets == deposits + vault.yield_accrued,
                0 <= vault.yield_accrued,
        ;
        lemma_floor_at_least(principal * deposits, assets, principal - vault.yield_accrued);
    }
}

/// Under a valid ledger what a user's shares redeem never exceeds the assets
/// of the vault, so a withdrawal conserves value as
/// [`lemma_withdrawal_takes_exactly`] says.
pub proof fn lemma_withdrawal_within_assets(
    vault: VaultView,
    ledger: LedgerView,
    caller: u64,
    user: u64,
    shares: int,
    custody_balance: int,
)
    requires
        vault.valid(),
        ledger.valid(),
        vault.withdraw_result(ledger, caller, user, shares, custody_balance) is Ok,
    ensures
        ({
            let principal = vault.withdraw_result(
                ledger,
                caller,
                user,
                shares,
                custody_balance,
            )->Ok_0;
            &&& 0 < principal <= vault.total_assets()
            &&& principal <= custody_balance
            &&& vault.after_withdrawal(user, principal).valid()
            &&& vault.after_withdrawal(user, principal).total_assets() == vault.total_assets()
                - principal
            &&& ledger.burned(user, shares).valid()
            &&& ledger.burned(user, shares).total_supply == ledger.total_supply - shares
        }),
{
    let principal = vault.withdraw_result(ledger, caller, user, shares, custody_balance)->Ok_0;
    lemma_balance_at_most_supply(ledger, user);
    lemma_principal_at_most_assets(vault.total_assets(), ledger.total_supply, shares);
    lemma_withdrawal_takes_exactly(vault, user, principal);
    lemma_burn_keeps_valid(ledger, user, shares);
}

/// A vault whose custody holds at least its assets never refuses a
/// withdrawal for want of liquidity.
pub proof fn lemma_backed_vault_is_liquid(
    vault: VaultView,
    ledger: LedgerView,
    caller: u64,
    user: u64,
    shares: int,
    custody_balance: int,
)
    requires
        vault.valid(),
        ledger.valid(),
        vault.total_assets() <= custody_balance,
    ensures
        vault.withdraw_result(ledger, caller, user, shares, custody_balance) != Err::<int, Error>(
            Error::InsufficientLiquidity,
        ),
{
    lemma_balance_at_most_supply(ledger, user);
    if 0 < shares <= ledger.balance_of(user) {
        lemma_principal_at_most_assets(vault.total_assets(), ledger.total_supply, shares);
    }
}

/// Yield never lowers the exchange rate.
pub proof fn lemma_yield_never_lowers_rate(vault: VaultView, caller: u64, amount: int, supply: int)
    requires
        vault.valid(),
        0 <= supply,
        vault.yield_result(caller, amount) is Ok,
    ensures
        rate_of(vault.total_assets(), supply) <= rate_of(vault.total_assets() + amount, supply),
{
    lemma_rate_grows_with_assets(vault.total_assets(), vault.total_assets() + amount, supply);
}

/// A deposit never lowers the exchange rate.
pub proof fn lemma_deposit_never_lowers_rate(
    vault: VaultView,
    ledger: LedgerView,
    caller: u64,
    user: u64,
    amount: int,
)
    requires
        vault.valid(),
        ledger.valid(),
        vault.deposit_result(ledger, caller, user, amount) is Ok,
    ensures
        ({
            let shares = vault.deposit_result(ledger, caller, user, amount)->Ok_0;
            rate_of(vault.total_assets(), ledger.total_supply) <= rate_of(
                vault.deposited(user, amount).total_assets(),
                ledger.minted(user, shares).total_supply,
            )
        }),
{
    lemma_total_nonnegative(ledger.balances);
    lemma_rate_nonnegative(vault.total_assets(), ledger.total_supply);
    lemma_deposit_keeps_rate(vault.total_assets(), ledger.total_supply, amount);
}

/// A withdrawal that leaves shares outstanding never lowers the exchange
/// rate. (The last share to go resets the rate to `PRECISION`.)
pub proof fn lemma_withdrawal_never_lowers_rate(
    vault: VaultView,
    ledger: LedgerView,
    caller: u64,
    user: u64,
    shares: int,
    custody_balance: int,
)
    requires
        vault.valid(),
        ledger.valid(),
        vault.withdraw_result(ledger, caller, user, shares, custody_balance) is Ok,
        shares < ledger.total_supply,
    ensures
        ({
            let principal = vault.withdraw_result(
                ledger,
                caller,
                user,
                shares,
                custody_balance,
            )->Ok_0;
            rate_of(vault.total_assets(), ledger.total_supply) <= rate_of(
                vault.after_withdrawal(user, principal).total_assets(),
                ledger.burned(user, shares).total_supply,
            )
        }),
{
    lemma_withdrawal_within_assets(vault, ledger, caller, user, shares, custody_balance);
    lemma_withdrawal_keeps_rate(vault.total_assets(), ledger.total_supply, shares);
}

/// Round trip: whoever deposits `amount` and at once redeems all the shares
/// it bought gets back at most `amount`, short by less than one share's worth
/// of principal plus one unit. The vault must have shares outstanding or hold
/// no assets before the deposit: assets that belong to no share go to the
/// first depositor.
pub proof fn lemma_deposit_then_withdraw(
    vault: VaultView,
    ledger: LedgerView,
    caller: u64,
    user: u64,
    amount: int,
    custody_balance: int,
)
    requires
        vault.valid(),
        ledger.valid(),
        ledger.total_supply > 0 || vault.total_assets() == 0,
        vault.deposit_result(ledger, caller, user, amount) is Ok,
    ensures
        ({
            let shares = vault.deposit_result(ledger, caller, user, amount)->Ok_0;
            let rate = rate_of(vault.total_assets(), ledger.total_supply);
            match vault.deposited(user, amount).withdraw_result(
                ledger.minted(user, shares),
                caller,
                user,
                shares,
                custody_balance,
            ) {
                Ok(back) => back <= amount && (amount - back) * PRECISION < rate + PRECISION,
                Err(_) => true,
            }
        }),
{
    lemma_total_nonnegative(ledger.balances);
    lemma_rate_nonnegative(vault.total_assets(), ledger.total_supply);
    lemma_round_trip(vault.total_assets(), ledger.total_supply, amount);
}

} // verus!

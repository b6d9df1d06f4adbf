//! What holds of every ledger: the supply is the sum of the balances, and
//! stays so under every operation.

use crate::balances::{lemma_entry_at_most_total, lemma_total_insert, total_of};
use crate::sxlm_token::model::LedgerView;
use vstd::prelude::*;

verus! {

/// In a valid ledger no account holds more than the supply.
pub proof fn lemma_balance_at_most_supply(ledger: LedgerView, id: u64)
    requires
        ledger.valid(),
    ensures
        0 <= ledger.balance_of(id) <= ledger.total_supply,
{
    lemma_entry_at_most_total(ledger.balances, id);
}

/// Minting keeps the supply equal to the sum of the balances: a mint that is
/// not refused leaves a valid ledger.
pub proof fn lemma_mint_keeps_valid(ledger: LedgerView, caller: u64, to: u64, amount: int)
    requires
        ledger.valid(),
        ledger.mint_result(caller, to, amount) is Ok,
    ensures
        ledger.minted(to, amount).valid(),
        ledger.minted(to, amount).total_supply == total_of(ledger.minted(to, amount).balances),
{
    lemma_total_insert(ledger.balances, to, ledger.balance_of(to) + amount);
}

/// Burning keeps the supply equal to the sum of the balances: taking shares
/// that the account holds leaves a valid ledger.
pub proof fn lemma_burn_keeps_valid(ledger: LedgerView, from: u64, amount: int)
    requires
        ledger.valid(),
        ledger.take_result(from, amount) is Ok,
    ensures
        ledger.burned(from, amount).valid(),
        ledger.burned(from, amount).total_supply == total_of(ledger.burned(from, amount).balances),
{
    lemma_total_insert(ledger.balances, from, ledger.balance_of(from) - amount);
}

/// A transfer keeps the supply, and keeps it equal to the sum of the
/// balances, whether or not sender and receiver are the same account.
pub proof fn lemma_transfer_keeps_valid(ledger: LedgerView, from: u64, to: u64, amount: int)
    requires
        ledger.valid(),
        ledger.take_result(from, amount) is Ok,
    ensures
        ledger.transferred(from, to, amount).valid(),
        ledger.transferred(from, to, amount).total_supply == ledger.total_supply,
        ledger.transferred(from, to, amount).total_supply == total_of(
            ledger.transferred(from, to, amount).balances,
        ),
        from == to ==> ledger.transferred(from, to, amount).balance_of(from) == ledger.balance_of(
            from,
        ),
{
    let debited = ledger.debit(from, amount);
    lemma_total_insert(ledger.balances, from, ledger.balance_of(from) - amount);
    lemma_total_insert(debited.balances, to, debited.balance_of(to) + amount);
}

/// An approval touches no balance: it leaves a valid ledger valid.
pub proof fn lemma_approve_keeps_valid(ledger: LedgerView, owner: u64, spender: u64, amount: int)
    requires
        ledger.valid(),
        0 <= amount <= i128::MAX,
    ensures
        ledger.approved(owner, spender, amount).valid(),
        ledger.approved(owner, spender, amount).allowance_of(owner, spender) == amount,
{
}

/// Approving zero is idempotent: after it the allowance is zero, and
/// approving zero again changes nothing.
pub proof fn lemma_approve_zero_idempotent(ledger: LedgerView, owner: u64, spender: u64)
    ensures
        ledger.approved(owner, spender, 0).allowance_of(owner, spender) == 0,
        ledger.approved(owner, spender, 0).approved(owner, spender, 0) == ledger.approved(
            owner,
            spender,
            0,
        ),
{
    let once = ledger.approved(owner, spender, 0);
    assert(once.allowances.remove((owner, spender)) =~= once.allowances);
}

/// Spending under an allowance lowers it by exactly what was spent.
pub proof fn lemma_spend_lowers_allowance(ledger: LedgerView, spender: u64, from: u64, amount: int)
    requires
        ledger.valid(),
        ledger.spend_result(spender, spender, from, amount) is Ok,
    ensures
        ledger.spent(from, spender, amount).valid(),
        ledger.spent(from, spender, amount).allowance_of(from, spender) == ledger.allowance_of(
            from,
            spender,
        ) - amount,
{
}

} // verus!

use sxlm_vault::error::Error;
use sxlm_vault::sxlm_token::{SxlmToken, DECIMALS};

const ADMIN: u64 = 1;
const MINTER: u64 = 2;
const USER: u64 = 3;
const USER2: u64 = 4;
const SPENDER: u64 = 5;

fn setup_test() -> SxlmToken {
    let mut token = SxlmToken::new();
    token.initialize(ADMIN, MINTER).unwrap();
    token
}

#[test]
fn test_initialize() {
    let token = setup_test();

    assert_eq!(token.symbol(), "sXLM");
    assert_eq!(token.name(), "Staked XLM");
    assert_eq!(token.decimals(), 7);
    assert_eq!(token.minter(), MINTER);
    assert_eq!(token.admin(), ADMIN);
    assert_eq!(token.total_supply(), 0);
}

#[test]
#[should_panic(expected = "Already initialized")]
fn test_cannot_reinitialize() {
    let mut token = setup_test();
    let result = token.initialize(10, 11);
    assert_eq!(result, Err(Error::AlreadyInitialized));
    assert_eq!(token.admin(), ADMIN);
    assert_eq!(token.minter(), MINTER);
    panic!("{}", result.unwrap_err().message());
}

#[test]
fn test_mint() {
    let mut token = setup_test();

    token.mint(MINTER, USER, 1000_0000000).unwrap();

    assert_eq!(token.balance(USER), 1000_0000000);
    assert_eq!(token.total_supply(), 1000_0000000);
}

#[test]
fn test_mint_multiple_users() {
    let mut token = setup_test();

    token.mint(MINTER, USER, 1000_0000000).unwrap();
    token.mint(MINTER, USER2, 500_0000000).unwrap();

    assert_eq!(token.balance(USER), 1000_0000000);
    assert_eq!(token.balance(USER2), 500_0000000);
    assert_eq!(token.total_supply(), 1500_0000000);
}

#[test]
fn test_burn() {
    let mut token = setup_test();

    token.mint(MINTER, USER, 1000_0000000).unwrap();
    token.burn(MINTER, USER, 400_0000000).unwrap();

    assert_eq!(token.balance(USER), 600_0000000);
    assert_eq!(token.total_supply(), 600_0000000);
}

#[test]
#[should_panic(expected = "Insufficient balance")]
fn test_burn_insufficient_balance() {
    let mut token = setup_test();

    token.mint(MINTER, USER, 100_0000000).unwrap();
    let result = token.burn(MINTER, USER, 200_0000000);
    assert_eq!(result, Err(Error::InsufficientBalance));
    assert_eq!(token.balance(USER), 100_0000000);
    assert_eq!(token.total_supply(), 100_0000000);
    panic!("{}", result.unwrap_err().message());
}

#[test]
fn test_transfer() {
    let mut token = setup_test();

    token.mint(MINTER, USER, 1000_0000000).unwrap();
    token.transfer(USER, USER, USER2, 300_0000000).unwrap();

    assert_eq!(token.balance(USER), 700_0000000);
    assert_eq!(token.balance(USER2), 300_0000000);
    assert_eq!(token.total_supply(), 1000_0000000);
}

#[test]
#[should_panic(expected = "Insufficient balance")]
fn test_transfer_insufficient_balance() {
    let mut token = setup_test();

    token.mint(MINTER, USER, 100_0000000).unwrap();
    let result = token.transfer(USER, USER, USER2, 200_0000000);
    assert_eq!(result, Err(Error::InsufficientBalance));
    assert_eq!(token.balance(USER), 100_0000000);
    assert_eq!(token.balance(USER2), 0);
    panic!("{}", result.unwrap_err().message());
}

#[test]
fn test_approve_and_transfer_from() {
    let mut token = setup_test();

    token.mint(MINTER, USER, 1000_0000000).unwrap();
    token.approve(USER, USER, SPENDER, 500_0000000, 1000).unwrap();

    assert_eq!(token.allowance(USER, SPENDER), 500_0000000);

    token.transfer_from(SPENDER, SPENDER, USER, USER2, 300_0000000).unwrap();

    assert_eq!(token.balance(USER), 700_0000000);
    assert_eq!(token.balance(USER2), 300_0000000);
    assert_eq!(token.allowance(USER, SPENDER), 200_0000000);
}

#[test]
#[should_panic(expected = "Insufficient allowance")]
fn test_transfer_from_insufficient_allowance() {
    let mut token = setup_test();

    token.mint(MINTER, USER, 1000_0000000).unwrap();
    token.approve(USER, USER, SPENDER, 100_0000000, 1000).unwrap();

    let result = token.transfer_from(SPENDER, SPENDER, USER, USER2, 200_0000000);
    assert_eq!(result, Err(Error::InsufficientAllowance));
    assert_eq!(token.allowance(USER, SPENDER), 100_0000000);
    assert_eq!(token.balance(USER), 1000_0000000);
    assert_eq!(token.balance(USER2), 0);
    panic!("{}", result.unwrap_err().message());
}

#[test]
fn test_burn_self() {
    let mut token = setup_test();

    token.mint(MINTER, USER, 1000_0000000).unwrap();
    token.burn_self(USER, USER, 400_0000000).unwrap();

    assert_eq!(token.balance(USER), 600_0000000);
    assert_eq!(token.total_supply(), 600_0000000);
}

#[test]
fn test_set_minter() {
    let mut token = setup_test();
    let new_minter: u64 = 12;

    token.set_minter(ADMIN, new_minter).unwrap();

    assert_eq!(token.minter(), new_minter);
}

#[test]
#[should_panic(expected = "Amount must be positive")]
fn test_mint_zero_amount() {
    let mut token = setup_test();
    let result = token.mint(MINTER, USER, 0);
    assert_eq!(result, Err(Error::InvalidAmount));
    assert_eq!(token.total_supply(), 0);
    panic!("{}", result.unwrap_err().message());
}

#[test]
#[should_panic(expected = "Amount must be positive")]
fn test_transfer_zero_amount() {
    let mut token = setup_test();

    token.mint(MINTER, USER, 1000_0000000).unwrap();
    let result = token.transfer(USER, USER, USER2, 0);
    assert_eq!(result, Err(Error::InvalidAmount));
    panic!("{}", result.unwrap_err().message());
}

#[test]
fn test_approve_zero_removes_allowance() {
    let mut token = setup_test();

    token.mint(MINTER, USER, 1000_0000000).unwrap();
    token.approve(USER, USER, SPENDER, 500_0000000, 1000).unwrap();
    assert_eq!(token.allowance(USER, SPENDER), 500_0000000);

    token.approve(USER, USER, SPENDER, 0, 1000).unwrap();
    assert_eq!(token.allowance(USER, SPENDER), 0);
}

#[test]
fn test_burn_from() {
    let mut token = setup_test();

    token.mint(MINTER, USER, 1000_0000000).unwrap();
    token.approve(USER, USER, SPENDER, 500_0000000, 1000).unwrap();

    token.burn_from(SPENDER, SPENDER, USER, 300_0000000).unwrap();

    assert_eq!(token.balance(USER), 700_0000000);
    assert_eq!(token.total_supply(), 700_0000000);
    assert_eq!(token.allowance(USER, SPENDER), 200_0000000);
}

// What follows is not about one call but about the ledger's rules.

fn sum_of_balances(token: &SxlmToken, accounts: &[u64]) -> i128 {
    accounts.iter().map(|id| token.balance(*id)).sum()
}

#[test]
fn supply_is_the_sum_of_the_balances_after_every_step() {
    let accounts = [USER, USER2, SPENDER];
    let mut token = setup_test();
    assert_eq!(sum_of_balances(&token, &accounts), token.total_supply());

    token.mint(MINTER, USER, 1000).unwrap();
    assert_eq!(sum_of_balances(&token, &accounts), token.total_supply());
    token.mint(MINTER, USER2, 250).unwrap();
    assert_eq!(sum_of_balances(&token, &accounts), token.total_supply());
    token.transfer(USER, USER, SPENDER, 400).unwrap();
    assert_eq!(sum_of_balances(&token, &accounts), token.total_supply());
    token.burn(MINTER, USER2, 50).unwrap();
    assert_eq!(sum_of_balances(&token, &accounts), token.total_supply());
    token.burn_self(SPENDER, SPENDER, 400).unwrap();
    assert_eq!(sum_of_balances(&token, &accounts), token.total_supply());
    token.approve(USER, USER, SPENDER, 300, 0).unwrap();
    token.transfer_from(SPENDER, SPENDER, USER, USER2, 100).unwrap();
    assert_eq!(sum_of_balances(&token, &accounts), token.total_supply());
    token.burn_from(SPENDER, SPENDER, USER, 200).unwrap();
    assert_eq!(sum_of_balances(&token, &accounts), token.total_supply());

    assert_eq!(token.total_supply(), 600);
    assert_eq!(token.balance(USER), 300);
    assert_eq!(token.balance(USER2), 300);
    assert_eq!(token.balance(SPENDER), 0);
}

#[test]
fn a_refused_call_changes_nothing() {
    let mut token = setup_test();
    token.mint(MINTER, USER, 1000).unwrap();
    token.approve(USER, USER, SPENDER, 300, 0).unwrap();

    assert_eq!(token.mint(USER, USER, 5), Err(Error::Unauthorized));
    assert_eq!(token.burn(USER, USER, 5), Err(Error::Unauthorized));
    assert_eq!(token.burn(MINTER, USER, -1), Err(Error::InvalidAmount));
    assert_eq!(token.burn_self(USER, USER, 0), Err(Error::InvalidAmount));
    assert_eq!(token.burn_self(USER, USER, 1001), Err(Error::InsufficientBalance));
    assert_eq!(token.transfer(USER, USER, USER2, -3), Err(Error::InvalidAmount));
    assert_eq!(token.approve(USER, USER, SPENDER, -1, 0), Err(Error::InvalidAmount));
    assert_eq!(token.transfer_from(SPENDER, SPENDER, USER, USER2, 0), Err(Error::InvalidAmount));
    assert_eq!(
        token.transfer_from(SPENDER, SPENDER, USER, USER2, 301),
        Err(Error::InsufficientAllowance),
    );
    assert_eq!(token.burn_from(SPENDER, SPENDER, USER, 301), Err(Error::InsufficientAllowance));
    assert_eq!(token.burn_from(SPENDER, SPENDER, USER, -7), Err(Error::InvalidAmount));
    assert_eq!(token.set_minter(MINTER, USER), Err(Error::Unauthorized));

    assert_eq!(token.balance(USER), 1000);
    assert_eq!(token.balance(USER2), 0);
    assert_eq!(token.total_supply(), 1000);
    assert_eq!(token.allowance(USER, SPENDER), 300);
    assert_eq!(token.minter(), MINTER);
    assert_eq!(token.admin(), ADMIN);
}

#[test]
fn nobody_acts_for_another_account() {
    let mut token = setup_test();
    token.mint(MINTER, USER, 1000).unwrap();
    token.approve(USER, USER, SPENDER, 300, 0).unwrap();

    // Not even the minter or the admin moves what is not theirs.
    assert_eq!(token.transfer(USER2, USER, USER2, 10), Err(Error::Unauthorized));
    assert_eq!(token.transfer(MINTER, USER, USER2, 10), Err(Error::Unauthorized));
    assert_eq!(token.burn_self(ADMIN, USER, 10), Err(Error::Unauthorized));
    assert_eq!(token.approve(SPENDER, USER, SPENDER, 900, 0), Err(Error::Unauthorized));
    // The owner cannot spend the allowance that it gave.
    assert_eq!(token.transfer_from(USER, SPENDER, USER, USER2, 10), Err(Error::Unauthorized));
    assert_eq!(token.burn_from(USER2, SPENDER, USER, 10), Err(Error::Unauthorized));
    // The caller is looked at before the amount.
    assert_eq!(token.transfer(USER2, USER, USER2, 0), Err(Error::Unauthorized));
    assert_eq!(token.approve(SPENDER, USER, SPENDER, -1, 0), Err(Error::Unauthorized));
    assert_eq!(token.transfer_from(USER, SPENDER, USER, USER2, 0), Err(Error::Unauthorized));
    assert_eq!(token.mint(USER, USER, 0), Err(Error::Unauthorized));

    assert_eq!(token.balance(USER), 1000);
    assert_eq!(token.balance(USER2), 0);
    assert_eq!(token.total_supply(), 1000);
    assert_eq!(token.allowance(USER, SPENDER), 300);
}

#[test]
fn allowance_is_checked_before_balance() {
    let mut token = setup_test();
    token.mint(MINTER, USER, 100).unwrap();
    token.approve(USER, USER, SPENDER, 500, 0).unwrap();

    // Allowed 500, holds 100: the balance refuses.
    assert_eq!(
        token.transfer_from(SPENDER, SPENDER, USER, USER2, 200),
        Err(Error::InsufficientBalance),
    );
    assert_eq!(token.burn_from(SPENDER, SPENDER, USER, 200), Err(Error::InsufficientBalance));
    // Allowed 500, asks 600, holds 100: the allowance refuses first.
    assert_eq!(
        token.transfer_from(SPENDER, SPENDER, USER, USER2, 600),
        Err(Error::InsufficientAllowance),
    );
    assert_eq!(token.allowance(USER, SPENDER), 500);
    assert_eq!(token.balance(USER), 100);
}

#[test]
fn mint_refuses_what_the_supply_cannot_hold() {
    let mut token = setup_test();
    token.mint(MINTER, USER, i128::MAX - 10).unwrap();
    assert_eq!(token.mint(MINTER, USER2, 11), Err(Error::Overflow));
    assert_eq!(token.mint(MINTER, USER, 11), Err(Error::Overflow));
    assert_eq!(token.total_supply(), i128::MAX - 10);
    assert_eq!(token.balance(USER2), 0);
    token.mint(MINTER, USER2, 10).unwrap();
    assert_eq!(token.total_supply(), i128::MAX);
}

#[test]
fn transfer_to_oneself_changes_no_balance() {
    let mut token = setup_test();
    token.mint(MINTER, USER, 1000).unwrap();
    token.transfer(USER, USER, USER, 1000).unwrap();
    assert_eq!(token.balance(USER), 1000);
    assert_eq!(token.total_supply(), 1000);
    // It must still hold what it sends.
    assert_eq!(token.transfer(USER, USER, USER, 1001), Err(Error::InsufficientBalance));
}

#[test]
fn approve_zero_is_idempotent() {
    let mut token = setup_test();
    token.approve(USER, USER, SPENDER, 0, 0).unwrap();
    assert_eq!(token.allowance(USER, SPENDER), 0);
    token.approve(USER, USER, SPENDER, 70, 0).unwrap();
    token.approve(USER, USER, SPENDER, 0, 0).unwrap();
    assert_eq!(token.allowance(USER, SPENDER), 0);
    token.approve(USER, USER, SPENDER, 0, 0).unwrap();
    token.approve(USER, USER, SPENDER, 0, 0).unwrap();
    assert_eq!(token.allowance(USER, SPENDER), 0);
    // Other pairs are untouched, in either direction.
    token.approve(SPENDER, SPENDER, USER, 9, 0).unwrap();
    token.approve(USER, USER, SPENDER, 0, 0).unwrap();
    assert_eq!(token.allowance(SPENDER, USER), 9);
}

#[test]
fn allowances_of_different_pairs_do_not_mix() {
    let mut token = setup_test();
    token.approve(1, 1, 2, 10, 0).unwrap();
    token.approve(2, 2, 1, 20, 0).unwrap();
    token.approve(0, 0, u64::MAX, 30, 0).unwrap();
    token.approve(u64::MAX, u64::MAX, 0, 40, 0).unwrap();
    token.approve(1, 1, 0, 50, 0).unwrap();
    token.approve(0, 0, 1, 60, 0).unwrap();
    assert_eq!(token.allowance(1, 2), 10);
    assert_eq!(token.allowance(2, 1), 20);
    assert_eq!(token.allowance(0, u64::MAX), 30);
    assert_eq!(token.allowance(u64::MAX, 0), 40);
    assert_eq!(token.allowance(1, 0), 50);
    assert_eq!(token.allowance(0, 1), 60);
    assert_eq!(token.allowance(u64::MAX, u64::MAX), 0);
}

#[test]
fn an_uninitialized_ledger_has_no_minter() {
    let mut token = SxlmToken::new();
    assert!(!token.is_initialized());
    assert_eq!(token.mint(MINTER, USER, 5), Err(Error::Unauthorized));
    assert_eq!(token.set_minter(ADMIN, MINTER), Err(Error::Unauthorized));
    assert_eq!(token.total_supply(), 0);
    assert_eq!(token.decimals(), DECIMALS);
    token.initialize(ADMIN, MINTER).unwrap();
    assert!(token.is_initialized());
    token.mint(MINTER, USER, 5).unwrap();
    assert_eq!(token.balance(USER), 5);
}

#[test]
fn only_the_new_minter_mints_after_a_handover() {
    let mut token = setup_test();
    token.set_minter(ADMIN, USER2).unwrap();
    assert_eq!(token.mint(MINTER, USER, 5), Err(Error::Unauthorized));
    token.mint(USER2, USER, 5).unwrap();
    assert_eq!(token.check_mint(MINTER, USER, 5), Err(Error::Unauthorized));
    assert_eq!(token.check_mint(USER2, USER, 5), Ok(()));
    assert_eq!(token.check_burn(USER2, USER, 6), Err(Error::InsufficientBalance));
    assert_eq!(token.check_burn(USER2, USER, 5), Ok(()));
    // A check changes nothing.
    assert_eq!(token.balance(USER), 5);
    assert_eq!(token.total_supply(), 5);
}

#[test]
fn restore_rebuilds_what_was_stored() {
    let balances = vec![(USER, 700), (USER2, 300), (SPENDER, 0)];
    let allowances = vec![(USER, SPENDER, 200), (USER2, SPENDER, 0)];
    let mut token = SxlmToken::restore(Some((ADMIN, MINTER)), &balances, &allowances).unwrap();
    assert_eq!(token.admin(), ADMIN);
    assert_eq!(token.minter(), MINTER);
    assert_eq!(token.total_supply(), 1000);
    assert_eq!(token.balance(USER), 700);
    assert_eq!(token.balance(USER2), 300);
    assert_eq!(token.balance(SPENDER), 0);
    assert_eq!(token.allowance(USER, SPENDER), 200);
    assert_eq!(token.allowance(USER2, SPENDER), 0);
    token.transfer_from(SPENDER, SPENDER, USER, USER2, 200).unwrap();
    assert_eq!(token.balance(USER2), 500);
    assert_eq!(token.allowance(USER, SPENDER), 0);
}

#[test]
fn restore_adds_up_repeated_accounts_and_keeps_the_last_allowance() {
    let balances = vec![(USER, 1), (USER, 2), (USER2, 4)];
    let allowances = vec![(USER, SPENDER, 9), (USER, SPENDER, 3)];
    let token = SxlmToken::restore(None, &balances, &allowances).unwrap();
    assert!(!token.is_initialized());
    assert_eq!(token.balance(USER), 3);
    assert_eq!(token.total_supply(), 7);
    assert_eq!(token.allowance(USER, SPENDER), 3);
}

#[test]
fn restore_refuses_what_is_no_ledger() {
    assert!(SxlmToken::restore(None, &vec![(USER, -1)], &vec![]).is_none());
    assert!(SxlmToken::restore(None, &vec![(USER, i128::MAX), (USER2, 1)], &vec![]).is_none());
    assert!(SxlmToken::restore(None, &vec![(USER, 5)], &vec![(USER, USER2, -1)]).is_none());
    assert!(SxlmToken::restore(None, &vec![], &vec![]).is_some());
    assert!(SxlmToken::restore(None, &vec![(USER, i128::MAX)], &vec![]).is_some());
}

#[test]
fn every_failure_has_its_message() {
    assert_eq!(Error::Unauthorized.message(), "Unauthorized");
    assert_eq!(Error::AlreadyInitialized.message(), "Already initialized");
    assert_eq!(Error::InvalidAmount.message(), "Amount must be positive");
    assert_eq!(Error::BelowMinimum.message(), "Amount below minimum");
    assert_eq!(Error::ExceedsMaximum.message(), "Amount exceeds maximum single deposit");
    assert_eq!(Error::ExceedsCap.message(), "Deposit would exceed total cap");
    assert_eq!(Error::Overflow.message(), "Overflow");
    assert_eq!(Error::DivisionError.message(), "Division error");
    assert_eq!(Error::InsufficientBalance.message(), "Insufficient balance");
    assert_eq!(Error::InsufficientAllowance.message(), "Insufficient allowance");
    assert_eq!(Error::InsufficientShares.message(), "Insufficient sXLM balance");
    assert_eq!(Error::InsufficientLiquidity.message(), "Insufficient vault liquidity");
    assert_eq!(Error::Paused.message(), "Vault is paused");
    assert_eq!(Error::ReentrantCall.message(), "Reentrant call detected");
    assert_eq!(Error::DepositTooSmall.message(), "Deposit too small");
    assert_eq!(Error::WithdrawalTooSmall.message(), "Withdrawal too small");
    assert_eq!(Error::Slippage { expected: 2, actual: 1 }.message(), "Slippage");
}

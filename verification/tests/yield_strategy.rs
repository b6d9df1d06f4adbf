use sxlm_vault::error::Error;
use sxlm_vault::vault::yield_strategy::{LendingStrategy, SoroswapStrategy, YieldStrategy as Source};
use sxlm_vault::yield_strategy::{StrategyConfig, YieldStrategy, VALUE_DENOMINATOR, VALUE_NUMERATOR};

const ADMIN: u64 = 1;
const VAULT: u64 = 100;
const ROUTER: u64 = 20;
const FACTORY: u64 = 21;
const XLM: u64 = 50;
const USDC: u64 = 52;
const STRANGER: u64 = 9;

fn setup() -> YieldStrategy {
    let mut strategy = YieldStrategy::new();
    strategy.initialize(ADMIN, VAULT, ROUTER, FACTORY, XLM, USDC).unwrap();
    strategy
}

#[test]
fn a_strategy_is_initialized_once() {
    let mut strategy = YieldStrategy::new();
    assert_eq!(strategy.config(), None);
    assert_eq!(strategy.plan_deposit(VAULT, VAULT, 10), Err(Error::Unauthorized));
    assert_eq!(strategy.harvest(ADMIN), Err(Error::Unauthorized));
    strategy.initialize(ADMIN, VAULT, ROUTER, FACTORY, XLM, USDC).unwrap();
    assert_eq!(
        strategy.config(),
        Some(StrategyConfig {
            admin: ADMIN,
            vault: VAULT,
            router: ROUTER,
            factory: FACTORY,
            xlm_token: XLM,
            usdc_token: USDC,
        })
    );
    assert_eq!(
        strategy.initialize(STRANGER, STRANGER, ROUTER, FACTORY, XLM, USDC),
        Err(Error::AlreadyInitialized)
    );
    assert_eq!(strategy.config().unwrap().admin, ADMIN);
    assert_eq!(strategy.get_lp_balance(), 0);
    assert_eq!(strategy.get_total_deposited(), 0);
}

#[test]
fn a_deposit_is_split_in_halves_and_the_odd_unit_goes_to_the_pool() {
    let strategy = setup();
    assert_eq!(strategy.plan_deposit(VAULT, VAULT, 1_000), Ok((500, 500)));
    assert_eq!(strategy.plan_deposit(VAULT, VAULT, 1_001), Ok((500, 501)));
    assert_eq!(strategy.plan_deposit(VAULT, VAULT, 1), Ok((0, 1)));
    assert_eq!(strategy.plan_deposit(VAULT, VAULT, 0), Ok((0, 0)));
    assert_eq!(
        strategy.plan_deposit(VAULT, VAULT, i128::MAX),
        Ok((i128::MAX / 2, i128::MAX / 2 + 1)),
    );
    assert_eq!(strategy.plan_deposit(VAULT, VAULT, -1), Err(Error::InvalidAmount));
    assert_eq!(strategy.plan_deposit(STRANGER, STRANGER, 1_000), Err(Error::Unauthorized));
    assert_eq!(strategy.plan_deposit(ADMIN, ADMIN, 1_000), Err(Error::Unauthorized));
    // Nobody deposits in the vault's name.
    assert_eq!(strategy.plan_deposit(STRANGER, VAULT, 1_000), Err(Error::Unauthorized));
    assert_eq!(strategy.plan_deposit(VAULT, STRANGER, 1_000), Err(Error::Unauthorized));
}

#[test]
fn only_the_vault_deposits_and_withdraws() {
    let mut strategy = setup();
    assert_eq!(strategy.deposit(STRANGER, STRANGER, 1_000, 700), Err(Error::Unauthorized));
    assert_eq!(strategy.withdraw(STRANGER, 10, 5, 5), Err(Error::Unauthorized));
    assert_eq!(strategy.deposit(VAULT, VAULT, -1, 700), Err(Error::InvalidAmount));
    assert_eq!(strategy.get_lp_balance(), 0);
    assert_eq!(strategy.get_total_deposited(), 0);

    assert_eq!(strategy.deposit(VAULT, VAULT, 1_000, 700), Ok(700));
    assert_eq!(strategy.deposit(VAULT, VAULT, 500, 300), Ok(300));
    assert_eq!(strategy.get_lp_balance(), 1_000);
    assert_eq!(strategy.get_total_deposited(), 1_500);

    // The principal that goes back is what the pool and the swap paid.
    assert_eq!(strategy.withdraw(VAULT, 400, 310, 295), Ok(605));
    assert_eq!(strategy.get_lp_balance(), 600);
    assert_eq!(strategy.get_total_deposited(), 1_500);
}

#[test]
fn the_books_refuse_what_they_cannot_hold() {
    let mut strategy = YieldStrategy::restore(
        Some(StrategyConfig {
            admin: ADMIN,
            vault: VAULT,
            router: ROUTER,
            factory: FACTORY,
            xlm_token: XLM,
            usdc_token: USDC,
        }),
        i128::MAX - 1,
        i128::MAX - 1,
    )
    .unwrap();
    assert_eq!(strategy.deposit(VAULT, VAULT, 1, 2), Err(Error::Overflow));
    assert_eq!(strategy.deposit(VAULT, VAULT, 2, 1), Err(Error::Overflow));
    assert_eq!(strategy.get_lp_balance(), i128::MAX - 1);
    assert_eq!(strategy.get_total_deposited(), i128::MAX - 1);
    assert_eq!(strategy.withdraw(VAULT, 0, i128::MAX, 1), Err(Error::Overflow));
    assert_eq!(strategy.withdraw(VAULT, -2, 0, 0), Err(Error::Overflow));
    assert_eq!(strategy.get_value(), Err(Error::Overflow));
    assert_eq!(strategy.harvest(ADMIN), Err(Error::Overflow));
    assert_eq!(strategy.deposit(VAULT, VAULT, 1, 1), Ok(1));

    assert!(YieldStrategy::restore(None, 0, -1).is_none());
    assert!(YieldStrategy::restore(None, -1, 0).is_some());
}

#[test]
fn the_value_is_the_principal_with_the_fees_on_top() {
    let mut strategy = setup();
    // Without pool tokens the position is worth nothing.
    assert_eq!(strategy.get_value(), Ok(0));
    assert_eq!(strategy.harvest(ADMIN), Ok(0));

    strategy.deposit(VAULT, VAULT, 1_000_000, 700).unwrap();
    assert_eq!(VALUE_NUMERATOR, 10_005);
    assert_eq!(VALUE_DENOMINATOR, 10_000);
    assert_eq!(strategy.get_value(), Ok(1_000_500));
    assert_eq!(strategy.harvest(ADMIN), Ok(500));
    assert_eq!(strategy.harvest(VAULT), Err(Error::Unauthorized));
    assert_eq!(strategy.harvest(STRANGER), Err(Error::Unauthorized));

    // Rounded down: 1_999 * 10_005 / 10_000 = 1_999 and a bit.
    let mut small = setup();
    small.deposit(VAULT, VAULT, 1_999, 1).unwrap();
    assert_eq!(small.get_value(), Ok(1_999));
    assert_eq!(small.harvest(ADMIN), Ok(0));
    small.deposit(VAULT, VAULT, 1, 1).unwrap();
    assert_eq!(small.get_value(), Ok(2_001));
    assert_eq!(small.harvest(ADMIN), Ok(1));

    // All pool tokens gone: nothing to value, nothing to harvest.
    strategy.withdraw(VAULT, 700, 1, 1).unwrap();
    assert_eq!(strategy.get_value(), Ok(0));
    assert_eq!(strategy.harvest(ADMIN), Ok(0));
}

#[test]
fn the_placeholders_hand_back_what_they_are_given() {
    assert_eq!(SoroswapStrategy::deposit(1_234), 1_234);
    assert_eq!(SoroswapStrategy::withdraw(-5), -5);
    assert_eq!(SoroswapStrategy::get_balance(), 0);
    assert_eq!(SoroswapStrategy::harvest(), 0);
    assert_eq!(LendingStrategy::deposit(1_234), 1_234);
    assert_eq!(LendingStrategy::withdraw(77), 77);
    assert_eq!(LendingStrategy::get_balance(), 0);
    assert_eq!(LendingStrategy::harvest(), 0);
    let soroswap = SoroswapStrategy { pool_address: 30, router_address: ROUTER };
    let lending = LendingStrategy { lending_pool: 31 };
    assert_eq!(soroswap.pool_address, 30);
    assert_eq!(soroswap.router_address, ROUTER);
    assert_eq!(lending.lending_pool, 31);
}

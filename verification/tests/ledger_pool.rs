use finance::account::{AccountId, TokenAccount};
use finance::assetpool::{ratio, Pool};
use finance::errors::{AssetPoolError, FinanceError, PSP22Error};
use finance::finance::Finance;

fn acct(b: u8) -> AccountId {
    AccountId::from_bytes([b; 32])
}

struct Setup {
    f: Finance,
    admin: AccountId,
    oracle: AccountId,
    user: AccountId,
    btc: AccountId,
    btc_contract: AccountId,
}

fn setup() -> Setup {
    let (admin, oracle, user, btc, btc_contract) = (acct(1), acct(2), acct(3), acct(4), acct(5));
    let f = Finance::new(admin, 1, oracle);
    Setup { f, admin, oracle, user, btc, btc_contract }
}

const DEPOSIT: u8 = 0;
const WITHDRAW: u8 = 1;
const BORROW: u8 = 4;
const REDEEM: u8 = 5;

#[test]
fn tokens_must_be_supported_and_enabled() {
    let mut s = setup();
    let r = s.f.update(s.btc_contract, 1, DEPOSIT, s.user, s.btc, 100, vec![]);
    assert_eq!(r, Err(FinanceError::TokenNotSupported));
    assert_eq!(s.f.disable(s.user, s.btc), Err(FinanceError::CallerIsNotAdmin));
    s.f.disable(s.admin, s.btc).unwrap();
    let r = s.f.update(s.btc_contract, 1, DEPOSIT, s.user, s.btc, 100, vec![]);
    assert_eq!(r, Err(FinanceError::TokenDisabled));
    assert_eq!(s.f.enable(s.user, s.btc, s.btc_contract), Err(FinanceError::CallerIsNotAdmin));
    s.f.enable(s.admin, s.btc, s.btc_contract).unwrap();
    let r = s.f.update(s.user, 1, DEPOSIT, s.user, s.btc, 100, vec![]);
    assert_eq!(r, Err(FinanceError::CallerIsNotToken));
    let r = s.f.update(s.btc_contract, 1, DEPOSIT, s.user, s.btc, 100, vec![]);
    assert_eq!(r, Err(FinanceError::PriceNotFound));
}

#[test]
fn only_the_oracle_sets_prices_of_supported_tokens() {
    let mut s = setup();
    assert_eq!(s.f.set_price(s.admin, s.btc, 2), Err(FinanceError::CallerIsNotOracle));
    assert_eq!(s.f.set_price(s.oracle, s.btc, 2), Err(FinanceError::TokenNotSupported));
    s.f.enable(s.admin, s.btc, s.btc_contract).unwrap();
    s.f.set_price(s.oracle, s.btc, 2).unwrap();
    assert_eq!(s.f.oracle_prices.get(&s.btc), Some(2));
}

fn priced() -> Setup {
    let mut s = setup();
    s.f.enable(s.admin, s.btc, s.btc_contract).unwrap();
    s.f.set_price(s.oracle, s.btc, 2).unwrap();
    let r = s.f.update(s.btc_contract, 1, DEPOSIT, s.user, s.btc, 100, vec![s.btc]);
    assert_eq!(r, Ok(()));
    s
}

#[test]
fn deposit_after_repricing_values_the_balance() {
    let s = priced();
    let k = TokenAccount { token: s.btc, user: s.user };
    assert_eq!(s.f.user_balances.get(&k), Some(100));
    assert_eq!(s.f.balances.get(&s.btc), Some(100));
    assert_eq!(s.f.user_total_balance.get(&s.user), Some(100));
    assert_eq!(s.f.user_total_balance_value.get(&s.user), Some(200));
    assert_eq!(s.f.prices.get(&s.btc), Some(2));
    assert_eq!(s.f.user_updated_at.get(&s.user), Some(1));
    assert_eq!(s.f.cumulative_borrow_rate.get(&s.btc), Some(u64::MAX as u128));
}

#[test]
fn overflows_and_shortfalls_are_refused() {
    let mut s = priced();
    let r = s.f.update(s.btc_contract, 1, WITHDRAW, s.user, s.btc, u128::MAX, vec![]);
    assert_eq!(r, Err(FinanceError::WithdrawTooMuchForUserTotal));
    let r = s.f.update(s.btc_contract, 1, DEPOSIT, s.user, s.btc, u128::MAX, vec![]);
    assert_eq!(r, Err(FinanceError::DepositUserOverflow));
    let r = s.f.update(s.btc_contract, 1, 9, s.user, s.btc, 1, vec![]);
    assert_eq!(r, Err(FinanceError::InvalidAction));
}

#[test]
fn borrowing_is_limited_by_the_balance_value() {
    let mut s = priced();
    let r = s.f.update(s.btc_contract, 1, BORROW, s.user, s.btc, 150, vec![]);
    assert_eq!(r, Err(FinanceError::BorrowHealthCheckFailed));
    s.f.update(s.btc_contract, 1, BORROW, s.user, s.btc, 100, vec![]).unwrap();
    assert_eq!(s.f.user_total_borrowed_value.get(&s.user), Some(200));
    let r = s.f.update(s.btc_contract, 1, WITHDRAW, s.user, s.btc, 1, vec![]);
    assert_eq!(r, Err(FinanceError::WithdrawHealthCheckFailed));
    s.f.update(s.btc_contract, 1, REDEEM, s.user, s.btc, 100, vec![]).unwrap();
    assert_eq!(s.f.user_total_borrowed_value.get(&s.user), Some(0));
    s.f.update(s.btc_contract, 1, WITHDRAW, s.user, s.btc, 100, vec![]).unwrap();
    assert_eq!(s.f.user_total_balance.get(&s.user), Some(0));
}

#[test]
fn a_failed_action_keeps_the_repricing() {
    let mut s = priced();
    let eth = acct(6);
    s.f.enable(s.admin, eth, s.btc_contract).unwrap();
    s.f.set_price(s.oracle, eth, 3).unwrap();
    let r = s.f.update(s.btc_contract, 2, DEPOSIT, s.user, eth, 10, vec![eth]);
    assert_eq!(r, Err(FinanceError::PriceUpdateForBalanceNotComplete));
    assert_eq!(s.f.updated_at, 2);
    assert_eq!(s.f.user_updated_at.get(&s.user), Some(2));
    assert_eq!(s.f.prices.get(&eth), Some(3));
    assert_eq!(s.f.user_unpriced_balance.get(&s.user), Some(100));
    assert_eq!(s.f.user_total_balance.get(&s.user), Some(100));
    s.f.update(s.btc_contract, 2, DEPOSIT, s.user, eth, 10, vec![s.btc]).unwrap();
    assert_eq!(s.f.user_total_balance.get(&s.user), Some(110));
    assert_eq!(s.f.user_total_balance_value.get(&s.user), Some(230));
    assert_eq!(s.f.user_unpriced_balance.get(&s.user), Some(0));
    let r = s.f.update(s.btc_contract, 3, 9, s.user, s.btc, 1, vec![s.btc]);
    assert_eq!(r, Err(FinanceError::InvalidAction));
    assert_eq!(s.f.updated_at, 3);
    assert_eq!(s.f.user_updated_at.get(&s.user), Some(3));
    assert_eq!(s.f.user_total_balance.get(&s.user), Some(110));
}

#[test]
fn ratio_is_exact_and_checked() {
    assert_eq!(ratio(10, 4, 6), Ok(15));
    assert_eq!(ratio(u128::MAX, u128::MAX, 1), Ok(1));
    assert_eq!(ratio(u128::MAX, 1, 2), Err(AssetPoolError::RatioCalculationError));
    assert_eq!(ratio(5, 5, 0), Ok(0));
    assert_eq!(ratio(u128::MAX, u128::MAX, u128::MAX), Ok(u128::MAX));
}

#[test]
fn pool_shares_follow_the_pool_balance() {
    let mut p = Pool::new(acct(1), acct(2));
    assert_eq!(p.deposit(10, 0, 5), Ok(15));
    assert_eq!(p.deposit(10, 20, 40), Ok(20));
    assert_eq!(p.deposit(10, 20, 0), Ok(0));
    assert_eq!(p.deposit(u128::MAX, 1, 2), Err(AssetPoolError::RatioCalculationError));
    assert_eq!(p.withdraw(5, 20, 40), Ok(160));
    assert_eq!(p.withdraw(5, 0, 40), Ok(0));
    assert_eq!(p.withdraw(1, u128::MAX, 2), Err(AssetPoolError::RatioCalculationError));
    assert_eq!(p.total_deposited(7), 7);
    assert_eq!(p.borrow_to(acct(9), 3, Ok(())), Err(AssetPoolError::Unauthorized));
    assert_eq!(
        p.borrow_to(acct(1), 3, Err(PSP22Error::InsufficientBalance)),
        Err(AssetPoolError::PSP22Error(PSP22Error::InsufficientBalance))
    );
    assert_eq!(p.data.total_borrowed, 3);
    p.borrow_to(acct(1), 3, Ok(())).unwrap();
    assert_eq!(p.total_deposited(7), 13);
    assert_eq!(p.repay_from(acct(9), 3, Ok(())), Err(AssetPoolError::Unauthorized));
    assert_eq!(p.data.total_borrowed, 6);
    p.repay_from(acct(1), 2, Ok(())).unwrap();
    assert_eq!(p.data.total_borrowed, 4);
    assert_eq!(
        p.repay_from(acct(1), 1, Err(PSP22Error::InsufficientAllowance)),
        Err(AssetPoolError::PSP22Error(PSP22Error::InsufficientAllowance))
    );
    assert_eq!(p.data.total_borrowed, 3);
}

#[test]
fn deposit_then_withdraw_restores_the_balances() {
    let mut s = priced();
    let k = TokenAccount { token: s.btc, user: s.user };
    s.f.update(s.btc_contract, 1, DEPOSIT, s.user, s.btc, 25, vec![]).unwrap();
    assert_eq!(s.f.user_balances.get(&k), Some(125));
    assert_eq!(s.f.user_total_balance_value.get(&s.user), Some(250));
    s.f.update(s.btc_contract, 1, WITHDRAW, s.user, s.btc, 25, vec![]).unwrap();
    assert_eq!(s.f.user_balances.get(&k), Some(100));
    assert_eq!(s.f.balances.get(&s.btc), Some(100));
    assert_eq!(s.f.user_total_balance.get(&s.user), Some(100));
    assert_eq!(s.f.user_total_balance_value.get(&s.user), Some(200));
}

#[test]
fn borrow_then_redeem_restores_the_borrows() {
    let mut s = priced();
    let k = TokenAccount { token: s.btc, user: s.user };
    s.f.update(s.btc_contract, 1, BORROW, s.user, s.btc, 40, vec![]).unwrap();
    assert_eq!(s.f.user_borrowed.get(&k), Some(40));
    s.f.update(s.btc_contract, 1, REDEEM, s.user, s.btc, 40, vec![]).unwrap();
    assert_eq!(s.f.user_borrowed.get(&k), Some(0));
    assert_eq!(s.f.borrowed.get(&s.btc), Some(0));
    assert_eq!(s.f.user_total_borrowed.get(&s.user), Some(0));
    assert_eq!(s.f.user_total_borrowed_value.get(&s.user), Some(0));
}

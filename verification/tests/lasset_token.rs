use finance::account::AccountId;
use finance::errors::{LAssetError, PSP22Error};
use finance::lasset::{fetch_psp22_metadata, LAssetContract};
use finance::structs::{CallContext, RepayOrUpdateResult, UpdateResult};

fn acct(b: u8) -> AccountId {
    AccountId::from_bytes([b; 32])
}

fn pool() -> LAssetContract {
    LAssetContract::new(acct(1), acct(2), 1, acct(4), 0, Some("TestToken".to_string()), Some("TT".to_string()), Some(16))
}

fn ctx(caller: AccountId, now: u64, value: u128) -> CallContext {
    CallContext { caller, this: acct(1), now, transferred_value: value }
}

#[test]
fn metadata_is_prefixed() {
    let p = pool();
    assert_eq!(p.token_name(), Some("L-TestToken".to_string()));
    assert_eq!(p.token_symbol(), Some("L-TT".to_string()));
    assert_eq!(p.token_decimals(), 16);
    let (n, s, d) = fetch_psp22_metadata(None, Some("X".to_string()), None);
    assert_eq!(n, None);
    assert_eq!(s, Some("L-X".to_string()));
    assert_eq!(d, 6);
}

#[test]
fn from_bytes_reads_big_endian_halves() {
    let mut bytes = [0u8; 32];
    bytes[15] = 1;
    bytes[31] = 2;
    bytes[0] = 0x80;
    let a = AccountId::from_bytes(bytes);
    assert_eq!(a.hi, (1u128 << 127) | 1);
    assert_eq!(a.lo, 2);
}

#[test]
fn first_mint_gives_whole_payment_then_proportional() {
    let mut p = pool();
    let alice = acct(8);
    let bob = acct(9);
    let t = p.mint(ctx(alice, 0, 0), 10, Ok(())).unwrap();
    assert_eq!(t.value, 10);
    assert_eq!(p.total_supply(), 10);
    assert_eq!(p.last_total_liquidity, 10);
    let t = p.mint(ctx(bob, 0, 0), 5, Ok(())).unwrap();
    assert_eq!(t.value, 5);
    assert_eq!(p.balance_of(bob), 5);
    assert_eq!(p.total_supply(), 15);
}

#[test]
fn mint_fee_is_charged_on_top() {
    let mut p = pool();
    p.params.mint_fee = 1u128 << 127;
    assert_eq!(p.mint_transfer_amount(10), Some(16));
    assert_eq!(p.mint_transfer_amount(0), Some(0));
    p.params.mint_fee = u128::MAX;
    assert_eq!(p.mint_transfer_amount(u128::MAX), None);
}

#[test]
fn mint_then_burn_pays_back_no_more_than_paid() {
    let mut p = pool();
    let alice = acct(8);
    let bob = acct(9);
    p.mint(ctx(alice, 0, 0), 7, Ok(())).unwrap();
    p.last_total_liquidity = 10;
    p.total_borrowable = 10;
    let t = p.mint(ctx(bob, 0, 0), 3, Ok(())).unwrap();
    assert_eq!(t.value, 2);
    let payout = p.burn_payout(0, t.value);
    assert!(payout <= 3);
    assert_eq!(payout, 2 * 13 / 9);
}

#[test]
fn burn_refuses_more_than_held() {
    let mut p = pool();
    let alice = acct(8);
    p.mint(ctx(alice, 0, 0), 4, Ok(())).unwrap();
    let (res, event) = p.burn(ctx(alice, 0, 0), 5, Ok(()));
    assert!(matches!(res, Err(LAssetError::BurnOverflow)));
    assert!(event.is_none());
    assert_eq!(p.balance_of(alice), 4);
    let (res, event) = p.burn(ctx(alice, 0, 0), 1, Ok(()));
    res.unwrap();
    assert_eq!(event.unwrap().value, 1);
    assert_eq!(p.balance_of(alice), 3);
    assert_eq!(p.total_supply(), 3);
    assert_eq!(p.last_total_liquidity, 3);
}

#[test]
fn burn_keeps_its_effect_when_the_payout_fails() {
    let mut p = pool();
    let alice = acct(8);
    p.mint(ctx(alice, 0, 0), 4, Ok(())).unwrap();
    let (res, event) = p.burn(ctx(alice, 0, 0), 2, Err(PSP22Error::InsufficientBalance));
    assert!(matches!(res, Err(LAssetError::BurnTransferFailed(PSP22Error::InsufficientBalance))));
    assert_eq!(event.unwrap().value, 2);
    assert_eq!(p.balance_of(alice), 2);
    assert_eq!(p.total_supply(), 2);
    assert_eq!(p.last_total_liquidity, 2);
}

#[test]
fn withdraw_cash_clears_the_cash_even_when_the_transfer_fails() {
    let mut p = pool();
    let alice = acct(8);
    p.deposit_cash(ctx(alice, 0, 0), alice, 7, Ok(())).unwrap();
    assert_eq!(p.cash_of(alice), 7);
    let res = p.withdraw_cash(ctx(alice, 0, 0), Err(PSP22Error::InsufficientBalance));
    assert!(matches!(res, Err(LAssetError::WithdrawCashTransferFailed(PSP22Error::InsufficientBalance))));
    assert_eq!(p.cash_of(alice), 0);
    p.deposit_cash(ctx(alice, 0, 0), alice, u128::MAX, Ok(())).unwrap();
}

#[test]
fn take_cash_books_the_fee_even_when_the_transfer_fails() {
    let mut p = pool();
    let admin = acct(4);
    p.mint(ctx(acct(8), 0, 0), 10, Ok(())).unwrap();
    p.params.take_cash_fee = 1u128 << 127;
    let res = p.take_cash(ctx(admin, 0, 0), 4, acct(9), Err(PSP22Error::InsufficientBalance));
    assert!(matches!(res, Err(finance::errors::TakeCashError::Transfer(_))));
    assert_eq!(p.last_total_liquidity, 13);
    assert_eq!(p.total_borrowable, 13);
    let (token, fee) = p.take_cash(ctx(admin, 0, 0), 4, acct(9), Ok(())).unwrap();
    assert_eq!((token, fee), (acct(1), 3));
}

#[test]
fn transfer_moves_shares_and_keeps_supply() {
    let mut p = pool();
    let alice = acct(8);
    let bob = acct(9);
    p.mint(ctx(alice, 0, 0), 10, Ok(())).unwrap();
    let ev = p.transfer(alice, bob, 4, vec![]).unwrap().unwrap();
    assert_eq!(ev.value, 4);
    assert_eq!(ev.from, Some(alice));
    assert_eq!(ev.to, Some(bob));
    assert_eq!(p.balance_of(alice), 6);
    assert_eq!(p.balance_of(bob), 4);
    assert_eq!(p.total_supply(), 10);
    let res = p.transfer(alice, bob, 7, vec![]);
    assert!(matches!(res, Err(PSP22Error::InsufficientBalance)));
    assert!(p.transfer(alice, alice, 6, vec![]).unwrap().is_none());
    assert_eq!(p.balance_of(alice), 6);
    p.transfer(bob, alice, 4, vec![]).unwrap();
    assert_eq!(p.balance_of(alice), 10);
    assert_eq!(p.balance_of(bob), 0);
}

#[test]
fn transfer_from_spends_allowance_given_to_the_receiver() {
    let mut p = pool();
    let alice = acct(8);
    let bob = acct(9);
    p.mint(ctx(alice, 0, 0), 10, Ok(())).unwrap();
    let res = p.transfer_from(alice, bob, 1, vec![]);
    assert!(matches!(res, Err(PSP22Error::InsufficientAllowance)));
    let ev = p.approve(alice, bob, 5).unwrap();
    assert_eq!(ev.amount, 5);
    assert_eq!(p.allowance(alice, bob), 5);
    let (approval, transfer) = p.transfer_from(alice, bob, 3, vec![]).unwrap().unwrap();
    assert_eq!(approval.amount, 2);
    assert_eq!(transfer.value, 3);
    assert_eq!(p.allowance(alice, bob), 2);
    assert_eq!(p.balance_of(bob), 3);
    p.approve(alice, bob, 100).unwrap();
    let res = p.transfer_from(alice, bob, 50, vec![]);
    assert!(matches!(res, Err(PSP22Error::InsufficientBalance)));
}

#[test]
fn allowance_changes_saturate() {
    let mut p = pool();
    let alice = acct(8);
    let bob = acct(9);
    p.increase_allowance(alice, bob, 7).unwrap();
    p.decrease_allowance(alice, bob, 7).unwrap();
    assert_eq!(p.allowance(alice, bob), 0);
    p.increase_allowance(alice, bob, u128::MAX).unwrap();
    let ev = p.increase_allowance(alice, bob, 1).unwrap();
    assert_eq!(ev.amount, u128::MAX);
    let ev = p.decrease_allowance(bob, alice, 3).unwrap();
    assert_eq!(ev.amount, 0);
}

#[test]
fn accrue_twice_at_once_changes_nothing_more() {
    let mut p = pool();
    let alice = acct(8);
    p.params.standard_min_rate = 1u128 << 126;
    p.mint(ctx(alice, 0, 0), 100, Ok(())).unwrap();
    p.total_borrowable = 60;
    p.accrue(10).unwrap();
    let once = (p.last_total_liquidity, p.last_updated_at);
    assert_eq!(once, (111, 10));
    p.accrue(10).unwrap();
    assert_eq!((p.last_total_liquidity, p.last_updated_at), once);
    p.accrue(5).unwrap();
    assert_eq!((p.last_total_liquidity, p.last_updated_at), once);
}

#[test]
fn borrow_needs_collateral_elsewhere() {
    let mut p = pool();
    let alice = acct(8);
    let bob = acct(9);
    p.price = 1;
    p.mint(ctx(alice, 0, 0), 10, Ok(())).unwrap();
    let none = vec![UpdateResult::new(acct(1))];
    let res = p.borrow(ctx(bob, 0, 1), 1, &none, Ok(()));
    assert!(matches!(res, Err(LAssetError::CollateralValueTooLowAfterBorrow)));
    let some = vec![UpdateResult::from_collateral(acct(1), 5)];
    p.borrow(ctx(bob, 0, 1), 1, &some, Ok(())).unwrap();
    assert_eq!(p.total_borrowable, 9);
    assert_eq!(p.total_bonds, 1);
    let r = p.update(0, bob);
    assert_eq!(r.initial_debt_value, 1);
    let res = p.repay(ctx(bob, 0, 0), bob, 1, Ok(())).unwrap();
    assert_eq!(res.unwrap().to, bob);
    assert_eq!(p.total_bonds, 0);
    assert_eq!(p.total_borrowable, 10);
}

#[test]
fn set_price_by_admin_returns_next() {
    let mut p = pool();
    let next = p.set_price(acct(4), 3, 2).unwrap();
    assert_eq!(next, acct(2));
    assert_eq!((p.price, p.price_scaler), (3, 2));
}

#[test]
fn burning_keeps_the_value_of_remaining_shares() {
    let mut p = pool();
    let alice = acct(8);
    p.mint(ctx(alice, 0, 0), 9, Ok(())).unwrap();
    p.last_total_liquidity = 10;
    p.total_borrowable = 10;
    let (l0, s0) = (p.last_total_liquidity, p.total_supply());
    p.burn(ctx(alice, 0, 0), 4, Ok(())).0.unwrap();
    let (l1, s1) = (p.last_total_liquidity, p.total_supply());
    assert_eq!((l1, s1), (6, 5));
    assert!(l1 * s0 >= l0 * s1);
}

#[test]
fn withdraw_keeps_its_effect_when_the_transfer_fails() {
    let mut p = pool();
    let alice = acct(8);
    p.deposit(ctx(alice, 0, 1), 5, Ok(())).unwrap();
    assert_eq!(p.total_collateral, 5);
    let none = vec![UpdateResult::new(acct(1))];
    let (res, refund) = p.withdraw(ctx(alice, 0, 0), 5, &none, Err(PSP22Error::InsufficientBalance));
    assert!(matches!(res, Err(LAssetError::WithdrawTransferFailed(_))));
    assert_eq!(refund.unwrap().to, alice);
    assert_eq!(p.total_collateral, 0);
    let (res, refund) = p.withdraw(ctx(alice, 0, 0), 0, &none, Ok(()));
    assert!(matches!(res, Err(LAssetError::WithdrawWithoutDeposit)));
    assert!(refund.is_none());
}

#[test]
fn ring_walk_stops_back_home() {
    let p = pool();
    let this = acct(1);
    assert_eq!(p.ring_next(this, None), Some(acct(2)));
    assert_eq!(p.ring_next(this, Some(acct(3))), Some(acct(3)));
    assert_eq!(p.ring_next(this, Some(this)), None);
}

fn report(next: AccountId, repaid: u128) -> RepayOrUpdateResult {
    RepayOrUpdateResult {
        next,
        repaid,
        initial_collateral_value: 0,
        initial_debt_value: 0,
        maintenance_collateral_value: 0,
        maintenance_debt_value: 0,
    }
}

#[test]
fn liquidation_counts_the_last_repayment_twice() {
    let mut p = pool();
    let bob = acct(9);
    p.price = 1;
    p.params.liquidation_reward = 0;
    p.deposit(ctx(bob, 0, 1), 100, Ok(())).unwrap();
    let reports = vec![report(acct(3), 3), report(acct(1), 5)];
    assert_eq!(p.liquidation_payout(bob, &reports), 10);
    let reports = vec![report(acct(3), 30), report(acct(1), 0)];
    assert_eq!(p.liquidation_payout(bob, &reports), 0);
    let reports = vec![report(acct(1), 70)];
    assert_eq!(p.liquidation_payout(bob, &reports), 100);
    assert_eq!(p.liquidation_payout(bob, &vec![]), 0);
}

#[test]
fn checks_before_the_ring_is_asked() {
    let mut p = pool();
    let alice = acct(8);
    let bob = acct(9);
    assert!(matches!(p.withdraw_check(alice, 1), Err(LAssetError::WithdrawWithoutDeposit)));
    p.deposit(ctx(alice, 0, 1), 5, Ok(())).unwrap();
    assert!(matches!(p.withdraw_check(alice, 6), Err(LAssetError::WithdrawOverflow)));
    assert!(p.withdraw_check(alice, 5).is_ok());
    assert!(matches!(p.borrow_check(ctx(alice, 0, 1), 1), Err(LAssetError::BorrowWhileDepositingNotAllowed)));
    assert!(matches!(p.borrow_check(ctx(bob, 0, 0), 1), Err(LAssetError::FirstBorrowRequiresGasCollateral)));
    assert!(matches!(p.borrow_check(ctx(bob, 0, 1), 1), Err(LAssetError::BorrowOverflow)));
    p.mint(ctx(alice, 0, 0), 10, Ok(())).unwrap();
    assert!(p.borrow_check(ctx(bob, 0, 1), 10).is_ok());
    assert!(matches!(p.borrow_check(ctx(bob, 0, 1), 11), Err(LAssetError::BorrowOverflow)));
}

use finance::account::AccountId;
use finance::admin::{Admin, LoanAnswer, LoanCall, LoanStage};
use finance::errors::{AdminError, FlashLoanError as AdminLoanError, FlashLoanPoolError, FlashLoanReceiverError, PSP22Error, TakeCashError};
use finance::flash::{Flash, FlashLoanAnswer, FlashLoanCall, FlashLoanError, FlashLoanStage};
use finance::structs::AssetParams;

fn acct(b: u8) -> AccountId {
    AccountId::from_bytes([b; 32])
}

#[test]
fn fee_per_million_works() {
    let flash = Flash::new(acct(1), 1234);
    assert_eq!(flash.fee_per_million(), 1234);
}

#[test]
fn fee_is_millionths_of_the_amount() {
    let flash = Flash::new(acct(1), 3000);
    assert_eq!(flash.calculate_fee(1_000_000), 3000);
    assert_eq!(flash.calculate_fee(999), 2);
    assert_eq!(flash.calculate_fee(0), 0);
    let big = Flash::new(acct(1), 2);
    assert_eq!(big.calculate_fee(1u128 << 127), 0);
}

#[test]
fn only_fee_admin_sets_fee() {
    let mut flash = Flash::new(acct(1), 10);
    assert!(matches!(flash.set_fee_per_million(acct(2), 20), Err(FlashLoanError::Unathorized)));
    assert_eq!(flash.fee_per_million(), 10);
    flash.set_fee_per_million(acct(1), 20).unwrap();
    assert_eq!(flash.fee_per_million(), 20);
}

#[test]
fn flash_loan_walks_its_calls() {
    let flash = Flash::new(acct(1), 1000);
    let (pool, target) = (acct(5), acct(6));
    let (stage, call) = flash.flash_loan_start(pool, 1_000_000);
    assert!(matches!(call, FlashLoanCall::TakeCash { amount: 1_000_000, .. }));
    let (stage, call) = flash
        .flash_loan_next(pool, 1_000_000, target, stage, FlashLoanAnswer::CashTaken(Ok(())))
        .unwrap()
        .unwrap();
    assert!(matches!(call, FlashLoanCall::Transfer { to, amount: 1_000_000 } if to == target));
    let (stage, call) = flash
        .flash_loan_next(pool, 1_000_000, target, stage, FlashLoanAnswer::Transferred(Ok(())))
        .unwrap()
        .unwrap();
    assert!(matches!(call, FlashLoanCall::OnFlashLoan { target: t, .. } if t == target));
    let (stage, call) = flash
        .flash_loan_next(pool, 1_000_000, target, stage, FlashLoanAnswer::Called(Ok(())))
        .unwrap()
        .unwrap();
    assert!(matches!(call, FlashLoanCall::Transfer { to, amount: 1_001_000 } if to == pool));
    assert_eq!(stage, FlashLoanStage::Returning);
    let done = flash.flash_loan_next(pool, 1_000_000, target, stage, FlashLoanAnswer::Transferred(Ok(()))).unwrap();
    assert!(done.is_none());
}

#[test]
fn flash_loan_stops_at_a_failed_call() {
    let flash = Flash::new(acct(1), u32::MAX);
    let (pool, target) = (acct(5), acct(6));
    let r = flash.flash_loan_next(pool, 1, target, FlashLoanStage::TakingCash, FlashLoanAnswer::CashTaken(Err(FlashLoanPoolError::TakeCashOverflow)));
    assert!(matches!(r, Err(FlashLoanError::TakeCashFailed(FlashLoanPoolError::TakeCashOverflow))));
    let r = flash.flash_loan_next(pool, 1, target, FlashLoanStage::Calling, FlashLoanAnswer::Called(Err(FlashLoanReceiverError::Error)));
    assert!(matches!(r, Err(FlashLoanError::ReceiverFailed(FlashLoanReceiverError::Error))));
    let r = flash.flash_loan_next(pool, 1, target, FlashLoanStage::Returning, FlashLoanAnswer::Transferred(Err(PSP22Error::InsufficientBalance)));
    assert!(matches!(r, Err(FlashLoanError::TransferFailed(PSP22Error::InsufficientBalance))));
    let (_, call) = flash
        .flash_loan_next(pool, u128::MAX, target, FlashLoanStage::Calling, FlashLoanAnswer::Called(Ok(())))
        .unwrap()
        .unwrap();
    assert!(matches!(call, FlashLoanCall::Transfer { amount: u128::MAX, .. }));
}

#[test]
fn admin_keeps_prices_and_params_for_the_ring() {
    let (dao, this) = (acct(1), acct(2));
    let mut admin = Admin::new(dao, this, [7; 32]);
    assert_eq!(admin.next, this);
    assert!(admin.pull_prices_step(this, this).is_none());
    let a = acct(3);
    assert_eq!(admin.pull_prices_step(this, a), Some((a, 0, 1)));
    assert!(matches!(admin.push_price(acct(9), a, 5, 2), Err(AdminError::PushPriceUnauthorized)));
    admin.push_price(dao, a, 5, 2).unwrap();
    assert_eq!(admin.pull_prices_step(this, a), Some((a, 5, 2)));
    let (_, p) = admin.pull_params_step(this, a).unwrap();
    assert_eq!(p.mint_fee, 0);
    assert_eq!(p.initial_haircut, 0);
    let mut params = AssetParams::default();
    params.borrow_fee = 42;
    assert!(matches!(admin.push_params(acct(9), a, params), Err(AdminError::PushParamsUnauthorized)));
    admin.push_params(dao, a, params).unwrap();
    let (_, p) = admin.pull_params_step(this, a).unwrap();
    assert_eq!(p.borrow_fee, 42);
}

#[test]
fn admin_adds_assets_at_the_head_of_the_ring() {
    let (dao, this) = (acct(1), acct(2));
    let mut admin = Admin::new(dao, this, [7; 32]);
    assert!(matches!(admin.add_asset(acct(9), acct(3), 1), Err(AdminError::AddAssetUnauthorized)));
    let inst = admin.add_asset(dao, acct(3), 1).unwrap();
    assert_eq!(inst.next, this);
    assert_eq!(inst.code_hash, [7; 32]);
    admin.asset_added(acct(30));
    let inst = admin.add_asset(dao, acct(4), 1).unwrap();
    assert_eq!(inst.next, acct(30));
    assert_eq!(admin.update(acct(8)).next, acct(30));
    assert_eq!(admin.repay_or_update(acct(8), acct(8)).repaid, 0);
}

#[test]
fn admin_flash_loan_collects_amount_and_fee() {
    let admin = Admin::new(acct(1), acct(2), [0; 32]);
    let (caller, target, pool, token) = (acct(8), acct(6), acct(5), acct(7));
    let (stage, _) = admin.flash_loan_start(target, pool, 100);
    let (stage, call) = admin
        .flash_loan_next(caller, target, pool, 100, stage, LoanAnswer::CashTaken(Ok((token, 3))))
        .unwrap()
        .unwrap();
    assert!(matches!(call, LoanCall::OnFlashLoan { fee: 3, amount: 100, .. }));
    let (stage, call) = admin.flash_loan_next(caller, target, pool, 100, stage, LoanAnswer::Called(Ok(()))).unwrap().unwrap();
    assert!(matches!(call, LoanCall::TransferFrom { amount: 103, .. }));
    assert_eq!(stage, LoanStage::Collecting);
    let done = admin.flash_loan_next(caller, target, pool, 100, stage, LoanAnswer::Collected(Ok(()))).unwrap();
    assert!(done.is_none());
    let r = admin.flash_loan_next(caller, target, pool, u128::MAX, LoanStage::Calling { token, fee: 1 }, LoanAnswer::Called(Ok(())));
    assert!(matches!(r, Err(AdminLoanError::Overflow)));
    let r = admin.flash_loan_next(caller, target, pool, 1, LoanStage::TakingCash, LoanAnswer::CashTaken(Err(TakeCashError::Unauthorized)));
    assert!(matches!(r, Err(AdminLoanError::TakeCashFailed(TakeCashError::Unauthorized))));
}

use finance::account::AccountId;
use finance::errors::{LAssetError, PSP22Error, TakeCashError};
use finance::lasset::LAssetContract;
use finance::structs::{AssetParams, CallContext, RepayOrUpdateResult, UpdateResult};
use std::collections::HashMap;

const BTC_ADDRESS: [u8; 32] = [
    0, 1, 2, 3, 4, 5, 6, 7, 8, 9, 10, 11, 12, 13, 14, 15, 16, 17, 18, 19, 20, 21, 22, 23, 24, 25, 26,
    27, 28, 29, 30, 31,
];
const ETH_ADDRESS: [u8; 32] = [
    1, 2, 3, 4, 5, 6, 7, 8, 9, 10, 11, 12, 13, 14, 15, 16, 17, 18, 19, 20, 21, 22, 23, 24, 25, 26, 27,
    28, 29, 30, 31, 0,
];
const USDC_ADDRESS: [u8; 32] = [
    2, 3, 4, 5, 6, 7, 8, 9, 10, 11, 12, 13, 14, 15, 16, 17, 18, 19, 20, 21, 22, 23, 24, 25, 26, 27, 28,
    29, 30, 31, 0, 1,
];

/// Three pools in a ring, a token ledger shared by their underlying tokens,
/// and a switch that makes the next outgoing token transfer fail.
///
/// An outgoing transfer is made only when the pool gets that far: its
/// outcome is handed to the pool, and the transfer counts as made (the
/// switch is spent, or the tokens arrive) when the pool answers with
/// success or with the failure of that transfer.
struct Ring {
    pools: Vec<(AccountId, LAssetContract)>,
    balances: HashMap<(AccountId, AccountId), u128>,
    transfer_error: bool,
    now: u64,
}

impl Ring {
    fn idx(&self, address: AccountId) -> usize {
        self.pools.iter().position(|(a, _)| *a == address).unwrap()
    }

    fn pool(&mut self, address: AccountId) -> &mut LAssetContract {
        let i = self.idx(address);
        &mut self.pools[i].1
    }

    fn ctx(&self, caller: AccountId, this: AccountId, value: u128) -> CallContext {
        CallContext { caller, this, now: self.now, transferred_value: value }
    }

    fn transfer_from(&mut self, token: AccountId, from: AccountId, to: AccountId, value: u128) -> Result<(), PSP22Error> {
        let from_balance = self
            .balances
            .get(&(token, from))
            .unwrap_or(&0)
            .checked_sub(value)
            .ok_or(PSP22Error::InsufficientBalance)?;
        if from != to {
            let to_balance = self.balances.get(&(token, from)).unwrap_or(&0).saturating_add(value);
            self.balances.insert((token, from), from_balance);
            self.balances.insert((token, to), to_balance);
        }
        Ok(())
    }

    fn outgoing(&self) -> Result<(), PSP22Error> {
        if self.transfer_error {
            Err(PSP22Error::Custom(String::new()))
        } else {
            Ok(())
        }
    }

    fn settle(&mut self, made: bool, token: AccountId, to: AccountId, value: u128) {
        if !made {
            return;
        }
        if self.transfer_error {
            self.transfer_error = false;
        } else {
            let balance = *self.balances.get(&(token, to)).unwrap_or(&0);
            self.balances.insert((token, to), balance.saturating_add(value));
        }
    }

    fn updates(&mut self, this: AccountId, user: AccountId) -> Vec<UpdateResult> {
        let mut out: Vec<UpdateResult> = Vec::new();
        let now = self.now;
        while let Some(next) = self.pool(this).ring_next(this, out.last().map(|r| r.next)) {
            out.push(self.pool(next).update(now, user));
        }
        out
    }

    fn reports(&mut self, this: AccountId, user: AccountId, cash_owner: AccountId) -> Vec<RepayOrUpdateResult> {
        let mut out: Vec<RepayOrUpdateResult> = Vec::new();
        while let Some(current) = self.pool(this).ring_next(this, out.last().map(|r| r.next)) {
            let ctx = self.ctx(this, current, 0);
            let (r, _) = self.pool(current).repay_or_update(ctx, user, cash_owner);
            out.push(r);
        }
        out
    }

    fn deposit(&mut self, caller: AccountId, this: AccountId, value: u128, amount: u128) -> Result<(), LAssetError> {
        let token = self.pool(this).underlying_token;
        let pulled = self.transfer_from(token, caller, this, amount);
        let ctx = self.ctx(caller, this, value);
        self.pool(this).deposit(ctx, amount, pulled)
    }

    fn withdraw(&mut self, caller: AccountId, this: AccountId, amount: u128) -> Result<(), LAssetError> {
        self.pool(this).withdraw_check(caller, amount)?;
        let updates = self.updates(this, caller);
        let ctx = self.ctx(caller, this, 0);
        let sent = self.outgoing();
        let (res, _) = self.pool(this).withdraw(ctx, amount, &updates, sent);
        let made = matches!(res, Ok(()) | Err(LAssetError::WithdrawTransferFailed(_)));
        let token = self.pool(this).underlying_token;
        self.settle(made, token, caller, amount);
        res
    }

    fn mint(&mut self, caller: AccountId, this: AccountId, to_wrap: u128) -> Result<(), LAssetError> {
        let token = self.pool(this).underlying_token;
        let pulled = match self.pool(this).mint_transfer_amount(to_wrap) {
            Some(to_transfer) => self.transfer_from(token, caller, this, to_transfer),
            None => Ok(()),
        };
        let ctx = self.ctx(caller, this, 0);
        self.pool(this).mint(ctx, to_wrap, pulled).map(|_| ())
    }

    fn burn(&mut self, caller: AccountId, this: AccountId, to_burn: u128) -> Result<(), LAssetError> {
        let now = self.now;
        let payout = self.pool(this).burn_payout(now, to_burn);
        let ctx = self.ctx(caller, this, 0);
        let sent = self.outgoing();
        let (res, _) = self.pool(this).burn(ctx, to_burn, sent);
        let made = matches!(res, Ok(()) | Err(LAssetError::BurnTransferFailed(_)));
        let token = self.pool(this).underlying_token;
        self.settle(made, token, caller, payout);
        res
    }

    fn borrow(&mut self, caller: AccountId, this: AccountId, value: u128, amount: u128) -> Result<(), LAssetError> {
        let ctx = self.ctx(caller, this, value);
        self.pool(this).borrow_check(ctx, amount)?;
        let updates = self.updates(this, caller);
        let sent = self.outgoing();
        let res = self.pool(this).borrow(ctx, amount, &updates, sent);
        let made = matches!(res, Ok(()) | Err(LAssetError::BorrowTransferFailed(_)));
        let token = self.pool(this).underlying_token;
        self.settle(made, token, caller, amount);
        res
    }

    fn repay(&mut self, caller: AccountId, this: AccountId, user: AccountId, extra_cash: u128) -> Result<(), LAssetError> {
        let token = self.pool(this).underlying_token;
        let pulled = self.transfer_from(token, caller, this, extra_cash);
        let ctx = self.ctx(caller, this, 0);
        self.pool(this).repay(ctx, user, extra_cash, pulled).map(|_| ())
    }

    fn deposit_cash(&mut self, caller: AccountId, this: AccountId, spender: AccountId, extra_cash: u128) -> Result<(), LAssetError> {
        let token = self.pool(this).underlying_token;
        let pulled = self.transfer_from(token, caller, this, extra_cash);
        let ctx = self.ctx(caller, this, 0);
        self.pool(this).deposit_cash(ctx, spender, extra_cash, pulled)
    }

    fn withdraw_cash(&mut self, caller: AccountId, this: AccountId) -> Result<(), LAssetError> {
        let cash = self.pool(this).cash_of(caller);
        let ctx = self.ctx(caller, this, 0);
        let sent = self.outgoing();
        let res = self.pool(this).withdraw_cash(ctx, sent);
        let token = self.pool(this).underlying_token;
        self.settle(true, token, caller, cash);
        res
    }

    fn liquidate(&mut self, caller: AccountId, this: AccountId, user: AccountId) -> Result<(), LAssetError> {
        let reports = self.reports(this, user, caller);
        let to_take = self.pool(this).liquidation_payout(user, &reports);
        let ctx = self.ctx(caller, this, 0);
        let sent = self.outgoing();
        let (res, _) = self.pool(this).liquidate(ctx, user, &reports, sent);
        let made = matches!(res, Ok(()) | Err(LAssetError::LiquidateTransferFailed(_)));
        let token = self.pool(this).underlying_token;
        self.settle(made, token, caller, to_take);
        res
    }

    fn take_cash(&mut self, caller: AccountId, this: AccountId, amount: u128, target: AccountId) -> Result<(AccountId, u128), TakeCashError> {
        let ctx = self.ctx(caller, this, 0);
        let sent = self.outgoing();
        let res = self.pool(this).take_cash(ctx, amount, target, sent);
        let made = matches!(res, Ok(_) | Err(TakeCashError::Transfer(_)));
        let token = self.pool(this).underlying_token;
        self.settle(made, token, target, amount);
        res
    }
}

fn new_pool(underlying: AccountId, next: AccountId, admin: AccountId) -> LAssetContract {
    LAssetContract::new(
        underlying,
        next,
        1,
        admin,
        0,
        Some("TestToken".to_string()),
        Some("TT".to_string()),
        Some(16),
    )
}

fn ring() -> (Ring, AccountId, AccountId, AccountId, AccountId) {
    let btc = AccountId::from_bytes(BTC_ADDRESS);
    let usdc = AccountId::from_bytes(USDC_ADDRESS);
    let eth = AccountId::from_bytes(ETH_ADDRESS);
    let admin = AccountId::from_bytes([0x4; 32]);
    let ring = Ring {
        pools: vec![
            (btc, new_pool(btc, usdc, admin)),
            (usdc, new_pool(usdc, eth, admin)),
            (eth, new_pool(eth, btc, admin)),
        ],
        balances: HashMap::new(),
        transfer_error: false,
        now: 0,
    };
    (ring, btc, usdc, eth, admin)
}

#[test]
fn tests_default_works() {
    let (mut r, btc, usdc, eth, admin) = ring();
    let alice = AccountId::from_bytes([0x8; 32]);
    let bob = AccountId::from_bytes([0x9; 32]);

    r.pool(btc).price = 1;
    r.pool(usdc).price = 1;
    r.pool(eth).price = 1;

    let res = r.pool(btc).set_price(alice, 0, 0);
    assert!(matches!(res, Err(LAssetError::SetPriceUnathorized)), "Set price should fail if unauthorized. Got: {:?}", res);

    let params = AssetParams {
        standard_rate: 0,
        standard_min_rate: 0,
        emergency_rate: 0,
        emergency_max_rate: 0,
        initial_margin: 0,
        maintenance_margin: 0,
        initial_haircut: u128::MAX,
        maintenance_haircut: u128::MAX,
        mint_fee: 0,
        borrow_fee: 0,
        take_cash_fee: 0,
        liquidation_reward: 0,
    };
    let res = r.pool(eth).set_params(alice, params);
    assert!(matches!(res, Err(LAssetError::SetParamsUnathorized)), "Set params should fail if unauthorized. Got: {:?}", res);

    let res = r.deposit(alice, btc, 0, 0);
    assert!(matches!(res, Err(LAssetError::FirstDepositRequiresGasCollateral)), "First deposit should fail without gas collateral. Got: {:?}", res);

    let res = r.repay(alice, btc, alice, 0);
    assert!(matches!(res, Err(LAssetError::RepayWithoutBorrow)), "Repay without borrow should fail. Got: {:?}", res);

    r.deposit(alice, btc, 1, 0).unwrap();

    let res = r.borrow(alice, btc, 0, 0);
    assert!(matches!(res, Err(LAssetError::BorrowWhileDepositingNotAllowed)), "Borrow while depositing should fail. Got: {:?}", res);

    let res = r.withdraw(alice, btc, u128::MAX);
    assert!(matches!(res, Err(LAssetError::WithdrawOverflow)), "Withdraw should fail on overflow. Got: {:?}", res);

    let res = r.deposit(alice, btc, 0, 1);
    assert!(matches!(res, Err(LAssetError::DepositTransferFailed(_))), "Deposit should fail if caller has insufficient balance. Got: {:?}", res);

    r.balances.insert((btc, alice), u128::MAX);
    r.deposit(alice, btc, 0, u128::MAX).unwrap();

    r.balances.insert((btc, alice), 1);
    let res = r.deposit(alice, btc, 0, 1);
    assert!(matches!(res, Err(LAssetError::DepositOverflow)), "Deposit should fail on overflow. Got: {:?}", res);

    r.transfer_error = true;
    let res = r.withdraw(alice, btc, 0);
    assert!(matches!(res, Err(LAssetError::WithdrawTransferFailed(_))), "Withdraw should fail if transfer fails. Got: {:?}", res);

    r.withdraw(alice, btc, u128::MAX).unwrap();

    let res = r.withdraw(bob, btc, 0);
    assert!(matches!(res, Err(LAssetError::WithdrawWithoutDeposit)), "Withdraw without deposit should fail. Got: {:?}", res);

    let res = r.borrow(alice, btc, 0, 0);
    assert!(matches!(res, Err(LAssetError::FirstBorrowRequiresGasCollateral)), "First borrow should fail without gas collateral. Got: {:?}", res);

    let res = r.borrow(alice, btc, 1, u128::MAX);
    assert!(matches!(res, Err(LAssetError::BorrowOverflow)), "Borrow should fail on overflow. Got: {:?}", res);

    r.balances.insert((btc, alice), 0);
    let res = r.mint(alice, btc, 1);
    assert!(matches!(res, Err(LAssetError::MintTransferFailed(_))), "Mint should fail if transfer fails. Got: {:?}", res);

    r.pool(btc).params.mint_fee = u128::MAX;
    let res = r.mint(alice, btc, u128::MAX);
    assert!(matches!(res, Err(LAssetError::MintFeeOverflow)), "Mint should fail on fee overflow. Got: {:?}", res);
    r.pool(btc).params.mint_fee = 0;

    r.balances.insert((btc, alice), 3);
    r.mint(alice, btc, 3).unwrap();

    r.balances.insert((usdc, alice), 4);
    r.deposit(alice, usdc, 1, 4).unwrap();

    r.borrow(alice, btc, 1, 1).unwrap();

    r.transfer_error = true;
    let res = r.borrow(alice, btc, 0, 0);
    assert!(matches!(res, Err(LAssetError::BorrowTransferFailed(_))), "Borrow should fail if transfer fails. Got: {:?}", res);

    let res = r.borrow(alice, btc, 0, 2);
    assert!(matches!(res, Err(LAssetError::CollateralValueTooLowAfterBorrow)), "Borrow should fail if collateral value too low. Got: {:?}", res);

    r.pool(btc).params.borrow_fee = u128::MAX;
    let res = r.borrow(alice, btc, 0, u128::MAX);
    assert!(matches!(res, Err(LAssetError::BorrowFeeOverflow)), "Borrow should fail on fee overflow. Got: {:?}", res);
    r.pool(btc).params.borrow_fee = 0;

    let res = r.burn(alice, btc, 3);
    assert!(matches!(res, Err(LAssetError::BurnTooMuch)), "Burn should fail if burn too much. Got: {:?}", res);

    r.transfer_error = true;
    let res = r.burn(alice, btc, 1);
    assert!(matches!(res, Err(LAssetError::BurnTransferFailed(_))), "Burn should fail if transfer fails. Got: {:?}", res);

    let res = r.withdraw(alice, usdc, 2);
    assert!(matches!(res, Err(LAssetError::CollateralValueTooLowAfterWithdraw)), "Withdraw should fail if collateral value too low. Got: {:?}", res);

    let res = r.deposit(alice, btc, 1, 1);
    assert!(matches!(res, Err(LAssetError::DepositWhileBorrowingNotAllowed)), "Deposit while borrowing should fail. Got: {:?}", res);

    r.balances.insert((btc, alice), u128::MAX);
    let res = r.mint(alice, btc, u128::MAX);
    assert!(matches!(res, Err(LAssetError::MintOverflow)), "Mint liquidity should fail on overflow. Got: {:?}", res);

    let res = r.burn(alice, btc, u128::MAX);
    assert!(matches!(res, Err(LAssetError::BurnOverflow)), "Burn should fail on overflow. Got: {:?}", res);

    r.balances.insert((btc, alice), 0);
    let res = r.repay(alice, btc, alice, 1);
    assert!(matches!(res, Err(LAssetError::RepayTransferFailed(_))), "Repay should fail if transfer fails. Got: {:?}", res);

    let res = r.deposit_cash(alice, btc, alice, 1);
    assert!(matches!(res, Err(LAssetError::DepositCashTransferFailed(_))), "Deposit cash should fail if transfer fails. Got: {:?}", res);

    r.balances.insert((btc, alice), u128::MAX);
    r.deposit_cash(alice, btc, alice, u128::MAX).unwrap();

    r.balances.insert((btc, alice), 1);
    let res = r.deposit_cash(alice, btc, alice, 1);
    assert!(matches!(res, Err(LAssetError::DepositCashOverflow)), "Deposit cash should fail on overflow. Got: {:?}", res);

    r.transfer_error = true;
    let res = r.withdraw_cash(alice, btc);
    assert!(matches!(res, Err(LAssetError::WithdrawCashTransferFailed(_))), "Withdraw cash should fail if transfer fails. Got: {:?}", res);

    r.balances.insert((btc, alice), u128::MAX);
    r.deposit_cash(alice, btc, alice, u128::MAX).unwrap();

    r.balances.insert((btc, alice), 1);
    let res = r.repay(alice, btc, alice, 1);
    assert!(matches!(res, Err(LAssetError::RepayCashOverflow)), "Repay cash should fail on overflow. Got: {:?}", res);

    let res = r.liquidate(alice, btc, bob);
    assert!(matches!(res, Err(LAssetError::LiquidateForNothing)), "Liquidate should fail if nothing to liquidate. Got: {:?}", res);

    let res = r.liquidate(alice, usdc, alice);
    assert!(matches!(res, Err(LAssetError::LiquidateTooEarly)), "Liquidate should fail if too early. Got: {:?}", res);

    r.balances.insert((eth, alice), 1);
    r.mint(alice, eth, 1).unwrap();
    r.borrow(alice, eth, 1, 1).unwrap();

    r.transfer_error = true;
    r.pool(usdc).price_scaler = 2;
    let res = r.liquidate(alice, usdc, alice);
    assert!(matches!(res, Err(LAssetError::LiquidateTransferFailed(_))), "Liquidate should fail if transfer fails. Got: {:?}", res);
    r.pool(usdc).price_scaler = 1;

    r.pool(eth).params.maintenance_margin = u128::MAX;
    r.pool(btc).params.maintenance_margin = u128::MAX;
    let res = r.liquidate(alice, usdc, alice);
    assert!(matches!(res, Err(LAssetError::LiquidateTooMuch)), "Liquidate should fail if too much. Got: {:?}", res);

    let res = r.take_cash(alice, btc, 0, alice);
    assert!(matches!(res, Err(TakeCashError::Unauthorized)), "Take cash should fail if unauthorized. Got: {:?}", res);

    r.pool(btc).params.take_cash_fee = u128::MAX;
    r.take_cash(admin, btc, u128::MAX / 2, admin).unwrap();
    let res = r.take_cash(admin, btc, u128::MAX / 2, admin);
    assert!(matches!(res, Err(TakeCashError::Overflow)), "Take cash should fail on overflow. Got: {:?}", res);

    r.transfer_error = true;
    r.pool(btc).params.take_cash_fee = 0;
    let res = r.take_cash(admin, btc, 0, admin);
    assert!(matches!(res, Err(TakeCashError::Transfer(_))), "Take cash should fail if transfer fails. Got: {:?}", res);
}

use anchor_spl::associated_token::get_associated_token_address;
use anchor_spl::token::spl_token::solana_program::pubkey::Pubkey;
use gmt::address::{Address, Config};
use gmt::collateral::Market;
use gmt::error::ErrorKind;
use gmt::order::{
    build_order, build_position_order, build_swap_order, close_limit_order, create_limit_order,
    create_order, open_limit_order, send_decrease_order, stop_loss, take_profit, OrderFamily,
    OrderIntent, PositionFamily, PositionIntent, Purpose, SwapIntent,
};
use gmt::position::{close_position, deposit_collateral, side_label, withdraw_collateral, Side};
use gmt::swap::{limit_swap, market_swap};
use gmt::units::{to_decrease_size, to_scaled_price, to_scaled_usd_size};
use gmt::wallet::{setup_associated_token_accounts, setup_wallet};

fn address(fill: u8) -> Address {
    Address::new([fill; 32])
}

fn sol_market() -> Market {
    Market::new("SOL/USD[WSOL-USDC]".to_string(), address(9), Config::standard().native_asset, address(7))
        .unwrap()
}

fn associated(owner: &Address, asset: &Address) -> Address {
    Address::new(
        get_associated_token_address(&Pubkey::new_from_array(owner.bytes), &Pubkey::new_from_array(asset.bytes))
            .to_bytes(),
    )
}

fn intent(family: PositionFamily) -> PositionIntent {
    PositionIntent {
        family,
        market_token: address(9),
        is_long: true,
        is_collateral_long: true,
        collateral_amount: 0,
        size_delta: 0,
        trigger_price: None,
        withdrawal_amount: None,
    }
}

#[test]
fn market_increase_with_native_collateral_is_wrapped() {
    let config = Config::standard();
    let principal = address(42);
    let market = sol_market();
    let size = to_scaled_usd_size(1000).unwrap();
    let plan = create_order(&config, &principal, &market, true, 500_000_000, true, size).unwrap();
    let account = associated(&principal, &market.long_token);

    assert_eq!(plan.request.family, OrderFamily::MarketIncrease);
    assert_eq!(plan.request.market_token, market.market_token);
    assert!(plan.request.is_long);
    assert!(plan.request.is_collateral_long);
    assert_eq!(plan.request.amount, 500_000_000);
    assert_eq!(plan.request.size_delta, 1000u128 * 10u128.pow(20));
    assert_eq!(plan.request.trigger_price, None);
    assert_eq!(plan.request.min_output_amount, None);
    assert_eq!(plan.request.collateral.asset, market.long_token);
    assert_eq!(plan.request.collateral.depositor_account, account);
    assert!(plan.request.swap_path.is_empty());

    assert_eq!(plan.wrap.len(), 2);
    assert_eq!(plan.wrap[0].accounts[0].address, principal);
    assert_eq!(plan.wrap[0].accounts[1].address, account);
    assert_eq!(plan.wrap[0].data, vec![2, 0, 0, 0, 0x00, 0x65, 0xcd, 0x1d, 0, 0, 0, 0]);
    assert_eq!(plan.wrap[1].accounts[0].address, account);
    assert_eq!(plan.wrap[1].data, vec![17]);
}

#[test]
fn market_increase_with_other_collateral_is_not_wrapped() {
    let config = Config::standard();
    let principal = address(42);
    let market = sol_market();
    let plan = create_order(&config, &principal, &market, false, 500_000_000, false, 5).unwrap();
    assert!(plan.wrap.is_empty());
    assert!(!plan.request.is_long);
    assert!(!plan.request.is_collateral_long);
    assert_eq!(plan.request.collateral.asset, market.short_token);
    assert_eq!(plan.request.collateral.depositor_account, associated(&principal, &market.short_token));
}

#[test]
fn market_increase_needs_collateral_or_size() {
    let config = Config::standard();
    let market = sol_market();
    let e = create_order(&config, &address(42), &market, true, 0, true, 0).unwrap_err();
    assert_eq!(e.kind, ErrorKind::InvalidInput);
    assert!(create_order(&config, &address(42), &market, true, 0, true, 1).is_ok());
    assert!(create_order(&config, &address(42), &market, true, 1, true, 0).is_ok());
}

#[test]
fn increase_fails_when_the_wrap_cannot_be_built() {
    let config = Config { native_asset: Config::standard().native_asset, token_program: address(1) };
    let market = sol_market();
    let e = create_order(&config, &address(42), &market, true, 10, true, 1).unwrap_err();
    assert_eq!(e.kind, ErrorKind::BuildFailed);
    assert!(create_order(&config, &address(42), &market, false, 10, true, 1).is_ok());
    assert!(create_order(&config, &address(42), &market, true, 0, true, 1).unwrap().wrap.is_empty());
}

#[test]
fn limit_increase_carries_the_trigger_price() {
    let config = Config::standard();
    let market = sol_market();
    let price = to_scaled_price(120, 9).unwrap();
    let size = to_scaled_usd_size(1000).unwrap();
    let plan = open_limit_order(&config, &address(42), &market, true, true, 500_000_000, size, price).unwrap();
    assert_eq!(plan.request.family, OrderFamily::LimitIncrease);
    assert_eq!(plan.request.trigger_price, Some(120u128 * 10u128.pow(21)));
    assert_eq!(plan.request.amount, 500_000_000);
    assert_eq!(plan.request.size_delta, size);
    assert_eq!(plan.wrap.len(), 2);
    let same = create_limit_order(&config, &address(42), &market, true, 500_000_000, true, size, price).unwrap();
    assert_eq!(same, plan);
}

#[test]
fn limit_increase_needs_size_and_price() {
    let config = Config::standard();
    let market = sol_market();
    let p = address(42);
    assert_eq!(open_limit_order(&config, &p, &market, true, true, 5, 0, 1).unwrap_err().kind, ErrorKind::InvalidInput);
    assert_eq!(open_limit_order(&config, &p, &market, true, true, 5, 1, 0).unwrap_err().kind, ErrorKind::InvalidInput);
    assert_eq!(
        create_limit_order(&config, &p, &market, true, 5, true, 0, 0).unwrap_err().kind,
        ErrorKind::InvalidInput
    );
    let mut missing = intent(PositionFamily::LimitIncrease);
    missing.size_delta = 1;
    assert_eq!(build_position_order(&config, &p, &market, missing).unwrap_err().kind, ErrorKind::InvalidInput);
}

#[test]
fn take_profit_and_stop_loss_differ_only_in_purpose() {
    let config = Config::standard();
    let market = sol_market();
    let p = address(42);
    let tp = take_profit(&config, &p, &market, true, true, 10, 200).unwrap();
    let sl = stop_loss(&config, &p, &market, true, true, 10, 200).unwrap();
    assert_eq!(tp.request.family, OrderFamily::LimitDecrease(Purpose::TakeProfit));
    assert_eq!(sl.request.family, OrderFamily::LimitDecrease(Purpose::StopLoss));
    assert!(tp.wrap.is_empty());
    assert!(sl.wrap.is_empty());
    assert_eq!(tp.request.amount, 0);
    assert_eq!(tp.request.trigger_price, Some(200));
    let mut relabelled = sl.request.clone();
    relabelled.family = OrderFamily::LimitDecrease(Purpose::TakeProfit);
    assert_eq!(relabelled, tp.request);
}

#[test]
fn limit_decrease_needs_a_size() {
    let config = Config::standard();
    let market = sol_market();
    let p = address(42);
    assert_eq!(take_profit(&config, &p, &market, true, true, 0, 200).unwrap_err().kind, ErrorKind::InvalidInput);
    assert_eq!(stop_loss(&config, &p, &market, true, true, 0, 200).unwrap_err().kind, ErrorKind::InvalidInput);
    assert_eq!(
        close_limit_order(&config, &p, &market, true, true, 0, 200, 3).unwrap_err().kind,
        ErrorKind::InvalidInput
    );
    assert!(take_profit(&config, &p, &market, true, true, 1, 0).is_ok());
}

#[test]
fn limit_decrease_withdraws_and_never_wraps() {
    let config = Config::standard();
    let market = sol_market();
    let p = address(42);
    let plan = close_limit_order(&config, &p, &market, false, true, 10, 200, 33).unwrap();
    assert_eq!(plan.request.family, OrderFamily::LimitDecrease(Purpose::TakeProfit));
    assert_eq!(plan.request.amount, 33);
    assert!(!plan.request.is_long);
    assert_eq!(plan.request.collateral.asset, market.long_token);
    assert!(plan.wrap.is_empty());
    let direct = send_decrease_order(&config, &p, &market, Purpose::StopLoss, false, true, 10, 200, 33).unwrap();
    assert_eq!(direct.request.family, OrderFamily::LimitDecrease(Purpose::StopLoss));
    assert_eq!(direct.request.amount, 33);
}

#[test]
fn close_position_with_zero_size_closes_fully() {
    let config = Config::standard();
    let market = sol_market();
    let p = address(42);
    let size = to_decrease_size(0).unwrap();
    let plan = close_position(&config, &p, &market, true, true, size, 0).unwrap();
    assert_eq!(plan.request.family, OrderFamily::MarketDecrease);
    assert_eq!(plan.request.size_delta, u128::MAX);
    assert_eq!(plan.request.amount, 0);
    assert_eq!(plan.request.trigger_price, None);
    assert!(plan.wrap.is_empty());
    assert_eq!(plan.request.collateral.depositor_account, associated(&p, &market.long_token));
}

#[test]
fn deposit_and_withdraw_are_orders_of_size_zero() {
    let config = Config::standard();
    let market = sol_market();
    let p = address(42);
    let deposit = deposit_collateral(&config, &p, &market, true, true, 77).unwrap();
    assert_eq!(deposit.request.family, OrderFamily::MarketIncrease);
    assert_eq!(deposit.request.size_delta, 0);
    assert_eq!(deposit.request.amount, 77);
    assert_eq!(deposit.wrap.len(), 2);
    assert_eq!(deposit_collateral(&config, &p, &market, true, true, 0).unwrap_err().kind, ErrorKind::InvalidInput);
    let deposit_other = deposit_collateral(&config, &p, &market, true, false, 77).unwrap();
    assert!(deposit_other.wrap.is_empty());

    let withdraw = withdraw_collateral(&config, &p, &market, false, true, 55).unwrap();
    assert_eq!(withdraw.request.family, OrderFamily::MarketDecrease);
    assert_eq!(withdraw.request.size_delta, 0);
    assert_eq!(withdraw.request.amount, 55);
    assert!(withdraw.wrap.is_empty());
    assert!(withdraw_collateral(&config, &p, &market, false, true, 0).is_ok());
}

#[test]
fn order_on_another_market_is_not_found() {
    let config = Config::standard();
    let market = sol_market();
    let mut other = intent(PositionFamily::MarketDecrease);
    other.market_token = address(10);
    let e = build_position_order(&config, &address(42), &market, other).unwrap_err();
    assert_eq!(e.kind, ErrorKind::MarketNotFound);
    assert_eq!(e.detail, "the market is not the one the order names");
    let mut invalid_first = intent(PositionFamily::MarketIncrease);
    invalid_first.market_token = address(10);
    let e = build_position_order(&config, &address(42), &market, invalid_first).unwrap_err();
    assert_eq!(e.kind, ErrorKind::InvalidInput);
    assert_eq!(e.detail, "the order lacks what its family requires");
    assert_eq!(invalid_first.validate().unwrap_err(), e);
    assert!(other.validate().is_ok());
}

#[test]
fn fields_of_other_families_are_left_out_of_the_request() {
    let config = Config::standard();
    let market = sol_market();
    let mut i = intent(PositionFamily::MarketDecrease);
    i.collateral_amount = 900;
    i.trigger_price = Some(5);
    i.withdrawal_amount = None;
    let plan = build_position_order(&config, &address(42), &market, i).unwrap();
    assert_eq!(plan.request.amount, 0);
    assert_eq!(plan.request.trigger_price, None);
    assert!(plan.wrap.is_empty());
    let mut j = intent(PositionFamily::MarketIncrease);
    j.collateral_amount = 900;
    j.trigger_price = Some(5);
    j.withdrawal_amount = Some(4);
    let plan = build_order(&config, &address(42), &market, OrderIntent::Position(j)).unwrap();
    assert_eq!(plan.request.amount, 900);
    assert_eq!(plan.request.trigger_price, None);
    assert_eq!(plan.wrap.len(), 2);
}

#[test]
fn swap_uses_the_input_asset_as_collateral() {
    let p = address(42);
    let native = Config::standard().native_asset;
    let plan = market_swap(&p, &address(9), false, &native, 1_000_000, vec![address(60), address(61)]);
    assert_eq!(plan.request.family, OrderFamily::Swap);
    assert_eq!(plan.request.market_token, address(9));
    assert!(!plan.request.is_long);
    assert!(!plan.request.is_collateral_long);
    assert_eq!(plan.request.amount, 1_000_000);
    assert_eq!(plan.request.size_delta, 0);
    assert_eq!(plan.request.trigger_price, None);
    assert_eq!(plan.request.min_output_amount, None);
    assert_eq!(plan.request.collateral.asset, native);
    assert_eq!(plan.request.collateral.depositor_account, associated(&p, &native));
    assert_eq!(plan.request.swap_path, vec![address(60), address(61)]);
    assert!(plan.wrap.is_empty());
}

#[test]
fn limit_swap_carries_the_floor() {
    let p = address(42);
    let plan = limit_swap(&p, &address(9), true, 990, &address(7), 1000, Vec::new());
    assert_eq!(plan.request.min_output_amount, Some(990));
    assert!(plan.request.is_collateral_long);
    assert_eq!(plan.request.amount, 1000);
    assert!(plan.request.swap_path.is_empty());
    let same = build_swap_order(
        &p,
        SwapIntent {
            market_token: address(9),
            is_output_long: true,
            input_asset: address(7),
            input_amount: 1000,
            min_output_amount: Some(990),
            path: Vec::new(),
        },
    );
    assert_eq!(same, plan);
}

#[test]
fn side_is_read_from_the_kind() {
    assert_eq!(Side::from_kind(1), Some(Side::Long));
    assert_eq!(Side::from_kind(2), Some(Side::Short));
    assert_eq!(Side::from_kind(0), None);
    assert_eq!(Side::from_kind(3), None);
    assert_eq!(side_label(1), "LONG");
    assert_eq!(side_label(2), "SHORT");
    assert_eq!(side_label(0), "UNKNOWN");
    assert_eq!(side_label(255), "UNKNOWN");
    assert!(Side::from_is_long(true).is_long());
    assert!(!Side::from_is_long(false).is_long());
}

#[test]
fn wallet_setup_prepares_long_then_short() {
    let config = Config::standard();
    let market = sol_market();
    let p = address(42);
    let setups = setup_wallet(&config, &p, &market);
    assert_eq!(setups[0].asset, market.long_token);
    assert_eq!(setups[0].token_program, config.token_program);
    assert_eq!(setups[0].account, associated(&p, &market.long_token));
    assert_eq!(setups[1].asset, market.short_token);
    assert_eq!(setups[1].token_program, config.token_program);
    assert_eq!(setups[1].account, associated(&p, &market.short_token));
    assert_eq!(setup_associated_token_accounts(&config, &p, &market), setups);
}

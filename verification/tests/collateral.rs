use anchor_spl::associated_token::get_associated_token_address;
use anchor_spl::token::spl_token::solana_program::pubkey::Pubkey;
use gmt::address::{Address, Config};
use gmt::collateral::{resolve, select, Market};

fn address(fill: u8) -> Address {
    Address::new([fill; 32])
}

fn sample_market() -> Market {
    Market::new("SOL/USD[WSOL-USDC]".to_string(), address(9), Config::standard().native_asset, address(7))
        .unwrap()
}

#[test]
fn standard_config_names_the_deployed_programs() {
    let config = Config::standard();
    assert_eq!(config.native_asset.bytes, anchor_spl::token::spl_token::native_mint::ID.to_bytes());
    assert_eq!(config.token_program.bytes, anchor_spl::token::ID.to_bytes());
}

#[test]
fn address_equality_is_by_bytes() {
    let mut bytes = [3u8; 32];
    assert!(Address::new(bytes).same(&address(3)));
    bytes[31] = 4;
    assert!(!Address::new(bytes).same(&address(3)));
    bytes[31] = 3;
    bytes[0] = 0;
    assert!(!Address::new(bytes).same(&address(3)));
}

#[test]
fn market_rejects_equal_assets() {
    assert!(Market::new("X".to_string(), address(1), address(2), address(2)).is_none());
    let m = Market::new("X".to_string(), address(1), address(2), address(3)).unwrap();
    assert_eq!(m.name, "X");
    assert_eq!(m.market_token, address(1));
    assert_eq!(m.long_token, address(2));
    assert_eq!(m.short_token, address(3));
}

#[test]
fn resolve_picks_the_asset_of_the_side() {
    let market = sample_market();
    let principal = address(42);
    assert_eq!(resolve(&market, true, &principal).asset, market.long_token);
    assert_eq!(resolve(&market, false, &principal).asset, market.short_token);
}

#[test]
fn resolve_derives_the_associated_account() {
    let market = sample_market();
    let principal = address(42);
    let owner = Pubkey::new_from_array([42; 32]);
    let long = get_associated_token_address(&owner, &Pubkey::new_from_array(market.long_token.bytes));
    let short = get_associated_token_address(&owner, &Pubkey::new_from_array(market.short_token.bytes));
    assert_eq!(resolve(&market, true, &principal).depositor_account.bytes, long.to_bytes());
    assert_eq!(resolve(&market, false, &principal).depositor_account.bytes, short.to_bytes());
    assert_ne!(resolve(&market, true, &principal).depositor_account, principal);
    assert_ne!(resolve(&market, true, &principal).depositor_account, market.long_token);
    assert_ne!(long, short);
}

#[test]
fn resolve_is_deterministic() {
    let market = sample_market();
    let principal = address(5);
    assert_eq!(resolve(&market, true, &principal), resolve(&market, true, &principal));
    assert_eq!(resolve(&market, false, &principal), resolve(&market, false, &principal));
}

#[test]
fn select_matches_resolve_on_the_same_asset() {
    let market = sample_market();
    let principal = address(5);
    assert_eq!(select(&principal, &market.short_token), resolve(&market, false, &principal));
}

use anchor_spl::token::spl_token::instruction::sync_native;
use anchor_spl::token::spl_token::solana_program::program_error::ProgramError;
use anchor_spl::token::spl_token::solana_program::pubkey::Pubkey;
use anchor_spl::token::spl_token::solana_program::system_instruction::transfer;
use gmt::address::{Address, Config};
use gmt::assemble::assemble;
use gmt::error::ErrorKind;
use gmt::instruction::{AccountRef, Instruction};
use gmt::wrap::maybe_wrap;

fn address(fill: u8) -> Address {
    Address::new([fill; 32])
}

fn order_instruction(tag: u8) -> Instruction {
    Instruction {
        program: address(200),
        accounts: vec![AccountRef { address: address(201), is_signer: false, is_writable: true }],
        data: vec![tag, 1, 2, 3],
    }
}

#[test]
fn other_assets_are_never_wrapped() {
    let config = Config::standard();
    assert!(maybe_wrap(&config, &address(1), &address(7), &address(2), 500_000_000).unwrap().is_empty());
    assert!(maybe_wrap(&config, &address(1), &address(7), &address(2), 0).unwrap().is_empty());
    assert!(maybe_wrap(&config, &address(1), &config.token_program, &address(2), u64::MAX).unwrap().is_empty());
}

#[test]
fn nothing_paid_in_means_no_wrap() {
    let config = Config::standard();
    assert!(maybe_wrap(&config, &address(1), &config.native_asset, &address(2), 0).unwrap().is_empty());
}

#[test]
fn native_asset_is_wrapped_by_transfer_then_synchronize() {
    let config = Config::standard();
    let list = maybe_wrap(&config, &address(1), &config.native_asset, &address(2), 500_000_000).unwrap();
    assert_eq!(list.len(), 2);

    assert_eq!(list[0].program, Address::new([0; 32]));
    assert_eq!(
        list[0].accounts,
        vec![
            AccountRef { address: address(1), is_signer: true, is_writable: true },
            AccountRef { address: address(2), is_signer: false, is_writable: true },
        ]
    );
    assert_eq!(list[0].data, vec![2, 0, 0, 0, 0x00, 0x65, 0xcd, 0x1d, 0, 0, 0, 0]);

    assert_eq!(list[1].program, config.token_program);
    assert_eq!(list[1].accounts, vec![AccountRef { address: address(2), is_signer: false, is_writable: true }]);
    assert_eq!(list[1].data, vec![17]);
}

#[test]
fn wrap_agrees_with_the_chain_constructors() {
    let config = Config::standard();
    let amount = 0x0102_0304_0506_0708u64;
    let list = maybe_wrap(&config, &address(11), &config.native_asset, &address(12), amount).unwrap();
    let from = Pubkey::new_from_array([11; 32]);
    let to = Pubkey::new_from_array([12; 32]);
    let moved = transfer(&from, &to, amount);
    let synced = sync_native(&anchor_spl::token::ID, &to).unwrap();
    assert_eq!(list[0].program.bytes, moved.program_id.to_bytes());
    assert_eq!(list[0].data, moved.data);
    assert_eq!(list[0].data, vec![2, 0, 0, 0, 8, 7, 6, 5, 4, 3, 2, 1]);
    assert_eq!(list[0].accounts.len(), moved.accounts.len());
    assert_eq!(list[0].accounts[0].address.bytes, moved.accounts[0].pubkey.to_bytes());
    assert_eq!(list[0].accounts[1].address.bytes, moved.accounts[1].pubkey.to_bytes());
    assert_eq!(list[1].program.bytes, synced.program_id.to_bytes());
    assert_eq!(list[1].data, synced.data);
    assert_eq!(list[1].accounts[0].address.bytes, synced.accounts[0].pubkey.to_bytes());
    assert_eq!(list[1].accounts[0].is_signer, synced.accounts[0].is_signer);
    assert_eq!(list[1].accounts[0].is_writable, synced.accounts[0].is_writable);
}

#[test]
fn wrap_of_the_largest_amount() {
    let config = Config::standard();
    let list = maybe_wrap(&config, &address(1), &config.native_asset, &address(2), u64::MAX).unwrap();
    assert_eq!(list[0].data, vec![2, 0, 0, 0, 255, 255, 255, 255, 255, 255, 255, 255]);
    let one = maybe_wrap(&config, &address(1), &config.native_asset, &address(2), 1).unwrap();
    assert_eq!(one[0].data, vec![2, 0, 0, 0, 1, 0, 0, 0, 0, 0, 0, 0]);
}

#[test]
fn wrap_fails_when_the_token_program_is_another() {
    let config = Config { native_asset: address(50), token_program: address(51) };
    let e = maybe_wrap(&config, &address(1), &address(50), &address(2), 10).unwrap_err();
    assert_eq!(e.kind, ErrorKind::BuildFailed);
    assert_eq!(e.detail, ProgramError::IncorrectProgramId.to_string());
    assert!(maybe_wrap(&config, &address(1), &address(50), &address(2), 0).unwrap().is_empty());
    assert!(maybe_wrap(&config, &address(1), &address(49), &address(2), 10).unwrap().is_empty());
}

#[test]
fn alternate_native_asset_is_honoured() {
    let config = Config { native_asset: address(50), token_program: Config::standard().token_program };
    let list = maybe_wrap(&config, &address(1), &address(50), &address(2), 10).unwrap();
    assert_eq!(list.len(), 2);
    assert!(maybe_wrap(&config, &address(1), &Config::standard().native_asset, &address(2), 10).unwrap().is_empty());
}

#[test]
fn assemble_puts_the_wrap_in_front() {
    let config = Config::standard();
    let wrap = maybe_wrap(&config, &address(1), &config.native_asset, &address(2), 500_000_000).unwrap();
    let order = vec![order_instruction(1), order_instruction(2)];
    let tx = assemble(order.clone(), wrap.clone());
    assert_eq!(tx.len(), 4);
    assert_eq!(tx.wrap_len, 2);
    assert_eq!(tx.instructions[0], wrap[0]);
    assert_eq!(tx.instructions[1], wrap[1]);
    assert_eq!(tx.instructions[0].data, vec![2, 0, 0, 0, 0x00, 0x65, 0xcd, 0x1d, 0, 0, 0, 0]);
    assert_eq!(tx.instructions[1].data, vec![17]);
    assert_eq!(tx.instructions[2..].to_vec(), order);
}

#[test]
fn assemble_without_wrap_is_the_order_alone() {
    let order = vec![order_instruction(1), order_instruction(2), order_instruction(3)];
    let tx = assemble(order.clone(), Vec::new());
    assert_eq!(tx.wrap_len, 0);
    assert_eq!(tx.instructions, order);
}

#[test]
fn assemble_of_nothing_is_empty() {
    let tx = assemble(Vec::new(), Vec::new());
    assert_eq!(tx.len(), 0);
    assert_eq!(tx.wrap_len, 0);
}

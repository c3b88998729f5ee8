//! Instructions as plain values, and the chain's own constructors for the few
//! instructions that the engine adds itself.

use crate::address::{system_program_bytes, token_program_bytes, Address};
use anchor_spl::associated_token::get_associated_token_address;
use anchor_spl::token::spl_token::instruction::sync_native;
use anchor_spl::token::spl_token::solana_program::program_error::ProgramError;
use anchor_spl::token::spl_token::solana_program::pubkey::Pubkey;
use anchor_spl::token::spl_token::solana_program::system_instruction::transfer;
use vstd::prelude::*;

verus! {

/// One account that an instruction touches, and how.
#[derive(Clone, Copy, Debug, PartialEq, Eq)]
pub struct AccountRef {
    pub address: Address,
    pub is_signer: bool,
    pub is_writable: bool,
}

/// One instruction: the program that runs it, the accounts it touches, its payload.
#[derive(Clone, Debug, PartialEq, Eq)]
pub struct Instruction {
    pub program: Address,
    pub accounts: Vec<AccountRef>,
    pub data: Vec<u8>,
}

/// The mathematical value of an [`Instruction`].
pub struct InstructionView {
    pub program: Seq<u8>,
    pub accounts: Seq<AccountRef>,
    pub data: Seq<u8>,
}

impl View for Instruction {
    type V = InstructionView;

    open spec fn view(&self) -> InstructionView {
        InstructionView { program: self.program@, accounts: self.accounts@, data: self.data@ }
    }
}

/// The values of a list of instructions, in order.
pub open spec fn views(list: Seq<Instruction>) -> Seq<InstructionView> {
    list.map_values(|ix: Instruction| ix@)
}

/// The eight bytes of `x`, least significant first.
pub open spec fn le_bytes(x: u64) -> Seq<u8> {
    seq![
        (x % 256) as u8,
        (x / 0x100 % 256) as u8,
        (x / 0x1_0000 % 256) as u8,
        (x / 0x100_0000 % 256) as u8,
        (x / 0x1_0000_0000 % 256) as u8,
        (x / 0x100_0000_0000 % 256) as u8,
        (x / 0x1_0000_0000_0000 % 256) as u8,
        (x / 0x100_0000_0000_0000 % 256) as u8,
    ]
}

/// Whether `ix` moves `amount` of native value from `from` to `to`: run by the
/// system program, on the signing writable source and the writable destination,
/// with the transfer tag followed by the amount.
pub open spec fn is_transfer(ix: InstructionView, from: Address, to: Address, amount: u64) -> bool {
    &&& ix.program == system_program_bytes()
    &&& ix.accounts.len() == 2
    &&& ix.accounts[0].address@ == from@
    &&& ix.accounts[0].is_signer
    &&& ix.accounts[0].is_writable
    &&& ix.accounts[1].address@ == to@
    &&& !ix.accounts[1].is_signer
    &&& ix.accounts[1].is_writable
    &&& ix.data == seq![2u8, 0, 0, 0] + le_bytes(amount)
}

/// Whether `ix` asks `token_program` to bring the wrapped balance of `account`
/// in line with the native value that the account holds.
pub open spec fn is_synchronize(ix: InstructionView, token_program: Address, account: Address) -> bool {
    &&& ix.program == token_program@
    &&& ix.accounts.len() == 1
    &&& ix.accounts[0].address@ == account@
    &&& !ix.accounts[0].is_signer
    &&& ix.accounts[0].is_writable
    &&& ix.data == seq![17u8]
}

/// The account that holds `owner`'s balance of `asset`, as the associated-token
/// program derives it from the two identities.
pub uninterp spec fn associated_account(owner: Seq<u8>, asset: Seq<u8>) -> Seq<u8>;

/// Calls `get_associated_token_address` of `spl_associated_token_account`.
///
/// Trusted: the result is the derived address, a function of the two identities
/// alone. The derivation searches for a bump seed and gives up, by panicking,
/// only if none of 256 candidates lies off the curve.
#[verifier::external_body]
pub(crate) fn derive_associated_account(owner: &Address, asset: &Address) -> (account: Address)
    ensures
        account@ == associated_account(owner@, asset@),
{
    let derived = get_associated_token_address(
        &Pubkey::new_from_array(owner.bytes),
        &Pubkey::new_from_array(asset.bytes),
    );
    Address { bytes: derived.to_bytes() }
}

/// Calls `system_instruction::transfer` of `solana_program`.
///
/// Trusted: the result is the system program's transfer of `amount` from `from`
/// to `to`, as [`is_transfer`] spells it out.
#[verifier::external_body]
pub(crate) fn system_transfer(from: &Address, to: &Address, amount: u64) -> (ix: Instruction)
    ensures
        is_transfer(ix@, *from, *to, amount),
{
    let made = transfer(&Pubkey::new_from_array(from.bytes), &Pubkey::new_from_array(to.bytes), amount);
    Instruction {
        program: Address { bytes: made.program_id.to_bytes() },
        accounts: made.accounts.iter().map(|m| AccountRef {
            address: Address { bytes: m.pubkey.to_bytes() },
            is_signer: m.is_signer,
            is_writable: m.is_writable,
        }).collect(),
        data: made.data,
    }
}

#[verifier::external_type_specification]
#[verifier::external_body]
pub struct ExProgramError(ProgramError);

/// Calls `instruction::sync_native` of `spl_token`.
///
/// Trusted: the call succeeds exactly when `token_program` is the token program
/// itself, and then yields the instruction that [`is_synchronize`] spells out.
#[verifier::external_body]
pub(crate) fn token_synchronize(token_program: &Address, account: &Address) -> (r: Result<
    Instruction,
    ProgramError,
>)
    ensures
        r.is_ok() == (token_program@ == token_program_bytes()),
        r.is_ok() ==> is_synchronize(r.unwrap()@, *token_program, *account),
{
    let made = sync_native(
        &Pubkey::new_from_array(token_program.bytes),
        &Pubkey::new_from_array(account.bytes),
    )?;
    Ok(Instruction {
        program: Address { bytes: made.program_id.to_bytes() },
        accounts: made.accounts.iter().map(|m| AccountRef {
            address: Address { bytes: m.pubkey.to_bytes() },
            is_signer: m.is_signer,
            is_writable: m.is_writable,
        }).collect(),
        data: made.data,
    })
}

/// Calls `to_string` on a `ProgramError` of `solana_program`, which goes
/// through its `Display`.
///
/// Trusted: nothing is claimed of the text.
#[verifier::external_body]
pub(crate) fn program_error_text(cause: &ProgramError) -> (text: String) {
    cause.to_string()
}

} // verus!

//! On-chain instructions as plain values, and the four instructions that the
//! handlers build through the SDK.

use vstd::prelude::*;
use solana_sdk::program_error::ProgramError;
use solana_sdk::pubkey::Pubkey;

verus! {

/// The address of the SPL token program.
pub const TOKEN_PROGRAM_ID: [u8; 32] = [
    6, 221, 246, 225, 215, 101, 161, 147, 217, 203, 225, 70, 206, 235, 121, 172,
    28, 180, 133, 237, 95, 91, 55, 145, 58, 140, 245, 133, 126, 255, 0, 169,
];

/// The address of the rent sysvar.
pub const RENT_SYSVAR_ID: [u8; 32] = [
    6, 167, 213, 23, 25, 44, 92, 81, 33, 140, 201, 76, 61, 74, 241, 127,
    88, 218, 238, 8, 155, 161, 253, 68, 227, 219, 217, 138, 0, 0, 0, 0,
];

/// The address of the system program.
pub const SYSTEM_PROGRAM_ID: [u8; 32] = [
    0, 0, 0, 0, 0, 0, 0, 0, 0, 0, 0, 0, 0, 0, 0, 0,
    0, 0, 0, 0, 0, 0, 0, 0, 0, 0, 0, 0, 0, 0, 0, 0,
];

/// One account that an instruction refers to, with its access flags.
#[derive(Clone, Copy, Debug)]
pub struct AccountRef {
    pub key: [u8; 32],
    pub is_signer: bool,
    pub is_writable: bool,
}

/// An instruction: the program that runs it, the accounts it refers to, in
/// order, and its payload.
#[derive(Debug)]
pub struct RawInstruction {
    pub program_id: [u8; 32],
    pub accounts: Vec<AccountRef>,
    pub data: Vec<u8>,
}

/// The mathematical value of an [`AccountRef`].
pub struct AccountRefView {
    pub key: Seq<u8>,
    pub is_signer: bool,
    pub is_writable: bool,
}

/// The mathematical value of a [`RawInstruction`].
pub struct RawInstructionView {
    pub program_id: Seq<u8>,
    pub accounts: Seq<AccountRefView>,
    pub data: Seq<u8>,
}

impl View for AccountRef {
    type V = AccountRefView;

    open spec fn view(&self) -> AccountRefView {
        AccountRefView { key: self.key@, is_signer: self.is_signer, is_writable: self.is_writable }
    }
}

impl View for RawInstruction {
    type V = RawInstructionView;

    open spec fn view(&self) -> RawInstructionView {
        RawInstructionView {
            program_id: self.program_id@,
            accounts: Seq::new(self.accounts@.len(), |i: int| self.accounts@[i]@),
            data: self.data@,
        }
    }
}

/// An account that the instruction may write to.
pub open spec fn writable(key: Seq<u8>, is_signer: bool) -> AccountRefView {
    AccountRefView { key, is_signer, is_writable: true }
}

/// An account that the instruction only reads.
pub open spec fn readonly(key: Seq<u8>, is_signer: bool) -> AccountRefView {
    AccountRefView { key, is_signer, is_writable: false }
}

/// The eight bytes of `value`, least significant first.
pub open spec fn le_bytes(value: u64) -> Seq<u8> {
    seq![
        (value % 0x100) as u8,
        (value / 0x100 % 0x100) as u8,
        (value / 0x1_0000 % 0x100) as u8,
        (value / 0x100_0000 % 0x100) as u8,
        (value / 0x1_0000_0000 % 0x100) as u8,
        (value / 0x100_0000_0000 % 0x100) as u8,
        (value / 0x1_0000_0000_0000 % 0x100) as u8,
        (value / 0x100_0000_0000_0000 % 0x100) as u8,
    ]
}

/// The token program's instruction that initialises `mint` with `decimals`
/// decimal places, `authority` as its mint authority and no freeze authority:
/// tag 0, the decimals, the authority, and 0 for the absent freeze authority.
pub open spec fn initialize_mint_instruction(
    mint: Seq<u8>,
    authority: Seq<u8>,
    decimals: u8,
) -> RawInstructionView {
    RawInstructionView {
        program_id: TOKEN_PROGRAM_ID@,
        accounts: seq![writable(mint, false), readonly(RENT_SYSVAR_ID@, false)],
        data: seq![0u8, decimals] + authority + seq![0u8],
    }
}

/// The token program's instruction that mints `amount` tokens of `mint` to
/// `destination`, signed by `authority` alone: tag 7 and the amount.
pub open spec fn mint_to_instruction(
    mint: Seq<u8>,
    destination: Seq<u8>,
    authority: Seq<u8>,
    amount: u64,
) -> RawInstructionView {
    RawInstructionView {
        program_id: TOKEN_PROGRAM_ID@,
        accounts: seq![
            writable(mint, false),
            writable(destination, false),
            readonly(authority, true),
        ],
        data: seq![7u8] + le_bytes(amount),
    }
}

/// The token program's instruction that moves `amount` tokens from `source`
/// to `destination`, signed by `authority` alone: tag 3 and the amount.
pub open spec fn token_transfer_instruction(
    source: Seq<u8>,
    destination: Seq<u8>,
    authority: Seq<u8>,
    amount: u64,
) -> RawInstructionView {
    RawInstructionView {
        program_id: TOKEN_PROGRAM_ID@,
        accounts: seq![
            writable(source, false),
            writable(destination, false),
            readonly(authority, true),
        ],
        data: seq![3u8] + le_bytes(amount),
    }
}

/// The system program's instruction that moves `lamports` from `from`, which
/// signs, to `to`: the 32-bit tag 2 and the amount, both least significant
/// byte first.
pub open spec fn system_transfer_instruction(
    from: Seq<u8>,
    to: Seq<u8>,
    lamports: u64,
) -> RawInstructionView {
    RawInstructionView {
        program_id: SYSTEM_PROGRAM_ID@,
        accounts: seq![writable(from, true), writable(to, false)],
        data: seq![2u8, 0u8, 0u8, 0u8] + le_bytes(lamports),
    }
}

/// The SDK's `ProgramError`, carried through unread.
#[verifier::external_type_specification]
#[verifier::external_body]
pub struct ExProgramError(ProgramError);

/// Calls `spl_token::id`. Trusted: it returns [`TOKEN_PROGRAM_ID`].
#[verifier::external_body]
pub(crate) fn token_program_id() -> (id: [u8; 32])
    ensures
        id@ == TOKEN_PROGRAM_ID@,
{
    spl_token::id().to_bytes()
}

/// Calls `spl_token::instruction::initialize_mint` with no freeze authority.
/// Trusted: it succeeds exactly where `program` is the token program, and then
/// returns the instruction described by [`initialize_mint_instruction`].
#[verifier::external_body]
pub(crate) fn build_initialize_mint(
    program: &[u8; 32],
    mint: &[u8; 32],
    authority: &[u8; 32],
    decimals: u8,
) -> (r: Result<RawInstruction, ProgramError>)
    ensures
        r is Ok <==> program@ == TOKEN_PROGRAM_ID@,
        r matches Ok(ix) ==> ix@ == initialize_mint_instruction(mint@, authority@, decimals),
{
    let (program, mint, authority) =
        (Pubkey::from(*program), Pubkey::from(*mint), Pubkey::from(*authority));
    let ix = spl_token::instruction::initialize_mint(&program, &mint, &authority, None, decimals)?;
    let accounts = ix.accounts.iter().map(|a| AccountRef {
        key: a.pubkey.to_bytes(),
        is_signer: a.is_signer,
        is_writable: a.is_writable,
    }).collect();
    Ok(RawInstruction { program_id: ix.program_id.to_bytes(), accounts, data: ix.data })
}

/// Calls `spl_token::instruction::mint_to` with no multisignature signers.
/// Trusted: it succeeds exactly where `program` is the token program, and then
/// returns the instruction described by [`mint_to_instruction`].
#[verifier::external_body]
pub(crate) fn build_mint_to(
    program: &[u8; 32],
    mint: &[u8; 32],
    destination: &[u8; 32],
    authority: &[u8; 32],
    amount: u64,
) -> (r: Result<RawInstruction, ProgramError>)
    ensures
        r is Ok <==> program@ == TOKEN_PROGRAM_ID@,
        r matches Ok(ix) ==> ix@ == mint_to_instruction(mint@, destination@, authority@, amount),
{
    let (program, mint) = (Pubkey::from(*program), Pubkey::from(*mint));
    let (destination, authority) = (Pubkey::from(*destination), Pubkey::from(*authority));
    let ix =
        spl_token::instruction::mint_to(&program, &mint, &destination, &authority, &[], amount)?;
    let accounts = ix.accounts.iter().map(|a| AccountRef {
        key: a.pubkey.to_bytes(),
        is_signer: a.is_signer,
        is_writable: a.is_writable,
    }).collect();
    Ok(RawInstruction { program_id: ix.program_id.to_bytes(), accounts, data: ix.data })
}

/// Calls `spl_token::instruction::transfer` with no multisignature signers.
/// Trusted: it succeeds exactly where `program` is the token program, and then
/// returns the instruction described by [`token_transfer_instruction`].
#[verifier::external_body]
pub(crate) fn build_token_transfer(
    program: &[u8; 32],
    source: &[u8; 32],
    destination: &[u8; 32],
    authority: &[u8; 32],
    amount: u64,
) -> (r: Result<RawInstruction, ProgramError>)
    ensures
        r is Ok <==> program@ == TOKEN_PROGRAM_ID@,
        r matches Ok(ix) ==> ix@ == token_transfer_instruction(
            source@,
            destination@,
            authority@,
            amount,
        ),
{
    let (program, source) = (Pubkey::from(*program), Pubkey::from(*source));
    let (destination, authority) = (Pubkey::from(*destination), Pubkey::from(*authority));
    let ix =
        spl_token::instruction::transfer(&program, &source, &destination, &authority, &[], amount)?;
    let accounts = ix.accounts.iter().map(|a| AccountRef {
        key: a.pubkey.to_bytes(),
        is_signer: a.is_signer,
        is_writable: a.is_writable,
    }).collect();
    Ok(RawInstruction { program_id: ix.program_id.to_bytes(), accounts, data: ix.data })
}

/// Calls `solana_sdk::system_instruction::transfer`. Trusted: it returns the
/// instruction described by [`system_transfer_instruction`].
#[verifier::external_body]
pub(crate) fn build_system_transfer(
    from: &[u8; 32],
    to: &[u8; 32],
    lamports: u64,
) -> (ix: RawInstruction)
    ensures
        ix@ == system_transfer_instruction(from@, to@, lamports),
{
    let (from, to) = (Pubkey::from(*from), Pubkey::from(*to));
    let ix = solana_sdk::system_instruction::transfer(&from, &to, lamports);
    let accounts = ix.accounts.iter().map(|a| AccountRef {
        key: a.pubkey.to_bytes(),
        is_signer: a.is_signer,
        is_writable: a.is_writable,
    }).collect();
    RawInstruction { program_id: ix.program_id.to_bytes(), accounts, data: ix.data }
}

/// Calls `ProgramError`'s `to_string`: the SDK's words for the error, of which
/// nothing is stated.
#[verifier::external_body]
pub(crate) fn program_error_text(error: &ProgramError) -> (text: String) {
    error.to_string()
}

} // verus!

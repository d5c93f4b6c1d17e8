//! The SPL token handlers: initialise a mint, mint tokens, move tokens.

use vstd::prelude::*;
use vstd::string::StringExecFns;
use solana_sdk::program_error::ProgramError;
use crate::address::{address_of, address_text, parse_address};
use crate::codec::{base58_encoding, base64_encode, base64_encoding, is_base58_text};
use crate::envelope::{replied, ApiResponse, ApiResult};
use crate::instruction::{
    build_initialize_mint, build_mint_to, build_token_transfer, initialize_mint_instruction,
    mint_to_instruction, program_error_text, token_program_id, token_transfer_instruction,
    AccountRefView, RawInstruction, RawInstructionView,
};

verus! {

/// One account of an instruction, its address as text.
#[derive(Debug)]
pub struct AccountMetaInfo {
    pub pubkey: String,
    pub is_signer: bool,
    pub is_writable: bool,
}

/// An instruction as the token handlers answer it: addresses in Base58, the
/// payload in Base64.
#[derive(Debug)]
pub struct InstructionData {
    pub program_id: String,
    pub accounts: Vec<AccountMetaInfo>,
    pub instruction_data: String,
}

/// The mathematical value of an [`AccountMetaInfo`].
pub struct AccountMetaInfoView {
    pub pubkey: Seq<char>,
    pub is_signer: bool,
    pub is_writable: bool,
}

/// The mathematical value of an [`InstructionData`].
pub struct InstructionDataView {
    pub program_id: Seq<char>,
    pub accounts: Seq<AccountMetaInfoView>,
    pub instruction_data: Seq<char>,
}

impl View for AccountMetaInfo {
    type V = AccountMetaInfoView;

    open spec fn view(&self) -> AccountMetaInfoView {
        AccountMetaInfoView {
            pubkey: self.pubkey@,
            is_signer: self.is_signer,
            is_writable: self.is_writable,
        }
    }
}

impl View for InstructionData {
    type V = InstructionDataView;

    open spec fn view(&self) -> InstructionDataView {
        InstructionDataView {
            program_id: self.program_id@,
            accounts: Seq::new(self.accounts@.len(), |i: int| self.accounts@[i]@),
            instruction_data: self.instruction_data@,
        }
    }
}

/// How an account is answered: its address in Base58, its flags unchanged.
pub open spec fn account_info_of(account: AccountRefView) -> AccountMetaInfoView {
    AccountMetaInfoView {
        pubkey: base58_encoding(account.key),
        is_signer: account.is_signer,
        is_writable: account.is_writable,
    }
}

/// How an instruction is answered: the program in Base58, the accounts in
/// their order, the payload in Base64.
pub open spec fn instruction_data_of(ix: RawInstructionView) -> InstructionDataView {
    InstructionDataView {
        program_id: base58_encoding(ix.program_id),
        accounts: Seq::new(ix.accounts.len(), |i: int| account_info_of(ix.accounts[i])),
        instruction_data: base64_encoding(ix.data),
    }
}

/// Writes an instruction out for the answer.
pub fn instruction_data(ix: &RawInstruction) -> (out: InstructionData)
    ensures
        out@ == instruction_data_of(ix@),
{
    let mut accounts: Vec<AccountMetaInfo> = Vec::new();
    let mut i: usize = 0;
    while i < ix.accounts.len()
        invariant
            i <= ix.accounts@.len(),
            accounts@.len() == i,
            forall|j: int| 0 <= j < i ==> (#[trigger] accounts@[j])@ == account_info_of(ix.accounts@[j]@),
        decreases ix.accounts@.len() - i,
    {
        let account = &ix.accounts[i];
        accounts.push(
            AccountMetaInfo {
                pubkey: address_text(&account.key),
                is_signer: account.is_signer,
                is_writable: account.is_writable,
            },
        );
        i += 1;
    }
    let out = InstructionData {
        program_id: address_text(&ix.program_id),
        accounts,
        instruction_data: base64_encode(ix.data.as_slice()),
    };
    assert(out@.accounts =~= instruction_data_of(ix@).accounts);
    out
}

/// The error envelope for an instruction that the SDK would not build: the
/// SDK's words behind `Instruction error: `.
pub fn instruction_error(words: &str) -> (r: ApiResponse<()>)
    ensures
        r.is_failure("Instruction error: "@ + words@),
{
    let message = "Instruction error: ".to_owned().concat(words);
    ApiResponse::err(message.as_str())
}

/// What is owed for an instruction that the SDK was asked to build: the
/// instruction written out, or the SDK's error behind the words
/// `Instruction error: `.
pub fn token_instruction_reply(
    built: Result<RawInstruction, ProgramError>,
) -> (res: ApiResult<InstructionData>)
    ensures
        match built {
            Ok(ix) => replied(res, Ok::<InstructionDataView, Seq<char>>(instruction_data_of(ix@))),
            Err(_) => res matches Err(e) && e.is_failure_beginning("Instruction error: "@),
        },
{
    match built {
        Ok(ix) => Ok(ApiResponse::ok(instruction_data(&ix))),
        Err(error) => Err(instruction_error(program_error_text(&error).as_str())),
    }
}

/// A request to initialise a mint.
#[derive(Debug)]
pub struct CreateTokenRequest {
    pub mint_authority: String,
    pub mint: String,
    pub decimals: u8,
}

/// The mathematical value of a [`CreateTokenRequest`].
pub struct CreateTokenRequestView {
    pub mint_authority: Seq<char>,
    pub mint: Seq<char>,
    pub decimals: u8,
}

impl View for CreateTokenRequest {
    type V = CreateTokenRequestView;

    open spec fn view(&self) -> CreateTokenRequestView {
        CreateTokenRequestView {
            mint_authority: self.mint_authority@,
            mint: self.mint@,
            decimals: self.decimals,
        }
    }
}

/// What initialising a mint answers: the mint is read first, then the
/// authority; with both read, the instruction.
pub open spec fn create_token_outcome(req: CreateTokenRequestView) -> Result<
    InstructionDataView,
    Seq<char>,
> {
    match address_of(req.mint) {
        None => Err("Invalid mint pubkey"@),
        Some(mint) => match address_of(req.mint_authority) {
            None => Err("Invalid authority pubkey"@),
            Some(authority) => Ok(
                instruction_data_of(initialize_mint_instruction(mint, authority, req.decimals)),
            ),
        },
    }
}

/// Builds the instruction that initialises a mint.
pub fn create_token(payload: CreateTokenRequest) -> (res: ApiResult<InstructionData>)
    ensures
        replied(res, create_token_outcome(payload@)),
        res is Ok ==> is_base58_text(payload.mint@) && is_base58_text(payload.mint_authority@),
{
    let mint = match parse_address(payload.mint.as_str()) {
        Ok(key) => key,
        Err(_) => {
            return Err(ApiResponse::err("Invalid mint pubkey"));
        },
    };
    let authority = match parse_address(payload.mint_authority.as_str()) {
        Ok(key) => key,
        Err(_) => {
            return Err(ApiResponse::err("Invalid authority pubkey"));
        },
    };
    let program = token_program_id();
    token_instruction_reply(build_initialize_mint(&program, &mint, &authority, payload.decimals))
}

/// A request to mint tokens.
#[derive(Debug)]
pub struct MintTokenRequest {
    pub mint: String,
    pub destination: String,
    pub authority: String,
    pub amount: u64,
}

/// The mathematical value of a [`MintTokenRequest`].
pub struct MintTokenRequestView {
    pub mint: Seq<char>,
    pub destination: Seq<char>,
    pub authority: Seq<char>,
    pub amount: u64,
}

impl View for MintTokenRequest {
    type V = MintTokenRequestView;

    open spec fn view(&self) -> MintTokenRequestView {
        MintTokenRequestView {
            mint: self.mint@,
            destination: self.destination@,
            authority: self.authority@,
            amount: self.amount,
        }
    }
}

/// What minting answers: the mint is read first, then the destination, then
/// the authority; with all three read, the instruction.
pub open spec fn mint_token_outcome(req: MintTokenRequestView) -> Result<
    InstructionDataView,
    Seq<char>,
> {
    match address_of(req.mint) {
        None => Err("Invalid mint pubkey"@),
        Some(mint) => match address_of(req.destination) {
            None => Err("Invalid destination pubkey"@),
            Some(destination) => match address_of(req.authority) {
                None => Err("Invalid authority pubkey"@),
                Some(authority) => Ok(
                    instruction_data_of(
                        mint_to_instruction(mint, destination, authority, req.amount),
                    ),
                ),
            },
        },
    }
}

/// Builds the instruction that mints tokens to an account.
pub fn mint_token(payload: MintTokenRequest) -> (res: ApiResult<InstructionData>)
    ensures
        replied(res, mint_token_outcome(payload@)),
        res is Ok ==> is_base58_text(payload.mint@) && is_base58_text(payload.destination@)
            && is_base58_text(payload.authority@),
{
    let mint = match parse_address(payload.mint.as_str()) {
        Ok(key) => key,
        Err(_) => {
            return Err(ApiResponse::err("Invalid mint pubkey"));
        },
    };
    let destination = match parse_address(payload.destination.as_str()) {
        Ok(key) => key,
        Err(_) => {
            return Err(ApiResponse::err("Invalid destination pubkey"));
        },
    };
    let authority = match parse_address(payload.authority.as_str()) {
        Ok(key) => key,
        Err(_) => {
            return Err(ApiResponse::err("Invalid authority pubkey"));
        },
    };
    let program = token_program_id();
    token_instruction_reply(
        build_mint_to(&program, &mint, &destination, &authority, payload.amount),
    )
}

/// A request to move tokens.
#[derive(Debug)]
pub struct SendTokenRequest {
    pub destination: String,
    pub mint: String,
    pub owner: String,
    pub amount: u64,
}

/// The mathematical value of a [`SendTokenRequest`].
pub struct SendTokenRequestView {
    pub destination: Seq<char>,
    pub mint: Seq<char>,
    pub owner: Seq<char>,
    pub amount: u64,
}

impl View for SendTokenRequest {
    type V = SendTokenRequestView;

    open spec fn view(&self) -> SendTokenRequestView {
        SendTokenRequestView {
            destination: self.destination@,
            mint: self.mint@,
            owner: self.owner@,
            amount: self.amount,
        }
    }
}

/// What moving tokens answers: the mint is read first, then the destination,
/// then the owner; with all three read, the transfer whose source account is
/// the address given as the mint.
pub open spec fn send_token_outcome(req: SendTokenRequestView) -> Result<
    InstructionDataView,
    Seq<char>,
> {
    match address_of(req.mint) {
        None => Err("Invalid mint"@),
        Some(mint) => match address_of(req.destination) {
            None => Err("Invalid destination"@),
            Some(destination) => match address_of(req.owner) {
                None => Err("Invalid owner"@),
                Some(owner) => Ok(
                    instruction_data_of(
                        token_transfer_instruction(mint, destination, owner, req.amount),
                    ),
                ),
            },
        },
    }
}

/// Builds the instruction that moves tokens to an account.
pub fn send_token(payload: SendTokenRequest) -> (res: ApiResult<InstructionData>)
    ensures
        replied(res, send_token_outcome(payload@)),
        res is Ok ==> is_base58_text(payload.mint@) && is_base58_text(payload.destination@)
            && is_base58_text(payload.owner@),
{
    let mint = match parse_address(payload.mint.as_str()) {
        Ok(key) => key,
        Err(_) => {
            return Err(ApiResponse::err("Invalid mint"));
        },
    };
    let destination = match parse_address(payload.destination.as_str()) {
        Ok(key) => key,
        Err(_) => {
            return Err(ApiResponse::err("Invalid destination"));
        },
    };
    let owner = match parse_address(payload.owner.as_str()) {
        Ok(key) => key,
        Err(_) => {
            return Err(ApiResponse::err("Invalid owner"));
        },
    };
    let program = token_program_id();
    token_instruction_reply(
        build_token_transfer(&program, &mint, &destination, &owner, payload.amount),
    )
}

} // verus!

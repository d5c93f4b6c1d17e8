//! The native transfer handler.

use vstd::prelude::*;
use crate::address::{address_of, address_text, parse_address};
use crate::codec::{base58_encoding, base64_encode, base64_encoding, is_base58_text};
use crate::envelope::{replied, ApiResponse, ApiResult};
use crate::instruction::{
    build_system_transfer, system_transfer_instruction, RawInstruction, RawInstructionView,
};

verus! {

/// An instruction as the native transfer handler answers it: the accounts by
/// address alone.
#[derive(Debug)]
pub struct SendSolData {
    pub program_id: String,
    pub accounts: Vec<String>,
    pub instruction_data: String,
}

/// The mathematical value of a [`SendSolData`].
pub struct SendSolDataView {
    pub program_id: Seq<char>,
    pub accounts: Seq<Seq<char>>,
    pub instruction_data: Seq<char>,
}

impl View for SendSolData {
    type V = SendSolDataView;

    open spec fn view(&self) -> SendSolDataView {
        SendSolDataView {
            program_id: self.program_id@,
            accounts: Seq::new(self.accounts@.len(), |i: int| self.accounts@[i]@),
            instruction_data: self.instruction_data@,
        }
    }
}

/// How a native transfer is answered: the program in Base58, the accounts'
/// addresses in Base58 in their order, the payload in Base64.
pub open spec fn send_sol_data_of(ix: RawInstructionView) -> SendSolDataView {
    SendSolDataView {
        program_id: base58_encoding(ix.program_id),
        accounts: Seq::new(ix.accounts.len(), |i: int| base58_encoding(ix.accounts[i].key)),
        instruction_data: base64_encoding(ix.data),
    }
}

/// Writes a native transfer out for the answer.
pub fn send_sol_data(ix: &RawInstruction) -> (out: SendSolData)
    ensures
        out@ == send_sol_data_of(ix@),
{
    let mut accounts: Vec<String> = Vec::new();
    let mut i: usize = 0;
    while i < ix.accounts.len()
        invariant
            i <= ix.accounts@.len(),
            accounts@.len() == i,
            forall|j: int| 0 <= j < i ==> (#[trigger] accounts@[j])@ == base58_encoding(
                ix.accounts@[j].key@,
            ),
        decreases ix.accounts@.len() - i,
    {
        accounts.push(address_text(&ix.accounts[i].key));
        i += 1;
    }
    let out = SendSolData {
        program_id: address_text(&ix.program_id),
        accounts,
        instruction_data: base64_encode(ix.data.as_slice()),
    };
    assert(out@.accounts =~= send_sol_data_of(ix@).accounts);
    out
}

/// A request to move lamports.
#[derive(Debug)]
pub struct SendSolRequest {
    pub from: String,
    pub to: String,
    pub lamports: u64,
}

/// The mathematical value of a [`SendSolRequest`].
pub struct SendSolRequestView {
    pub from: Seq<char>,
    pub to: Seq<char>,
    pub lamports: u64,
}

impl View for SendSolRequest {
    type V = SendSolRequestView;

    open spec fn view(&self) -> SendSolRequestView {
        SendSolRequestView { from: self.from@, to: self.to@, lamports: self.lamports }
    }
}

/// What a native transfer answers: the sender is read first, then the
/// receiver; with both read, the instruction.
pub open spec fn send_sol_outcome(req: SendSolRequestView) -> Result<SendSolDataView, Seq<char>> {
    match address_of(req.from) {
        None => Err("Invalid from"@),
        Some(from) => match address_of(req.to) {
            None => Err("Invalid to"@),
            Some(to) => Ok(send_sol_data_of(system_transfer_instruction(from, to, req.lamports))),
        },
    }
}

/// Builds the instruction that moves lamports between two accounts.
pub fn send_sol(payload: SendSolRequest) -> (res: ApiResult<SendSolData>)
    ensures
        replied(res, send_sol_outcome(payload@)),
        res is Ok ==> is_base58_text(payload.from@) && is_base58_text(payload.to@),
{
    let from = match parse_address(payload.from.as_str()) {
        Ok(key) => key,
        Err(_) => {
            return Err(ApiResponse::err("Invalid from"));
        },
    };
    let to = match parse_address(payload.to.as_str()) {
        Ok(key) => key,
        Err(_) => {
            return Err(ApiResponse::err("Invalid to"));
        },
    };
    let ix = build_system_transfer(&from, &to, payload.lamports);
    Ok(ApiResponse::ok(send_sol_data(&ix)))
}

} // verus!

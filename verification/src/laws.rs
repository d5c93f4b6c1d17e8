//! What holds of the handlers taken together, proved from their contracts.

use vstd::prelude::*;
use crate::address::address_of;
use crate::codec::base58_decoding;
use crate::envelope::{replied, ApiResult};
use crate::keypair::{generated, writes_keypair, KeypairDataView};
use crate::message::{
    sign_message_outcome, signed, verify_message_outcome, SignMessageData, SignMessageDataView,
    SignMessageRequest, SignMessageRequestView, VerifyMessageData, VerifyMessageDataView,
    VerifyMessageRequest, VerifyMessageRequestView,
};
use crate::signing::{ed25519_key_accepted, is_keypair, is_matched_keypair};
use crate::token::{
    create_token_outcome, mint_token_outcome, send_token_outcome, CreateTokenRequest,
    InstructionData, MintTokenRequest, SendTokenRequest,
};
use crate::transfer::{send_sol_outcome, SendSolData, SendSolRequest};

verus! {

/// `res` is the error envelope: no success flag, no payload, a message.
pub open spec fn is_error_reply<T>(res: ApiResult<T>) -> bool {
    &&& res matches Err(e)
    &&& !e.success
    &&& e.data is None
    &&& e.error is Some
}

/// Two replies say the same: both are success envelopes around payloads of one
/// value, or both are error envelopes with one message.
pub open spec fn same_reply<T: View>(a: ApiResult<T>, b: ApiResult<T>) -> bool {
    match (a, b) {
        (Ok(x), Ok(y)) => x.is_success() && y.is_success() && x.data->0@ == y.data->0@,
        (Err(x), Err(y)) => x.error is Some && y.is_failure(x.error->0@),
        _ => false,
    }
}

/// `text` is the Base58 text of a keypair.
pub open spec fn is_keypair_text(text: Seq<char>) -> bool {
    base58_decoding(text) matches Some(bytes) && is_keypair(bytes)
}

/// `text` is the Base58 text of a public key.
pub open spec fn is_public_key_text(text: Seq<char>) -> bool {
    base58_decoding(text) matches Some(bytes) && ed25519_key_accepted(bytes)
}

/// A reply that stands for an outcome is well formed, and is the success
/// envelope exactly where the outcome is a value.
pub proof fn lemma_reply_well_formed<T: View>(res: ApiResult<T>, outcome: Result<T::V, Seq<char>>)
    requires
        replied(res, outcome),
    ensures
        res is Ok <==> outcome is Ok,
        res matches Ok(r) ==> r.is_well_formed() && r.success,
        res matches Err(e) ==> e.is_well_formed() && !e.success,
{
}

/// Two replies that stand for one outcome say the same.
pub proof fn lemma_replies_agree<T: View>(
    a: ApiResult<T>,
    b: ApiResult<T>,
    outcome: Result<T::V, Seq<char>>,
)
    requires
        replied(a, outcome),
        replied(b, outcome),
    ensures
        same_reply(a, b),
{
}

/// Initialising a mint is deterministic: two requests with the same fields
/// are answered with the same program, account list and payload, or with the
/// same error.
pub proof fn lemma_create_token_deterministic(
    p: CreateTokenRequest,
    q: CreateTokenRequest,
    a: ApiResult<InstructionData>,
    b: ApiResult<InstructionData>,
)
    requires
        p@ == q@,
        replied(a, create_token_outcome(p@)),
        replied(b, create_token_outcome(q@)),
    ensures
        same_reply(a, b),
{
    lemma_replies_agree(a, b, create_token_outcome(p@));
}

/// Minting is deterministic: two requests with the same fields are answered
/// with the same program, account list and payload, or with the same error.
pub proof fn lemma_mint_token_deterministic(
    p: MintTokenRequest,
    q: MintTokenRequest,
    a: ApiResult<InstructionData>,
    b: ApiResult<InstructionData>,
)
    requires
        p@ == q@,
        replied(a, mint_token_outcome(p@)),
        replied(b, mint_token_outcome(q@)),
    ensures
        same_reply(a, b),
{
    lemma_replies_agree(a, b, mint_token_outcome(p@));
}

/// Moving tokens is deterministic: two requests with the same fields are
/// answered with the same program, account list and payload, or with the same
/// error.
pub proof fn lemma_send_token_deterministic(
    p: SendTokenRequest,
    q: SendTokenRequest,
    a: ApiResult<InstructionData>,
    b: ApiResult<InstructionData>,
)
    requires
        p@ == q@,
        replied(a, send_token_outcome(p@)),
        replied(b, send_token_outcome(q@)),
    ensures
        same_reply(a, b),
{
    lemma_replies_agree(a, b, send_token_outcome(p@));
}

/// A native transfer is deterministic: two requests with the same fields are
/// answered with the same program, account list and payload, or with the same
/// error.
pub proof fn lemma_send_sol_deterministic(
    p: SendSolRequest,
    q: SendSolRequest,
    a: ApiResult<SendSolData>,
    b: ApiResult<SendSolData>,
)
    requires
        p@ == q@,
        replied(a, send_sol_outcome(p@)),
        replied(b, send_sol_outcome(q@)),
    ensures
        same_reply(a, b),
{
    lemma_replies_agree(a, b, send_sol_outcome(p@));
}

/// A request to initialise a mint in which the mint or the authority stands
/// for no address is answered with the error envelope.
pub proof fn lemma_create_token_rejects_bad_key(
    payload: CreateTokenRequest,
    res: ApiResult<InstructionData>,
)
    requires
        replied(res, create_token_outcome(payload@)),
        address_of(payload.mint@) is None || address_of(payload.mint_authority@) is None,
    ensures
        is_error_reply(res),
{
}

/// A request to mint in which the mint, the destination or the authority
/// stands for no address is answered with the error envelope.
pub proof fn lemma_mint_token_rejects_bad_key(
    payload: MintTokenRequest,
    res: ApiResult<InstructionData>,
)
    requires
        replied(res, mint_token_outcome(payload@)),
        address_of(payload.mint@) is None || address_of(payload.destination@) is None
            || address_of(payload.authority@) is None,
    ensures
        is_error_reply(res),
{
}

/// A request to move tokens in which the mint, the destination or the owner
/// stands for no address is answered with the error envelope.
pub proof fn lemma_send_token_rejects_bad_key(
    payload: SendTokenRequest,
    res: ApiResult<InstructionData>,
)
    requires
        replied(res, send_token_outcome(payload@)),
        address_of(payload.mint@) is None || address_of(payload.destination@) is None
            || address_of(payload.owner@) is None,
    ensures
        is_error_reply(res),
{
}

/// A request to move lamports in which the sender or the receiver stands for
/// no address is answered with the error envelope.
pub proof fn lemma_send_sol_rejects_bad_key(payload: SendSolRequest, res: ApiResult<SendSolData>)
    requires
        replied(res, send_sol_outcome(payload@)),
        address_of(payload.from@) is None || address_of(payload.to@) is None,
    ensures
        is_error_reply(res),
{
}

/// A request to sign whose secret is not the text of a keypair is answered
/// with the error envelope.
pub proof fn lemma_sign_message_rejects_bad_key(
    payload: SignMessageRequest,
    res: ApiResult<SignMessageData>,
)
    requires
        replied(res, sign_message_outcome(payload@)),
        !is_keypair_text(payload.secret@),
    ensures
        is_error_reply(res),
{
}

/// A request to check a signature whose public key is not the text of one is
/// answered with the error envelope.
pub proof fn lemma_verify_message_rejects_bad_key(
    payload: VerifyMessageRequest,
    res: ApiResult<VerifyMessageData>,
)
    requires
        replied(res, verify_message_outcome(payload@)),
        !is_public_key_text(payload.pubkey@),
    ensures
        is_error_reply(res),
{
}

/// What the signing handler hands out is what its outcome says.
pub proof fn lemma_signed_is_outcome(req: SignMessageRequestView, out: SignMessageDataView)
    requires
        signed(req, out),
    ensures
        sign_message_outcome(req) == Ok::<SignMessageDataView, Seq<char>>(out),
{
}

/// A signature made by the signing handler with a keypair whose public key
/// belongs to its secret seed is found valid by the checking handler, for the
/// same message and the public key that the signing handler answered.
pub proof fn lemma_signed_message_verifies(req: SignMessageRequestView, out: SignMessageDataView)
    requires
        signed(req, out),
        is_matched_keypair(base58_decoding(req.secret)->0),
    ensures
        verify_message_outcome(
            VerifyMessageRequestView {
                message: req.message,
                signature: out.signature,
                pubkey: out.public_key,
            },
        ) == Ok::<VerifyMessageDataView, Seq<char>>(
            VerifyMessageDataView { valid: true, message: req.message, pubkey: out.public_key },
        ),
{
}

/// The secret of a generated keypair is accepted by the signing handler, for
/// every message.
pub proof fn lemma_generated_secret_signs(keys: KeypairDataView, message: Seq<char>)
    requires
        generated(keys),
    ensures
        sign_message_outcome(SignMessageRequestView { message, secret: keys.secret }) is Ok,
{
    let keypair = choose|keypair: Seq<u8>|
        is_matched_keypair(keypair) && #[trigger] writes_keypair(keys, keypair);
    assert(base58_decoding(keys.secret) == Some(keypair));
}

/// Round trip: a message signed with the secret of a generated keypair is
/// found valid under that keypair's public key.
pub proof fn lemma_generated_keypair_round_trip(
    keys: KeypairDataView,
    message: Seq<char>,
    out: SignMessageDataView,
)
    requires
        generated(keys),
        signed(SignMessageRequestView { message, secret: keys.secret }, out),
    ensures
        out.public_key == keys.pubkey,
        verify_message_outcome(
            VerifyMessageRequestView { message, signature: out.signature, pubkey: keys.pubkey },
        ) == Ok::<VerifyMessageDataView, Seq<char>>(
            VerifyMessageDataView { valid: true, message, pubkey: keys.pubkey },
        ),
{
    let keypair = choose|keypair: Seq<u8>|
        is_matched_keypair(keypair) && #[trigger] writes_keypair(keys, keypair);
    assert(base58_decoding(keys.secret) == Some(keypair));
    lemma_signed_message_verifies(SignMessageRequestView { message, secret: keys.secret }, out);
}

} // verus!

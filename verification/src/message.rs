//! The message handlers: sign a text with a keypair, and check a signature
//! against a public key.

use vstd::prelude::*;
use vstd::slice::slice_subrange;
use vstd::utf8::encode_utf8;
use crate::codec::{
    base58_decode, base58_decoding, base58_encode, base58_encoding, base58_form, base64_decode,
    base64_decoding, base64_encode, base64_encoding, base64_form, is_base58_text,
};
use crate::envelope::{replied, ApiResponse, ApiResult};
use crate::signing::{
    check_public_key, check_signature, ed25519_key_accepted, ed25519_signature, ed25519_verifies,
    is_keypair, is_matched_keypair, is_signature, public_half, sign_detached, verify_detached,
    KEYPAIR_LEN, KEY_LEN,
};

verus! {

/// A request to sign a message.
#[derive(Debug)]
pub struct SignMessageRequest {
    pub message: String,
    pub secret: String,
}

/// The mathematical value of a [`SignMessageRequest`].
pub struct SignMessageRequestView {
    pub message: Seq<char>,
    pub secret: Seq<char>,
}

impl View for SignMessageRequest {
    type V = SignMessageRequestView;

    open spec fn view(&self) -> SignMessageRequestView {
        SignMessageRequestView { message: self.message@, secret: self.secret@ }
    }
}

/// A signed message: the signature in Base64, the signer's public key in
/// Base58, and the message.
#[derive(Debug)]
pub struct SignMessageData {
    pub signature: String,
    pub public_key: String,
    pub message: String,
}

/// The mathematical value of a [`SignMessageData`].
pub struct SignMessageDataView {
    pub signature: Seq<char>,
    pub public_key: Seq<char>,
    pub message: Seq<char>,
}

impl View for SignMessageData {
    type V = SignMessageDataView;

    open spec fn view(&self) -> SignMessageDataView {
        SignMessageDataView {
            signature: self.signature@,
            public_key: self.public_key@,
            message: self.message@,
        }
    }
}

/// What signing answers: the secret is decoded first, then read as a keypair;
/// with the pair read, the signature of the message's UTF-8 bytes, the pair's
/// public key, and the message.
pub open spec fn sign_message_outcome(req: SignMessageRequestView) -> Result<
    SignMessageDataView,
    Seq<char>,
> {
    match base58_decoding(req.secret) {
        None => Err("Invalid secret"@),
        Some(keypair) => if is_keypair(keypair) {
            Ok(
                SignMessageDataView {
                    signature: base64_encoding(
                        ed25519_signature(keypair, encode_utf8(req.message)),
                    ),
                    public_key: base58_encoding(public_half(keypair)),
                    message: req.message,
                },
            )
        } else {
            Err("Invalid secret bytes"@)
        },
    }
}

/// `out` is a signed message as the signing handler hands it out for `req`:
/// the outcome above, whose two texts decode back to the signature and to the
/// public key, whose signature can be read as one, and is valid under that
/// public key where the key belongs to the pair's secret seed.
pub open spec fn signed(req: SignMessageRequestView, out: SignMessageDataView) -> bool {
    match base58_decoding(req.secret) {
        None => false,
        Some(keypair) => {
            let message = encode_utf8(req.message);
            let signature = ed25519_signature(keypair, message);
            &&& is_keypair(keypair)
            &&& out.message == req.message
            &&& base58_form(out.public_key, public_half(keypair))
            &&& base64_form(out.signature, signature)
            &&& is_signature(signature)
            &&& is_matched_keypair(keypair) ==> ed25519_verifies(
                public_half(keypair),
                message,
                signature,
            )
        },
    }
}

/// Signs a message with the keypair given in Base58.
pub fn sign_message(payload: SignMessageRequest) -> (res: ApiResult<SignMessageData>)
    ensures
        replied(res, sign_message_outcome(payload@)),
        res matches Ok(r) ==> signed(payload@, r.data->0@),
        res is Ok ==> is_base58_text(payload.secret@),
{
    let keypair = match base58_decode(payload.secret.as_str()) {
        Ok(bytes) => bytes,
        Err(_) => {
            return Err(ApiResponse::err("Invalid secret"));
        },
    };
    let signature = match sign_detached(keypair.as_slice(), payload.message.as_str().as_bytes()) {
        Ok(bytes) => bytes,
        Err(_) => {
            return Err(ApiResponse::err("Invalid secret bytes"));
        },
    };
    let public = slice_subrange(keypair.as_slice(), KEY_LEN, KEYPAIR_LEN);
    let out = SignMessageData {
        signature: base64_encode(signature.as_slice()),
        public_key: base58_encode(public),
        message: payload.message,
    };
    Ok(ApiResponse::ok(out))
}

/// A request to check a signature.
#[derive(Debug)]
pub struct VerifyMessageRequest {
    pub message: String,
    pub signature: String,
    pub pubkey: String,
}

/// The mathematical value of a [`VerifyMessageRequest`].
pub struct VerifyMessageRequestView {
    pub message: Seq<char>,
    pub signature: Seq<char>,
    pub pubkey: Seq<char>,
}

impl View for VerifyMessageRequest {
    type V = VerifyMessageRequestView;

    open spec fn view(&self) -> VerifyMessageRequestView {
        VerifyMessageRequestView {
            message: self.message@,
            signature: self.signature@,
            pubkey: self.pubkey@,
        }
    }
}

/// The verdict on a signature, with the message and the public key it was
/// checked against.
#[derive(Debug)]
pub struct VerifyMessageData {
    pub valid: bool,
    pub message: String,
    pub pubkey: String,
}

/// The mathematical value of a [`VerifyMessageData`].
pub struct VerifyMessageDataView {
    pub valid: bool,
    pub message: Seq<char>,
    pub pubkey: Seq<char>,
}

impl View for VerifyMessageData {
    type V = VerifyMessageDataView;

    open spec fn view(&self) -> VerifyMessageDataView {
        VerifyMessageDataView { valid: self.valid, message: self.message@, pubkey: self.pubkey@ }
    }
}

/// What checking answers: the public key is decoded first, then the
/// signature; then the key's bytes are read, then the signature's; with both
/// read, whether the signature is valid for the message's UTF-8 bytes.
pub open spec fn verify_message_outcome(req: VerifyMessageRequestView) -> Result<
    VerifyMessageDataView,
    Seq<char>,
> {
    match base58_decoding(req.pubkey) {
        None => Err("Invalid pubkey"@),
        Some(key) => match base64_decoding(req.signature) {
            None => Err("Invalid signature"@),
            Some(signature) => if !ed25519_key_accepted(key) {
                Err("Invalid pubkey bytes"@)
            } else if !is_signature(signature) {
                Err("Invalid signature bytes"@)
            } else {
                Ok(
                    VerifyMessageDataView {
                        valid: ed25519_verifies(key, encode_utf8(req.message), signature),
                        message: req.message,
                        pubkey: req.pubkey,
                    },
                )
            },
        },
    }
}

/// Checks a Base64 signature of a message against a Base58 public key.
pub fn verify_message(payload: VerifyMessageRequest) -> (res: ApiResult<VerifyMessageData>)
    ensures
        replied(res, verify_message_outcome(payload@)),
        res is Ok ==> is_base58_text(payload.pubkey@),
{
    let key = match base58_decode(payload.pubkey.as_str()) {
        Ok(bytes) => bytes,
        Err(_) => {
            return Err(ApiResponse::err("Invalid pubkey"));
        },
    };
    let signature = match base64_decode(payload.signature.as_str()) {
        Ok(bytes) => bytes,
        Err(_) => {
            return Err(ApiResponse::err("Invalid signature"));
        },
    };
    if check_public_key(key.as_slice()).is_err() {
        return Err(ApiResponse::err("Invalid pubkey bytes"));
    }
    if check_signature(signature.as_slice()).is_err() {
        return Err(ApiResponse::err("Invalid signature bytes"));
    }
    let valid = verify_detached(
        key.as_slice(),
        payload.message.as_str().as_bytes(),
        signature.as_slice(),
    );
    Ok(ApiResponse::ok(VerifyMessageData { valid, message: payload.message, pubkey: payload.pubkey }))
}

} // verus!

//! Detached Ed25519 signatures over plain bytes.
//!
//! A keypair is 64 bytes: the 32-byte secret seed, then the 32-byte public
//! key. A signature is 64 bytes. The curve arithmetic is the `ed25519_dalek`
//! crate's; this module names its results and states what the handlers rely
//! on.

use vstd::prelude::*;
use ed25519_dalek::SignatureError;

verus! {

/// The number of bytes of a secret seed, and of a public key.
pub const KEY_LEN: usize = 32;

/// The number of bytes of a keypair.
pub const KEYPAIR_LEN: usize = 64;

/// The number of bytes of a signature.
pub const SIGNATURE_LEN: usize = 64;

/// Whether `bytes` are a public key: whether
/// `ed25519_dalek::PublicKey::from_bytes(bytes)` succeeds.
pub uninterp spec fn ed25519_key_accepted(bytes: Seq<u8>) -> bool;

/// The public key that belongs to the secret seed `secret`: the bytes of what
/// `ed25519_dalek::PublicKey::from` makes of that secret key.
pub uninterp spec fn ed25519_public_key(secret: Seq<u8>) -> Seq<u8>;

/// The signature of `message` under `keypair`: the bytes of what
/// `ed25519_dalek::Keypair::sign` returns for the keypair read from `keypair`.
pub uninterp spec fn ed25519_signature(keypair: Seq<u8>, message: Seq<u8>) -> Seq<u8>;

/// Whether `signature` is valid for `message` under the public key `key`:
/// whether `ed25519_dalek::PublicKey::verify` succeeds for the key and the
/// signature read from those bytes.
pub uninterp spec fn ed25519_verifies(key: Seq<u8>, message: Seq<u8>, signature: Seq<u8>) -> bool;

/// The secret seed of a keypair.
pub open spec fn secret_half(keypair: Seq<u8>) -> Seq<u8> {
    keypair.subrange(0, KEY_LEN as int)
}

/// The public key of a keypair.
pub open spec fn public_half(keypair: Seq<u8>) -> Seq<u8> {
    keypair.subrange(KEY_LEN as int, KEYPAIR_LEN as int)
}

/// `bytes` can be read as a keypair: 64 bytes whose second half is a public
/// key. The two halves need not belong together.
pub open spec fn is_keypair(bytes: Seq<u8>) -> bool {
    &&& bytes.len() == KEYPAIR_LEN
    &&& ed25519_key_accepted(public_half(bytes))
}

/// `bytes` are a keypair whose public key is the one that belongs to its
/// secret seed.
pub open spec fn is_matched_keypair(bytes: Seq<u8>) -> bool {
    &&& is_keypair(bytes)
    &&& public_half(bytes) == ed25519_public_key(secret_half(bytes))
}

/// `bytes` can be read as a signature: 64 bytes, the three highest bits of the
/// last one clear.
pub open spec fn is_signature(bytes: Seq<u8>) -> bool {
    &&& bytes.len() == SIGNATURE_LEN
    &&& (bytes[SIGNATURE_LEN - 1] & 0xe0) == 0
}

/// The error of `ed25519_dalek`, carried through unread.
#[verifier::external_type_specification]
#[verifier::external_body]
pub struct ExSignatureError(SignatureError);

/// A keypair fresh from the generator: its public key, and the 64 bytes of
/// the pair.
pub struct FreshKeypair {
    pub public: [u8; 32],
    pub keypair: [u8; 64],
}

/// Calls `solana_sdk::signer::keypair::Keypair::new`, which draws the secret
/// seed from the operating system's generator, and reads the pair out with
/// `pubkey` and `to_bytes`. Trusted: whatever seed is drawn, the bytes are a
/// keypair whose public key belongs to its seed, and `pubkey` is that public
/// key.
#[verifier::external_body]
pub(crate) fn new_keypair() -> (fresh: FreshKeypair)
    ensures
        is_matched_keypair(fresh.keypair@),
        fresh.public@ == ed25519_public_key(secret_half(fresh.keypair@)),
{
    let keypair = solana_sdk::signer::keypair::Keypair::new();
    FreshKeypair {
        public: solana_sdk::signer::Signer::pubkey(&keypair).to_bytes(),
        keypair: keypair.to_bytes(),
    }
}

/// Calls `ed25519_dalek::PublicKey::from_bytes` and lets the key go. Trusted:
/// it succeeds exactly on the bytes that [`ed25519_key_accepted`] names, and
/// only on 32 bytes.
#[verifier::external_body]
pub(crate) fn check_public_key(bytes: &[u8]) -> (r: Result<(), SignatureError>)
    ensures
        r is Ok <==> ed25519_key_accepted(bytes@),
        r is Ok ==> bytes@.len() == KEY_LEN,
{
    ed25519_dalek::PublicKey::from_bytes(bytes).map(|_| ())
}

/// Calls `ed25519_dalek::Signature::from_bytes` and lets the signature go.
/// Trusted: it succeeds exactly on 64 bytes of which the last has its three
/// highest bits clear.
#[verifier::external_body]
pub(crate) fn check_signature(bytes: &[u8]) -> (r: Result<(), SignatureError>)
    ensures
        r is Ok <==> is_signature(bytes@),
{
    ed25519_dalek::Signature::from_bytes(bytes).map(|_| ())
}

/// Calls `ed25519_dalek::Keypair::from_bytes` and signs `message` with the
/// pair. Trusted: the pair is read exactly where the bytes are 64 and the
/// second half is a public key; the signature is then the one that
/// [`ed25519_signature`] names, can itself be read as a signature, and is
/// valid under the pair's public key where that key belongs to the pair's
/// seed.
#[verifier::external_body]
pub(crate) fn sign_detached(keypair: &[u8], message: &[u8]) -> (r: Result<Vec<u8>, SignatureError>)
    ensures
        r is Ok <==> is_keypair(keypair@),
        r matches Ok(signature) ==> {
            &&& signature@ == ed25519_signature(keypair@, message@)
            &&& is_signature(signature@)
            &&& is_matched_keypair(keypair@) ==> ed25519_verifies(
                public_half(keypair@),
                message@,
                signature@,
            )
        },
{
    let pair = ed25519_dalek::Keypair::from_bytes(keypair)?;
    Ok(ed25519_dalek::Signer::sign(&pair, message).to_bytes().to_vec())
}

/// Reads `key` with `ed25519_dalek::PublicKey::from_bytes` and `signature`
/// with `ed25519_dalek::Signature::from_bytes`, and calls
/// `ed25519_dalek::PublicKey::verify`. Trusted: the answer is `true` exactly
/// where both are read and the signature is the valid one that
/// [`ed25519_verifies`] names.
#[verifier::external_body]
pub(crate) fn verify_detached(key: &[u8], message: &[u8], signature: &[u8]) -> (valid: bool)
    ensures
        valid == (ed25519_key_accepted(key@) && is_signature(signature@) && ed25519_verifies(
            key@,
            message@,
            signature@,
        )),
{
    ed25519_dalek::PublicKey::from_bytes(key).and_then(|key|
        ed25519_dalek::Signature::from_bytes(signature).and_then(|signature|
            ed25519_dalek::Verifier::verify(&key, message, &signature))).is_ok()
}

} // verus!

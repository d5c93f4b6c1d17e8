//! The key generation handler.

use vstd::prelude::*;
use crate::address::address_text;
use crate::codec::{base58_encode, base58_form};
use crate::envelope::{ApiResponse, ApiResult};
use crate::signing::{is_matched_keypair, new_keypair, public_half, FreshKeypair};

verus! {

/// A keypair as the handler answers it: the public key and the 64-byte pair,
/// both in Base58.
#[derive(Debug)]
pub struct KeypairData {
    pub pubkey: String,
    pub secret: String,
}

/// The mathematical value of a [`KeypairData`].
pub struct KeypairDataView {
    pub pubkey: Seq<char>,
    pub secret: Seq<char>,
}

impl View for KeypairData {
    type V = KeypairDataView;

    open spec fn view(&self) -> KeypairDataView {
        KeypairDataView { pubkey: self.pubkey@, secret: self.secret@ }
    }
}

/// `out` is the written form of the pair `keypair`: its secret is the Base58
/// form of the pair, its public key the Base58 form of the pair's second half.
pub open spec fn writes_keypair(out: KeypairDataView, keypair: Seq<u8>) -> bool {
    &&& base58_form(out.secret, keypair)
    &&& base58_form(out.pubkey, public_half(keypair))
}

/// `out` is an answer of the generator: the written form of some keypair whose
/// public key belongs to its secret seed.
pub open spec fn generated(out: KeypairDataView) -> bool {
    exists|keypair: Seq<u8>| is_matched_keypair(keypair) && #[trigger] writes_keypair(out, keypair)
}

/// Writes a fresh keypair out for the answer.
pub fn keypair_data(fresh: &FreshKeypair) -> (out: KeypairData)
    ensures
        base58_form(out@.pubkey, fresh.public@),
        base58_form(out@.secret, fresh.keypair@),
{
    let pubkey = address_text(&fresh.public);
    let secret = base58_encode(fresh.keypair.as_slice());
    KeypairData { pubkey, secret }
}

/// Generates a keypair. The answer is always the success envelope, around a
/// pair that the generator made.
pub fn generate_keypair() -> (res: ApiResult<KeypairData>)
    ensures
        res matches Ok(r) && r.is_success() && generated(r.data->0@),
{
    let fresh = new_keypair();
    let out = keypair_data(&fresh);
    assert(writes_keypair(out@, fresh.keypair@));
    Ok(ApiResponse::ok(out))
}

} // verus!

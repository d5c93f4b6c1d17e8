//! Account addresses: 32 bytes, written as Base58 text of at most 44
//! characters.

use vstd::prelude::*;
use std::str::FromStr;
use solana_sdk::pubkey::{ParsePubkeyError, Pubkey};
use crate::codec::{base58_decoding, base58_encoding, is_base58_text};

verus! {

/// The number of bytes of an address.
pub const ADDRESS_LEN: usize = 32;

/// The longest text that stands for an address.
pub const MAX_ADDRESS_TEXT_LEN: usize = 44;

/// The address that `text` stands for: the 32 bytes that it decodes to, where
/// it is no longer than 44 characters and decodes to exactly 32 bytes.
pub open spec fn address_of(text: Seq<char>) -> Option<Seq<u8>> {
    if text.len() <= MAX_ADDRESS_TEXT_LEN {
        match base58_decoding(text) {
            Some(bytes) => if bytes.len() == ADDRESS_LEN {
                Some(bytes)
            } else {
                None
            },
            None => None,
        }
    } else {
        None
    }
}

/// The error of `Pubkey::from_str`, carried through unread.
#[verifier::external_type_specification]
#[verifier::external_body]
pub struct ExParsePubkeyError(ParsePubkeyError);

/// Calls `Pubkey::from_str` and hands the key out as its bytes. Trusted: it
/// succeeds exactly on the texts that stand for an address, all of them made
/// of Base58 characters alone, and then returns that address.
#[verifier::external_body]
pub(crate) fn parse_address(text: &str) -> (r: Result<[u8; 32], ParsePubkeyError>)
    ensures
        r is Ok <==> address_of(text@) is Some,
        r matches Ok(key) ==> address_of(text@) == Some(key@),
        r is Ok ==> is_base58_text(text@),
{
    Pubkey::from_str(text).map(|key| key.to_bytes())
}

/// Calls `Pubkey`'s `to_string`. Trusted: the text returned is the Base58
/// text of the key's 32 bytes, and stands for that address.
#[verifier::external_body]
pub(crate) fn address_text(key: &[u8; 32]) -> (text: String)
    ensures
        text@ == base58_encoding(key@),
        address_of(text@) == Some(key@),
{
    Pubkey::from(*key).to_string()
}

} // verus!

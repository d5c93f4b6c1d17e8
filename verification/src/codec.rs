//! Text encodings of byte strings: Base58 in the Bitcoin alphabet and
//! standard padded Base64, both computed by the crates that define them.

use vstd::prelude::*;

verus! {

/// The Base58 text of `bytes`: what `bs58::encode(bytes).into_string()` returns.
pub uninterp spec fn base58_encoding(bytes: Seq<u8>) -> Seq<char>;

/// The bytes that the Base58 text `text` stands for, or `None` where it stands
/// for none: what `bs58::decode(text).into_vec()` returns, less the error's
/// detail.
pub uninterp spec fn base58_decoding(text: Seq<char>) -> Option<Seq<u8>>;

/// The Base64 text of `bytes`: what `base64::encode(bytes)` returns.
pub uninterp spec fn base64_encoding(bytes: Seq<u8>) -> Seq<char>;

/// The bytes that the Base64 text `text` stands for, or `None` where it stands
/// for none: what `base64::decode(text)` returns, less the error's detail.
pub uninterp spec fn base64_decoding(text: Seq<char>) -> Option<Seq<u8>>;

/// A character of the Base58 alphabet: the digits and letters without `0`,
/// `O`, `I` and `l`.
pub open spec fn is_base58_char(c: char) -> bool {
    ||| '1' <= c <= '9'
    ||| 'A' <= c <= 'H'
    ||| 'J' <= c <= 'N'
    ||| 'P' <= c <= 'Z'
    ||| 'a' <= c <= 'k'
    ||| 'm' <= c <= 'z'
}

/// Every character of `text` is of the Base58 alphabet.
pub open spec fn is_base58_text(text: Seq<char>) -> bool {
    forall|i: int| 0 <= i < text.len() ==> is_base58_char(#[trigger] text[i])
}

/// `text` is the Base58 form of `bytes`, and decodes back to them.
pub open spec fn base58_form(text: Seq<char>, bytes: Seq<u8>) -> bool {
    &&& text == base58_encoding(bytes)
    &&& base58_decoding(text) == Some(bytes)
}

/// `text` is the Base64 form of `bytes`, and decodes back to them.
pub open spec fn base64_form(text: Seq<char>, bytes: Seq<u8>) -> bool {
    &&& text == base64_encoding(bytes)
    &&& base64_decoding(text) == Some(bytes)
}

/// The error of `bs58::decode`, carried through unread.
#[verifier::external_type_specification]
#[verifier::external_body]
pub struct ExBase58DecodeError(bs58::decode::Error);

/// The error of `base64::decode`, carried through unread.
#[verifier::external_type_specification]
#[verifier::external_body]
pub struct ExBase64DecodeError(base64::DecodeError);

/// Calls `bs58::encode(..).into_string()`. Trusted: the text returned is the
/// one named by [`base58_encoding`], and `bs58::decode` gives the bytes back
/// from it.
#[verifier::external_body]
pub(crate) fn base58_encode(bytes: &[u8]) -> (text: String)
    ensures
        text@ == base58_encoding(bytes@),
        base58_decoding(text@) == Some(bytes@),
{
    bs58::encode(bytes).into_string()
}

/// Calls `bs58::decode(..).into_vec()`. Trusted: it succeeds exactly where
/// [`base58_decoding`] names some bytes, and then returns them; it succeeds
/// exactly on the texts made of Base58 characters alone.
#[verifier::external_body]
pub(crate) fn base58_decode(text: &str) -> (r: Result<Vec<u8>, bs58::decode::Error>)
    ensures
        r is Ok <==> base58_decoding(text@) is Some,
        r is Ok <==> is_base58_text(text@),
        r matches Ok(bytes) ==> base58_decoding(text@) == Some(bytes@),
{
    bs58::decode(text).into_vec()
}

/// Calls `base64::encode`. Trusted: the text returned is the one named by
/// [`base64_encoding`], and `base64::decode` gives the bytes back from it.
#[verifier::external_body]
pub(crate) fn base64_encode(bytes: &[u8]) -> (text: String)
    ensures
        text@ == base64_encoding(bytes@),
        base64_decoding(text@) == Some(bytes@),
{
    #[allow(deprecated)]
    base64::encode(bytes)
}

/// Calls `base64::decode`. Trusted: it succeeds exactly where
/// [`base64_decoding`] names some bytes, and then returns them.
#[verifier::external_body]
pub(crate) fn base64_decode(text: &str) -> (r: Result<Vec<u8>, base64::DecodeError>)
    ensures
        r is Ok <==> base64_decoding(text@) is Some,
        r matches Ok(bytes) ==> base64_decoding(text@) == Some(bytes@),
{
    #[allow(deprecated)]
    base64::decode(text)
}

} // verus!

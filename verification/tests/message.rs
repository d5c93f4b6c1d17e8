use solana_api::envelope::ApiResponse;
use solana_api::message::{
    sign_message, verify_message, SignMessageData, SignMessageRequest, VerifyMessageData,
    VerifyMessageRequest,
};

// The first two keypairs of RFC 8032, section 7.1, seed then public key.
const SECRET_ONE: &str =
    "49W385L4rePHy6PAaQUovbD2aacgN4HsKXSMeUzRg4fmwXszN91JuMFrQRj3vMDpZuRF3ZknQBuRBoWQJEfXstMw";
const PUBLIC_ONE: &str = "FVen3X669xLzsi6N2V91DoiyzHzg1uAgqiT8jZ9nS96Z";
const SECRET_TWO: &str =
    "2Y4QjyJVZf9tTmTPP1SY9ACpFYTo7brW9iCQ8SunQht5yQ2r1U9KsVv5aMsCGnzj3NR8KG9P3NY7FKBiYbbTJ2no";
const PUBLIC_TWO: &str = "586Z7H2vpX9qNhN2T4e9Utugie3ogjbxzGaMtM3E6HR5";

// The seed of the first keypair with the public key of the second.
const SECRET_MISMATCHED: &str =
    "49W385L4rePHy6PAaQUovbD2aacgN4HsKXSMeUzRg4fmmAKmRtx9Zv4guQziLvixpzbwmuov52LhLMddT2YyY2gT";

// The seed of the first keypair with 32 bytes that are no point of the curve.
const SECRET_OFF_CURVE: &str =
    "49W385L4rePHy6PAaQUovbD2aacgN4HsKXSMeUzRg4fmhB32ccNPY4uHM6sdusci8xBiaHteoBwYWpg3a58jtMb5";

const HELLO_SIGNATURE: &str =
    "URykl8TUJwsJixr9WuTjuVGl2iydpunAUo9XYYg2duffbkwPDhtaCkRE9CmLGILdgi+xEzy9Sav7mWyHzVuFBg==";

fn sign(message: &str, secret: &str) -> Result<ApiResponse<SignMessageData>, ApiResponse<()>> {
    sign_message(SignMessageRequest { message: message.to_string(), secret: secret.to_string() })
}

fn verify(
    message: &str,
    signature: &str,
    pubkey: &str,
) -> Result<ApiResponse<VerifyMessageData>, ApiResponse<()>> {
    verify_message(VerifyMessageRequest {
        message: message.to_string(),
        signature: signature.to_string(),
        pubkey: pubkey.to_string(),
    })
}

fn signed(message: &str, secret: &str) -> SignMessageData {
    let envelope = sign(message, secret).unwrap();
    assert!(envelope.success);
    assert!(envelope.error.is_none());
    envelope.data.unwrap()
}

fn verdict(message: &str, signature: &str, pubkey: &str) -> VerifyMessageData {
    let envelope = verify(message, signature, pubkey).unwrap();
    assert!(envelope.success);
    assert!(envelope.error.is_none());
    envelope.data.unwrap()
}

fn sign_error(message: &str, secret: &str) -> String {
    let envelope = sign(message, secret).unwrap_err();
    assert!(!envelope.success);
    assert!(envelope.data.is_none());
    envelope.error.unwrap()
}

fn verify_error(message: &str, signature: &str, pubkey: &str) -> String {
    let envelope = verify(message, signature, pubkey).unwrap_err();
    assert!(!envelope.success);
    assert!(envelope.data.is_none());
    envelope.error.unwrap()
}

#[test]
fn sign_the_empty_message() {
    let data = signed("", SECRET_ONE);
    assert_eq!(
        data.signature,
        "5VZDAMNgrHKQhuLMgG6CioSHfx645dl02HPgZSJJAVVfuIIVkKM7rMYeOXAc+bRr0lv18FlbviRlUUFDjnoQCw=="
    );
    assert_eq!(data.public_key, PUBLIC_ONE);
    assert_eq!(data.message, "");
}

#[test]
fn sign_one_letter() {
    let data = signed("r", SECRET_TWO);
    assert_eq!(
        data.signature,
        "kqAJqfDUyrhyDoILX2QlQKKye1QWUD+Ps3YiI+vbadoIWsHkPhWZbkWPNhPQ8R2MOHsurrQwKu6wDSkWErsMAA=="
    );
    assert_eq!(data.public_key, PUBLIC_TWO);
    assert_eq!(data.message, "r");
}

#[test]
fn sign_hello() {
    let data = signed("hello", SECRET_ONE);
    assert_eq!(data.signature, HELLO_SIGNATURE);
    assert_eq!(data.public_key, PUBLIC_ONE);
    assert_eq!(data.message, "hello");
}

#[test]
fn sign_signs_the_utf8_bytes() {
    let data = signed("héllo ✓", SECRET_ONE);
    assert_eq!(
        data.signature,
        "20KlDjs40ZiuWQGtwrb0BaBhHYv4HYbjPxF7GzJI1c7KeKozYBsdP4BMxmg7MINpJYS6XytoDZ8qi4Y88ZTXAA=="
    );
    assert_eq!(data.message, "héllo ✓");
}

#[test]
fn sign_is_deterministic() {
    let a = signed("hello", SECRET_ONE);
    let b = signed("hello", SECRET_ONE);
    assert_eq!(a.signature, b.signature);
    assert_eq!(a.public_key, b.public_key);
}

#[test]
fn sign_rejects_a_secret_that_is_not_base58() {
    assert_eq!(sign_error("hello", "not base58!"), "Invalid secret");
    assert_eq!(sign_error("hello", "0"), "Invalid secret");
    assert_eq!(sign_error("hello", "é"), "Invalid secret");
}

#[test]
fn sign_rejects_a_secret_of_the_wrong_length() {
    assert_eq!(sign_error("hello", ""), "Invalid secret bytes");
    assert_eq!(sign_error("hello", "8DfbjXLth7APvt3qQPgtf"), "Invalid secret bytes");
    assert_eq!(sign_error("hello", PUBLIC_ONE), "Invalid secret bytes");
    let longer = format!("1{SECRET_ONE}");
    assert_eq!(sign_error("hello", &longer), "Invalid secret bytes");
}

#[test]
fn sign_rejects_a_public_half_off_the_curve() {
    assert_eq!(sign_error("hello", SECRET_OFF_CURVE), "Invalid secret bytes");
}

#[test]
fn sign_takes_halves_that_do_not_belong_together() {
    let data = signed("hello", SECRET_MISMATCHED);
    assert_eq!(data.public_key, PUBLIC_TWO);
    assert_eq!(
        data.signature,
        "URykl8TUJwsJixr9WuTjuVGl2iydpunAUo9XYYg2dueyZA0EKiDQjBrmkxsT33cGMfW9YwHz+46GqU46gzP3Dg=="
    );
    assert!(!verdict("hello", &data.signature, PUBLIC_TWO).valid);
    assert!(!verdict("hello", &data.signature, PUBLIC_ONE).valid);
}

#[test]
fn verify_accepts_the_known_signatures() {
    let data = verdict(
        "",
        "5VZDAMNgrHKQhuLMgG6CioSHfx645dl02HPgZSJJAVVfuIIVkKM7rMYeOXAc+bRr0lv18FlbviRlUUFDjnoQCw==",
        PUBLIC_ONE,
    );
    assert!(data.valid);
    assert_eq!(data.message, "");
    assert_eq!(data.pubkey, PUBLIC_ONE);
    let data = verdict(
        "r",
        "kqAJqfDUyrhyDoILX2QlQKKye1QWUD+Ps3YiI+vbadoIWsHkPhWZbkWPNhPQ8R2MOHsurrQwKu6wDSkWErsMAA==",
        PUBLIC_TWO,
    );
    assert!(data.valid);
    assert_eq!(data.message, "r");
    assert_eq!(data.pubkey, PUBLIC_TWO);
}

#[test]
fn sign_hello_then_verify() {
    let data = signed("hello", SECRET_ONE);
    let checked = verdict("hello", &data.signature, &data.public_key);
    assert!(checked.valid);
    assert_eq!(checked.message, "hello");
    assert_eq!(checked.pubkey, PUBLIC_ONE);
}

#[test]
fn verify_refuses_another_message() {
    for message in ["hellp", "hello ", "Hello", "", "hell", "hello\u{0}"] {
        let checked = verdict(message, HELLO_SIGNATURE, PUBLIC_ONE);
        assert!(!checked.valid);
        assert_eq!(checked.message, message);
    }
}

#[test]
fn verify_refuses_a_changed_signature() {
    for signature in [
        "UBykl8TUJwsJixr9WuTjuVGl2iydpunAUo9XYYg2duffbkwPDhtaCkRE9CmLGILdgi+xEzy9Sav7mWyHzVuFBg==",
        "URykl8TUJwsJixr9WuTjuVGl2iydpunAUo9XYYg2duffbkwPDhtaCsRE9CmLGILdgi+xEzy9Sav7mWyHzVuFBg==",
    ] {
        assert!(!verdict("hello", signature, PUBLIC_ONE).valid);
    }
}

#[test]
fn verify_refuses_every_single_byte_change_of_the_signature() {
    #[allow(deprecated)]
    let bytes = base64::decode(HELLO_SIGNATURE).unwrap();
    for i in 0..bytes.len() {
        let mut changed = bytes.clone();
        changed[i] ^= 0x01;
        #[allow(deprecated)]
        let text = base64::encode(&changed);
        assert!(!verdict("hello", &text, PUBLIC_ONE).valid);
    }
}

#[test]
fn verify_accepts_a_valid_signature_made_with_another_nonce() {
    // Made with the first keypair's scalar and the nonce 1: valid for "hello",
    // and not the signature that signing gives.
    let other =
        "WGZmZmZmZmZmZmZmZmZmZmZmZmZmZmZmZmZmZmZmZmb+JK6ma9+FCnAYBfkcuNYv1gl6sH0CubGL/hSKxT/xBA==";
    assert_ne!(other, HELLO_SIGNATURE);
    assert!(verdict("hello", other, PUBLIC_ONE).valid);
    assert!(!verdict("hellp", other, PUBLIC_ONE).valid);
}

#[test]
fn verify_refuses_another_key() {
    assert!(!verdict("hello", HELLO_SIGNATURE, PUBLIC_TWO).valid);
}

#[test]
fn verify_refuses_the_zero_signature() {
    let zeros = "A".repeat(85) + "A==";
    assert_eq!(zeros.len(), 88);
    assert!(!verdict("hello", &zeros, PUBLIC_ONE).valid);
}

#[test]
fn verify_rejects_a_key_that_is_not_base58() {
    assert_eq!(verify_error("hello", HELLO_SIGNATURE, "0OIl"), "Invalid pubkey");
    assert_eq!(verify_error("hello", HELLO_SIGNATURE, "not a key"), "Invalid pubkey");
}

#[test]
fn verify_rejects_a_signature_that_is_not_base64() {
    assert_eq!(verify_error("hello", "!!!", PUBLIC_ONE), "Invalid signature");
    assert_eq!(verify_error("hello", "URykl8TU=", PUBLIC_ONE), "Invalid signature");
    assert_eq!(verify_error("hello", "URykl8T", PUBLIC_ONE), "Invalid signature");
}

#[test]
fn verify_rejects_key_bytes_of_the_wrong_length() {
    assert_eq!(verify_error("hello", HELLO_SIGNATURE, ""), "Invalid pubkey bytes");
    assert_eq!(
        verify_error("hello", HELLO_SIGNATURE, "8DfbjXLth7APvt3qQPgtf"),
        "Invalid pubkey bytes"
    );
    assert_eq!(verify_error("hello", HELLO_SIGNATURE, SECRET_ONE), "Invalid pubkey bytes");
}

#[test]
fn verify_rejects_key_bytes_off_the_curve() {
    assert_eq!(
        verify_error("hello", HELLO_SIGNATURE, "8opHzTAnfzRpPEx21XtnrVTX28YQuCpAjcn1PczScKh"),
        "Invalid pubkey bytes"
    );
}

#[test]
fn verify_rejects_signature_bytes_of_the_wrong_length() {
    assert_eq!(verify_error("hello", "", PUBLIC_ONE), "Invalid signature bytes");
    let short = "A".repeat(84);
    assert_eq!(verify_error("hello", &short, PUBLIC_ONE), "Invalid signature bytes");
    let long = "A".repeat(86) + "A=";
    assert_eq!(verify_error("hello", &long, PUBLIC_ONE), "Invalid signature bytes");
}

#[test]
fn verify_rejects_signature_bytes_with_a_high_bit() {
    assert_eq!(
        verify_error(
            "hello",
            "URykl8TUJwsJixr9WuTjuVGl2iydpunAUo9XYYg2duffbkwPDhtaCkRE9CmLGILdgi+xEzy9Sav7mWyHzVuFJg==",
            PUBLIC_ONE,
        ),
        "Invalid signature bytes"
    );
    let ones = "/".repeat(85) + "w==";
    assert_eq!(ones.len(), 88);
    assert_eq!(verify_error("hello", &ones, PUBLIC_ONE), "Invalid signature bytes");
}

#[test]
fn verify_decodes_the_key_before_the_signature() {
    assert_eq!(verify_error("hello", "!!!", "0OIl"), "Invalid pubkey");
}

#[test]
fn verify_decodes_the_signature_before_reading_the_key() {
    assert_eq!(verify_error("hello", "!!!", "8DfbjXLth7APvt3qQPgtf"), "Invalid signature");
}

#[test]
fn verify_reads_the_key_before_the_signature() {
    assert_eq!(verify_error("hello", "", "8DfbjXLth7APvt3qQPgtf"), "Invalid pubkey bytes");
}

#[test]
fn message_endpoints_answer_a_bad_key_with_the_error_envelope() {
    for bad in ["0", "O", "I", "l", "a b", "é", "", "1", "8DfbjXLth7APvt3qQPgtf"] {
        assert!(sign("hello", bad).is_err());
        assert!(verify("hello", HELLO_SIGNATURE, bad).is_err());
    }
}

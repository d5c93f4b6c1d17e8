use solana_api::keypair::{generate_keypair, keypair_data, KeypairData};
use solana_api::message::{sign_message, verify_message, SignMessageRequest, VerifyMessageRequest};
use solana_api::signing::FreshKeypair;

fn fresh() -> KeypairData {
    let envelope = generate_keypair().unwrap();
    assert!(envelope.success);
    assert!(envelope.error.is_none());
    envelope.data.unwrap()
}

#[test]
fn generated_keypair_is_64_bytes_ending_in_the_public_key() {
    let keys = fresh();
    let pair = bs58::decode(&keys.secret).into_vec().unwrap();
    let public = bs58::decode(&keys.pubkey).into_vec().unwrap();
    assert_eq!(pair.len(), 64);
    assert_eq!(public.len(), 32);
    assert_eq!(&pair[32..], &public[..]);
}

#[test]
fn generated_public_key_belongs_to_the_seed() {
    let keys = fresh();
    let pair = bs58::decode(&keys.secret).into_vec().unwrap();
    let seed = ed25519_dalek::SecretKey::from_bytes(&pair[..32]).unwrap();
    let public = ed25519_dalek::PublicKey::from(&seed);
    assert_eq!(bs58::encode(public.to_bytes()).into_string(), keys.pubkey);
}

#[test]
fn generated_keypairs_differ() {
    let a = fresh();
    let b = fresh();
    assert_ne!(a.secret, b.secret);
    assert_ne!(a.pubkey, b.pubkey);
}

#[test]
fn generated_secret_signs_and_its_public_key_verifies() {
    for message in ["", "hello", "héllo ✓", "a longer message, with punctuation."] {
        let keys = fresh();
        let signed = sign_message(SignMessageRequest {
            message: message.to_string(),
            secret: keys.secret.clone(),
        })
        .unwrap()
        .data
        .unwrap();
        assert_eq!(signed.public_key, keys.pubkey);
        assert_eq!(signed.message, message);
        let checked = verify_message(VerifyMessageRequest {
            message: message.to_string(),
            signature: signed.signature,
            pubkey: keys.pubkey.clone(),
        })
        .unwrap()
        .data
        .unwrap();
        assert!(checked.valid);
        assert_eq!(checked.message, message);
        assert_eq!(checked.pubkey, keys.pubkey);
    }
}

#[test]
fn generated_signature_fails_for_another_message_and_another_key() {
    let keys = fresh();
    let other = fresh();
    let signed = sign_message(SignMessageRequest {
        message: "hello".to_string(),
        secret: keys.secret.clone(),
    })
    .unwrap()
    .data
    .unwrap();
    let checked = verify_message(VerifyMessageRequest {
        message: "hello!".to_string(),
        signature: signed.signature.clone(),
        pubkey: keys.pubkey.clone(),
    })
    .unwrap()
    .data
    .unwrap();
    assert!(!checked.valid);
    let checked = verify_message(VerifyMessageRequest {
        message: "hello".to_string(),
        signature: signed.signature,
        pubkey: other.pubkey,
    })
    .unwrap()
    .data
    .unwrap();
    assert!(!checked.valid);
}

#[test]
fn keypair_data_writes_both_parts_in_base58() {
    let mut keypair = [0u8; 64];
    for (i, byte) in keypair.iter_mut().enumerate() {
        *byte = if i < 32 { 0 } else { 255 };
    }
    let data = keypair_data(&FreshKeypair { public: [255u8; 32], keypair });
    assert_eq!(data.pubkey, "JEKNVnkbo3jma5nREBBJCDoXFVeKkD56V3xKrvRmWxFG");
    assert_eq!(bs58::decode(&data.secret).into_vec().unwrap(), keypair.to_vec());
    assert!(data.secret.starts_with("11111111111111111111111111111111"));
}

#[test]
fn keypair_data_of_the_first_rfc_keypair() {
    let seed: [u8; 32] = [
        0x9d, 0x61, 0xb1, 0x9d, 0xef, 0xfd, 0x5a, 0x60, 0xba, 0x84, 0x4a, 0xf4, 0x92, 0xec, 0x2c,
        0xc4, 0x44, 0x49, 0xc5, 0x69, 0x7b, 0x32, 0x69, 0x19, 0x70, 0x3b, 0xac, 0x03, 0x1c, 0xae,
        0x7f, 0x60,
    ];
    let public: [u8; 32] = [
        0xd7, 0x5a, 0x98, 0x01, 0x82, 0xb1, 0x0a, 0xb7, 0xd5, 0x4b, 0xfe, 0xd3, 0xc9, 0x64, 0x07,
        0x3a, 0x0e, 0xe1, 0x72, 0xf3, 0xda, 0xa6, 0x23, 0x25, 0xaf, 0x02, 0x1a, 0x68, 0xf7, 0x07,
        0x51, 0x1a,
    ];
    let mut keypair = [0u8; 64];
    keypair[..32].copy_from_slice(&seed);
    keypair[32..].copy_from_slice(&public);
    let data = keypair_data(&FreshKeypair { public, keypair });
    assert_eq!(data.pubkey, "FVen3X669xLzsi6N2V91DoiyzHzg1uAgqiT8jZ9nS96Z");
    assert_eq!(
        data.secret,
        "49W385L4rePHy6PAaQUovbD2aacgN4HsKXSMeUzRg4fmwXszN91JuMFrQRj3vMDpZuRF3ZknQBuRBoWQJEfXstMw"
    );
}

use sol_core::codec::decode_base58;
use sol_core::error::ApiError;
use sol_core::keys::{load_keypair, sign, verify};
use sol_core::service::{create_keypair, message_sign, message_verify};

const KP1_B58: &str =
    "49W385L4rePHy6PAaQUovbD2aacgN4HsKXSMeUzRg4fmwXszN91JuMFrQRj3vMDpZuRF3ZknQBuRBoWQJEfXstMw";
const PUB1_B58: &str = "FVen3X669xLzsi6N2V91DoiyzHzg1uAgqiT8jZ9nS96Z";
const SIG1_B58: &str =
    "5awYiUvGiDFA33EJjj4TXJG44a5afJc8QjWRpGgQiu6b23jCr7yndW2fmp9ujwqJVe32J456wV3VF78Asb1obnTc";
const KP2_B58: &str =
    "2Y4QjyJVZf9tTmTPP1SY9ACpFYTo7brW9iCQ8SunQht5yQ2r1U9KsVv5aMsCGnzj3NR8KG9P3NY7FKBiYbbTJ2no";
const PUB2_B58: &str = "586Z7H2vpX9qNhN2T4e9Utugie3ogjbxzGaMtM3E6HR5";
const SIG2_B58: &str =
    "3w2b4gJH2VXfrwycUgMiE3TZJTztazKppFVojCQ9NDMDHq8PVTHxQdQovxMFxqeqeQf1xaADvhkj2nMuB1kzouA7";

#[test]
fn generated_keypair_signs_and_verifies() {
    let kp_data = create_keypair();
    let secret = decode_base58(&kp_data.secret).unwrap();
    let public = decode_base58(&kp_data.pubkey).unwrap();
    assert_eq!(secret.len(), 64);
    assert_eq!(public.len(), 32);
    assert_eq!(&secret[32..], &public[..]);
    let kp = load_keypair(secret).unwrap();
    for message in [b"".to_vec(), b"hello world".to_vec(), vec![0u8; 100]] {
        let sig = sign(&kp, &message);
        assert_eq!(verify(&kp.public, &message, &sig), Ok(true));
    }
}

#[test]
fn sign_then_verify_through_the_request_layer() {
    let kp_data = create_keypair();
    let signed = message_sign(
        Some("a test message".to_string()),
        Some(kp_data.secret.clone()),
    )
    .unwrap();
    assert_eq!(signed.pubkey, kp_data.pubkey);
    assert_eq!(signed.message, "a test message");
    let verified = message_verify(
        Some(signed.message.clone()),
        Some(signed.signature.clone()),
        Some(signed.pubkey.clone()),
    )
    .unwrap();
    assert!(verified.valid);
    assert_eq!(verified.message, "a test message");
    assert_eq!(verified.pubkey, kp_data.pubkey);
}

#[test]
fn signing_matches_the_reference_vectors() {
    let kp1 = load_keypair(decode_base58(KP1_B58).unwrap()).unwrap();
    let sig1 = sign(&kp1, b"");
    assert_eq!(sig1, decode_base58(SIG1_B58).unwrap());
    assert_eq!(verify(&kp1.public, b"", &sig1), Ok(true));

    let signed = message_sign(Some("r".to_string()), Some(KP2_B58.to_string())).unwrap();
    assert_eq!(signed.signature, SIG2_B58);
    assert_eq!(signed.pubkey, PUB2_B58);
}

#[test]
fn verification_accepts_the_reference_vector_and_rejects_others() {
    let ok = message_verify(
        Some("r".to_string()),
        Some(SIG2_B58.to_string()),
        Some(PUB2_B58.to_string()),
    )
    .unwrap();
    assert!(ok.valid);

    let wrong_message = message_verify(
        Some("s".to_string()),
        Some(SIG2_B58.to_string()),
        Some(PUB2_B58.to_string()),
    )
    .unwrap();
    assert!(!wrong_message.valid);

    let wrong_key = message_verify(
        Some("r".to_string()),
        Some(SIG2_B58.to_string()),
        Some(PUB1_B58.to_string()),
    )
    .unwrap();
    assert!(!wrong_key.valid);
}

#[test]
fn every_single_bit_flip_invalidates_a_signature() {
    let public = decode_base58(PUB2_B58).unwrap();
    let signature = decode_base58(SIG2_B58).unwrap();
    let message = b"r";
    for byte in 0..64 {
        for bit in 0..8 {
            let mut mutated = signature.clone();
            mutated[byte] ^= 1 << bit;
            // The length is preserved, so the outcome is always a normal
            // false verdict, never an error.
            assert_eq!(verify(&public, message, &mutated), Ok(false));
        }
    }
}

#[test]
fn a_top_bit_flip_is_still_a_false_verdict_not_an_error() {
    // Setting a top bit of the final byte gives a shape the signature
    // parser rejects; verification still reports it as a plain failure.
    let mut mutated = decode_base58(SIG2_B58).unwrap();
    mutated[63] ^= 0x80;
    let resp = message_verify(
        Some("r".to_string()),
        Some(sol_core::codec::encode_base58(&mutated)),
        Some(PUB2_B58.to_string()),
    )
    .unwrap();
    assert!(!resp.valid);
}

#[test]
fn malformed_keys_and_signatures_are_errors_not_outcomes() {
    let public = decode_base58(PUB2_B58).unwrap();
    let signature = decode_base58(SIG2_B58).unwrap();

    let short_key: Vec<u8> = public[..31].to_vec();
    assert_eq!(
        verify(&short_key, b"r", &signature),
        Err(ApiError::InvalidKeyMaterial)
    );

    let short_sig: Vec<u8> = signature[..63].to_vec();
    assert_eq!(
        verify(&public, b"r", &short_sig),
        Err(ApiError::InvalidSignature)
    );

    assert_eq!(
        load_keypair(vec![1u8; 63]).err(),
        Some(ApiError::InvalidKeyMaterial)
    );
    // 64 bytes whose trailing half is not a curve point.
    let mut bad = vec![0u8; 64];
    bad[32] = 2;
    assert_eq!(load_keypair(bad).err(), Some(ApiError::InvalidKeyMaterial));
}

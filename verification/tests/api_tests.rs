use base64::Engine;
use sol_core::codec::decode_base58;
use sol_core::derive::derive_associated_address;
use sol_core::error::ApiError;
use sol_core::instruction::build_sol_transfer;
use sol_core::keys::PublicKeyValue;
use sol_core::service::{
    create_keypair, message_sign, message_verify, send_sol, send_token, token_create, token_mint,
};

const A_B58: &str = "FVen3X669xLzsi6N2V91DoiyzHzg1uAgqiT8jZ9nS96Z";
const B_B58: &str = "586Z7H2vpX9qNhN2T4e9Utugie3ogjbxzGaMtM3E6HR5";
const TOKEN_PROGRAM_B58: &str = "TokenkegQfeZyiNwAJbNbGKPFXCWuBvf9Ss623VQ5DA";
const SYSTEM_PROGRAM_B58: &str = "11111111111111111111111111111111";
const RENT_SYSVAR_B58: &str = "SysvarRent111111111111111111111111111111111";

fn some(s: &str) -> Option<String> {
    Some(s.to_string())
}

fn b64_bytes(text: &str) -> Vec<u8> {
    base64::engine::general_purpose::STANDARD
        .decode(text)
        .unwrap()
}

#[test]
fn missing_fields_win_over_bad_encoding() {
    // Empty strings count as missing, and presence is checked before any
    // decoding: the undecodable texts below must not be looked at.
    assert_eq!(
        message_sign(some(""), some("")).err(),
        Some(ApiError::MissingField)
    );
    assert_eq!(
        message_sign(None, some("0!bad")).err(),
        Some(ApiError::MissingField)
    );
    assert_eq!(
        message_sign(some("hi"), None).err(),
        Some(ApiError::MissingField)
    );
    assert_eq!(
        message_verify(some(""), some("0"), some("0")).err(),
        Some(ApiError::MissingField)
    );
    assert_eq!(
        send_sol(some("0"), None, 5).err(),
        Some(ApiError::MissingField)
    );
    assert_eq!(
        send_token(some("0"), some(""), some(A_B58), Some(1)).err(),
        Some(ApiError::MissingField)
    );
    assert_eq!(
        send_token(some(A_B58), some(B_B58), some(A_B58), None).err(),
        Some(ApiError::MissingField)
    );
    assert_eq!(
        token_create(some(A_B58), some(B_B58), None).err(),
        Some(ApiError::MissingField)
    );
    assert_eq!(
        token_mint(some(A_B58), some(B_B58), None, Some(1)).err(),
        Some(ApiError::MissingField)
    );
}

#[test]
fn undecodable_and_wrong_length_fields_are_told_apart() {
    assert_eq!(
        message_sign(some("hi"), some("not-base58!")).err(),
        Some(ApiError::InvalidEncoding)
    );
    // "abc" is valid base58 but far too short for a secret key.
    assert_eq!(
        message_sign(some("hi"), some("abc")).err(),
        Some(ApiError::InvalidKeyMaterial)
    );
    assert_eq!(
        message_verify(some("hi"), some("abc"), some("0")).err(),
        Some(ApiError::InvalidEncoding)
    );
    assert_eq!(
        message_verify(some("hi"), some("abc"), some(A_B58)).err(),
        Some(ApiError::InvalidSignature)
    );
    assert_eq!(
        send_sol(some("I am not base58"), some(B_B58), 5).err(),
        Some(ApiError::InvalidEncoding)
    );
    assert_eq!(
        send_sol(some("abc"), some(B_B58), 5).err(),
        Some(ApiError::InvalidKeyMaterial)
    );
    assert_eq!(
        send_token(some(B_B58), some("abc"), some(A_B58), Some(1)).err(),
        Some(ApiError::InvalidKeyMaterial)
    );
    assert_eq!(
        token_create(some("0"), some(B_B58), Some(9)).err(),
        Some(ApiError::InvalidEncoding)
    );
    assert_eq!(
        token_mint(some(A_B58), some(B_B58), some("abc"), Some(1)).err(),
        Some(ApiError::InvalidKeyMaterial)
    );
}

#[test]
fn zero_lamports_break_the_domain_rule() {
    assert_eq!(
        send_sol(some(A_B58), some(B_B58), 0).err(),
        Some(ApiError::DomainRuleViolation)
    );
    let ok = send_sol(some(A_B58), some(B_B58), 1).unwrap();
    assert_eq!(ok.accounts.len(), 2);
}

#[test]
fn sol_transfer_builder_marks_its_accounts() {
    let from = PublicKeyValue {
        bytes: decode_base58(A_B58).unwrap(),
    };
    let to = PublicKeyValue {
        bytes: decode_base58(B_B58).unwrap(),
    };
    assert!(build_sol_transfer(&from, &to, 0).is_err());
    let ix = build_sol_transfer(&from, &to, 1).unwrap();
    assert_eq!(ix.accounts.len(), 2);
    assert!(ix.accounts[0].is_signer);
    assert!(ix.accounts[0].is_writable);
    assert!(!ix.accounts[1].is_signer);
    assert!(ix.accounts[1].is_writable);
    assert_eq!(ix.data, vec![2, 0, 0, 0, 1, 0, 0, 0, 0, 0, 0, 0]);
}

#[test]
fn sol_transfer_scenario() {
    let resp = send_sol(some(A_B58), some(B_B58), 1000).unwrap();
    assert_eq!(resp.program_id, SYSTEM_PROGRAM_B58);
    assert_eq!(resp.accounts.len(), 2);
    assert_eq!(resp.accounts[0].pubkey, A_B58);
    assert!(resp.accounts[0].is_signer);
    assert!(resp.accounts[0].is_writable);
    assert_eq!(resp.accounts[1].pubkey, B_B58);
    assert!(!resp.accounts[1].is_signer);
    assert!(resp.accounts[1].is_writable);
    // 4-byte little-endian opcode, then 1000 as 8 little-endian bytes.
    assert_eq!(resp.instruction_data, "3Bxs4ffTu9T19DNF");
    assert_eq!(
        decode_base58(&resp.instruction_data).unwrap(),
        vec![2, 0, 0, 0, 232, 3, 0, 0, 0, 0, 0, 0]
    );
}

#[test]
fn initialize_mint_data_is_35_bytes_without_freeze_authority() {
    let resp = token_create(some(A_B58), some(B_B58), Some(9)).unwrap();
    assert_eq!(resp.program_id, TOKEN_PROGRAM_B58);
    let data = b64_bytes(&resp.instruction_data);
    assert_eq!(data.len(), 35);
    assert_eq!(data[0], 0);
    assert_eq!(data[1], 9);
    assert_eq!(&data[2..34], &decode_base58(B_B58).unwrap()[..]);
    assert_eq!(data[34], 0);
    assert_eq!(resp.accounts.len(), 2);
    assert_eq!(resp.accounts[0].pubkey, A_B58);
    assert!(!resp.accounts[0].is_signer);
    assert!(resp.accounts[0].is_writable);
    assert_eq!(resp.accounts[1].pubkey, RENT_SYSVAR_B58);
    assert!(!resp.accounts[1].is_signer);
    assert!(!resp.accounts[1].is_writable);
}

#[test]
fn token_transfer_uses_associated_token_accounts() {
    let owner = create_keypair().pubkey;
    let destination = create_keypair().pubkey;
    let mint = create_keypair().pubkey;
    let resp = send_token(
        some(&destination),
        some(&mint),
        some(&owner),
        Some(5),
    )
    .unwrap();
    assert_eq!(resp.program_id, TOKEN_PROGRAM_B58);
    assert_eq!(resp.accounts.len(), 3);

    let owner_key = PublicKeyValue {
        bytes: decode_base58(&owner).unwrap(),
    };
    let dest_key = PublicKeyValue {
        bytes: decode_base58(&destination).unwrap(),
    };
    let mint_key = PublicKeyValue {
        bytes: decode_base58(&mint).unwrap(),
    };
    let source_token = derive_associated_address(&owner_key, &mint_key).unwrap();
    let dest_token = derive_associated_address(&dest_key, &mint_key).unwrap();
    assert_eq!(
        decode_base58(&resp.accounts[0].pubkey).unwrap(),
        source_token.bytes
    );
    assert!(!resp.accounts[0].is_signer);
    assert!(resp.accounts[0].is_writable);
    assert_eq!(
        decode_base58(&resp.accounts[1].pubkey).unwrap(),
        dest_token.bytes
    );
    assert!(!resp.accounts[1].is_signer);
    assert!(resp.accounts[1].is_writable);
    assert_eq!(resp.accounts[2].pubkey, owner);
    assert!(resp.accounts[2].is_signer);
    assert!(!resp.accounts[2].is_writable);
    // 1-byte opcode, then 5 as 8 little-endian bytes.
    assert_eq!(resp.instruction_data, "AwUAAAAAAAAA");
}

#[test]
fn mint_to_resolves_the_destination_token_account() {
    let destination = create_keypair().pubkey;
    let authority = create_keypair().pubkey;
    let mint = create_keypair().pubkey;
    let resp = token_mint(
        some(&mint),
        some(&destination),
        some(&authority),
        Some(42),
    )
    .unwrap();
    assert_eq!(resp.program_id, TOKEN_PROGRAM_B58);
    assert_eq!(resp.accounts.len(), 3);
    assert_eq!(resp.accounts[0].pubkey, mint);
    assert!(!resp.accounts[0].is_signer);
    assert!(resp.accounts[0].is_writable);

    let dest_key = PublicKeyValue {
        bytes: decode_base58(&destination).unwrap(),
    };
    let mint_key = PublicKeyValue {
        bytes: decode_base58(&mint).unwrap(),
    };
    let dest_token = derive_associated_address(&dest_key, &mint_key).unwrap();
    assert_eq!(
        decode_base58(&resp.accounts[1].pubkey).unwrap(),
        dest_token.bytes
    );
    assert!(resp.accounts[1].is_writable);
    assert_eq!(resp.accounts[2].pubkey, authority);
    assert!(resp.accounts[2].is_signer);
    assert!(!resp.accounts[2].is_writable);
    // 1-byte opcode, then 42 as 8 little-endian bytes.
    assert_eq!(resp.instruction_data, "ByoAAAAAAAAA");
    assert_eq!(b64_bytes(&resp.instruction_data).len(), 9);
}

#[test]
fn zero_token_amounts_are_allowed() {
    let owner = create_keypair().pubkey;
    let destination = create_keypair().pubkey;
    let mint = create_keypair().pubkey;
    assert!(send_token(some(&destination), some(&mint), some(&owner), Some(0)).is_ok());
    assert!(token_mint(some(&mint), some(&destination), some(&owner), Some(0)).is_ok());
}

#[test]
fn generated_keypairs_have_the_documented_shape() {
    let kp = create_keypair();
    let public = decode_base58(&kp.pubkey).unwrap();
    let secret = decode_base58(&kp.secret).unwrap();
    assert_eq!(public.len(), 32);
    assert_eq!(secret.len(), 64);
    assert_eq!(&secret[32..], &public[..]);
}

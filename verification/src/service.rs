use vstd::prelude::*;

use crate::codec::{b58_bytes_of, b58_of, b58_str_ok, b64_of, decode_base58, encode_base58,
    encode_base64};
use crate::derive::{ata_address, derive_associated_address};
use crate::error::ApiError;
use crate::instruction::{build_initialize_mint, build_mint_to, build_sol_transfer,
    build_token_transfer, initialize_mint_data, mint_to_data, rent_sysvar_id, sol_transfer_data,
    system_program_id, token_program_id, token_transfer_data};
use crate::keys::{ed_pubkey_valid, ed_verify, generate_keypair, keypair_bytes_ok, load_keypair,
    sig_of, sign, verify, PublicKeyValue};
use vstd::utf8::encode_utf8;

verus! {

/// A string field is missing when it is absent or empty.
pub open spec fn missing(s: Option<String>) -> bool {
    match s {
        Option::Some(t) => t@.len() == 0,
        Option::None => true,
    }
}

/// The characters of a present string field.
pub open spec fn text(s: Option<String>) -> Seq<char> {
    match s {
        Option::Some(t) => t@,
        Option::None => Seq::empty(),
    }
}

pub struct KeypairData {
    pub pubkey: String,
    pub secret: String,
}

pub struct MessageSignResponse {
    pub signature: String,
    pub pubkey: String,
    pub message: String,
}

pub struct MessageVerifyResponse {
    pub valid: bool,
    pub message: String,
    pub pubkey: String,
}

pub struct SendSolResponse {
    pub program_id: String,
    pub accounts: Vec<AccountMetaResponse>,
    pub instruction_data: String,
}

pub struct SendTokenAccountMetaResponse {
    pub pubkey: String,
    pub is_signer: bool,
    pub is_writable: bool,
}

pub struct SendTokenResponse {
    pub program_id: String,
    pub accounts: Vec<SendTokenAccountMetaResponse>,
    pub instruction_data: String,
}

pub struct AccountMetaResponse {
    pub pubkey: String,
    pub is_signer: bool,
    pub is_writable: bool,
}

pub struct TokenCreateResponse {
    pub program_id: String,
    pub accounts: Vec<AccountMetaResponse>,
    pub instruction_data: String,
}

pub struct TokenMintResponse {
    pub program_id: String,
    pub accounts: Vec<AccountMetaResponse>,
    pub instruction_data: String,
}

/// Accepts a present, non-empty string field; a missing one is the
/// field-presence failure.
fn require_text(s: Option<String>) -> (r: Result<String, ApiError>)
    ensures
        missing(s) ==> r == Err::<String, ApiError>(ApiError::MissingField),
        !missing(s) ==> (r matches Ok(t) && t@ == text(s)),
{
    match s {
        Option::Some(t) => {
            if t.as_str().is_empty() {
                Err(ApiError::MissingField)
            } else {
                Ok(t)
            }
        },
        Option::None => Err(ApiError::MissingField),
    }
}

/// Generates a keypair and returns both halves as non-empty, well-formed
/// base58 text: the full 64 secret bytes, and the 32 public bytes they end
/// in, each decoding back to those bytes.
pub fn create_keypair() -> (r: KeypairData)
    ensures
        r.secret@.len() > 0,
        r.pubkey@.len() > 0,
        b58_str_ok(r.secret@),
        b58_str_ok(r.pubkey@),
        exists|s: Seq<u8>|
            #![auto]
            {
                &&& keypair_bytes_ok(s)
                &&& r.secret@ == b58_of(s)
                &&& b58_bytes_of(r.secret@) == s
                &&& r.pubkey@ == b58_of(s.subrange(32, 64))
                &&& b58_bytes_of(r.pubkey@) == s.subrange(32, 64)
            },
{
    let kp = generate_keypair();
    let pubkey = encode_base58(&kp.public);
    let secret = encode_base58(&kp.secret);
    proof {
        assert({
            &&& keypair_bytes_ok(kp.secret@)
            &&& secret@ == b58_of(kp.secret@)
            &&& b58_bytes_of(secret@) == kp.secret@
            &&& pubkey@ == b58_of(kp.secret@.subrange(32, 64))
            &&& b58_bytes_of(pubkey@) == kp.secret@.subrange(32, 64)
        });
    }
    KeypairData { pubkey, secret }
}

/// Signs a message with a base58-encoded 64-byte secret. Field presence is
/// checked before any decoding; the checks short-circuit in the order
/// presence, encoding, key validity.
pub fn message_sign(message: Option<String>, secret: Option<String>) -> (r: Result<
    MessageSignResponse,
    ApiError,
>)
    ensures
        ({
            let sec = text(secret);
            if missing(message) || missing(secret) {
                r == Err::<MessageSignResponse, ApiError>(ApiError::MissingField)
            } else if !b58_str_ok(sec) {
                r == Err::<MessageSignResponse, ApiError>(ApiError::InvalidEncoding)
            } else if !keypair_bytes_ok(b58_bytes_of(sec)) {
                r == Err::<MessageSignResponse, ApiError>(ApiError::InvalidKeyMaterial)
            } else {
                r matches Ok(resp) && {
                    let kb = b58_bytes_of(sec);
                    &&& resp.signature@ == b58_of(sig_of(kb, encode_utf8(text(message))))
                    &&& resp.pubkey@ == b58_of(kb.subrange(32, 64))
                    &&& resp.message@ == text(message)
                }
            }
        }),
{
    let m = match require_text(message) {
        Ok(t) => t,
        Err(e) => {
            return Err(e);
        },
    };
    let s = match require_text(secret) {
        Ok(t) => t,
        Err(e) => {
            return Err(e);
        },
    };
    let secret_bytes = match decode_base58(s.as_str()) {
        Ok(v) => v,
        Err(e) => {
            return Err(e);
        },
    };
    let kp = match load_keypair(secret_bytes) {
        Ok(kp) => kp,
        Err(e) => {
            return Err(e);
        },
    };
    let signature = sign(&kp, m.as_str().as_bytes());
    Ok(
        MessageSignResponse {
            signature: encode_base58(&signature),
            pubkey: encode_base58(&kp.public),
            message: m,
        },
    )
}

/// Checks a signature over a message, both base58-encoded. A malformed key
/// or a signature of the wrong byte length is an error; a 64-byte signature
/// that fails cryptographic verification is the normal `valid == false`
/// outcome, never an error.
pub fn message_verify(
    message: Option<String>,
    signature: Option<String>,
    pubkey: Option<String>,
) -> (r: Result<MessageVerifyResponse, ApiError>)
    ensures
        ({
            let pk = text(pubkey);
            let sg = text(signature);
            if missing(message) || missing(signature) || missing(pubkey) {
                r == Err::<MessageVerifyResponse, ApiError>(ApiError::MissingField)
            } else if !b58_str_ok(pk) {
                r == Err::<MessageVerifyResponse, ApiError>(ApiError::InvalidEncoding)
            } else if !b58_str_ok(sg) {
                r == Err::<MessageVerifyResponse, ApiError>(ApiError::InvalidEncoding)
            } else if !(b58_bytes_of(pk).len() == 32 && ed_pubkey_valid(b58_bytes_of(pk))) {
                r == Err::<MessageVerifyResponse, ApiError>(ApiError::InvalidKeyMaterial)
            } else if b58_bytes_of(sg).len() != 64 {
                r == Err::<MessageVerifyResponse, ApiError>(ApiError::InvalidSignature)
            } else {
                r matches Ok(resp) && {
                    &&& resp.valid == ed_verify(
                        b58_bytes_of(pk),
                        encode_utf8(text(message)),
                        b58_bytes_of(sg),
                    )
                    &&& resp.message@ == text(message)
                    &&& resp.pubkey@ == text(pubkey)
                }
            }
        }),
{
    let m = match require_text(message) {
        Ok(t) => t,
        Err(e) => {
            return Err(e);
        },
    };
    let sg = match require_text(signature) {
        Ok(t) => t,
        Err(e) => {
            return Err(e);
        },
    };
    let pk = match require_text(pubkey) {
        Ok(t) => t,
        Err(e) => {
            return Err(e);
        },
    };
    let pk_bytes = match decode_base58(pk.as_str()) {
        Ok(v) => v,
        Err(e) => {
            return Err(e);
        },
    };
    let sig_bytes = match decode_base58(sg.as_str()) {
        Ok(v) => v,
        Err(e) => {
            return Err(e);
        },
    };
    let valid = match verify(&pk_bytes, m.as_str().as_bytes(), &sig_bytes) {
        Ok(v) => v,
        Err(e) => {
            return Err(e);
        },
    };
    Ok(MessageVerifyResponse { valid, message: m, pubkey: pk })
}

/// Builds the native transfer for two base58 addresses and a positive
/// lamports amount; the instruction data is returned base58-encoded.
pub fn send_sol(from: Option<String>, to: Option<String>, lamports: u64) -> (r: Result<
    SendSolResponse,
    ApiError,
>)
    ensures
        ({
            let f = text(from);
            let t = text(to);
            if missing(from) || missing(to) {
                r == Err::<SendSolResponse, ApiError>(ApiError::MissingField)
            } else if !b58_str_ok(f) || !b58_str_ok(t) {
                r == Err::<SendSolResponse, ApiError>(ApiError::InvalidEncoding)
            } else if b58_bytes_of(f).len() != 32 || b58_bytes_of(t).len() != 32 {
                r == Err::<SendSolResponse, ApiError>(ApiError::InvalidKeyMaterial)
            } else if lamports == 0 {
                r == Err::<SendSolResponse, ApiError>(ApiError::DomainRuleViolation)
            } else {
                r matches Ok(resp) && {
                    &&& resp.program_id@ == b58_of(system_program_id())
                    &&& resp.accounts@.len() == 2
                    &&& resp.accounts@[0].pubkey@ == b58_of(b58_bytes_of(f))
                    &&& resp.accounts@[0].is_signer == true
                    &&& resp.accounts@[0].is_writable == true
                    &&& resp.accounts@[1].pubkey@ == b58_of(b58_bytes_of(t))
                    &&& resp.accounts@[1].is_signer == false
                    &&& resp.accounts@[1].is_writable == true
                    &&& resp.instruction_data@ == b58_of(sol_transfer_data(lamports))
                }
            }
        }),
{
    let f = match require_text(from) {
        Ok(t) => t,
        Err(e) => {
            return Err(e);
        },
    };
    let t = match require_text(to) {
        Ok(t) => t,
        Err(e) => {
            return Err(e);
        },
    };
    let from_bytes = match decode_base58(f.as_str()) {
        Ok(v) => v,
        Err(e) => {
            return Err(e);
        },
    };
    let to_bytes = match decode_base58(t.as_str()) {
        Ok(v) => v,
        Err(e) => {
            return Err(e);
        },
    };
    if from_bytes.len() != 32 || to_bytes.len() != 32 {
        return Err(ApiError::InvalidKeyMaterial);
    }
    let from_key = PublicKeyValue { bytes: from_bytes };
    let to_key = PublicKeyValue { bytes: to_bytes };
    let ix = match build_sol_transfer(&from_key, &to_key, lamports) {
        Ok(ix) => ix,
        Err(e) => {
            return Err(e);
        },
    };
    let mut accounts: Vec<AccountMetaResponse> = Vec::new();
    accounts.push(
        AccountMetaResponse {
            pubkey: encode_base58(&ix.accounts[0].address.bytes),
            is_signer: ix.accounts[0].is_signer,
            is_writable: ix.accounts[0].is_writable,
        },
    );
    accounts.push(
        AccountMetaResponse {
            pubkey: encode_base58(&ix.accounts[1].address.bytes),
            is_signer: ix.accounts[1].is_signer,
            is_writable: ix.accounts[1].is_writable,
        },
    );
    Ok(
        SendSolResponse {
            program_id: encode_base58(&ix.program_id.bytes),
            accounts,
            instruction_data: encode_base58(&ix.data),
        },
    )
}

/// Builds the SPL token transfer from the owner's associated token account
/// for the mint to the destination owner's associated token account; the
/// instruction data is returned base64-encoded.
pub fn send_token(
    destination: Option<String>,
    mint: Option<String>,
    owner: Option<String>,
    amount: Option<u64>,
) -> (r: Result<SendTokenResponse, ApiError>)
    ensures
        ({
            let d = text(destination);
            let m = text(mint);
            let o = text(owner);
            if missing(destination) || missing(mint) || missing(owner) || amount is None {
                r == Err::<SendTokenResponse, ApiError>(ApiError::MissingField)
            } else if !b58_str_ok(d) || !b58_str_ok(m) || !b58_str_ok(o) {
                r == Err::<SendTokenResponse, ApiError>(ApiError::InvalidEncoding)
            } else if b58_bytes_of(d).len() != 32 || b58_bytes_of(m).len() != 32 || b58_bytes_of(
                o,
            ).len() != 32 {
                r == Err::<SendTokenResponse, ApiError>(ApiError::InvalidKeyMaterial)
            } else if ata_address(b58_bytes_of(o), b58_bytes_of(m)) is None || ata_address(
                b58_bytes_of(d),
                b58_bytes_of(m),
            ) is None {
                r == Err::<SendTokenResponse, ApiError>(ApiError::DerivationNotFound)
            } else {
                r matches Ok(resp) && {
                    let src = ata_address(b58_bytes_of(o), b58_bytes_of(m))->Some_0;
                    let dst = ata_address(b58_bytes_of(d), b58_bytes_of(m))->Some_0;
                    &&& resp.program_id@ == b58_of(token_program_id())
                    &&& resp.accounts@.len() == 3
                    &&& resp.accounts@[0].pubkey@ == b58_of(src)
                    &&& resp.accounts@[0].is_signer == false
                    &&& resp.accounts@[0].is_writable == true
                    &&& resp.accounts@[1].pubkey@ == b58_of(dst)
                    &&& resp.accounts@[1].is_signer == false
                    &&& resp.accounts@[1].is_writable == true
                    &&& resp.accounts@[2].pubkey@ == b58_of(b58_bytes_of(o))
                    &&& resp.accounts@[2].is_signer == true
                    &&& resp.accounts@[2].is_writable == false
                    &&& resp.instruction_data@ == b64_of(token_transfer_data(amount->Some_0))
                }
            }
        }),
{
    let d = match require_text(destination) {
        Ok(t) => t,
        Err(e) => {
            return Err(e);
        },
    };
    let m = match require_text(mint) {
        Ok(t) => t,
        Err(e) => {
            return Err(e);
        },
    };
    let o = match require_text(owner) {
        Ok(t) => t,
        Err(e) => {
            return Err(e);
        },
    };
    let amt = match amount {
        Option::Some(a) => a,
        Option::None => {
            return Err(ApiError::MissingField);
        },
    };
    let d_bytes = match decode_base58(d.as_str()) {
        Ok(v) => v,
        Err(e) => {
            return Err(e);
        },
    };
    let m_bytes = match decode_base58(m.as_str()) {
        Ok(v) => v,
        Err(e) => {
            return Err(e);
        },
    };
    let o_bytes = match decode_base58(o.as_str()) {
        Ok(v) => v,
        Err(e) => {
            return Err(e);
        },
    };
    if d_bytes.len() != 32 || m_bytes.len() != 32 || o_bytes.len() != 32 {
        return Err(ApiError::InvalidKeyMaterial);
    }
    let dest_key = PublicKeyValue { bytes: d_bytes };
    let mint_key = PublicKeyValue { bytes: m_bytes };
    let owner_key = PublicKeyValue { bytes: o_bytes };
    let source_token = match derive_associated_address(&owner_key, &mint_key) {
        Ok(pk) => pk,
        Err(e) => {
            return Err(e);
        },
    };
    let dest_token = match derive_associated_address(&dest_key, &mint_key) {
        Ok(pk) => pk,
        Err(e) => {
            return Err(e);
        },
    };
    let ix = build_token_transfer(&source_token, &dest_token, &owner_key, amt);
    let mut accounts: Vec<SendTokenAccountMetaResponse> = Vec::new();
    accounts.push(
        SendTokenAccountMetaResponse {
            pubkey: encode_base58(&ix.accounts[0].address.bytes),
            is_signer: ix.accounts[0].is_signer,
            is_writable: ix.accounts[0].is_writable,
        },
    );
    accounts.push(
        SendTokenAccountMetaResponse {
            pubkey: encode_base58(&ix.accounts[1].address.bytes),
            is_signer: ix.accounts[1].is_signer,
            is_writable: ix.accounts[1].is_writable,
        },
    );
    accounts.push(
        SendTokenAccountMetaResponse {
            pubkey: encode_base58(&ix.accounts[2].address.bytes),
            is_signer: ix.accounts[2].is_signer,
            is_writable: ix.accounts[2].is_writable,
        },
    );
    Ok(
        SendTokenResponse {
            program_id: encode_base58(&ix.program_id.bytes),
            accounts,
            instruction_data: encode_base64(&ix.data),
        },
    )
}

/// Builds the SPL initialize-mint instruction for a new mint without a
/// freeze authority; the instruction data is returned base64-encoded.
pub fn token_create(
    mint: Option<String>,
    mint_authority: Option<String>,
    decimals: Option<u8>,
) -> (r: Result<TokenCreateResponse, ApiError>)
    ensures
        ({
            let m = text(mint);
            let a = text(mint_authority);
            if missing(mint) || missing(mint_authority) || decimals is None {
                r == Err::<TokenCreateResponse, ApiError>(ApiError::MissingField)
            } else if !b58_str_ok(m) || !b58_str_ok(a) {
                r == Err::<TokenCreateResponse, ApiError>(ApiError::InvalidEncoding)
            } else if b58_bytes_of(m).len() != 32 || b58_bytes_of(a).len() != 32 {
                r == Err::<TokenCreateResponse, ApiError>(ApiError::InvalidKeyMaterial)
            } else {
                r matches Ok(resp) && {
                    &&& resp.program_id@ == b58_of(token_program_id())
                    &&& resp.accounts@.len() == 2
                    &&& resp.accounts@[0].pubkey@ == b58_of(b58_bytes_of(m))
                    &&& resp.accounts@[0].is_signer == false
                    &&& resp.accounts@[0].is_writable == true
                    &&& resp.accounts@[1].pubkey@ == b58_of(rent_sysvar_id())
                    &&& resp.accounts@[1].is_signer == false
                    &&& resp.accounts@[1].is_writable == false
                    &&& resp.instruction_data@ == b64_of(
                        initialize_mint_data(decimals->Some_0, b58_bytes_of(a), None),
                    )
                }
            }
        }),
{
    let m = match require_text(mint) {
        Ok(t) => t,
        Err(e) => {
            return Err(e);
        },
    };
    let a = match require_text(mint_authority) {
        Ok(t) => t,
        Err(e) => {
            return Err(e);
        },
    };
    let dec = match decimals {
        Option::Some(d) => d,
        Option::None => {
            return Err(ApiError::MissingField);
        },
    };
    let m_bytes = match decode_base58(m.as_str()) {
        Ok(v) => v,
        Err(e) => {
            return Err(e);
        },
    };
    let a_bytes = match decode_base58(a.as_str()) {
        Ok(v) => v,
        Err(e) => {
            return Err(e);
        },
    };
    if m_bytes.len() != 32 || a_bytes.len() != 32 {
        return Err(ApiError::InvalidKeyMaterial);
    }
    let mint_key = PublicKeyValue { bytes: m_bytes };
    let auth_key = PublicKeyValue { bytes: a_bytes };
    let ix = build_initialize_mint(&mint_key, &auth_key, None, dec);
    let mut accounts: Vec<AccountMetaResponse> = Vec::new();
    accounts.push(
        AccountMetaResponse {
            pubkey: encode_base58(&ix.accounts[0].address.bytes),
            is_signer: ix.accounts[0].is_signer,
            is_writable: ix.accounts[0].is_writable,
        },
    );
    accounts.push(
        AccountMetaResponse {
            pubkey: encode_base58(&ix.accounts[1].address.bytes),
            is_signer: ix.accounts[1].is_signer,
            is_writable: ix.accounts[1].is_writable,
        },
    );
    Ok(
        TokenCreateResponse {
            program_id: encode_base58(&ix.program_id.bytes),
            accounts,
            instruction_data: encode_base64(&ix.data),
        },
    )
}

/// Builds the SPL mint-to instruction, resolving the destination owner's
/// associated token account for the mint; the instruction data is returned
/// base64-encoded.
pub fn token_mint(
    mint: Option<String>,
    destination: Option<String>,
    authority: Option<String>,
    amount: Option<u64>,
) -> (r: Result<TokenMintResponse, ApiError>)
    ensures
        ({
            let m = text(mint);
            let d = text(destination);
            let a = text(authority);
            if missing(mint) || missing(destination) || missing(authority) || amount is None {
                r == Err::<TokenMintResponse, ApiError>(ApiError::MissingField)
            } else if !b58_str_ok(m) || !b58_str_ok(d) || !b58_str_ok(a) {
                r == Err::<TokenMintResponse, ApiError>(ApiError::InvalidEncoding)
            } else if b58_bytes_of(m).len() != 32 || b58_bytes_of(d).len() != 32 || b58_bytes_of(
                a,
            ).len() != 32 {
                r == Err::<TokenMintResponse, ApiError>(ApiError::InvalidKeyMaterial)
            } else if ata_address(b58_bytes_of(d), b58_bytes_of(m)) is None {
                r == Err::<TokenMintResponse, ApiError>(ApiError::DerivationNotFound)
            } else {
                r matches Ok(resp) && {
                    let dst = ata_address(b58_bytes_of(d), b58_bytes_of(m))->Some_0;
                    &&& resp.program_id@ == b58_of(token_program_id())
                    &&& resp.accounts@.len() == 3
                    &&& resp.accounts@[0].pubkey@ == b58_of(b58_bytes_of(m))
                    &&& resp.accounts@[0].is_writable == true
                    &&& resp.accounts@[0].is_signer == false
                    &&& resp.accounts@[1].pubkey@ == b58_of(dst)
                    &&& resp.accounts@[1].is_writable == true
                    &&& resp.accounts@[1].is_signer == false
                    &&& resp.accounts@[2].pubkey@ == b58_of(b58_bytes_of(a))
                    &&& resp.accounts@[2].is_writable == false
                    &&& resp.accounts@[2].is_signer == true
                    &&& resp.instruction_data@ == b64_of(mint_to_data(amount->Some_0))
                }
            }
        }),
{
    let m = match require_text(mint) {
        Ok(t) => t,
        Err(e) => {
            return Err(e);
        },
    };
    let d = match require_text(destination) {
        Ok(t) => t,
        Err(e) => {
            return Err(e);
        },
    };
    let a = match require_text(authority) {
        Ok(t) => t,
        Err(e) => {
            return Err(e);
        },
    };
    let amt = match amount {
        Option::Some(v) => v,
        Option::None => {
            return Err(ApiError::MissingField);
        },
    };
    let m_bytes = match decode_base58(m.as_str()) {
        Ok(v) => v,
        Err(e) => {
            return Err(e);
        },
    };
    let d_bytes = match decode_base58(d.as_str()) {
        Ok(v) => v,
        Err(e) => {
            return Err(e);
        },
    };
    let a_bytes = match decode_base58(a.as_str()) {
        Ok(v) => v,
        Err(e) => {
            return Err(e);
        },
    };
    if m_bytes.len() != 32 || d_bytes.len() != 32 || a_bytes.len() != 32 {
        return Err(ApiError::InvalidKeyMaterial);
    }
    let mint_key = PublicKeyValue { bytes: m_bytes };
    let dest_key = PublicKeyValue { bytes: d_bytes };
    let auth_key = PublicKeyValue { bytes: a_bytes };
    let dest_token = match derive_associated_address(&dest_key, &mint_key) {
        Ok(pk) => pk,
        Err(e) => {
            return Err(e);
        },
    };
    let ix = build_mint_to(&mint_key, &dest_token, &auth_key, amt);
    let mut accounts: Vec<AccountMetaResponse> = Vec::new();
    accounts.push(
        AccountMetaResponse {
            pubkey: encode_base58(&ix.accounts[0].address.bytes),
            is_signer: ix.accounts[0].is_signer,
            is_writable: ix.accounts[0].is_writable,
        },
    );
    accounts.push(
        AccountMetaResponse {
            pubkey: encode_base58(&ix.accounts[1].address.bytes),
            is_signer: ix.accounts[1].is_signer,
            is_writable: ix.accounts[1].is_writable,
        },
    );
    accounts.push(
        AccountMetaResponse {
            pubkey: encode_base58(&ix.accounts[2].address.bytes),
            is_signer: ix.accounts[2].is_signer,
            is_writable: ix.accounts[2].is_writable,
        },
    );
    Ok(
        TokenMintResponse {
            program_id: encode_base58(&ix.program_id.bytes),
            accounts,
            instruction_data: encode_base64(&ix.data),
        },
    )
}

} // verus!

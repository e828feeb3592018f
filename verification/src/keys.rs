use ed25519_dalek::Signer;
use vstd::prelude::*;

use crate::error::ApiError;

verus! {

/// Whether 32 bytes decode to a valid curve point, i.e. whether
/// `ed25519_dalek::PublicKey::from_bytes` accepts them.
pub uninterp spec fn ed_pubkey_valid(b: Seq<u8>) -> bool;

/// The Ed25519 signature over `msg` by the keypair whose 64 bytes are
/// `secret` (32-byte seed followed by the 32-byte public key).
pub uninterp spec fn sig_of(secret: Seq<u8>, msg: Seq<u8>) -> Seq<u8>;

/// The outcome of strict Ed25519 verification of `sig` over `msg` under the
/// public key `pk`.
pub uninterp spec fn ed_verify(pk: Seq<u8>, msg: Seq<u8>, sig: Seq<u8>) -> bool;

/// A 32-byte public key value.
pub struct PublicKeyValue {
    pub bytes: Vec<u8>,
}

impl PublicKeyValue {
    pub open spec fn wf(&self) -> bool {
        self.bytes@.len() == 32
    }
}

/// An Ed25519 keypair: 64 secret bytes (seed then public key) together with
/// the 32 public bytes they end in.
pub struct KeyPair {
    pub secret: Vec<u8>,
    pub public: Vec<u8>,
}

/// The well-formedness every 64-byte secret must have: the trailing 32 bytes
/// are a valid curve point.
pub open spec fn keypair_bytes_ok(b: Seq<u8>) -> bool {
    b.len() == 64 && ed_pubkey_valid(b.subrange(32, 64))
}

impl KeyPair {
    pub open spec fn wf(&self) -> bool {
        &&& keypair_bytes_ok(self.secret@)
        &&& self.public@ == self.secret@.subrange(32, 64)
    }
}

/// The shape `ed25519::Signature::from_bytes` accepts for 64 bytes: the
/// final byte has its top three bits clear. A 64-byte signature without
/// this shape is not an error; it simply never verifies.
pub open spec fn sig_bytes_ok(b: Seq<u8>) -> bool {
    b.len() == 64 && b[63] & 0xe0 == 0
}

/// Relies on `ed25519_dalek::Keypair::generate` with the operating system's
/// secure generator: whatever seed comes out, the result is 64 secret bytes
/// whose trailing half is the valid public key.
#[verifier::external_body]
fn generate_raw() -> (r: KeyPair)
    ensures
        r.wf(),
{
    let mut csprng = rand::rngs::OsRng {};
    let kp = ed25519_dalek::Keypair::generate(&mut csprng);
    KeyPair { secret: kp.to_bytes().to_vec(), public: kp.public.to_bytes().to_vec() }
}

/// Relies on `ed25519_dalek::PublicKey::from_bytes`: it succeeds exactly on
/// 32 bytes that decompress to a curve point.
#[verifier::external_body]
fn pubkey_check(b: &Vec<u8>) -> (r: bool)
    ensures
        r == (b@.len() == 32 && ed_pubkey_valid(b@)),
{
    ed25519_dalek::PublicKey::from_bytes(b.as_slice()).is_ok()
}

/// Relies on `ed25519_dalek::Keypair::sign`: Ed25519 signing is
/// deterministic, so the 64-byte signature depends on the keypair bytes and
/// the message alone.
#[verifier::external_body]
fn sign_raw(secret: &Vec<u8>, msg: &[u8]) -> (r: Vec<u8>)
    requires
        keypair_bytes_ok(secret@),
    ensures
        r@ == sig_of(secret@, msg@),
        r@.len() == 64,
{
    let kp = ed25519_dalek::Keypair::from_bytes(secret.as_slice()).unwrap();
    kp.sign(msg).to_bytes().to_vec()
}

/// Relies on `ed25519_dalek::PublicKey::verify_strict`: its outcome depends
/// on the key, message and signature bytes alone. A 64-byte signature whose
/// shape the parser rejects is one `verify_strict` itself would reject, so
/// it folds into a `false` outcome.
#[verifier::external_body]
fn verify_raw(pk: &Vec<u8>, msg: &[u8], sig: &Vec<u8>) -> (r: bool)
    requires
        pk@.len() == 32,
        ed_pubkey_valid(pk@),
        sig@.len() == 64,
    ensures
        r == ed_verify(pk@, msg@, sig@),
        !sig_bytes_ok(sig@) ==> r == false,
{
    let public = ed25519_dalek::PublicKey::from_bytes(pk.as_slice()).unwrap();
    match ed25519_dalek::Signature::from_bytes(sig.as_slice()) {
        Ok(signature) => public.verify_strict(msg, &signature).is_ok(),
        Err(_) => false,
    }
}

/// Generates a fresh keypair from a secure random seed.
pub fn generate_keypair() -> (r: KeyPair)
    ensures
        r.wf(),
{
    generate_raw()
}

/// Rebuilds a keypair from its 64 secret bytes, rejecting any other length
/// and any trailing half that is not a valid curve point.
pub fn load_keypair(secret: Vec<u8>) -> (r: Result<KeyPair, ApiError>)
    ensures
        keypair_bytes_ok(secret@) ==> (r matches Ok(kp) && kp.wf() && kp.secret@ == secret@),
        !keypair_bytes_ok(secret@) ==> r == Err::<KeyPair, ApiError>(ApiError::InvalidKeyMaterial),
{
    if secret.len() != 64 {
        return Err(ApiError::InvalidKeyMaterial);
    }
    let mut public: Vec<u8> = Vec::new();
    let mut i: usize = 32;
    while i < 64
        invariant
            32 <= i <= 64,
            secret@.len() == 64,
            public@ == secret@.subrange(32, i as int),
        decreases 64 - i,
    {
        public.push(secret[i]);
        proof {
            assert(public@ =~= secret@.subrange(32, i + 1));
        }
        i += 1;
    }
    proof {
        assert(public@ =~= secret@.subrange(32, 64));
    }
    if pubkey_check(&public) {
        Ok(KeyPair { secret, public })
    } else {
        Err(ApiError::InvalidKeyMaterial)
    }
}

/// Signs a message with a well-formed keypair; the signature is the
/// deterministic Ed25519 signature of the message under that key.
pub fn sign(kp: &KeyPair, message: &[u8]) -> (r: Vec<u8>)
    requires
        kp.wf(),
    ensures
        r@ == sig_of(kp.secret@, message@),
        r@.len() == 64,
{
    sign_raw(&kp.secret, message)
}

/// Checks a signature over a message. A malformed public key, or a
/// signature of the wrong byte length, is an error; any 64-byte signature
/// that fails cryptographic verification yields `Ok(false)`, never an
/// error.
pub fn verify(public: &Vec<u8>, message: &[u8], signature: &Vec<u8>) -> (r: Result<
    bool,
    ApiError,
>)
    ensures
        !(public@.len() == 32 && ed_pubkey_valid(public@)) ==> r == Err::<bool, ApiError>(
            ApiError::InvalidKeyMaterial,
        ),
        public@.len() == 32 && ed_pubkey_valid(public@) && signature@.len() != 64 ==> r
            == Err::<bool, ApiError>(ApiError::InvalidSignature),
        public@.len() == 32 && ed_pubkey_valid(public@) && signature@.len() == 64 ==> r == Ok::<
            bool,
            ApiError,
        >(ed_verify(public@, message@, signature@)),
{
    if !pubkey_check(public) {
        return Err(ApiError::InvalidKeyMaterial);
    }
    if signature.len() != 64 {
        return Err(ApiError::InvalidSignature);
    }
    Ok(verify_raw(public, message, signature))
}

} // verus!

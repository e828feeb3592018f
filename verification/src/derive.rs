use sha2::Digest;
use vstd::prelude::*;

use crate::error::ApiError;
use crate::instruction::{
    append_bytes, associated_token_program_id, associated_token_program_key, token_program_id,
    token_program_key,
};
use crate::keys::PublicKeyValue;

verus! {

/// The SHA-256 digest of a byte sequence.
pub uninterp spec fn sha256_of(b: Seq<u8>) -> Seq<u8>;

/// Whether 32 bytes decompress to a point of the Ed25519 curve.
pub uninterp spec fn on_curve(b: Seq<u8>) -> bool;

/// Relies on `sha2::Sha256`: the 32-byte digest depends on the input bytes
/// alone.
#[verifier::external_body]
fn sha256(b: &Vec<u8>) -> (r: Vec<u8>)
    ensures
        r@ == sha256_of(b@),
        r@.len() == 32,
{
    sha2::Sha256::digest(b.as_slice()).to_vec()
}

/// Relies on `curve25519_dalek::edwards::CompressedEdwardsY::decompress`:
/// whether it yields a point depends on the 32 bytes alone.
#[verifier::external_body]
fn is_on_curve(b: &Vec<u8>) -> (r: bool)
    requires
        b@.len() == 32,
    ensures
        r == on_curve(b@),
{
    curve25519_dalek::edwards::CompressedEdwardsY::from_slice(b.as_slice()).decompress().is_some()
}

/// The marker every program-derived-address hash ends in.
pub open spec fn pda_marker() -> Seq<u8> {
    seq![
        80u8, 114, 111, 103, 114, 97, 109, 68, 101, 114, 105, 118, 101, 100, 65, 100, 100, 114,
        101, 115, 115,
    ]
}

/// The candidate address tried for one bump value: the hash of the seeds
/// (owner, token program, mint), the bump byte, the deriving program's
/// identifier, and the marker.
pub open spec fn pda_candidate(owner: Seq<u8>, mint: Seq<u8>, bump: u8) -> Seq<u8> {
    sha256_of(
        owner + token_program_id() + mint + seq![bump] + associated_token_program_id()
            + pda_marker(),
    )
}

/// The first candidate, for bump values from `bump` down to 0, that does not
/// land on the curve; `None` when every bump is exhausted.
pub open spec fn pda_search(owner: Seq<u8>, mint: Seq<u8>, bump: int) -> Option<Seq<u8>>
    decreases bump + 1,
{
    if bump < 0 {
        None
    } else if !on_curve(pda_candidate(owner, mint, bump as u8)) {
        Some(pda_candidate(owner, mint, bump as u8))
    } else {
        pda_search(owner, mint, bump - 1)
    }
}

/// The associated token address of an (owner, mint) pair: the bump search
/// started at 255.
pub open spec fn ata_address(owner: Seq<u8>, mint: Seq<u8>) -> Option<Seq<u8>> {
    pda_search(owner, mint, 255)
}

/// The derivation is deterministic: one (owner, mint) pair has exactly one
/// associated address, so repeated derivations can never disagree.
pub proof fn lemma_derivation_deterministic(
    owner: Seq<u8>,
    mint: Seq<u8>,
    a1: Seq<u8>,
    a2: Seq<u8>,
)
    requires
        ata_address(owner, mint) == Some(a1),
        ata_address(owner, mint) == Some(a2),
    ensures
        a1 == a2,
{
}

/// The marker bytes as a value.
fn pda_marker_bytes() -> (r: Vec<u8>)
    ensures
        r@ == pda_marker(),
{
    let bytes: Vec<u8> = vec![
        80u8, 114, 111, 103, 114, 97, 109, 68, 101, 114, 105, 118, 101, 100, 65, 100, 100, 114,
        101, 115, 115,
    ];
    proof {
        assert(bytes@ =~= pda_marker());
    }
    bytes
}

/// Derives the associated token address bound to an (owner, mint) pair: the
/// first bump value from 255 downward whose candidate hash has no matching
/// private key, so the result is the same on every call. The search failing
/// for every bump is reported, not a panic.
pub fn derive_associated_address(owner: &PublicKeyValue, mint: &PublicKeyValue) -> (r: Result<
    PublicKeyValue,
    ApiError,
>)
    requires
        owner.wf(),
        mint.wf(),
    ensures
        ata_address(owner.bytes@, mint.bytes@) matches Some(a) ==> (r matches Ok(pk) && pk.wf()
            && pk.bytes@ == a),
        ata_address(owner.bytes@, mint.bytes@) is None ==> r == Err::<PublicKeyValue, ApiError>(
            ApiError::DerivationNotFound,
        ),
{
    let mut base: Vec<u8> = Vec::new();
    append_bytes(&mut base, &owner.bytes);
    append_bytes(&mut base, &token_program_key().bytes);
    append_bytes(&mut base, &mint.bytes);
    let mut i: usize = 0;
    while i < 256
        invariant
            0 <= i <= 256,
            owner.wf(),
            mint.wf(),
            base@ == owner.bytes@ + token_program_id() + mint.bytes@,
            pda_search(owner.bytes@, mint.bytes@, 255) == pda_search(
                owner.bytes@,
                mint.bytes@,
                255 - i,
            ),
        decreases 256 - i,
    {
        let bump: u8 = (255 - i) as u8;
        let mut seed: Vec<u8> = Vec::new();
        append_bytes(&mut seed, &base);
        seed.push(bump);
        append_bytes(&mut seed, &associated_token_program_key().bytes);
        append_bytes(&mut seed, &pda_marker_bytes());
        proof {
            assert(seed@ =~= owner.bytes@ + token_program_id() + mint.bytes@ + seq![bump]
                + associated_token_program_id() + pda_marker());
        }
        let candidate = sha256(&seed);
        if !is_on_curve(&candidate) {
            proof {
                assert(pda_search(owner.bytes@, mint.bytes@, 255 - i) matches Some(a) && a
                    == pda_candidate(owner.bytes@, mint.bytes@, bump));
            }
            return Ok(PublicKeyValue { bytes: candidate });
        }
        i += 1;
    }
    proof {
        assert(pda_search(owner.bytes@, mint.bytes@, -1) is None);
    }
    Err(ApiError::DerivationNotFound)
}

} // verus!

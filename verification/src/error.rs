use vstd::prelude::*;

verus! {

/// The failure kinds every operation of this library can report.
///
/// `InvalidSignature` means the signature text decodes to the wrong number of
/// bytes; a 64-byte signature that merely fails cryptographic verification is
/// reported as a normal `valid == false` outcome, never as an error.
#[derive(Clone, Copy, Debug, PartialEq, Eq, Structural)]
pub enum ApiError {
    MissingField,
    InvalidEncoding,
    InvalidKeyMaterial,
    InvalidSignature,
    DomainRuleViolation,
    DerivationNotFound,
}

impl ApiError {
    /// The human-readable cause carried by each failure kind.
    pub open spec fn message_spec(self) -> Seq<char> {
        match self {
            ApiError::MissingField => "Missing required fields"@,
            ApiError::InvalidEncoding => "Invalid encoding"@,
            ApiError::InvalidKeyMaterial => "Invalid key material"@,
            ApiError::InvalidSignature => "Invalid signature bytes"@,
            ApiError::DomainRuleViolation => "Amount must be greater than 0"@,
            ApiError::DerivationNotFound => "Unable to derive associated address"@,
        }
    }

    pub fn message(&self) -> (r: String)
        ensures
            r@ == self.message_spec(),
    {
        match self {
            ApiError::MissingField => "Missing required fields".to_owned(),
            ApiError::InvalidEncoding => "Invalid encoding".to_owned(),
            ApiError::InvalidKeyMaterial => "Invalid key material".to_owned(),
            ApiError::InvalidSignature => "Invalid signature bytes".to_owned(),
            ApiError::DomainRuleViolation => "Amount must be greater than 0".to_owned(),
            ApiError::DerivationNotFound => "Unable to derive associated address".to_owned(),
        }
    }
}

} // verus!

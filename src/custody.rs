//! Signing and verification: what the custody tier is asked to do, and how its
//! answer maps onto the library's errors. The host performs the cryptography.
use vstd::prelude::*;

use crate::did::exports_jwk;
use crate::error::IdentityError;
use crate::identity::Identity;
use crate::loader::HostFailure;

verus! {

/// How long a user-presence prompt may stay open, in milliseconds.
pub const PROMPT_TIMEOUT_MS: u32 = 60000;

/// What the host is asked to sign, and with which key.
pub enum SignRequest {
    /// ECDSA P-256 with SHA-256 over `message`, by the key that the browser
    /// keeps for this identity.
    Subtle { message: Vec<u8> },
    /// A WebAuthn assertion with user verification over `challenge`, allowed
    /// only for the passkey `credential_id`.
    Assertion { credential_id: Vec<u8>, challenge: Vec<u8>, timeout_ms: u32 },
}

/// The error for a signing that ended without a signature.
pub open spec fn sign_error(f: HostFailure) -> IdentityError {
    match f {
        HostFailure::Declined => IdentityError::UserCancelled,
        HostFailure::Failed => IdentityError::SignatureFailed,
        HostFailure::Unavailable => IdentityError::CryptoUnavailable,
    }
}

/// The error for a verification that produced no answer: the host rejected
/// malformed input, or lacks the capability.
pub open spec fn verify_error(f: HostFailure) -> IdentityError {
    match f {
        HostFailure::Unavailable => IdentityError::CryptoUnavailable,
        _ => IdentityError::VerificationFailed,
    }
}

impl Identity {
    /// The request that signs `message` under this identity. Browser keys sign
    /// the message itself; a passkey takes it as the assertion challenge. This
    /// host offers no signer for the stub and in-process tiers.
    pub fn sign_request(&self, message: &[u8]) -> (r: Result<SignRequest, IdentityError>)
        ensures
            exports_jwk(self@.tier) ==> (r matches Ok(SignRequest::Subtle { message: m }) && m@ == message@),
            self@.tier is Passkey ==> (r matches Ok(
                SignRequest::Assertion { credential_id, challenge, timeout_ms },
            ) && credential_id@ == self@.credential_id && challenge@ == message@ && timeout_ms == PROMPT_TIMEOUT_MS),
            (self@.tier is StubEphemeral || self@.tier is NativeKeypair) ==> r == Err::<SignRequest, IdentityError>(
                IdentityError::CryptoUnavailable,
            ),
    {
        let tier = self.tier();
        if tier.exports_jwk() {
            Ok(SignRequest::Subtle { message: vstd::slice::slice_to_vec(message) })
        } else if matches!(tier, crate::did::IdentityType::Passkey) {
            let credential_id = vstd::slice::slice_to_vec(self.credential_id().as_slice());
            Ok(
                SignRequest::Assertion {
                    credential_id,
                    challenge: vstd::slice::slice_to_vec(message),
                    timeout_ms: PROMPT_TIMEOUT_MS,
                },
            )
        } else {
            Err(IdentityError::CryptoUnavailable)
        }
    }
}

/// The result of a signing, from the host's answer: the signature bytes as
/// they came, or the error that tells a declined prompt from a failure.
pub fn finish_sign(outcome: Result<Vec<u8>, HostFailure>) -> (r: Result<Vec<u8>, IdentityError>)
    ensures
        outcome is Ok ==> r is Ok && r->Ok_0@ == outcome->Ok_0@,
        outcome is Err ==> r == Err::<Vec<u8>, IdentityError>(sign_error(outcome->Err_0)),
{
    match outcome {
        Ok(signature) => Ok(signature),
        Err(HostFailure::Declined) => Err(IdentityError::UserCancelled),
        Err(HostFailure::Failed) => Err(IdentityError::SignatureFailed),
        Err(HostFailure::Unavailable) => Err(IdentityError::CryptoUnavailable),
    }
}

/// The result of a verification, from the host's answer: a non-matching
/// signature is `Ok(false)`, never an error.
pub fn finish_verify(outcome: Result<bool, HostFailure>) -> (r: Result<bool, IdentityError>)
    ensures
        outcome is Ok ==> r == Ok::<bool, IdentityError>(outcome->Ok_0),
        outcome is Err ==> r == Err::<bool, IdentityError>(verify_error(outcome->Err_0)),
{
    match outcome {
        Ok(valid) => Ok(valid),
        Err(HostFailure::Unavailable) => Err(IdentityError::CryptoUnavailable),
        Err(_) => Err(IdentityError::VerificationFailed),
    }
}

} // verus!

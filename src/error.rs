use vstd::prelude::*;

verus! {

/// The failures that the identity subsystem reports to its callers.
#[derive(PartialEq, Eq, Structural, Clone, Copy, Debug)]
pub enum IdentityError {
    /// The host lacks a required cryptographic capability.
    CryptoUnavailable,
    /// The custody backend could not produce a keypair.
    KeyGenerationFailed,
    /// The key-value store is unreachable or rejected a write.
    KeyStorageFailed,
    /// The host failed while producing a signature.
    SignatureFailed,
    /// Verification inputs were malformed (a wrong signature is `false`, not this).
    VerificationFailed,
    /// A persisted record or a wire-level hex string is malformed.
    SerializationError,
    /// A persisted DID does not match the DID recomputed from its key material.
    IdentityCorruption,
    /// The user declined an interactive prompt of the hardware-backed tier.
    UserCancelled,
}

} // verus!

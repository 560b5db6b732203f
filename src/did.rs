//! Custody tiers and the self-certifying identifier derived from a public key.
use vstd::prelude::*;

use sha2::Digest;

use crate::hex::{encode, hex_encode, lemma_decode_encode};

verus! {

/// The SHA-256 digest of a byte sequence, as the `sha2` crate computes it.
pub uninterp spec fn sha256_of(data: Seq<u8>) -> Seq<u8>;

/// Relies on `sha2::Sha256::digest`: the 32-byte SHA-256 digest of `data`.
#[verifier::external_body]
pub(crate) fn sha256(data: &[u8]) -> (r: Vec<u8>)
    ensures
        r@ == sha256_of(data@),
        r@.len() == 32,
{
    sha2::Sha256::digest(data).to_vec()
}

/// Where and how the private key of an identity is kept.
#[derive(PartialEq, Eq, Structural, Clone, Copy, Debug)]
pub enum IdentityType {
    /// Throwaway keys for development; never a production tier.
    StubEphemeral,
    /// An ECDSA P-256 key held by the browser and exportable, persisted as a JSON Web Key.
    LocalKey,
    /// An ECDSA P-256 key held by the browser that can never be exported.
    NonExtractableKey,
    /// A WebAuthn passkey: the key stays inside the platform authenticator.
    Passkey,
    /// A keypair whose secret key lives in process memory and in the store.
    NativeKeypair,
}

/// The discriminator that a DID and a stored record carry for each tier.
pub open spec fn tag_of(tier: IdentityType) -> Seq<char> {
    match tier {
        IdentityType::StubEphemeral => "stub"@,
        IdentityType::LocalKey => "ecdsa"@,
        IdentityType::NonExtractableKey => "ecdsa-nx"@,
        IdentityType::Passkey => "passkey"@,
        IdentityType::NativeKeypair => "native"@,
    }
}

/// The tier whose discriminator is `tag`, if any.
pub open spec fn tier_of_tag(tag: Seq<char>) -> Option<IdentityType> {
    if tag == "stub"@ {
        Some(IdentityType::StubEphemeral)
    } else if tag == "ecdsa"@ {
        Some(IdentityType::LocalKey)
    } else if tag == "ecdsa-nx"@ {
        Some(IdentityType::NonExtractableKey)
    } else if tag == "passkey"@ {
        Some(IdentityType::Passkey)
    } else if tag == "native"@ {
        Some(IdentityType::NativeKeypair)
    } else {
        None
    }
}

/// Tiers whose public key is a JSON Web Key exported by the browser; the
/// others carry raw public key bytes.
pub open spec fn exports_jwk(tier: IdentityType) -> bool {
    tier is LocalKey || tier is NonExtractableKey
}

/// Tiers under which the application process can observe the secret key.
pub open spec fn key_leaves_host(tier: IdentityType) -> bool {
    tier is StubEphemeral || tier is LocalKey || tier is NativeKeypair
}

/// The number of digest bytes that a DID keeps: 160 bits.
pub open spec fn did_digest_len() -> int {
    20
}

/// `did:aurora:<tag>:<hex of the first 20 digest bytes>`.
pub open spec fn did_text(tier: IdentityType, digest: Seq<u8>) -> Seq<char> {
    "did:aurora:"@ + tag_of(tier) + ":"@ + hex_encode(digest.take(did_digest_len()))
}

/// The DID of public key bytes under a tier.
pub open spec fn did_of_key(tier: IdentityType, key_bytes: Seq<u8>) -> Seq<char> {
    did_text(tier, sha256_of(key_bytes))
}

/// Each tier's discriminator names that tier and no other.
pub proof fn lemma_tier_of_tag(tier: IdentityType)
    ensures
        tier_of_tag(tag_of(tier)) == Some(tier),
{
    reveal_strlit("stub");
    reveal_strlit("ecdsa");
    reveal_strlit("ecdsa-nx");
    reveal_strlit("passkey");
    reveal_strlit("native");
    assert("stub"@.len() == 4 && "ecdsa"@.len() == 5 && "ecdsa-nx"@.len() == 8);
    assert("passkey"@.len() == 7 && "native"@.len() == 6);
}

impl IdentityType {
    /// The tier's discriminator.
    pub fn tag(&self) -> (r: &'static str)
        ensures
            r@ == tag_of(*self),
    {
        match self {
            IdentityType::StubEphemeral => "stub",
            IdentityType::LocalKey => "ecdsa",
            IdentityType::NonExtractableKey => "ecdsa-nx",
            IdentityType::Passkey => "passkey",
            IdentityType::NativeKeypair => "native",
        }
    }

    /// The tier named by a discriminator; `None` for an unknown one.
    pub fn from_tag(tag: &str) -> (r: Option<IdentityType>)
        ensures
            r == tier_of_tag(tag@),
    {
        let t = tag.to_owned();
        if t == String::from_str("stub") {
            Some(IdentityType::StubEphemeral)
        } else if t == String::from_str("ecdsa") {
            Some(IdentityType::LocalKey)
        } else if t == String::from_str("ecdsa-nx") {
            Some(IdentityType::NonExtractableKey)
        } else if t == String::from_str("passkey") {
            Some(IdentityType::Passkey)
        } else if t == String::from_str("native") {
            Some(IdentityType::NativeKeypair)
        } else {
            None
        }
    }

    /// Whether the tier's public key is an exported JSON Web Key.
    pub fn exports_jwk(&self) -> (r: bool)
        ensures
            r == exports_jwk(*self),
    {
        matches!(self, IdentityType::LocalKey | IdentityType::NonExtractableKey)
    }

    /// The weaker-trust flag: whether the application process can see the secret key.
    pub fn key_leaves_host(&self) -> (r: bool)
        ensures
            r == key_leaves_host(*self),
    {
        matches!(self, IdentityType::StubEphemeral | IdentityType::LocalKey | IdentityType::NativeKeypair)
    }

    /// Whether the tier may serve real users; the stub tier may not.
    pub fn is_production(&self) -> (r: bool)
        ensures
            r == !(*self is StubEphemeral),
    {
        !matches!(self, IdentityType::StubEphemeral)
    }
}

/// The DID for a digest of the public key under a tier.
pub fn did_from_digest(tier: IdentityType, digest: &[u8]) -> (r: String)
    requires
        digest@.len() >= did_digest_len(),
    ensures
        r@ == did_text(tier, digest@),
        r@.len() == 52 + tag_of(tier).len(),
{
    let prefix = vstd::slice::slice_subrange(digest, 0, 20);
    let mut did = String::from_str("did:aurora:");
    did.append(tier.tag());
    did.append(":");
    let hex = encode(prefix);
    did.append(hex.as_str());
    assert(prefix@ =~= digest@.take(did_digest_len()));
    proof {
        crate::hex::lemma_encode_shape(prefix@);
        reveal_strlit("did:aurora:");
        reveal_strlit(":");
    }
    did
}

/// Derives the DID of public key bytes under a tier: a pure function of the two.
pub fn derive_did(key_bytes: &[u8], tier: IdentityType) -> (r: String)
    ensures
        r@ == did_of_key(tier, key_bytes@),
        r@.len() == 52 + tag_of(tier).len(),
{
    let digest = sha256(key_bytes);
    did_from_digest(tier, digest.as_slice())
}

/// Distinct tiers never share a DID, and under one tier equal DIDs come from
/// digests that agree on every byte the DID keeps: the DID determines both its
/// tier and its 160-bit digest prefix.
pub proof fn lemma_did_injective(t1: IdentityType, d1: Seq<u8>, t2: IdentityType, d2: Seq<u8>)
    requires
        d1.len() >= did_digest_len(),
        d2.len() >= did_digest_len(),
        did_text(t1, d1) == did_text(t2, d2),
    ensures
        t1 == t2,
        d1.take(did_digest_len()) == d2.take(did_digest_len()),
{
    reveal_strlit("did:aurora:");
    reveal_strlit(":");
    reveal_strlit("stub");
    reveal_strlit("ecdsa");
    reveal_strlit("ecdsa-nx");
    reveal_strlit("passkey");
    reveal_strlit("native");
    let p1 = d1.take(did_digest_len());
    let p2 = d2.take(did_digest_len());
    crate::hex::lemma_encode_shape(p1);
    crate::hex::lemma_encode_shape(p2);
    let s = did_text(t1, d1);
    assert(p1.len() == 20 && p2.len() == 20);
    assert("did:aurora:"@.len() == 11 && ":"@.len() == 1);
    assert(s.len() == 52 + tag_of(t1).len());
    assert(did_text(t2, d2).len() == 52 + tag_of(t2).len());
    assert(tag_of(t1).len() == tag_of(t2).len());
    let start = 12 + tag_of(t1).len() as int;
    assert(s.subrange(start, s.len() as int) =~= hex_encode(p1));
    assert(did_text(t2, d2).subrange(start, s.len() as int) =~= hex_encode(p2));
    lemma_decode_encode(p1);
    lemma_decode_encode(p2);
}

} // verus!

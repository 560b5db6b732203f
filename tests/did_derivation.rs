use aurora_identity::did::{derive_did, did_from_digest, IdentityType};

const TIERS: [IdentityType; 5] = [
    IdentityType::StubEphemeral,
    IdentityType::LocalKey,
    IdentityType::NonExtractableKey,
    IdentityType::Passkey,
    IdentityType::NativeKeypair,
];

#[test]
fn did_of_known_bytes() {
    assert_eq!(
        derive_did(b"abc", IdentityType::LocalKey),
        "did:aurora:ecdsa:ba7816bf8f01cfea414140de5dae2223b00361a3"
    );
    let key = [9u8; 32];
    assert_eq!(
        derive_did(&key, IdentityType::NativeKeypair),
        "did:aurora:native:8c0cc17a04942cc4f8e0fe0b302606d3108860c1"
    );
    assert_eq!(
        derive_did(&key, IdentityType::StubEphemeral),
        "did:aurora:stub:8c0cc17a04942cc4f8e0fe0b302606d3108860c1"
    );
}

#[test]
fn did_from_digest_keeps_twenty_bytes() {
    let digest: Vec<u8> = (0..32u8).collect();
    assert_eq!(
        did_from_digest(IdentityType::Passkey, &digest),
        "did:aurora:passkey:000102030405060708090a0b0c0d0e0f10111213"
    );
    assert_eq!(
        did_from_digest(IdentityType::NonExtractableKey, &digest[..20]),
        "did:aurora:ecdsa-nx:000102030405060708090a0b0c0d0e0f10111213"
    );
}

#[test]
fn did_is_deterministic() {
    for tier in TIERS {
        assert_eq!(derive_did(b"same key", tier), derive_did(b"same key", tier));
    }
}

#[test]
fn did_differs_across_tiers_for_same_key() {
    for a in TIERS {
        for b in TIERS {
            if a != b {
                assert_ne!(derive_did(b"same key", a), derive_did(b"same key", b));
            }
        }
    }
}

#[test]
fn did_differs_across_keys() {
    assert_ne!(
        derive_did(b"key one", IdentityType::LocalKey),
        derive_did(b"key two", IdentityType::LocalKey)
    );
}

#[test]
fn tags_round_trip() {
    for tier in TIERS {
        assert_eq!(IdentityType::from_tag(tier.tag()), Some(tier));
    }
    assert_eq!(IdentityType::from_tag("rsa"), None);
    assert_eq!(IdentityType::from_tag(""), None);
    assert_eq!(IdentityType::from_tag("ECDSA"), None);
}

#[test]
fn tier_capabilities() {
    assert!(IdentityType::LocalKey.exports_jwk());
    assert!(IdentityType::NonExtractableKey.exports_jwk());
    assert!(!IdentityType::Passkey.exports_jwk());
    assert!(IdentityType::NativeKeypair.key_leaves_host());
    assert!(IdentityType::LocalKey.key_leaves_host());
    assert!(!IdentityType::Passkey.key_leaves_host());
    assert!(!IdentityType::NonExtractableKey.key_leaves_host());
    assert!(!IdentityType::StubEphemeral.is_production());
    assert!(IdentityType::Passkey.is_production());
}

#[test]
fn did_length_is_prefix_tag_and_forty_digits() {
    for tier in TIERS {
        assert_eq!(derive_did(b"any key", tier).len(), 12 + tier.tag().len() + 40);
    }
}

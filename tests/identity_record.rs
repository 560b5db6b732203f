use aurora_identity::did::IdentityType;
use aurora_identity::error::IdentityError;
use aurora_identity::identity::{Identity, KeyMaterial};

const JWK: &str = r#"{"crv":"P-256","kty":"EC","x":"abc","y":"def"}"#;
const JWK_DID: &str = "did:aurora:ecdsa:891a1c86333ed2fac3b23667171d0d16610452bf";

fn jwk_identity() -> Identity {
    Identity::from_material(IdentityType::LocalKey, KeyMaterial::Jwk(JWK.to_string()), vec![]).unwrap()
}

fn stored_of(fields: &[&str]) -> String {
    serde_json::to_string(&fields.iter().map(|f| f.to_string()).collect::<Vec<String>>()).unwrap()
}

#[test]
fn identity_derives_its_did() {
    let id = jwk_identity();
    assert_eq!(id.did(), JWK_DID);
    assert_eq!(id.tier(), IdentityType::LocalKey);
    assert_eq!(id.public_key_material(), JWK);
    assert_eq!(id.public_key_jwk(), JWK);
    assert!(id.credential_id().is_empty());
}

#[test]
fn material_form_must_fit_tier() {
    let r = Identity::from_material(IdentityType::Passkey, KeyMaterial::Jwk(JWK.to_string()), vec![]);
    assert_eq!(r.err(), Some(IdentityError::KeyGenerationFailed));
    let r = Identity::from_material(IdentityType::LocalKey, KeyMaterial::Raw(vec![1, 2]), vec![]);
    assert_eq!(r.err(), Some(IdentityError::KeyGenerationFailed));
}

#[test]
fn stored_text_is_json_array_of_fields() {
    let id = jwk_identity();
    let stored = id.to_stored().unwrap();
    assert_eq!(stored, stored_of(&[JWK_DID, JWK, "ecdsa", ""]));
    let raw = Identity::from_material(IdentityType::NativeKeypair, KeyMaterial::Raw(vec![0xab, 0x01]), vec![])
        .unwrap();
    let stored = raw.to_stored().unwrap();
    let expected_did = raw.did();
    assert_eq!(stored, stored_of(&[expected_did.as_str(), "ab01", "native", ""]));
}

#[test]
fn stored_record_reloads_to_same_identity() {
    let id = jwk_identity();
    let again = Identity::from_stored(&id.to_stored().unwrap()).unwrap();
    assert_eq!(again.did(), id.did());
    assert_eq!(again.public_key_material(), id.public_key_material());
    assert_eq!(again.tier(), id.tier());
}

#[test]
fn passkey_record_reloads_with_credential() {
    let key = vec![0x9fu8; 32];
    let id = Identity::from_material(IdentityType::Passkey, KeyMaterial::Raw(key.clone()), vec![1, 2, 3, 4]).unwrap();
    let again = Identity::from_stored(&id.to_stored().unwrap()).unwrap();
    assert_eq!(again.did(), id.did());
    assert_eq!(again.credential_id(), &vec![1, 2, 3, 4]);
    assert_eq!(again.public_key_material(), "9f".repeat(32));
}

#[test]
fn hand_written_record_reloads() {
    let id = Identity::from_stored(&stored_of(&[JWK_DID, JWK, "ecdsa", ""])).unwrap();
    assert_eq!(id.did(), JWK_DID);
}

#[test]
fn altered_material_is_identity_corruption() {
    let altered = JWK.replace("abc", "abd");
    let r = Identity::from_stored(&stored_of(&[JWK_DID, &altered, "ecdsa", ""]));
    assert_eq!(r.err(), Some(IdentityError::IdentityCorruption));
}

#[test]
fn flipped_hex_digit_of_raw_material_is_identity_corruption() {
    let id = Identity::from_material(IdentityType::NativeKeypair, KeyMaterial::Raw(vec![0x10, 0x20, 0x30]), vec![])
        .unwrap();
    let did = id.did();
    let r = Identity::from_stored(&stored_of(&[did.as_str(), "102031", "native", ""]));
    assert_eq!(r.err(), Some(IdentityError::IdentityCorruption));
}

#[test]
fn altered_did_or_tier_is_identity_corruption() {
    let other_did = "did:aurora:ecdsa:0000000000000000000000000000000000000000";
    let r = Identity::from_stored(&stored_of(&[other_did, JWK, "ecdsa", ""]));
    assert_eq!(r.err(), Some(IdentityError::IdentityCorruption));
    let r = Identity::from_stored(&stored_of(&[JWK_DID, JWK, "ecdsa-nx", ""]));
    assert_eq!(r.err(), Some(IdentityError::IdentityCorruption));
}

#[test]
fn malformed_records_are_serialization_errors() {
    let cases = [
        String::from("not json"),
        String::from("{\"did\":\"x\"}"),
        String::from("[1,2,3,4]"),
        stored_of(&[JWK_DID, JWK, "ecdsa"]),
        stored_of(&[JWK_DID, JWK, "ecdsa", "", "extra"]),
        stored_of(&[JWK_DID, JWK, "rsa", ""]),
        stored_of(&[JWK_DID, JWK, "ecdsa", "0"]),
        stored_of(&["did:aurora:native:00", "zz", "native", ""]),
    ];
    for text in cases.iter() {
        let r = Identity::from_stored(text);
        assert_eq!(r.err(), Some(IdentityError::SerializationError), "{}", text);
    }
}

#[test]
fn from_fields_checks_count_and_did() {
    let fields: Vec<String> = vec![JWK_DID.to_string(), JWK.to_string(), "ecdsa".to_string(), String::new()];
    assert_eq!(Identity::from_fields(&fields).unwrap().did(), JWK_DID);
    let short: Vec<String> = fields[..3].to_vec();
    assert_eq!(Identity::from_fields(&short).err(), Some(IdentityError::SerializationError));
}

#[test]
fn peer_id_and_public_key_hex() {
    let id = jwk_identity();
    assert_eq!(id.peer_id(), "12D3KooW891a1c86333ed2fac3b23667171d0d16");
    assert_eq!(
        id.public_key_hex(),
        "891a1c86333ed2fac3b23667171d0d16610452bf71fb2ff7a62705165bce0e60"
    );
}

//! The identity record: a DID, the public key material it was derived from, the
//! custody tier, and the tamper check that guards every reload.
use vstd::prelude::*;
use vstd::utf8::encode_utf8;

use crate::did::{
    derive_did, did_of_key, exports_jwk, lemma_tier_of_tag, sha256, sha256_of, tag_of, tier_of_tag, IdentityType,
};
use crate::error::IdentityError;
use crate::hex::{decode, encode, hex_decode, hex_encode, lemma_decode_encode};
use crate::json::{json_array_items, json_array_text, strings_from_json, strings_to_json};

verus! {

/// Public key material in the form its tier exports it.
pub enum KeyMaterial {
    /// A JSON Web Key exported by the browser, kept as its text.
    Jwk(String),
    /// Raw public key bytes.
    Raw(Vec<u8>),
}

/// The mathematical value of a `KeyMaterial`.
pub enum MaterialView {
    Jwk(Seq<char>),
    Raw(Seq<u8>),
}

impl View for KeyMaterial {
    type V = MaterialView;

    open spec fn view(&self) -> MaterialView {
        match self {
            KeyMaterial::Jwk(text) => MaterialView::Jwk(text@),
            KeyMaterial::Raw(bytes) => MaterialView::Raw(bytes@),
        }
    }
}

/// The bytes that are hashed into the DID: the UTF-8 text of a JSON Web Key,
/// or the raw key itself.
pub open spec fn material_bytes(m: MaterialView) -> Seq<u8> {
    match m {
        MaterialView::Jwk(text) => encode_utf8(text),
        MaterialView::Raw(bytes) => bytes,
    }
}

/// The transport-safe text of the material: the JSON Web Key itself, or
/// lowercase hex of the raw key.
pub open spec fn material_text(m: MaterialView) -> Seq<char> {
    match m {
        MaterialView::Jwk(text) => text,
        MaterialView::Raw(bytes) => hex_encode(bytes),
    }
}

/// The material that a tier's text form stands for.
pub open spec fn material_of_text(tier: IdentityType, text: Seq<char>) -> Option<MaterialView> {
    if exports_jwk(tier) {
        Some(MaterialView::Jwk(text))
    } else {
        match hex_decode(text) {
            Some(bytes) => Some(MaterialView::Raw(bytes)),
            None => None,
        }
    }
}

/// The mathematical value of an `Identity`.
pub struct IdentityView {
    pub did: Seq<char>,
    pub tier: IdentityType,
    pub material: MaterialView,
    pub credential_id: Seq<u8>,
}

/// An identity is well formed when its DID is the one derived from its own
/// material and tier, and the material has the form that its tier exports.
pub open spec fn well_formed(v: IdentityView) -> bool {
    &&& v.did == did_of_key(v.tier, material_bytes(v.material))
    &&& (exports_jwk(v.tier) <==> v.material is Jwk)
}

/// The identity that a tier's key material makes, with its DID derived.
pub open spec fn identity_of(tier: IdentityType, material: MaterialView, credential_id: Seq<u8>) -> IdentityView {
    IdentityView {
        did: did_of_key(tier, material_bytes(material)),
        tier,
        material,
        credential_id,
    }
}

/// The strings that the persisted record holds, in order: DID, public key
/// material, tier tag, credential id in hex.
pub open spec fn record_fields(v: IdentityView) -> Seq<Seq<char>> {
    seq![v.did, material_text(v.material), tag_of(v.tier), hex_encode(v.credential_id)]
}

/// What a persisted record's strings reload as. Anything malformed is a
/// `SerializationError`; a DID that differs from the one recomputed from the
/// stored material and tier is `IdentityCorruption`, never repaired.
pub open spec fn record_from_fields(f: Seq<Seq<char>>) -> Result<IdentityView, IdentityError> {
    if f.len() != 4 {
        Err(IdentityError::SerializationError)
    } else {
        match tier_of_tag(f[2]) {
            None => Err(IdentityError::SerializationError),
            Some(tier) => match material_of_text(tier, f[1]) {
                None => Err(IdentityError::SerializationError),
                Some(material) => match hex_decode(f[3]) {
                    None => Err(IdentityError::SerializationError),
                    Some(credential_id) => {
                        let v = identity_of(tier, material, credential_id);
                        if f[0] == v.did {
                            Ok(v)
                        } else {
                            Err(IdentityError::IdentityCorruption)
                        }
                    },
                },
            },
        }
    }
}

/// What a persisted record's text reloads as.
pub open spec fn record_from_text(text: Seq<char>) -> Result<IdentityView, IdentityError> {
    match json_array_items(text) {
        None => Err(IdentityError::SerializationError),
        Some(f) => record_from_fields(f),
    }
}

/// A well-formed identity's record strings reload as that very identity.
pub proof fn lemma_record_round_trip(v: IdentityView)
    requires
        well_formed(v),
    ensures
        record_from_fields(record_fields(v)) == Ok::<IdentityView, IdentityError>(v),
{
    lemma_tier_of_tag(v.tier);
    lemma_decode_encode(v.credential_id);
    match v.material {
        MaterialView::Raw(bytes) => lemma_decode_encode(bytes),
        MaterialView::Jwk(_) => {},
    }
}

/// Persisting and reloading: a text from which `serde_json` reads back the
/// record strings of a well-formed identity reloads as that identity.
pub proof fn lemma_stored_text_reloads(v: IdentityView, text: Seq<char>)
    requires
        well_formed(v),
        json_array_items(text) == Some(record_fields(v)),
    ensures
        record_from_text(text) == Ok::<IdentityView, IdentityError>(v),
{
    lemma_record_round_trip(v);
}

/// An identity handle: DID, public key material, tier, and the reference by
/// which the tier finds the private key (the credential id of a passkey; empty
/// for the other tiers). The private key itself is never held here.
pub struct Identity {
    did: String,
    tier: IdentityType,
    material: KeyMaterial,
    credential_id: Vec<u8>,
}

impl View for Identity {
    type V = IdentityView;

    closed spec fn view(&self) -> IdentityView {
        IdentityView {
            did: self.did@,
            tier: self.tier,
            material: self.material@,
            credential_id: self.credential_id@,
        }
    }
}

/// The view of a result that may hold an identity.
pub open spec fn result_view(r: Result<Identity, IdentityError>) -> Result<IdentityView, IdentityError> {
    match r {
        Ok(id) => Ok(id@),
        Err(e) => Err(e),
    }
}

impl KeyMaterial {
    /// The DID of this material under a tier.
    pub fn did_under(&self, tier: IdentityType) -> (r: String)
        ensures
            r@ == did_of_key(tier, material_bytes(self@)),
    {
        match self {
            KeyMaterial::Jwk(text) => derive_did(text.as_str().as_bytes(), tier),
            KeyMaterial::Raw(bytes) => derive_did(bytes.as_slice(), tier),
        }
    }

    /// The SHA-256 digest of the material's bytes.
    pub fn digest(&self) -> (r: Vec<u8>)
        ensures
            r@ == sha256_of(material_bytes(self@)),
            r@.len() == 32,
    {
        match self {
            KeyMaterial::Jwk(text) => sha256(text.as_str().as_bytes()),
            KeyMaterial::Raw(bytes) => sha256(bytes.as_slice()),
        }
    }

    /// The transport-safe text of the material.
    pub fn text(&self) -> (r: String)
        ensures
            r@ == material_text(self@),
    {
        match self {
            KeyMaterial::Jwk(text) => text.clone(),
            KeyMaterial::Raw(bytes) => encode(bytes.as_slice()),
        }
    }

    /// Reads the text form of a tier's material: JSON Web Key text is taken as
    /// it is, raw material must be valid hex.
    pub fn from_text(tier: IdentityType, text: &str) -> (r: Result<KeyMaterial, IdentityError>)
        ensures
            material_of_text(tier, text@) is Some ==> r is Ok && r->Ok_0@ == material_of_text(tier, text@)->Some_0,
            material_of_text(tier, text@) is None ==> r == Err::<KeyMaterial, IdentityError>(IdentityError::SerializationError),
    {
        if tier.exports_jwk() {
            Ok(KeyMaterial::Jwk(text.to_owned()))
        } else {
            match decode(text) {
                Ok(bytes) => Ok(KeyMaterial::Raw(bytes)),
                Err(e) => Err(e),
            }
        }
    }
}

impl Identity {
    #[verifier::type_invariant]
    spec fn is_well_formed(self) -> bool {
        well_formed(self@)
    }

    /// Builds the identity of freshly produced key material, deriving its DID.
    pub fn from_material(tier: IdentityType, material: KeyMaterial, credential_id: Vec<u8>) -> (r: Result<Identity, IdentityError>)
        ensures
            (exports_jwk(tier) <==> material@ is Jwk) ==> r is Ok && r->Ok_0@ == identity_of(tier, material@, credential_id@),
            !(exports_jwk(tier) <==> material@ is Jwk) ==> r == Err::<Identity, IdentityError>(IdentityError::KeyGenerationFailed),
    {
        let fits = match &material {
            KeyMaterial::Jwk(_) => tier.exports_jwk(),
            KeyMaterial::Raw(_) => !tier.exports_jwk(),
        };
        if !fits {
            return Err(IdentityError::KeyGenerationFailed);
        }
        let did = material.did_under(tier);
        Ok(Identity { did, tier, material, credential_id })
    }

    /// Reloads an identity from the strings of a persisted record, running the
    /// tamper check: the stored DID must equal the DID recomputed from the
    /// stored material and tier.
    pub fn from_fields(fields: &Vec<String>) -> (r: Result<Identity, IdentityError>)
        ensures
            result_view(r) == record_from_fields(fields.deep_view()),
    {
        let ghost f = fields.deep_view();
        if fields.len() != 4 {
            return Err(IdentityError::SerializationError);
        }
        assert(f[0] == fields@[0]@ && f[1] == fields@[1]@ && f[2] == fields@[2]@ && f[3] == fields@[3]@);
        let tier = match IdentityType::from_tag(fields[2].as_str()) {
            Some(t) => t,
            None => {
                return Err(IdentityError::SerializationError);
            },
        };
        let material = match KeyMaterial::from_text(tier, fields[1].as_str()) {
            Ok(m) => m,
            Err(e) => {
                return Err(e);
            },
        };
        let credential_id = match decode(fields[3].as_str()) {
            Ok(c) => c,
            Err(e) => {
                return Err(e);
            },
        };
        let did = material.did_under(tier);
        if did != fields[0] {
            return Err(IdentityError::IdentityCorruption);
        }
        Ok(Identity { did, tier, material, credential_id })
    }

    /// Reloads an identity from the text of a persisted record.
    pub fn from_stored(text: &str) -> (r: Result<Identity, IdentityError>)
        ensures
            result_view(r) == record_from_text(text@),
    {
        match strings_from_json(text) {
            Ok(fields) => Identity::from_fields(&fields),
            Err(_) => Err(IdentityError::SerializationError),
        }
    }

    /// The text under which this identity is persisted.
    pub fn to_stored(&self) -> (r: Result<String, IdentityError>)
        ensures
            r is Ok,
            r->Ok_0@ == json_array_text(record_fields(self@)),
            json_array_items(r->Ok_0@) == Some(record_fields(self@)),
    {
        let mut fields: Vec<String> = Vec::new();
        fields.push(self.did.clone());
        fields.push(self.material.text());
        fields.push(self.tier.tag().to_owned());
        fields.push(encode(self.credential_id.as_slice()));
        assert(fields.deep_view() =~= record_fields(self@));
        match strings_to_json(&fields) {
            Ok(text) => Ok(text),
            Err(_) => Err(IdentityError::SerializationError),
        }
    }

    /// The DID.
    pub fn did(&self) -> (r: String)
        ensures
            r@ == self@.did,
            well_formed(self@),
    {
        proof {
            use_type_invariant(self);
        }
        self.did.clone()
    }

    /// The custody tier.
    pub fn tier(&self) -> (r: IdentityType)
        ensures
            r == self@.tier,
    {
        self.tier
    }

    /// The public key material in its transport-safe text form.
    pub fn public_key_material(&self) -> (r: String)
        ensures
            r@ == material_text(self@.material),
    {
        self.material.text()
    }

    /// The public key material as text; for the browser-managed tiers this is
    /// the exported JSON Web Key.
    pub fn public_key_jwk(&self) -> (r: String)
        ensures
            r@ == material_text(self@.material),
    {
        self.material.text()
    }

    /// Lowercase hex of the SHA-256 digest of the public key, for display.
    pub fn public_key_hex(&self) -> (r: String)
        ensures
            r@ == hex_encode(sha256_of(material_bytes(self@.material))),
    {
        let digest = self.material.digest();
        encode(digest.as_slice())
    }

    /// The peer id under which the transport layer announces this identity:
    /// `12D3KooW` followed by hex of the first 16 digest bytes of the public key.
    pub fn peer_id(&self) -> (r: String)
        ensures
            r@ == "12D3KooW"@ + hex_encode(sha256_of(material_bytes(self@.material)).take(16)),
    {
        let digest = self.material.digest();
        let prefix = vstd::slice::slice_subrange(digest.as_slice(), 0, 16);
        let mut id = String::from_str("12D3KooW");
        let hex = encode(prefix);
        id.append(hex.as_str());
        assert(prefix@ =~= digest@.take(16));
        id
    }

    /// The reference by which the tier finds the private key.
    pub fn credential_id(&self) -> (r: &Vec<u8>)
        ensures
            r@ == self@.credential_id,
    {
        &self.credential_id
    }

    /// The public key material.
    pub fn material(&self) -> (r: &KeyMaterial)
        ensures
            r@ == self@.material,
    {
        &self.material
    }
}

} // verus!

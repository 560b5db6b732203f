//! Load-or-create: the decisions of establishing the active identity of a
//! store, as a state machine. The caller performs each request (a store read,
//! a key generation by the custody tier, a store write) and hands back what
//! happened; nothing is retried here.
use vstd::prelude::*;

use crate::did::{did_of_key, exports_jwk, tier_of_tag, IdentityType};
use crate::error::IdentityError;
use crate::identity::{
    identity_of, lemma_stored_text_reloads, material_bytes, material_of_text, record_fields,
    record_from_fields, record_from_text, result_view, well_formed, Identity, IdentityView, KeyMaterial,
    MaterialView,
};
use crate::json::{json_array_items, json_array_text};

verus! {

/// The name under which the identity record is persisted.
pub const RECORD_KEY: &'static str = "aurora_identity";

/// How a host call that may need the user ended without a result.
#[derive(PartialEq, Eq, Structural, Clone, Copy, Debug)]
pub enum HostFailure {
    /// The user declined the prompt.
    Declined,
    /// The host reported an error.
    Failed,
    /// The host lacks the capability.
    Unavailable,
}

/// The public result of a key generation, as each tier reports it.
pub enum NewKey {
    /// The public key of a browser keypair, exported as a JSON Web Key.
    Jwk(String),
    /// A newly created platform credential (passkey): its raw id, and the
    /// public key that the authenticator returned for it.
    Credential { id: Vec<u8>, public_key: Vec<u8> },
    /// The raw public key of an in-process keypair.
    Raw(Vec<u8>),
}

/// The identity that a tier's new key makes; `None` where the key is not of
/// the kind that the tier produces. A passkey keeps the authenticator's public
/// key as its material and its credential id to find the private key.
pub open spec fn new_key_identity(tier: IdentityType, key: NewKey) -> Option<IdentityView> {
    match key {
        NewKey::Jwk(text) => if exports_jwk(tier) {
            Some(identity_of(tier, MaterialView::Jwk(text@), seq![]))
        } else {
            None
        },
        NewKey::Credential { id, public_key } => if tier is Passkey {
            Some(identity_of(tier, MaterialView::Raw(public_key@), id@))
        } else {
            None
        },
        NewKey::Raw(bytes) => if tier is StubEphemeral || tier is NativeKeypair {
            Some(identity_of(tier, MaterialView::Raw(bytes@), seq![]))
        } else {
            None
        },
    }
}

/// The error for a generation that ended without a key.
pub open spec fn generation_error(f: HostFailure) -> IdentityError {
    match f {
        HostFailure::Declined => IdentityError::UserCancelled,
        HostFailure::Failed => IdentityError::KeyGenerationFailed,
        HostFailure::Unavailable => IdentityError::CryptoUnavailable,
    }
}

/// What the loader asks its caller to do next.
pub enum Request {
    /// Read the value stored under `RECORD_KEY`.
    ReadRecord,
    /// Have the tier generate a fresh keypair.
    Generate(IdentityType),
    /// Store this text under `RECORD_KEY`.
    WriteRecord(String),
}

/// What happened to the caller's last request.
pub enum LoadEvent {
    /// The store answered a read: the value, or nothing under the key.
    RecordRead(Option<String>),
    /// The store could not be read or rejected the write.
    StoreFailed,
    /// The tier generated a keypair.
    KeyGenerated(NewKey),
    /// The tier generated nothing.
    GenerationFailed(HostFailure),
    /// The store accepted the write.
    RecordWritten,
}

pub enum RequestView {
    ReadRecord,
    Generate(IdentityType),
    WriteRecord(Seq<char>),
}

impl View for Request {
    type V = RequestView;

    open spec fn view(&self) -> RequestView {
        match self {
            Request::ReadRecord => RequestView::ReadRecord,
            Request::Generate(t) => RequestView::Generate(*t),
            Request::WriteRecord(text) => RequestView::WriteRecord(text@),
        }
    }
}

enum Phase {
    AwaitRecord(IdentityType),
    AwaitKey(IdentityType),
    AwaitWrite(Identity, String),
}

/// Where a load stands: waiting for the record (with the preferred tier), for
/// a new key of a tier, or for the new record's text to be stored.
pub enum PhaseView {
    AwaitRecord(IdentityType),
    AwaitKey(IdentityType),
    AwaitWrite(IdentityView, Seq<char>),
}

/// An identity load in progress.
pub struct IdentityLoader {
    phase: Phase,
}

impl View for IdentityLoader {
    type V = PhaseView;

    closed spec fn view(&self) -> PhaseView {
        match self.phase {
            Phase::AwaitRecord(t) => PhaseView::AwaitRecord(t),
            Phase::AwaitKey(t) => PhaseView::AwaitKey(t),
            Phase::AwaitWrite(id, text) => PhaseView::AwaitWrite(id@, text@),
        }
    }
}

/// The outcome of one step: a further request, or the end of the load.
pub enum LoadStep {
    Pending(IdentityLoader, Request),
    Done(Result<Identity, IdentityError>),
}

pub enum StepView {
    Pending(PhaseView, RequestView),
    Done(Result<IdentityView, IdentityError>),
}

impl View for LoadStep {
    type V = StepView;

    open spec fn view(&self) -> StepView {
        match self {
            LoadStep::Pending(loader, request) => StepView::Pending(loader@, request@),
            LoadStep::Done(result) => StepView::Done(result_view(*result)),
        }
    }
}

/// The steps a load may take. A stored record is reloaded through the tamper
/// check and never overwritten; only an absent record leads to generation,
/// and the identity is handed out only once its record is stored. An event
/// that does not answer the pending request leaves the load where it is.
pub open spec fn load_step(before: PhaseView, event: LoadEvent, after: StepView) -> bool {
    match before {
        PhaseView::AwaitRecord(preferred) => match event {
            LoadEvent::RecordRead(None) => after == StepView::Pending(
                PhaseView::AwaitKey(preferred),
                RequestView::Generate(preferred),
            ),
            LoadEvent::RecordRead(Some(text)) => after == StepView::Done(record_from_text(text@)),
            LoadEvent::StoreFailed => after == StepView::Done(Err(IdentityError::KeyStorageFailed)),
            _ => after == StepView::Pending(before, RequestView::ReadRecord),
        },
        PhaseView::AwaitKey(tier) => match event {
            LoadEvent::KeyGenerated(key) => match new_key_identity(tier, key) {
                None => after == StepView::Done(Err(IdentityError::KeyGenerationFailed)),
                Some(v) => {
                    let text = json_array_text(record_fields(v));
                    &&& after == StepView::Pending(PhaseView::AwaitWrite(v, text), RequestView::WriteRecord(text))
                    &&& json_array_items(text) == Some(record_fields(v))
                },
            },
            LoadEvent::GenerationFailed(f) => after == StepView::Done(Err(generation_error(f))),
            _ => after == StepView::Pending(before, RequestView::Generate(tier)),
        },
        PhaseView::AwaitWrite(v, text) => match event {
            LoadEvent::RecordWritten => after == StepView::Done(Ok(v)),
            LoadEvent::StoreFailed => after == StepView::Done(Err(IdentityError::KeyStorageFailed)),
            _ => after == StepView::Pending(before, RequestView::WriteRecord(text)),
        },
    }
}

impl IdentityLoader {
    /// Starts loading the identity of a store, creating one of the preferred
    /// tier if the store holds none. The first request is always the read.
    pub fn new(preferred: IdentityType) -> (r: (IdentityLoader, Request))
        ensures
            r.0@ == PhaseView::AwaitRecord(preferred),
            r.1@ == RequestView::ReadRecord,
    {
        (IdentityLoader { phase: Phase::AwaitRecord(preferred) }, Request::ReadRecord)
    }

    /// Advances the load by the caller's report of its last request.
    pub fn step(self, event: LoadEvent) -> (r: LoadStep)
        ensures
            load_step(self@, event, r@),
    {
        let ghost before = self@;
        match self.phase {
            Phase::AwaitRecord(preferred) => match event {
                LoadEvent::RecordRead(None) => LoadStep::Pending(
                    IdentityLoader { phase: Phase::AwaitKey(preferred) },
                    Request::Generate(preferred),
                ),
                LoadEvent::RecordRead(Some(text)) => LoadStep::Done(Identity::from_stored(text.as_str())),
                LoadEvent::StoreFailed => LoadStep::Done(Err(IdentityError::KeyStorageFailed)),
                _ => LoadStep::Pending(
                    IdentityLoader { phase: Phase::AwaitRecord(preferred) },
                    Request::ReadRecord,
                ),
            },
            Phase::AwaitKey(tier) => match event {
                LoadEvent::KeyGenerated(key) => {
                    let ghost expected = new_key_identity(tier, key);
                    match identity_of_new_key(tier, key) {
                        Err(e) => LoadStep::Done(Err(e)),
                        Ok(id) => {
                            assert(id@ == expected->Some_0);
                            match id.to_stored() {
                                Ok(text) => {
                                    let request = Request::WriteRecord(text.clone());
                                    LoadStep::Pending(IdentityLoader { phase: Phase::AwaitWrite(id, text) }, request)
                                },
                                Err(e) => LoadStep::Done(Err(e)),
                            }
                        },
                    }
                },
                LoadEvent::GenerationFailed(f) => LoadStep::Done(Err(generation_failure(f))),
                _ => LoadStep::Pending(IdentityLoader { phase: Phase::AwaitKey(tier) }, Request::Generate(tier)),
            },
            Phase::AwaitWrite(id, text) => match event {
                LoadEvent::RecordWritten => LoadStep::Done(Ok(id)),
                LoadEvent::StoreFailed => LoadStep::Done(Err(IdentityError::KeyStorageFailed)),
                _ => {
                    let request = Request::WriteRecord(text.clone());
                    LoadStep::Pending(IdentityLoader { phase: Phase::AwaitWrite(id, text) }, request)
                },
            },
        }
    }
}

/// Builds the identity of a tier's new key, deriving its DID.
fn identity_of_new_key(tier: IdentityType, key: NewKey) -> (r: Result<Identity, IdentityError>)
    ensures
        new_key_identity(tier, key) is Some ==> r is Ok && r->Ok_0@ == new_key_identity(tier, key)->Some_0,
        new_key_identity(tier, key) is None ==> r == Err::<Identity, IdentityError>(IdentityError::KeyGenerationFailed),
{
    match key {
        NewKey::Jwk(text) => Identity::from_material(tier, KeyMaterial::Jwk(text), Vec::new()),
        NewKey::Credential { id, public_key } => {
            if !matches!(tier, IdentityType::Passkey) {
                return Err(IdentityError::KeyGenerationFailed);
            }
            Identity::from_material(tier, KeyMaterial::Raw(public_key), id)
        },
        NewKey::Raw(bytes) => {
            if !matches!(tier, IdentityType::StubEphemeral | IdentityType::NativeKeypair) {
                return Err(IdentityError::KeyGenerationFailed);
            }
            Identity::from_material(tier, KeyMaterial::Raw(bytes), Vec::new())
        },
    }
}

/// Maps a generation that ended without a key to its error.
pub fn generation_failure(f: HostFailure) -> (r: IdentityError)
    ensures
        r == generation_error(f),
{
    match f {
        HostFailure::Declined => IdentityError::UserCancelled,
        HostFailure::Failed => IdentityError::KeyGenerationFailed,
        HostFailure::Unavailable => IdentityError::CryptoUnavailable,
    }
}

/// Fail-closed reload: take a persisted record that reloads, and alter its
/// public key material out of band into other well-formed material whose DID
/// differs from the stored one. Loading from that record ends with
/// `IdentityCorruption`: no identity is handed out and nothing is written.
pub proof fn lemma_altered_material_fails_closed(
    preferred: IdentityType,
    stored: String,
    original: Seq<Seq<char>>,
    altered: Seq<Seq<char>>,
    after: StepView,
)
    requires
        record_from_fields(original) is Ok,
        altered.len() == original.len(),
        forall|i: int| 0 <= i < original.len() && i != 1 ==> altered[i] == original[i],
        material_of_text(tier_of_tag(original[2])->Some_0, altered[1]) is Some,
        did_of_key(
            tier_of_tag(original[2])->Some_0,
            material_bytes(material_of_text(tier_of_tag(original[2])->Some_0, altered[1])->Some_0),
        ) != original[0],
        json_array_items(stored@) == Some(altered),
        load_step(PhaseView::AwaitRecord(preferred), LoadEvent::RecordRead(Some(stored)), after),
    ensures
        after == StepView::Done(Err(IdentityError::IdentityCorruption)),
{
    assert(altered[0] == original[0] && altered[2] == original[2] && altered[3] == original[3]);
}

/// No silent overwrite: a load asks for a key only after the store was read
/// and held no record, and asks for a write only with a freshly generated key
/// (or to repeat that write). A reload never leads to either.
pub proof fn lemma_write_follows_absent_read(before: PhaseView, event: LoadEvent, after: StepView)
    requires
        load_step(before, event, after),
    ensures
        after matches StepView::Pending(_, RequestView::Generate(_)) ==> (before is AwaitKey || (
        before is AwaitRecord && (event matches LoadEvent::RecordRead(None)))),
        after matches StepView::Pending(_, RequestView::WriteRecord(_)) ==> (before is AwaitWrite || (
        before is AwaitKey && event is KeyGenerated)),
        (before is AwaitRecord && (event matches LoadEvent::RecordRead(Some(_)))) ==> after is Done,
{
}

/// Every identity that a tier's new key makes is well formed.
pub proof fn lemma_new_key_identity_well_formed(tier: IdentityType, key: NewKey)
    requires
        new_key_identity(tier, key) is Some,
    ensures
        well_formed(new_key_identity(tier, key)->Some_0),
{
}

/// Creation on an empty store, then a restart on the same store: the load reads
/// nothing, asks the preferred tier for a key, asks to write that identity's
/// record, and ends with the identity once the write is accepted. A later load
/// of any preferred tier that reads the written text ends with the very same
/// identity and generates nothing.
pub proof fn lemma_create_then_restart(
    preferred: IdentityType,
    key: NewKey,
    v: IdentityView,
    s1: StepView,
    s2: StepView,
    s3: StepView,
    later: IdentityType,
    written: String,
    s4: StepView,
)
    requires
        new_key_identity(preferred, key) == Some(v),
        load_step(PhaseView::AwaitRecord(preferred), LoadEvent::RecordRead(None), s1),
        load_step(PhaseView::AwaitKey(preferred), LoadEvent::KeyGenerated(key), s2),
        load_step(PhaseView::AwaitWrite(v, written@), LoadEvent::RecordWritten, s3),
        written@ == json_array_text(record_fields(v)),
        load_step(PhaseView::AwaitRecord(later), LoadEvent::RecordRead(Some(written)), s4),
    ensures
        s1 == StepView::Pending(PhaseView::AwaitKey(preferred), RequestView::Generate(preferred)),
        s2 == StepView::Pending(PhaseView::AwaitWrite(v, written@), RequestView::WriteRecord(written@)),
        s3 == StepView::Done(Ok::<IdentityView, IdentityError>(v)),
        s4 == StepView::Done(Ok::<IdentityView, IdentityError>(v)),
{
    lemma_new_key_identity_well_formed(preferred, key);
    lemma_stored_text_reloads(v, written@);
}

} // verus!

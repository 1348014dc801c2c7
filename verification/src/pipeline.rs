//! Upload and deletion orchestration.
//!
//! The pipelines sequence policy checks, storage, the external
//! accept/reject hook and metadata recording.  The outside work — disk
//! writes, the hook call, the database — is done by the application, which
//! reports each outcome to an `UploadSession`; the session decides how the
//! upload proceeds and which cleanup the caller owes, and its invariant
//! guarantees that no failure (other than the benign duplicate) leaves an
//! orphaned blob or a dangling record.

use vstd::prelude::*;
use crate::auth::AuthEvent;
use crate::hexcodec::{hex_decode, hex_decoded, hex_encode, hex_of};
use crate::settings::Settings;
use crate::tags::{check_method, find_tag_value, method_matches, parse_dec, parse_dec_str, tag_value};

verus! {

/// One upload's bookkeeping record, keyed by content hash.
pub struct FileUpload {
    /// The content hash.
    pub id: Vec<u8>,
    /// Uploader-supplied display name.
    pub name: String,
    pub size: u64,
    pub mime_type: String,
    /// Creation time, seconds since the epoch.
    pub created: u64,
}

/// The descriptor returned to a successful uploader.
pub struct BlobDescriptor {
    pub url: String,
    pub sha256: String,
    pub size: u64,
    pub mime_type: String,
    pub uploader_name: String,
}

/// The public URL of a blob: the public base, a slash, the hex digest.
pub open spec fn url_of(base: Seq<char>, hash: Seq<u8>) -> Seq<char> {
    base + seq!['/'] + hex_of(hash)
}

impl BlobDescriptor {
    pub fn from_upload(u: &FileUpload, public_url: &str) -> (r: BlobDescriptor)
        ensures
            r.url@ == url_of(public_url@, u.id@),
            r.sha256@ == hex_of(u.id@),
            r.size == u.size,
            r.mime_type == u.mime_type,
            r.uploader_name == u.name,
    {
        let hexid = hex_encode(u.id.as_slice());
        let mut url = public_url.to_owned();
        url.append("/");
        url.append(hexid.as_str());
        proof {
            reveal_strlit("/");
            assert("/"@ =~= seq!['/']);
            assert(url@ =~= url_of(public_url@, u.id@));
        }
        BlobDescriptor {
            url,
            sha256: hexid,
            size: u.size,
            mime_type: u.mime_type.clone(),
            uploader_name: u.name.clone(),
        }
    }
}

/// Why an upload was refused.
#[derive(Clone, Copy, Debug, PartialEq, Eq, Structural)]
pub enum UploadError {
    /// The assertion's method tag does not name the upload operation.
    InvalidMethodTag,
    /// The declared size exceeds the configured maximum.
    TooLarge,
    /// A whitelist is configured and the issuer is not on it.
    NotWhitelisted,
    /// Writing the blob to disk failed.
    StorageFailed,
    /// The accept/reject hook said no.
    HookRejected,
    /// The accept/reject hook could not be reached or errored.
    HookFailed,
    /// The metadata store refused the record because one already exists
    /// for this content hash.
    AlreadyExists,
    /// The metadata store failed.
    DbFailed,
}

/// Plain values the upload flow carries past the policy check.
pub struct UploadPlan {
    /// Display name, empty when none was declared.
    pub name: String,
    /// Declared content type, with the octet-stream default.
    pub mime_type: String,
    /// Declared size, when one was present and well formed.
    pub declared_size: Option<u64>,
}

/// The ghost image of an upload plan.
pub ghost struct PlanView {
    pub name: Seq<char>,
    pub mime_type: Seq<char>,
    pub declared_size: Option<u64>,
}

/// Does the configured whitelist admit this issuer?  No whitelist admits
/// everyone.
pub open spec fn whitelist_allows(wl: Option<Seq<Seq<char>>>, pk_hex: Seq<char>) -> bool {
    match wl {
        None => true,
        Some(l) => l.contains(pk_hex),
    }
}

/// The policy gate of the verb-tagged upload flow, in its fixed order:
/// method tag, declared size against the maximum, whitelist membership.
/// All checks run before a single body byte is persisted.
pub open spec fn upload_policy_spec(
    tags: Seq<Seq<Seq<char>>>,
    pubkey: Seq<u8>,
    content_type: Option<Seq<char>>,
    s: Settings,
) -> Result<PlanView, UploadError> {
    let size = match tag_value(tags, "size"@) {
        Some(v) => parse_dec(v),
        None => None,
    };
    if !method_matches(tags, "upload"@) {
        Err(UploadError::InvalidMethodTag)
    } else if size matches Some(z) && z > s.max_upload_bytes as u64 {
        Err(UploadError::TooLarge)
    } else if !whitelist_allows(s.whitelist.deep_view(), hex_of(pubkey)) {
        Err(UploadError::NotWhitelisted)
    } else {
        Ok(
            PlanView {
                name: match tag_value(tags, "name"@) {
                    Some(v) => v,
                    None => Seq::empty(),
                },
                mime_type: match content_type {
                    Some(c) => c,
                    None => "application/octet-stream"@,
                },
                declared_size: size,
            },
        )
    }
}

fn contains_string(v: &Vec<String>, x: &String) -> (r: bool)
    ensures
        r == v.deep_view().contains(x@),
{
    let mut i: usize = 0;
    while i < v.len()
        invariant
            i <= v.len(),
            forall|j: int| 0 <= j < i ==> #[trigger] v.deep_view()[j] != x@,
        decreases v.len() - i,
    {
        proof {
            assert(v.deep_view()[i as int] == v@[i as int]@);
        }
        if v[i] == *x {
            proof {
                assert(v.deep_view()[i as int] == x@);
            }
            return true;
        }
        i = i + 1;
    }
    proof {
        assert(forall|j: int| 0 <= j < v.deep_view().len() ==> #[trigger] v.deep_view()[j]
            != x@);
    }
    false
}

/// Run the upload policy gate over a verified assertion.
pub fn check_upload_policy(auth: &AuthEvent, content_type: Option<String>, settings: &Settings)
    -> (r: Result<UploadPlan, UploadError>)
    ensures
        r matches Ok(p) ==> upload_policy_spec(
            auth.tags.deep_view(),
            auth.pubkey@,
            content_type.deep_view(),
            *settings,
        ) matches Ok(pv) && p.name@ == pv.name && p.mime_type@ == pv.mime_type
            && p.declared_size == pv.declared_size,
        r matches Err(e) ==> upload_policy_spec(
            auth.tags.deep_view(),
            auth.pubkey@,
            content_type.deep_view(),
            *settings,
        ) == Err::<PlanView, UploadError>(e),
{
    if !check_method(&auth.tags, "upload") {
        return Err(UploadError::InvalidMethodTag);
    }
    let size = match find_tag_value(&auth.tags, "size") {
        Some(v) => parse_dec_str(v.as_str()),
        None => None,
    };
    if let Some(z) = size {
        if z > settings.max_upload_bytes as u64 {
            return Err(UploadError::TooLarge);
        }
    }
    if let Some(wl) = &settings.whitelist {
        let pk_hex = hex_encode(auth.pubkey.as_slice());
        if !contains_string(wl, &pk_hex) {
            return Err(UploadError::NotWhitelisted);
        }
    }
    let name = match find_tag_value(&auth.tags, "name") {
        Some(v) => v,
        None => String::new(),
    };
    let mime_type = match content_type {
        Some(c) => c,
        None => String::from_str("application/octet-stream"),
    };
    Ok(UploadPlan { name, mime_type, declared_size: size })
}

/// What the accept/reject hook answered.
#[derive(Clone, Copy, Debug, PartialEq, Eq, Structural)]
pub enum HookOutcome {
    Accepted,
    Rejected,
    /// The call errored or timed out.
    Failed,
}

/// What the metadata store answered to the record insert.
#[derive(Clone, Copy, Debug, PartialEq, Eq, Structural)]
pub enum RecordOutcome {
    Inserted,
    /// Uniqueness violation: a record for this hash already exists.
    Duplicate,
    Failed,
}

/// What the caller owes after a pipeline step.
#[derive(Clone, Copy, Debug, PartialEq, Eq, Structural)]
pub enum CleanupAction {
    Keep,
    /// Remove the blob file written by this request.
    RemoveBlob,
}

/// Where an upload stands.
#[derive(Clone, Copy, Debug, PartialEq, Eq, Structural)]
pub enum UploadStage {
    PreStore,
    PostStore,
    PostHook,
    PostOwner,
    Finished,
}

/// One upload's passage through store → hook → owner upsert → record.
/// `blob_on_disk` and `recorded` model the side effects of this request,
/// counting the cleanup the caller was told to perform.
pub struct UploadSession {
    pub stage: UploadStage,
    pub hook_configured: bool,
    pub blob_on_disk: bool,
    pub hook_accepted: bool,
    pub recorded: bool,
    pub error: Option<UploadError>,
}

/// The session invariant: failures leave nothing behind — except the
/// duplicate conflict, which deliberately leaves the content-identical
/// blob bytes in place — and nothing is recorded past a hook that did not
/// accept.
pub open spec fn session_inv(s: UploadSession) -> bool {
    &&& (s.error is Some ==> s.stage == UploadStage::Finished && !s.recorded)
    &&& (s.error matches Some(e) && e != UploadError::AlreadyExists ==> !s.blob_on_disk)
    &&& (s.error == Some(UploadError::AlreadyExists) ==> s.blob_on_disk)
    &&& (s.stage == UploadStage::Finished && s.error is None ==> s.recorded && s.blob_on_disk)
    &&& (s.recorded ==> s.hook_accepted || !s.hook_configured)
    &&& (s.stage == UploadStage::PreStore ==> !s.blob_on_disk && !s.recorded && s.error is None)
    &&& (s.stage == UploadStage::PostStore ==> s.blob_on_disk && !s.recorded && s.error is None)
    &&& (s.stage == UploadStage::PostHook ==> s.blob_on_disk && !s.recorded && s.error is None
        && (s.hook_accepted || !s.hook_configured))
    &&& (s.stage == UploadStage::PostOwner ==> s.blob_on_disk && !s.recorded && s.error is None
        && (s.hook_accepted || !s.hook_configured))
}

impl UploadSession {
    /// A fresh session: policy has passed, nothing has been written.
    pub fn begin(hook_configured: bool) -> (s: Self)
        ensures
            session_inv(s),
            s.stage == UploadStage::PreStore,
            s.hook_configured == hook_configured,
            !s.blob_on_disk,
            !s.recorded,
            s.error is None,
    {
        UploadSession {
            stage: UploadStage::PreStore,
            hook_configured,
            blob_on_disk: false,
            hook_accepted: false,
            recorded: false,
            error: None,
        }
    }

    /// The storage outcome.  On failure the scratch file never reached the
    /// destination, so nothing is on disk and the upload ends.
    pub fn on_store_result(&mut self, ok: bool)
        requires
            old(self).stage == UploadStage::PreStore,
            session_inv(*old(self)),
        ensures
            session_inv(*final(self)),
            final(self).hook_configured == old(self).hook_configured,
            ok ==> final(self).stage == UploadStage::PostStore && final(self).blob_on_disk
                && final(self).error is None,
            !ok ==> final(self).stage == UploadStage::Finished && final(self).error == Some(
                UploadError::StorageFailed,
            ) && !final(self).blob_on_disk && !final(self).recorded,
    {
        if ok {
            self.stage = UploadStage::PostStore;
            self.blob_on_disk = true;
        } else {
            self.stage = UploadStage::Finished;
            self.error = Some(UploadError::StorageFailed);
        }
    }

    /// The hook outcome; pass nothing when no hook is configured.  On a
    /// rejection or a hook failure the caller must remove the blob file
    /// this request wrote, and the upload ends with no record.
    pub fn on_hook_result(&mut self, outcome: Option<HookOutcome>) -> (act: CleanupAction)
        requires
            old(self).stage == UploadStage::PostStore,
            session_inv(*old(self)),
            outcome is Some <==> old(self).hook_configured,
        ensures
            session_inv(*final(self)),
            final(self).hook_configured == old(self).hook_configured,
            (outcome is None || outcome == Some(HookOutcome::Accepted)) ==> final(self).stage
                == UploadStage::PostHook && final(self).error is None && final(self).blob_on_disk && act == CleanupAction::Keep,
            outcome == Some(HookOutcome::Rejected) ==> final(self).stage
                == UploadStage::Finished && final(self).error == Some(UploadError::HookRejected)
                && !final(self).blob_on_disk && !final(self).recorded && act
                == CleanupAction::RemoveBlob,
            outcome == Some(HookOutcome::Failed) ==> final(self).stage == UploadStage::Finished
                && final(self).error == Some(UploadError::HookFailed) && !final(self).blob_on_disk && !final(self).recorded && act == CleanupAction::RemoveBlob,
    {
        match outcome {
            None => {
                self.stage = UploadStage::PostHook;
                CleanupAction::Keep
            },
            Some(HookOutcome::Accepted) => {
                self.stage = UploadStage::PostHook;
                self.hook_accepted = true;
                CleanupAction::Keep
            },
            Some(HookOutcome::Rejected) => {
                self.stage = UploadStage::Finished;
                self.error = Some(UploadError::HookRejected);
                self.blob_on_disk = false;
                CleanupAction::RemoveBlob
            },
            Some(HookOutcome::Failed) => {
                self.stage = UploadStage::Finished;
                self.error = Some(UploadError::HookFailed);
                self.blob_on_disk = false;
                CleanupAction::RemoveBlob
            },
        }
    }

    /// The owner upsert outcome.  A database failure here ends the upload
    /// and rolls the blob back.
    pub fn on_owner_result(&mut self, ok: bool) -> (act: CleanupAction)
        requires
            old(self).stage == UploadStage::PostHook,
            session_inv(*old(self)),
        ensures
            session_inv(*final(self)),
            final(self).hook_configured == old(self).hook_configured,
            ok ==> final(self).stage == UploadStage::PostOwner && final(self).error is None
                && final(self).blob_on_disk && act == CleanupAction::Keep,
            !ok ==> final(self).stage == UploadStage::Finished && final(self).error == Some(
                UploadError::DbFailed,
            ) && !final(self).blob_on_disk && !final(self).recorded && act
                == CleanupAction::RemoveBlob,
    {
        if ok {
            self.stage = UploadStage::PostOwner;
            CleanupAction::Keep
        } else {
            self.stage = UploadStage::Finished;
            self.error = Some(UploadError::DbFailed);
            self.blob_on_disk = false;
            CleanupAction::RemoveBlob
        }
    }

    /// The record insert outcome.  A uniqueness conflict is the distinct
    /// "already exists" condition: no record is created, no merge or retry
    /// happens, and the freshly written, content-identical blob bytes stay
    /// in place.  Any other failure rolls the blob back.
    pub fn on_record_result(&mut self, outcome: RecordOutcome) -> (act: CleanupAction)
        requires
            old(self).stage == UploadStage::PostOwner,
            session_inv(*old(self)),
        ensures
            session_inv(*final(self)),
            final(self).hook_configured == old(self).hook_configured,
            final(self).stage == UploadStage::Finished,
            outcome == RecordOutcome::Inserted ==> final(self).error is None && final(self).recorded && final(self).blob_on_disk && act == CleanupAction::Keep,
            outcome == RecordOutcome::Duplicate ==> final(self).error == Some(
                UploadError::AlreadyExists,
            ) && !final(self).recorded && final(self).blob_on_disk && act
                == CleanupAction::Keep,
            outcome == RecordOutcome::Failed ==> final(self).error == Some(
                UploadError::DbFailed,
            ) && !final(self).recorded && !final(self).blob_on_disk && act
                == CleanupAction::RemoveBlob,
    {
        self.stage = UploadStage::Finished;
        match outcome {
            RecordOutcome::Inserted => {
                self.recorded = true;
                CleanupAction::Keep
            },
            RecordOutcome::Duplicate => {
                self.error = Some(UploadError::AlreadyExists);
                CleanupAction::Keep
            },
            RecordOutcome::Failed => {
                self.error = Some(UploadError::DbFailed);
                self.blob_on_disk = false;
                CleanupAction::RemoveBlob
            },
        }
    }
}

/// Any failed upload other than the benign duplicate conflict leaves
/// nothing behind: no metadata record and no blob file.
pub proof fn lemma_rollback_on_failure(s: UploadSession)
    requires
        session_inv(s),
        s.stage == UploadStage::Finished,
        s.error matches Some(e) && e != UploadError::AlreadyExists,
    ensures
        !s.recorded,
        !s.blob_on_disk,
{
}

/// A hook rejection leaves no metadata record and removes the blob file
/// written during the request.
pub proof fn lemma_hook_rejection_clean(s: UploadSession)
    requires
        session_inv(s),
        s.error == Some(UploadError::HookRejected),
    ensures
        !s.recorded,
        !s.blob_on_disk,
{
}

/// The duplicate conflict creates no second record and leaves the
/// existing, content-identical blob bytes in place.
pub proof fn lemma_duplicate_keeps_blob(s: UploadSession)
    requires
        session_inv(s),
        s.error == Some(UploadError::AlreadyExists),
    ensures
        !s.recorded,
        s.blob_on_disk,
{
}

/// Nothing is ever recorded unless the configured hook accepted.
pub proof fn lemma_record_implies_hook(s: UploadSession)
    requires
        session_inv(s),
        s.recorded,
        s.hook_configured,
    ensures
        s.hook_accepted,
{
}

/// An upload whose declared size exceeds the configured maximum always
/// fails the policy check, which precedes storage: no byte of such an
/// upload is ever persisted.
pub proof fn lemma_oversized_rejected(
    tags: Seq<Seq<Seq<char>>>,
    pubkey: Seq<u8>,
    content_type: Option<Seq<char>>,
    s: Settings,
)
    requires
        tag_value(tags, "size"@) matches Some(v) && parse_dec(v) matches Some(z) && z
            > s.max_upload_bytes as u64,
    ensures
        upload_policy_spec(tags, pubkey, content_type, s) is Err,
{
}

/// Why a deletion was refused.
#[derive(Clone, Copy, Debug, PartialEq, Eq, Structural)]
pub enum DeleteError {
    /// The requested hash is not 64 hex digits.
    InvalidHash,
    /// No record for this hash owned by the requester: unknown hashes and
    /// other users' files are deliberately indistinguishable.
    NotFound,
    /// The metadata store failed.
    DbFailed,
}

/// Parse a requested content hash: exactly the hex spelling of a 32-byte
/// digest.
pub fn parse_hash(s: &str) -> (r: Result<Vec<u8>, DeleteError>)
    ensures
        r matches Ok(v) ==> hex_decoded(s@) == Some(v@) && v@.len() == 32,
        r matches Err(e) ==> e == DeleteError::InvalidHash && !(hex_decoded(s@) matches Some(v)
            && v.len() == 32),
{
    match hex_decode(s) {
        Some(v) => if v.len() == 32 {
            Ok(v)
        } else {
            Err(DeleteError::InvalidHash)
        },
        None => Err(DeleteError::InvalidHash),
    }
}

/// The ownership gate of the deletion flow: deletion proceeds only when a
/// record for the hash owned by the authenticated issuer exists; its
/// absence — unknown hash or someone else's file — is one conflated
/// not-found condition.
pub fn delete_lookup_decision(found_for_owner: bool) -> (r: Result<(), DeleteError>)
    ensures
        r is Ok <==> found_for_owner,
        r matches Err(e) ==> e == DeleteError::NotFound,
{
    if found_for_owner {
        Ok(())
    } else {
        Err(DeleteError::NotFound)
    }
}

/// After the record is removed, the blob file itself is removed exactly
/// when no remaining metadata record references the hash.
pub fn blob_removal_decision(remaining_records: u64) -> (r: bool)
    ensures
        r <==> remaining_records == 0,
{
    remaining_records == 0
}

/// Build the descriptor list for a user's uploads.
pub fn list_descriptors(files: &Vec<FileUpload>, public_url: &str) -> (r: Vec<BlobDescriptor>)
    ensures
        r@.len() == files@.len(),
        forall|i: int| 0 <= i < r@.len() ==> {
            &&& (#[trigger] r@[i]).url@ == url_of(public_url@, files@[i].id@)
            &&& r@[i].sha256@ == hex_of(files@[i].id@)
            &&& r@[i].size == files@[i].size
            &&& r@[i].mime_type == files@[i].mime_type
            &&& r@[i].uploader_name == files@[i].name
        },
{
    let mut r: Vec<BlobDescriptor> = Vec::new();
    let mut i: usize = 0;
    while i < files.len()
        invariant
            i <= files@.len(),
            r@.len() == i,
            forall|j: int| 0 <= j < i ==> {
                &&& (#[trigger] r@[j]).url@ == url_of(public_url@, files@[j].id@)
                &&& r@[j].sha256@ == hex_of(files@[j].id@)
                &&& r@[j].size == files@[j].size
                &&& r@[j].mime_type == files@[j].mime_type
                &&& r@[j].uploader_name == files@[j].name
            },
        decreases files@.len() - i,
    {
        r.push(BlobDescriptor::from_upload(&files[i], public_url));
        i = i + 1;
    }
    r
}

} // verus!

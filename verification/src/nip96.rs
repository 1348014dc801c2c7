//! Response shapes and discovery document of the form-based upload
//! protocol.

use vstd::prelude::*;
use crate::hexcodec::hex_encode;
use crate::hexcodec::hex_of;
use crate::pipeline::FileUpload;
use crate::pipeline::url_of;
use crate::settings::Settings;

verus! {

/// Media transformations the server offers, by media kind.
pub struct Nip96MediaTransformations {
    pub image: Option<Vec<String>>,
    pub video: Option<Vec<String>>,
}

/// One service plan in the discovery document.
pub struct Nip96Plan {
    pub name: String,
    pub is_nip98_required: bool,
    /// Landing page for this plan.
    pub url: Option<String>,
    pub max_byte_size: usize,
    /// Retention range in days; zero means no expiration.
    pub file_expiration: Option<(usize, usize)>,
    pub media_transformations: Option<Nip96MediaTransformations>,
}

/// The unauthenticated discovery document.
pub struct Nip96InfoDoc {
    /// File upload and deletion are served from this url.
    pub api_url: String,
    pub download_url: Option<String>,
    pub delegated_to_url: Option<String>,
    pub supported_nips: Option<Vec<usize>>,
    pub tos_url: Option<String>,
    pub content_types: Option<Vec<String>>,
    /// Plans by plan key.
    pub plans: Vec<(String, Nip96Plan)>,
}

/// The metadata tags of a successful upload answer.
pub struct Nip94Event {
    pub tags: Vec<Vec<String>>,
}

/// The envelope of every answer of this protocol.
pub struct Nip96UploadResult {
    pub status: String,
    pub message: Option<String>,
    pub processing_url: Option<String>,
    pub nip94_event: Option<Nip94Event>,
}

/// An answer is either an error envelope or a success envelope.
pub enum Nip96Response {
    GenericError(Nip96UploadResult),
    UploadResult(Nip96UploadResult),
}

impl Nip96Response {
    pub fn error(msg: &str) -> (r: Self)
        ensures
            r matches Nip96Response::GenericError(u) && (u.status@ == "error"@ && (
            u.message matches Some(m) && m@ == msg@) && u.processing_url is None
                && u.nip94_event is None),
    {
        Nip96Response::GenericError(
            Nip96UploadResult {
                status: String::from_str("error"),
                message: Some(msg.to_owned()),
                processing_url: None,
                nip94_event: None,
            },
        )
    }

    pub fn success(msg: &str) -> (r: Self)
        ensures
            r matches Nip96Response::UploadResult(u) && (u.status@ == "success"@ && (
            u.message matches Some(m) && m@ == msg@) && u.processing_url is None
                && u.nip94_event is None),
    {
        Nip96Response::UploadResult(
            Nip96UploadResult {
                status: String::from_str("success"),
                message: Some(msg.to_owned()),
                processing_url: None,
                nip94_event: None,
            },
        )
    }
}

/// The success envelope for a stored upload: status `success` and the
/// three metadata tags `url`, `x` (the hex digest) and `m` (the mime
/// type).
pub fn upload_success_result(upload: &FileUpload, public_url: &str) -> (r: Nip96UploadResult)
    ensures
        r.status@ == "success"@,
        r.message is None,
        r.processing_url is None,
        r.nip94_event matches Some(ev) && {
            let dv = ev.tags.deep_view();
            &&& dv.len() == 3
            &&& dv[0].len() == 2 && dv[0][0] == "url"@ && dv[0][1] == url_of(
                public_url@,
                upload.id@,
            )
            &&& dv[1].len() == 2 && dv[1][0] == "x"@ && dv[1][1] == hex_of(upload.id@)
            &&& dv[2].len() == 2 && dv[2][0] == "m"@ && dv[2][1] == upload.mime_type@
        },
{
    let hexid = hex_encode(upload.id.as_slice());
    let mut url = public_url.to_owned();
    url.append("/");
    url.append(hexid.as_str());
    proof {
        reveal_strlit("/");
        assert("/"@ =~= seq!['/']);
        assert(url@ =~= url_of(public_url@, upload.id@));
    }
    let mut t0: Vec<String> = Vec::new();
    t0.push(String::from_str("url"));
    t0.push(url);
    let mut t1: Vec<String> = Vec::new();
    t1.push(String::from_str("x"));
    t1.push(hexid);
    let mut t2: Vec<String> = Vec::new();
    t2.push(String::from_str("m"));
    t2.push(upload.mime_type.clone());
    let mut tags: Vec<Vec<String>> = Vec::new();
    tags.push(t0);
    tags.push(t1);
    tags.push(t2);
    Nip96UploadResult {
        status: String::from_str("success"),
        message: None,
        processing_url: None,
        nip94_event: Some(Nip94Event { tags }),
    }
}

/// The bookkeeping record for a form-based upload: the caption becomes
/// the display name (empty when absent) and the declared media type falls
/// back to the octet-stream default.
pub fn build_upload_record(
    sha256: Vec<u8>,
    size: u64,
    caption: Option<String>,
    media_type: Option<String>,
    created: u64,
) -> (r: FileUpload)
    ensures
        r.id == sha256,
        r.size == size,
        r.created == created,
        caption matches Some(c) ==> r.name == c,
        caption is None ==> r.name@ == Seq::<char>::empty(),
        media_type matches Some(m) ==> r.mime_type == m,
        media_type is None ==> r.mime_type@ == "application/octet-stream"@,
{
    FileUpload {
        id: sha256,
        name: match caption {
            Some(c) => c,
            None => String::new(),
        },
        size,
        mime_type: match media_type {
            Some(m) => m,
            None => String::from_str("application/octet-stream"),
        },
        created,
    }
}

/// The static discovery document: the api path, the download base, the
/// accepted content types, and one free plan that requires signed
/// requests and carries the configured size limit.
pub fn get_info_doc(settings: &Settings) -> (r: Nip96InfoDoc)
    ensures
        r.api_url@ == "/n96"@,
        r.download_url matches Some(d) && d@ == "/"@,
        r.delegated_to_url is None,
        r.supported_nips is None,
        r.tos_url is None,
        r.content_types matches Some(ct) && ct.deep_view().len() == 3 && ct.deep_view()[0]
            == "image/*"@ && ct.deep_view()[1] == "video/*"@ && ct.deep_view()[2]
            == "audio/*"@,
        r.plans@.len() == 1 && r.plans@[0].0@ == "free"@ && r.plans@[0].1.is_nip98_required
            && r.plans@[0].1.max_byte_size == settings.max_upload_bytes,
{
    let mut content_types: Vec<String> = Vec::new();
    content_types.push(String::from_str("image/*"));
    content_types.push(String::from_str("video/*"));
    content_types.push(String::from_str("audio/*"));
    let plan = Nip96Plan {
        name: String::new(),
        is_nip98_required: true,
        url: None,
        max_byte_size: settings.max_upload_bytes,
        file_expiration: None,
        media_transformations: None,
    };
    let mut plans: Vec<(String, Nip96Plan)> = Vec::new();
    plans.push((String::from_str("free"), plan));
    Nip96InfoDoc {
        api_url: String::from_str("/n96"),
        download_url: Some(String::from_str("/")),
        delegated_to_url: None,
        supported_nips: None,
        tos_url: None,
        content_types: Some(content_types),
        plans,
    }
}

} // verus!
